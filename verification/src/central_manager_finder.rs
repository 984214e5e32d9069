//! Choosing the peripheral that the host asks for, by (part of) its name or
//! by its id, among those the adapter knows.

use vstd::prelude::*;
use vstd::string::*;
use crate::central_manager_state::KeyedStore;
use crate::text::{concat, contains_run, debug_quoted, debug_text, owned, str_contains, str_eq};

verus! {

/// How listing the adapter's peripherals ended.
pub enum PeripheralListing<T> {
    /// The peripherals, in the adapter's order.
    Listed(Vec<T>),
    /// Listing failed; the adapter's error, as text.
    Failed(String),
    /// Listing did not finish in time.
    TimedOut,
}

/// The error text for a listing that did not succeed.
pub open spec fn listing_error<T>(listing: PeripheralListing<T>) -> Seq<char> {
    match listing {
        PeripheralListing::Failed(e) => "Failed to get peripherals: "@ + e@,
        _ => "Timeout while fetching peripherals"@,
    }
}

/// The position of the first name (among those known) that contains
/// `name`, from position `i` on.
pub open spec fn first_name_match(names: Seq<Option<String>>, name: Seq<char>, i: nat) -> Option<nat>
    decreases names.len() - i,
{
    if i >= names.len() {
        None
    } else if names[i as int] matches Some(n) && contains_run(n@, name) {
        Some(i)
    } else {
        first_name_match(names, name, i + 1)
    }
}

/// The position of the first id equal to `id`, from position `i` on.
pub open spec fn first_id_match(ids: Seq<String>, id: Seq<char>, i: nat) -> Option<nat>
    decreases ids.len() - i,
{
    if i >= ids.len() {
        None
    } else if ids[i as int]@ == id {
        Some(i)
    } else {
        first_id_match(ids, id, i + 1)
    }
}

/// The first peripheral whose advertised name contains `name`, given the
/// advertised names in the adapter's order (`None` where the name or the
/// peripheral's properties are not known).
pub fn position_by_name(names: &Vec<Option<String>>, name: &str) -> (r: Option<usize>)
    ensures
        match (r, first_name_match(names@, name@, 0)) {
            (Some(i), Some(j)) => i == j,
            (None, None) => true,
            _ => false,
        },
{
    let mut i: usize = 0;
    while i < names.len()
        invariant
            i <= names@.len(),
            first_name_match(names@, name@, 0) == first_name_match(names@, name@, i as nat),
        decreases names.len() - i,
    {
        match &names[i] {
            Some(n) => {
                if str_contains(n.as_str(), name) {
                    return Some(i);
                }
            },
            None => {},
        }
        i = i + 1;
    }
    None
}

/// The first peripheral whose id is `id`.
pub fn position_by_id(ids: &Vec<String>, id: &str) -> (r: Option<usize>)
    ensures
        match (r, first_id_match(ids@, id@, 0)) {
            (Some(i), Some(j)) => i == j,
            (None, None) => true,
            _ => false,
        },
{
    let mut i: usize = 0;
    while i < ids.len()
        invariant
            i <= ids@.len(),
            first_id_match(ids@, id@, 0) == first_id_match(ids@, id@, i as nat),
        decreases ids.len() - i,
    {
        if str_eq(ids[i].as_str(), id) {
            return Some(i);
        }
        i = i + 1;
    }
    None
}

fn listing_failure<T>(listing: &PeripheralListing<T>) -> (r: String)
    requires
        !(listing is Listed),
    ensures
        r@ == listing_error(*listing),
{
    match listing {
        PeripheralListing::Failed(e) => concat("Failed to get peripherals: ", e.as_str()),
        _ => owned("Timeout while fetching peripherals"),
    }
}

/// Chooses the peripheral to return for a search by name: the position of
/// the first listed peripheral whose advertised name contains `name`, or the
/// error to report.
pub fn select_peripheral_by_name(listing: &PeripheralListing<Option<String>>, name: &str) -> (r: Result<usize, String>)
    ensures
        match *listing {
            PeripheralListing::Listed(names) => match first_name_match(names@, name@, 0) {
                Some(i) => r == Ok::<usize, String>(i as usize),
                None => r matches Err(e) && e@ == "Peripheral not found"@,
            },
            _ => r matches Err(e) && e@ == listing_error(*listing),
        },
{
    match listing {
        PeripheralListing::Listed(names) => match position_by_name(names, name) {
            Some(i) => Ok(i),
            None => Err(owned("Peripheral not found")),
        },
        _ => Err(listing_failure(listing)),
    }
}

/// Chooses the peripheral to return for a search by id, among the listed
/// ids (the cache having been consulted first): the position of the first
/// listed peripheral with that id, or the error to report.
pub fn select_peripheral_by_uuid(listing: &PeripheralListing<String>, uuid: &str) -> (r: Result<usize, String>)
    ensures
        match *listing {
            PeripheralListing::Listed(ids) => match first_id_match(ids@, uuid@, 0) {
                Some(i) => r == Ok::<usize, String>(i as usize),
                None => r matches Err(e) && e@ == "Peripheral not found with UUID: "@ + uuid@,
            },
            _ => r matches Err(e) && e@ == listing_error(*listing),
        },
{
    match listing {
        PeripheralListing::Listed(ids) => match position_by_id(ids, uuid) {
            Some(i) => Ok(i),
            None => Err(concat("Peripheral not found with UUID: ", uuid)),
        },
        _ => Err(listing_failure(listing)),
    }
}

/// The peripheral already looked up under `uuid`, if any.
pub fn cached_peripheral<'a, T>(cache: &'a KeyedStore<T>, uuid: &str) -> (r: Option<&'a T>)
    ensures
        match r {
            Some(v) => cache.map().contains_key(uuid@) && cache.map()[uuid@] == *v,
            None => !cache.map().contains_key(uuid@),
        },
{
    cache.get(uuid)
}

/// Remembers the peripheral found under `id`, replacing an earlier one.
pub fn remember_peripheral<T>(cache: &mut KeyedStore<T>, id: String, peripheral: T)
    ensures
        final(cache).map() == old(cache).map().insert(id@, peripheral),
{
    cache.insert(id, peripheral);
}

/// The error that the host receives for a failed search: the message in
/// its debug (quoted) form.
pub fn search_error(message: &str) -> (r: String)
    ensures
        r@ == debug_quoted(message@),
{
    debug_text(message)
}


/// A peripheral whose advertised name is exactly the searched name is found
/// (it, or one listed before it).
pub proof fn lemma_exact_name_is_found(names: Seq<Option<String>>, name: Seq<char>, i: nat)
    requires
        i < names.len(),
        names[i as int] matches Some(n) && n@ == name,
    ensures
        first_name_match(names, name, 0) matches Some(j) && j <= i,
{
    let n = names[i as int]->0;
    assert(n@.subrange(0, 0int + name.len()) =~= name);
    assert(contains_run(n@, name));
    lemma_first_name_match_bounded(names, name, 0, i);
}

proof fn lemma_first_name_match_bounded(names: Seq<Option<String>>, name: Seq<char>, k: nat, i: nat)
    requires
        k <= i < names.len(),
        names[i as int] matches Some(n) && contains_run(n@, name),
    ensures
        first_name_match(names, name, k) matches Some(j) && k <= j <= i,
    decreases i - k,
{
    if k < i {
        if !(names[k as int] matches Some(m) && contains_run(m@, name)) {
            lemma_first_name_match_bounded(names, name, k + 1, i);
        }
    }
}

proof fn lemma_first_id_match_from(ids: Seq<String>, id: Seq<char>, k: nat)
    ensures
        first_id_match(ids, id, k) matches Some(i) ==> {
            &&& k <= i < ids.len()
            &&& ids[i as int]@ == id
            &&& forall|j: int| k <= j < i ==> ids[j]@ != id
        },
        first_id_match(ids, id, k) is None ==> forall|j: int| k <= j < ids.len() ==> ids[j]@ != id,
    decreases ids.len() - k,
{
    if k < ids.len() {
        lemma_first_id_match_from(ids, id, k + 1);
    }
}

/// A search by id finds the first listed peripheral whose id is exactly the
/// searched one, and finds nothing only when no listed id is.
pub proof fn lemma_search_by_id_finds_first_match(ids: Seq<String>, id: Seq<char>)
    ensures
        first_id_match(ids, id, 0) is None <==> (forall|j: int| 0 <= j < ids.len() ==> ids[j]@ != id),
        forall|i: int| 0 <= i < ids.len() && #[trigger] ids[i]@ == id
            && (forall|j: int| 0 <= j < i ==> ids[j]@ != id)
            ==> first_id_match(ids, id, 0) == Some(i as nat),
{
    lemma_first_id_match_from(ids, id, 0);
    assert forall|i: int| 0 <= i < ids.len() && #[trigger] ids[i]@ == id
        && (forall|j: int| 0 <= j < i ==> ids[j]@ != id)
        implies first_id_match(ids, id, 0) == Some(i as nat) by {
        if let Some(m) = first_id_match(ids, id, 0) {
            if (m as int) < i {
                assert(ids[m as int]@ != id);
            } else if (m as int) > i {
                assert(ids[i]@ != id);
            }
        }
    }
}

} // verus!
