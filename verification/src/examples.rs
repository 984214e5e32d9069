//! The two small example calls that the host binding offers for trying the
//! bridge out.

use vstd::prelude::*;
use vstd::string::*;
use crate::text::owned;

verus! {

/// The sum of two integers (which must not overflow).
pub fn add(a: i64, b: i64) -> (r: i64)
    requires
        i64::MIN <= a + b <= i64::MAX,
    ensures
        r == a + b,
{
    a + b
}

/// A fixed nested map: `outer_key1` maps to `inner_key1 => inner_value1`
/// and `inner_key2 => inner_value2`.
pub fn get_map() -> (r: Vec<(String, Vec<(String, String)>)>)
    ensures
        r@.len() == 1,
        r@[0].0@ == "outer_key1"@,
        r@[0].1@.len() == 2,
        r@[0].1@[0].0@ == "inner_key1"@,
        r@[0].1@[0].1@ == "inner_value1"@,
        r@[0].1@[1].0@ == "inner_key2"@,
        r@[0].1@[1].1@ == "inner_value2"@,
{
    let mut inner_map: Vec<(String, String)> = Vec::new();
    inner_map.push((owned("inner_key1"), owned("inner_value1")));
    inner_map.push((owned("inner_key2"), owned("inner_value2")));
    let mut map: Vec<(String, Vec<(String, String)>)> = Vec::new();
    map.push((owned("outer_key1"), inner_map));
    map
}

} // verus!
