//! Whether a travel mode may use a way, judged from its access tags.
use vstd::prelude::*;

use crate::segment::Segment;
use crate::text::{has_prefix, starts_with};

verus! {

/// An access value that refuses use: one beginning with `no` (`no`, `no_...`)
/// or with `private`.
pub open spec fn denies(value: Seq<char>) -> bool {
    has_prefix(value, "no"@) || has_prefix(value, "private"@)
}

/// The access decision after the first `n` keys: each key present on the way
/// sets it (a denying value refuses, any other grants), a missing key leaves
/// it as it was, and with no key present the way may be used.
pub open spec fn access_after(way: Segment, keys: Seq<String>, n: int) -> bool
    decreases n,
{
    if n <= 0 {
        true
    } else {
        match way.tag(keys[n - 1]@) {
            Some(v) => !denies(v),
            None => access_after(way, keys, n - 1),
        }
    }
}

/// The access decision over all keys: the last key present on the way wins.
pub open spec fn allows(way: Segment, keys: Seq<String>) -> bool {
    access_after(way, keys, keys.len() as int)
}

/// Whether an access value refuses use.
pub fn is_denial(value: &str) -> (r: bool)
    ensures
        r == denies(value@),
{
    starts_with(value, "no") || starts_with(value, "private")
}

/// Whether a mode of transportation is allowed along the given way as
/// indicated by its tags. `access_types` runs from the most general key to
/// the most specific, so later keys override earlier ones.
pub fn allow_travel_mode(tagged: &Segment, access_types: &Vec<String>) -> (r: bool)
    ensures
        r == allows(*tagged, access_types@),
{
    let mut allow = true;
    let mut i: usize = 0;
    while i < access_types.len()
        invariant
            i <= access_types@.len(),
            allow == access_after(*tagged, access_types@, i as int),
        decreases access_types@.len() - i,
    {
        match tagged.get_tag(access_types[i].as_str()) {
            Some(v) => {
                allow = !is_denial(v);
            },
            None => {},
        }
        i = i + 1;
    }
    allow
}

} // verus!
