//! Tagged way segments: an ordered run of nodes with key/value tags.
use vstd::prelude::*;

use crate::text::{find_key, lookup};
use crate::ElementID;

verus! {

/// A mapped path, road or rail line: its nodes in order and its tags.
pub struct Segment {
    pub nodes: Vec<ElementID>,
    /// Key/value tags; where a key repeats, the first entry counts.
    pub tags: Vec<(String, String)>,
}

impl Segment {
    /// The value tagged under `key`, if any.
    pub open spec fn tag(&self, key: Seq<char>) -> Option<Seq<char>> {
        match lookup(self.tags@, key) {
            Some(v) => Some(v@),
            None => None,
        }
    }

    pub fn new(nodes: Vec<ElementID>, tags: Vec<(String, String)>) -> (r: Segment)
        ensures
            r.nodes == nodes,
            r.tags == tags,
    {
        Segment { nodes, tags }
    }

    /// Value of the tag `key`.
    pub fn get_tag(&self, key: &str) -> (r: Option<&str>)
        ensures
            match r {
                Some(v) => self.tag(key@) == Some(v@),
                None => self.tag(key@) is None,
            },
    {
        match find_key(&self.tags, key) {
            Some(i) => Some(self.tags[i].1.as_str()),
            None => None,
        }
    }
}

} // verus!
