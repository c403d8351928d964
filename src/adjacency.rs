//! Hash-map storage for the routing graph, kept in `hashbrown` maps.
//!
//! The maps are opaque to the verifier; what each operation does to their
//! contents is stated over `connection_contents` and `adjacency_contents`.
use vstd::prelude::*;

use crate::{EdgeWeight, ElementID};

verus! {

/// Weighted connections from one node to its neighbours.
#[verifier::external_body]
pub struct Connection {
    map: hashbrown::HashMap<ElementID, EdgeWeight>,
}

/// What a `Connection` holds: neighbour to weight.
pub uninterp spec fn connection_contents(c: Connection) -> Map<ElementID, EdgeWeight>;

/// The contents of an empty connection.
pub open spec fn no_neighbours() -> Map<ElementID, EdgeWeight> {
    Map::empty()
}

/// The contents of an empty adjacency.
pub open spec fn no_origins() -> Map<ElementID, Map<ElementID, EdgeWeight>> {
    Map::empty()
}

/// Connections of every node that has at least one.
#[verifier::external_body]
pub struct Adjacency {
    map: hashbrown::HashMap<ElementID, Connection>,
}

/// What an `Adjacency` holds: origin to the contents of its connection.
pub uninterp spec fn adjacency_contents(a: Adjacency) -> Map<ElementID, Map<ElementID, EdgeWeight>>;

impl Connection {
    /// Relies on `hashbrown::HashMap::new`: the map starts empty.
    #[verifier::external_body]
    pub(crate) fn new() -> (r: Connection)
        ensures
            connection_contents(r) == no_neighbours(),
    {
        Connection { map: hashbrown::HashMap::new() }
    }

    /// Relies on `hashbrown::HashMap::insert`: the key maps to the new
    /// value, replacing any earlier one; other keys are kept.
    #[verifier::external_body]
    pub(crate) fn insert(&mut self, to: ElementID, weight: EdgeWeight)
        ensures
            connection_contents(*final(self)) == connection_contents(*old(self)).insert(to, weight),
    {
        self.map.insert(to, weight);
    }

    /// Relies on `hashbrown::HashMap::get`: the value stored under the key,
    /// if any.
    #[verifier::external_body]
    pub(crate) fn get(&self, to: ElementID) -> (r: Option<EdgeWeight>)
        ensures
            r == (if connection_contents(*self).contains_key(to) {
                Some(connection_contents(*self)[to])
            } else {
                None
            }),
    {
        self.map.get(&to).copied()
    }

    /// Relies on `hashbrown::HashMap::iter`: each entry once, in no set
    /// order.
    #[verifier::external_body]
    pub(crate) fn pairs(&self) -> (r: Vec<(ElementID, EdgeWeight)>)
        ensures
            forall|i: int|
                0 <= i < r@.len() ==> #[trigger] connection_contents(*self).contains_key(r@[i].0)
                    && connection_contents(*self)[r@[i].0] == r@[i].1,
            forall|k: ElementID|
                #[trigger] connection_contents(*self).contains_key(k) ==> exists|i: int|
                    0 <= i < r@.len() && #[trigger] r@[i].0 == k,
            forall|i: int, j: int| 0 <= i < j < r@.len() ==> r@[i].0 != r@[j].0,
    {
        self.map.iter().map(|(k, v)| (*k, *v)).collect()
    }
}

impl Adjacency {
    /// Relies on `hashbrown::HashMap::new`: the map starts empty.
    #[verifier::external_body]
    pub(crate) fn new() -> (r: Adjacency)
        ensures
            adjacency_contents(r) == no_origins(),
    {
        Adjacency { map: hashbrown::HashMap::new() }
    }

    /// Relies on `hashbrown::HashMap::len`: the number of keys stored.
    #[verifier::external_body]
    pub(crate) fn len(&self) -> (r: usize)
        ensures
            r == adjacency_contents(*self).len(),
    {
        self.map.len()
    }

    /// Relies on `hashbrown::HashMap::get`: the connection stored under the
    /// node, if any.
    #[verifier::external_body]
    pub(crate) fn get(&self, from: ElementID) -> (r: Option<&Connection>)
        ensures
            r is Some <==> adjacency_contents(*self).contains_key(from),
            r is Some ==> connection_contents(*r.unwrap()) == adjacency_contents(*self)[from],
    {
        self.map.get(&from)
    }

    /// Relies on `hashbrown::HashMap::insert`: the node maps to the given
    /// connection, replacing any earlier one; other nodes are kept.
    #[verifier::external_body]
    pub(crate) fn insert(&mut self, from: ElementID, c: Connection)
        ensures
            adjacency_contents(*final(self)) == adjacency_contents(*old(self)).insert(
                from,
                connection_contents(c),
            ),
    {
        self.map.insert(from, c);
    }

    /// Relies on `hashbrown::HashMap::remove`: takes out the connection
    /// stored under the node, if any; other nodes are kept.
    #[verifier::external_body]
    pub(crate) fn remove(&mut self, from: ElementID) -> (r: Option<Connection>)
        ensures
            adjacency_contents(*final(self)) == adjacency_contents(*old(self)).remove(from),
            r is Some <==> adjacency_contents(*old(self)).contains_key(from),
            r is Some ==> connection_contents(r.unwrap()) == adjacency_contents(*old(self))[from],
    {
        self.map.remove(&from)
    }
}

} // verus!
