//! The routing graph of one travel mode: weighted, directed connections
//! between nodes, built one way segment at a time.
use vstd::prelude::*;
use vstd::string::StringExecFns;

use crate::adjacency::{adjacency_contents, connection_contents, Adjacency, Connection};
use crate::restriction::{allow_travel_mode, allows};
use crate::segment::Segment;
use crate::text::{find_key, lookup, str_eq};
use crate::{EdgeWeight, ElementID, RouteConfig, CANNOT_USE};

verus! {

/// Weighted connections of a graph: origin to neighbour to weight.
pub type Graph = Map<ElementID, Map<ElementID, EdgeWeight>>;

/// In which direction a way may be travelled.
#[derive(PartialEq, Eq, Structural, Clone, Copy, Debug)]
pub enum Direction {
    /// Only from each node to the next one
    Forward,
    /// Only from each node to the one before it
    Reverse,
    /// Both ways
    Both,
}

// ----- graph model -----

/// Whether `g` holds a connection from `from` to `to`.
pub open spec fn has_edge(g: Graph, from: ElementID, to: ElementID) -> bool {
    g.contains_key(from) && g[from].contains_key(to)
}

/// Every stored connection has a positive weight, every stored node has at
/// least one connection, and the graph is finite.
pub open spec fn graph_wf(g: Graph) -> bool {
    &&& g.dom().finite()
    &&& forall|a: ElementID| #[trigger] g.contains_key(a) ==> exists|b: ElementID| g[a].contains_key(b)
    &&& forall|a: ElementID, b: ElementID| #[trigger] has_edge(g, a, b) ==> g[a][b] > CANNOT_USE
}

/// `g` with the connection `from` to `to` set to `w`.
pub open spec fn with_edge(g: Graph, from: ElementID, to: ElementID, w: EdgeWeight) -> Graph {
    if g.contains_key(from) {
        g.insert(from, g[from].insert(to, w))
    } else {
        g.insert(from, Map::empty().insert(to, w))
    }
}

/// Whether the `j`-th pair of consecutive nodes adds the connection `a` to
/// `b` when travelled in direction `dir`.
pub open spec fn pair_adds(nodes: Seq<ElementID>, dir: Direction, j: int, a: ElementID, b: ElementID) -> bool {
    ||| (dir != Direction::Reverse && a == nodes[j - 1] && b == nodes[j])
    ||| (dir != Direction::Forward && a == nodes[j] && b == nodes[j - 1])
}

/// Whether one of the pairs of consecutive nodes before index `k` adds the
/// connection `a` to `b`.
pub open spec fn added_upto(nodes: Seq<ElementID>, dir: Direction, k: int, a: ElementID, b: ElementID) -> bool {
    exists|j: int| 1 <= j < k && j < nodes.len() && #[trigger] pair_adds(nodes, dir, j, a, b)
}

/// Whether the way's nodes add the connection `a` to `b`.
pub open spec fn edge_added(nodes: Seq<ElementID>, dir: Direction, a: ElementID, b: ElementID) -> bool {
    added_upto(nodes, dir, nodes.len() as int, a, b)
}

/// `new` is `old` with the connections of the pairs before index `k` set to
/// `w`, and nothing else changed.
pub open spec fn ingested_upto(old: Graph, new: Graph, nodes: Seq<ElementID>, dir: Direction, w: EdgeWeight, k: int) -> bool {
    &&& forall|a: ElementID, b: ElementID| #[trigger] has_edge(new, a, b) <==> (has_edge(old, a, b) || added_upto(nodes, dir, k, a, b))
    &&& forall|a: ElementID, b: ElementID| #[trigger] has_edge(new, a, b) ==> new[a][b] == (if added_upto(nodes, dir, k, a, b) { w } else { old[a][b] })
}

/// `new` is `old` with every connection along the way set to `w`.
pub open spec fn ingested(old: Graph, new: Graph, nodes: Seq<ElementID>, dir: Direction, w: EdgeWeight) -> bool {
    ingested_upto(old, new, nodes, dir, w, nodes.len() as int)
}

// ----- rules on tags -----

pub open spec fn is_forward_value(v: Seq<char>) -> bool {
    v == "yes"@ || v == "true"@ || v == "1"@
}

pub open spec fn is_reverse_value(v: Seq<char>) -> bool {
    v == "-1"@ || v == "reverse"@
}

/// The `oneway` tag as written, empty where there is none.
pub open spec fn written_one_way(way: Segment) -> Seq<char> {
    match way.tag("oneway"@) {
        Some(v) => v,
        None => ""@,
    }
}

/// Roundabouts, circular junctions and motorways are one-way by
/// construction.
pub open spec fn one_way_by_construction(way: Segment) -> bool {
    ||| way.tag("junction"@) == Some("roundabout"@)
    ||| way.tag("junction"@) == Some("circular"@)
    ||| way.tag("highway"@) == Some("motorway"@)
}

/// The `oneway` value that counts: the written one, or `yes` where none is
/// written and the way is one-way by construction.
pub open spec fn effective_one_way(way: Segment) -> Seq<char> {
    if written_one_way(way) == ""@ && one_way_by_construction(way) {
        "yes"@
    } else {
        written_one_way(way)
    }
}

/// Whether one-way rules are lifted for the mode: always on foot, and where
/// a one-way way carries `oneway:<mode>=no`.
pub open spec fn one_way_lifted(mode: Seq<char>, way: Segment) -> bool {
    ||| mode == "foot"@
    ||| ((is_forward_value(effective_one_way(way)) || is_reverse_value(effective_one_way(way)))
        && way.tag("oneway:"@ + mode) == Some("no"@))
}

/// In which direction the mode may travel the way.
pub open spec fn direction(mode: Seq<char>, way: Segment) -> Direction {
    if one_way_lifted(mode, way) {
        Direction::Both
    } else if is_reverse_value(effective_one_way(way)) {
        Direction::Reverse
    } else if is_forward_value(effective_one_way(way)) {
        Direction::Forward
    } else {
        Direction::Both
    }
}

/// The configured weight of a road or rail type; `CANNOT_USE` where there
/// is no type or no weight for it.
pub open spec fn class_weight(config: RouteConfig, class: Option<Seq<char>>) -> EdgeWeight {
    match class {
        Some(t) => match lookup(config.weights@, t) {
            Some(w) => w,
            None => CANNOT_USE,
        },
        None => CANNOT_USE,
    }
}

/// The weight of the way: that of its road type, or, where that gives no
/// usable weight, that of its rail type.
pub open spec fn resolved_weight(config: RouteConfig, way: Segment) -> EdgeWeight {
    if class_weight(config, way.tag("highway"@)) > CANNOT_USE {
        class_weight(config, way.tag("highway"@))
    } else {
        class_weight(config, way.tag("railway"@))
    }
}

/// Whether the way is used at all: it has a usable weight and its access
/// tags allow the mode.
pub open spec fn accepts(config: RouteConfig, way: Segment) -> bool {
    resolved_weight(config, way) > CANNOT_USE && allows(way, config.can_use@)
}

/// What adding a way does to a graph: where the way is accepted, every
/// connection along it in its direction is set to its weight; otherwise
/// nothing changes.
pub open spec fn ingest_outcome(old: Graph, new: Graph, mode: Seq<char>, config: RouteConfig, way: Segment) -> bool {
    if accepts(config, way) {
        ingested(old, new, way.nodes@, direction(mode, way), resolved_weight(config, way))
    } else {
        new == old
    }
}

/// `p` lists each connection of `node` in `g` once, as (weight, neighbour).
pub open spec fn lists_connections(g: Graph, node: ElementID, p: Seq<(EdgeWeight, ElementID)>) -> bool {
    &&& forall|i: int| 0 <= i < p.len() ==> has_edge(g, node, #[trigger] p[i].1) && g[node][p[i].1] == p[i].0
    &&& forall|b: ElementID| #[trigger] has_edge(g, node, b) ==> exists|i: int| 0 <= i < p.len() && p[i].1 == b
    &&& forall|i: int, j: int| 0 <= i < j < p.len() ==> p[i].1 != p[j].1
}

/// The step of adding the `j`-th pair of consecutive nodes.
pub open spec fn with_pair(g: Graph, nodes: Seq<ElementID>, dir: Direction, w: EdgeWeight, j: int) -> Graph {
    let g1 = if dir != Direction::Reverse { with_edge(g, nodes[j - 1], nodes[j], w) } else { g };
    if dir != Direction::Forward { with_edge(g1, nodes[j], nodes[j - 1], w) } else { g1 }
}

proof fn lemma_with_edge(g: Graph, from: ElementID, to: ElementID, w: EdgeWeight)
    requires
        graph_wf(g),
        w > CANNOT_USE,
    ensures
        graph_wf(with_edge(g, from, to, w)),
        forall|a: ElementID, b: ElementID| #[trigger] has_edge(with_edge(g, from, to, w), a, b) <==> (has_edge(g, a, b) || (a == from && b == to)),
        forall|a: ElementID, b: ElementID| #[trigger] has_edge(with_edge(g, from, to, w), a, b) ==> with_edge(g, from, to, w)[a][b] == (if a == from && b == to { w } else { g[a][b] }),
{
    let g2 = with_edge(g, from, to, w);
    assert(g2[from].contains_key(to));
    assert forall|a: ElementID| #[trigger] g2.contains_key(a) implies exists|b: ElementID| g2[a].contains_key(b) by {
        if a == from {
            assert(g2[a].contains_key(to));
        } else {
            assert(g.contains_key(a));
            let b = choose|b: ElementID| g[a].contains_key(b);
            assert(g2[a].contains_key(b));
        }
    }
    assert forall|a: ElementID, b: ElementID| #[trigger] has_edge(g2, a, b) implies g2[a][b] > CANNOT_USE by {
        if !(a == from && b == to) {
            assert(has_edge(g, a, b));
        }
    }
}

proof fn lemma_with_pair(old: Graph, g: Graph, nodes: Seq<ElementID>, dir: Direction, w: EdgeWeight, j: int)
    requires
        graph_wf(g),
        w > CANNOT_USE,
        1 <= j < nodes.len(),
        ingested_upto(old, g, nodes, dir, w, j),
    ensures
        graph_wf(with_pair(g, nodes, dir, w, j)),
        ingested_upto(old, with_pair(g, nodes, dir, w, j), nodes, dir, w, j + 1),
{
    let g1 = if dir != Direction::Reverse { with_edge(g, nodes[j - 1], nodes[j], w) } else { g };
    if dir != Direction::Reverse {
        lemma_with_edge(g, nodes[j - 1], nodes[j], w);
    }
    let g2 = with_pair(g, nodes, dir, w, j);
    if dir != Direction::Forward {
        lemma_with_edge(g1, nodes[j], nodes[j - 1], w);
    }
    assert forall|a: ElementID, b: ElementID| added_upto(nodes, dir, j + 1, a, b) <==> (added_upto(nodes, dir, j, a, b) || pair_adds(nodes, dir, j, a, b)) by {
        if added_upto(nodes, dir, j + 1, a, b) && !pair_adds(nodes, dir, j, a, b) {
            let i = choose|i: int| 1 <= i < j + 1 && i < nodes.len() && #[trigger] pair_adds(nodes, dir, i, a, b);
            assert(i < j);
        }
    }
    assert forall|a: ElementID, b: ElementID| #[trigger] has_edge(g2, a, b) <==> (has_edge(old, a, b) || added_upto(nodes, dir, j + 1, a, b)) by {
        assert(has_edge(g2, a, b) <==> (has_edge(g, a, b) || pair_adds(nodes, dir, j, a, b)));
    }
    assert forall|a: ElementID, b: ElementID| #[trigger] has_edge(g2, a, b) implies g2[a][b] == (if added_upto(nodes, dir, j + 1, a, b) { w } else { old[a][b] }) by {
        if !pair_adds(nodes, dir, j, a, b) {
            assert(has_edge(g, a, b));
            assert(g2[a][b] == g[a][b]);
        }
    }
}

/// Whether `b` comes right after `a` somewhere along `nodes`.
pub open spec fn follows(nodes: Seq<ElementID>, a: ElementID, b: ElementID) -> bool {
    exists|j: int| 1 <= j < nodes.len() && #[trigger] nodes[j - 1] == a && nodes[j] == b
}

proof fn lemma_added_forward(nodes: Seq<ElementID>, a: ElementID, b: ElementID)
    ensures
        edge_added(nodes, Direction::Forward, a, b) <==> follows(nodes, a, b),
        edge_added(nodes, Direction::Reverse, a, b) <==> follows(nodes, b, a),
        edge_added(nodes, Direction::Both, a, b) <==> (follows(nodes, a, b) || follows(nodes, b, a)),
{
    if follows(nodes, a, b) {
        let j = choose|j: int| 1 <= j < nodes.len() && #[trigger] nodes[j - 1] == a && nodes[j] == b;
        assert(pair_adds(nodes, Direction::Forward, j, a, b));
        assert(pair_adds(nodes, Direction::Both, j, a, b));
    }
    if follows(nodes, b, a) {
        let j = choose|j: int| 1 <= j < nodes.len() && #[trigger] nodes[j - 1] == b && nodes[j] == a;
        assert(pair_adds(nodes, Direction::Reverse, j, a, b));
        assert(pair_adds(nodes, Direction::Both, j, a, b));
    }
    if edge_added(nodes, Direction::Both, a, b) {
        let j = choose|j: int| 1 <= j < nodes.len() && #[trigger] pair_adds(nodes, Direction::Both, j, a, b);
        assert(nodes[j - 1] == a && nodes[j] == b || nodes[j - 1] == b && nodes[j] == a);
    }
}

proof fn lemma_one_way_values()
    ensures
        is_forward_value("yes"@),
        !is_reverse_value("yes"@),
        "yes"@ != ""@,
        "true"@ != ""@,
        "1"@ != ""@,
        "-1"@ != ""@,
        "reverse"@ != ""@,
        forall|v: Seq<char>| is_forward_value(v) ==> !is_reverse_value(v),
{
    reveal_strlit("yes");
    reveal_strlit("true");
    reveal_strlit("1");
    reveal_strlit("-1");
    reveal_strlit("reverse");
    reveal_strlit("");
    assert("yes"@.len() == 3);
    assert("true"@.len() == 4);
    assert("1"@.len() == 1);
    assert("-1"@.len() == 2);
    assert("reverse"@.len() == 7);
    assert(""@.len() == 0);
}

/// A way tagged one-way forward (`yes`, `true` or `1`), for a mode other
/// than walking and without `oneway:<mode>=no`, gains only the connections
/// from each node to the next, each at the way's resolved weight.
pub proof fn lemma_forward_only(old: Graph, new: Graph, mode: Seq<char>, config: RouteConfig, way: Segment)
    requires
        ingest_outcome(old, new, mode, config, way),
        accepts(config, way),
        way.tag("oneway"@) is Some,
        is_forward_value(way.tag("oneway"@).unwrap()),
        mode != "foot"@,
        way.tag("oneway:"@ + mode) != Some("no"@),
    ensures
        forall|a: ElementID, b: ElementID| #[trigger] has_edge(new, a, b) <==> (has_edge(old, a, b) || follows(way.nodes@, a, b)),
        forall|a: ElementID, b: ElementID| #[trigger] follows(way.nodes@, a, b) ==> has_edge(new, a, b) && new[a][b] == resolved_weight(config, way),
{
    lemma_one_way_values();
    assert(effective_one_way(way) == way.tag("oneway"@).unwrap());
    assert(direction(mode, way) == Direction::Forward);
    assert forall|a: ElementID, b: ElementID| edge_added(way.nodes@, Direction::Forward, a, b) <==> follows(way.nodes@, a, b) by {
        lemma_added_forward(way.nodes@, a, b);
    }
    assert forall|a: ElementID, b: ElementID| #[trigger] follows(way.nodes@, a, b) implies has_edge(new, a, b) && new[a][b] == resolved_weight(config, way) by {
        lemma_added_forward(way.nodes@, a, b);
    }
}

/// A way tagged one-way in reverse (`-1` or `reverse`), for a mode other
/// than walking and without `oneway:<mode>=no`, gains only the connections
/// from each node to the one before it, each at the way's resolved weight.
pub proof fn lemma_reverse_only(old: Graph, new: Graph, mode: Seq<char>, config: RouteConfig, way: Segment)
    requires
        ingest_outcome(old, new, mode, config, way),
        accepts(config, way),
        way.tag("oneway"@) is Some,
        is_reverse_value(way.tag("oneway"@).unwrap()),
        mode != "foot"@,
        way.tag("oneway:"@ + mode) != Some("no"@),
    ensures
        forall|a: ElementID, b: ElementID| #[trigger] has_edge(new, a, b) <==> (has_edge(old, a, b) || follows(way.nodes@, b, a)),
        forall|a: ElementID, b: ElementID| #[trigger] follows(way.nodes@, b, a) ==> has_edge(new, a, b) && new[a][b] == resolved_weight(config, way),
{
    lemma_one_way_values();
    assert(effective_one_way(way) == way.tag("oneway"@).unwrap());
    assert(direction(mode, way) == Direction::Reverse);
    assert forall|a: ElementID, b: ElementID| edge_added(way.nodes@, Direction::Reverse, a, b) <==> follows(way.nodes@, b, a) by {
        lemma_added_forward(way.nodes@, a, b);
    }
    assert forall|a: ElementID, b: ElementID| #[trigger] follows(way.nodes@, b, a) implies has_edge(new, a, b) && new[a][b] == resolved_weight(config, way) by {
        lemma_added_forward(way.nodes@, a, b);
    }
}

/// Walking ignores one-way rules: an accepted way gains the connections in
/// both directions between consecutive nodes, whatever its tags say.
pub proof fn lemma_foot_both_ways(old: Graph, new: Graph, config: RouteConfig, way: Segment)
    requires
        ingest_outcome(old, new, "foot"@, config, way),
        accepts(config, way),
    ensures
        forall|a: ElementID, b: ElementID| #[trigger] has_edge(new, a, b) <==> (has_edge(old, a, b) || follows(way.nodes@, a, b) || follows(way.nodes@, b, a)),
        forall|a: ElementID, b: ElementID| #[trigger] follows(way.nodes@, a, b) ==> has_edge(new, a, b) && has_edge(new, b, a)
            && new[a][b] == resolved_weight(config, way) && new[b][a] == resolved_weight(config, way),
{
    assert(direction("foot"@, way) == Direction::Both);
    assert forall|a: ElementID, b: ElementID| edge_added(way.nodes@, Direction::Both, a, b) <==> (follows(way.nodes@, a, b) || follows(way.nodes@, b, a)) by {
        lemma_added_forward(way.nodes@, a, b);
    }
    assert forall|a: ElementID, b: ElementID| #[trigger] follows(way.nodes@, a, b) implies has_edge(new, a, b) && has_edge(new, b, a)
        && new[a][b] == resolved_weight(config, way) && new[b][a] == resolved_weight(config, way) by {
        lemma_added_forward(way.nodes@, a, b);
        lemma_added_forward(way.nodes@, b, a);
    }
}

/// Adding the same way twice leaves the graph as adding it once did: later
/// writes overwrite, they do not accumulate.
pub proof fn lemma_ingest_twice(g0: Graph, g1: Graph, g2: Graph, mode: Seq<char>, config: RouteConfig, way: Segment)
    requires
        graph_wf(g1),
        graph_wf(g2),
        ingest_outcome(g0, g1, mode, config, way),
        ingest_outcome(g1, g2, mode, config, way),
    ensures
        g2 == g1,
{
    if accepts(config, way) {
        assert forall|a: ElementID| #[trigger] g2.contains_key(a) <==> g1.contains_key(a) by {
            if g2.contains_key(a) {
                let b = choose|b: ElementID| g2[a].contains_key(b);
                assert(has_edge(g2, a, b));
                assert(has_edge(g1, a, b));
            }
            if g1.contains_key(a) {
                let b = choose|b: ElementID| g1[a].contains_key(b);
                assert(has_edge(g1, a, b));
                assert(has_edge(g2, a, b));
            }
        }
        assert forall|a: ElementID| #[trigger] g2.contains_key(a) implies g2[a] =~= g1[a] by {
            assert forall|b: ElementID| g2[a].contains_key(b) <==> g1[a].contains_key(b) by {
                if has_edge(g2, a, b) {
                    assert(has_edge(g1, a, b));
                }
                if has_edge(g1, a, b) {
                    assert(has_edge(g2, a, b));
                }
            }
            assert forall|b: ElementID| g2[a].contains_key(b) implies g2[a][b] == g1[a][b] by {
                assert(has_edge(g2, a, b));
                assert(has_edge(g1, a, b));
            }
        }
        assert(g2 =~= g1);
    }
}

/// The weighted connections of one travel mode's routing graph.
pub struct Edges {
    /// Weights assigned to node-node connections based on `config`
    items: Adjacency,
    travel_mode: String,
    config: RouteConfig,
}

impl Edges {
    /// The connections stored so far.
    pub closed spec fn graph(&self) -> Graph {
        adjacency_contents(self.items)
    }

    /// The travel mode the graph is built for.
    pub closed spec fn mode(&self) -> Seq<char> {
        self.travel_mode@
    }

    /// The preferences the graph is built with.
    pub closed spec fn config(&self) -> RouteConfig {
        self.config
    }

    pub open spec fn wf(&self) -> bool {
        graph_wf(self.graph())
    }

    /// An empty graph for the given travel mode and preferences.
    pub fn new(travel_mode: String, config: RouteConfig) -> (r: Edges)
        ensures
            r.wf(),
            r.graph() == Map::<ElementID, Map<ElementID, EdgeWeight>>::empty(),
            r.mode() == travel_mode@,
            r.config() == config,
    {
        Edges { items: Adjacency::new(), travel_mode, config }
    }

    /// Number of nodes with at least one connection.
    pub fn len(&self) -> (r: usize)
        ensures
            r == self.graph().len(),
    {
        self.items.len()
    }

    /// Weighted nodes connected to the given node.
    fn get(&self, node: ElementID) -> (r: Option<&Connection>)
        ensures
            r is Some <==> self.graph().contains_key(node),
            r is Some ==> connection_contents(*r.unwrap()) == self.graph()[node],
    {
        self.items.get(node)
    }

    /// Whether `from` has at least one connection.
    pub fn has(&self, from: ElementID) -> (r: bool)
        ensures
            r == self.graph().contains_key(from),
    {
        self.get(from).is_some()
    }

    /// Whether `from` node exists and is connected with `to` node.
    pub fn has_connection(&self, from: ElementID, to: ElementID) -> (r: bool)
        ensures
            r == has_edge(self.graph(), from, to),
    {
        match self.get(from) {
            Some(m) => m.get(to).is_some(),
            None => false,
        }
    }

    /// Weight for the connection between `from` node and `to` node;
    /// `CANNOT_USE` where they are not connected.
    pub fn weight(&self, from: ElementID, to: ElementID) -> (r: EdgeWeight)
        ensures
            has_edge(self.graph(), from, to) ==> r == self.graph()[from][to],
            !has_edge(self.graph(), from, to) ==> r == CANNOT_USE,
    {
        match self.get(from) {
            Some(m) => match m.get(to) {
                Some(w) => w,
                None => CANNOT_USE,
            },
            None => CANNOT_USE,
        }
    }

    /// The configured weight of a road or rail type.
    fn class_weight(&self, class: Option<&str>) -> (r: EdgeWeight)
        ensures
            r == class_weight(self.config(), match class {
                Some(t) => Some(t@),
                None => None,
            }),
    {
        match class {
            Some(t) => match find_key(&self.config.weights, t) {
                Some(i) => self.config.weights[i].1,
                None => CANNOT_USE,
            },
            None => CANNOT_USE,
        }
    }

    /// In which direction this graph's mode may travel the way.
    fn way_direction(&self, way: &Segment) -> (r: Direction)
        ensures
            r == direction(self.mode(), *way),
    {
        let mut one_way: &str = match way.get_tag("oneway") {
            Some(v) => v,
            None => "",
        };
        let junction = way.get_tag("junction");
        let by_construction = match junction {
            Some(j) => str_eq(j, "roundabout") || str_eq(j, "circular"),
            None => false,
        } || match way.get_tag("highway") {
            Some(t) => str_eq(t, "motorway"),
            None => false,
        };
        if str_eq(one_way, "") && by_construction {
            // infer one-way for roundabouts and motorways
            one_way = "yes";
        }
        assert(one_way@ == effective_one_way(*way));
        let forward = str_eq(one_way, "yes") || str_eq(one_way, "true") || str_eq(one_way, "1");
        let reverse = str_eq(one_way, "-1") || str_eq(one_way, "reverse");
        let lifted = str_eq(self.travel_mode.as_str(), "foot") || ((forward || reverse) && {
            let key = String::from_str("oneway:").concat(self.travel_mode.as_str());
            match way.get_tag(key.as_str()) {
                Some(v) => str_eq(v, "no"),
                None => false,
            }
        });
        if lifted {
            Direction::Both
        } else if reverse {
            Direction::Reverse
        } else if forward {
            Direction::Forward
        } else {
            Direction::Both
        }
    }

    /// Add the weighted connections along a way, in the directions this
    /// graph's mode may travel it. Returns whether any connection was added.
    pub fn from_way(&mut self, way: &Segment) -> (r: bool)
        requires
            old(self).wf(),
        ensures
            final(self).wf(),
            final(self).mode() == old(self).mode(),
            final(self).config() == old(self).config(),
            ingest_outcome(old(self).graph(), final(self).graph(), old(self).mode(), old(self).config(), *way),
            r == (accepts(old(self).config(), *way) && way.nodes@.len() >= 2),
            resolved_weight(old(self).config(), *way) <= CANNOT_USE ==> !r && final(self).graph() == old(self).graph(),
    {
        let dir = self.way_direction(way);
        let mut weight = self.class_weight(way.get_tag("highway"));
        if weight <= CANNOT_USE {
            weight = self.class_weight(way.get_tag("railway"));
        }
        if weight <= CANNOT_USE || !allow_travel_mode(way, &self.config.can_use) {
            return false;
        }
        let n = way.nodes.len();
        if n < 2 {
            return false;
        }
        let ghost start = self.graph();
        let mut i: usize = 1;
        while i < n
            invariant
                1 <= i <= n,
                n == way.nodes@.len(),
                self.wf(),
                self.mode() == old(self).mode(),
                self.config() == old(self).config(),
                start == old(self).graph(),
                weight == resolved_weight(self.config(), *way),
                weight > CANNOT_USE,
                dir == direction(self.mode(), *way),
                ingested_upto(start, self.graph(), way.nodes@, dir, weight, i as int),
            decreases n - i,
        {
            let n1 = way.nodes[i - 1];
            let n2 = way.nodes[i];
            let ghost before = self.graph();
            proof {
                lemma_with_pair(start, before, way.nodes@, dir, weight, i as int);
            }
            // forward travel is allowed from n1 to n2
            if dir != Direction::Reverse {
                self.add(n1, n2, weight);
            }
            // reverse travel is allowed from n2 to n1
            if dir != Direction::Forward {
                self.add(n2, n1, weight);
            }
            assert(self.graph() == with_pair(before, way.nodes@, dir, weight, i as int));
            i = i + 1;
        }
        true
    }

    /// Check that every given node has at least one connection.
    pub fn ensure(&self, nodes: &Vec<ElementID>)
        requires
            forall|i: int| 0 <= i < nodes@.len() ==> self.graph().contains_key(#[trigger] nodes@[i]),
    {
        let mut i: usize = 0;
        while i < nodes.len()
            invariant
                i <= nodes@.len(),
                forall|k: int| 0 <= k < nodes@.len() ==> self.graph().contains_key(#[trigger] nodes@[k]),
            decreases nodes@.len() - i,
        {
            let present = self.has(nodes[i]);
            assert(present);
            i = i + 1;
        }
    }

    /// The (weight, neighbour) pairs of the given node, in no set order.
    pub fn each(&self, node: ElementID) -> (r: Vec<(EdgeWeight, ElementID)>)
        ensures
            lists_connections(self.graph(), node, r@),
    {
        let mut out: Vec<(EdgeWeight, ElementID)> = Vec::new();
        match self.get(node) {
            Some(connections) => {
                let pairs = connections.pairs();
                let ghost m = connection_contents(*connections);
                let mut i: usize = 0;
                while i < pairs.len()
                    invariant
                        i <= pairs@.len(),
                        m == self.graph()[node],
                        self.graph().contains_key(node),
                        out@.len() == i,
                        forall|k: int| 0 <= k < i ==> out@[k] == (#[trigger] pairs@[k].1, pairs@[k].0),
                        forall|k: int| 0 <= k < pairs@.len() ==> #[trigger] m.contains_key(pairs@[k].0) && m[pairs@[k].0] == pairs@[k].1,
                    decreases pairs@.len() - i,
                {
                    let (k, v) = pairs[i];
                    out.push((v, k));
                    i = i + 1;
                }
                assert forall|b: ElementID| #[trigger] has_edge(self.graph(), node, b) implies exists|k: int| 0 <= k < out@.len() && out@[k].1 == b by {
                    assert(m.contains_key(b));
                    let k = choose|k: int| 0 <= k < pairs@.len() && #[trigger] pairs@[k].0 == b;
                    assert(out@[k].1 == b);
                }
                assert forall|j: int, k: int| 0 <= j < k < out@.len() implies out@[j].1 != out@[k].1 by {
                    assert(out@[j] == (pairs@[j].1, pairs@[j].0));
                    assert(out@[k] == (pairs@[k].1, pairs@[k].0));
                }
                assert forall|k: int| 0 <= k < out@.len() implies has_edge(self.graph(), node, #[trigger] out@[k].1) && self.graph()[node][out@[k].1] == out@[k].0 by {
                    assert(out@[k] == (pairs@[k].1, pairs@[k].0));
                    assert(m.contains_key(pairs@[k].0));
                }
            },
            None => {},
        }
        out
    }

    /// Map the node's connections to a list using the given function, for
    /// example to turn them into route options. The order is not set.
    pub fn map<T, F: Fn(EdgeWeight, ElementID) -> T>(&self, node: ElementID, cb: F) -> (r: Vec<T>)
        requires
            forall|w: EdgeWeight, n: ElementID| cb.requires((w, n)),
        ensures
            exists|p: Seq<(EdgeWeight, ElementID)>|
                lists_connections(self.graph(), node, p) && p.len() == r@.len() && forall|i: int|
                    0 <= i < p.len() ==> cb.ensures((#[trigger] p[i].0, p[i].1), r@[i]),
    {
        let pairs = self.each(node);
        let mut out: Vec<T> = Vec::new();
        let mut i: usize = 0;
        while i < pairs.len()
            invariant
                i <= pairs@.len(),
                out@.len() == i,
                forall|w: EdgeWeight, n: ElementID| cb.requires((w, n)),
                forall|k: int| 0 <= k < i ==> cb.ensures((#[trigger] pairs@[k].0, pairs@[k].1), out@[k]),
            decreases pairs@.len() - i,
        {
            let (w, n) = pairs[i];
            out.push(cb(w, n));
            i = i + 1;
        }
        out
    }

    /// Set the weight of the connection from `from` to `to`.
    fn add(&mut self, from: ElementID, to: ElementID, weight: EdgeWeight)
        requires
            old(self).wf(),
            weight > CANNOT_USE,
        ensures
            final(self).wf(),
            final(self).graph() == with_edge(old(self).graph(), from, to, weight),
            final(self).mode() == old(self).mode(),
            final(self).config() == old(self).config(),
    {
        proof {
            lemma_with_edge(self.graph(), from, to, weight);
        }
        let mut edge = match self.items.remove(from) {
            Some(c) => c,
            None => Connection::new(),
        };
        edge.insert(to, weight);
        self.items.insert(from, edge);
        proof {
            assert(self.graph() =~= with_edge(old(self).graph(), from, to, weight));
        }
    }
}

} // verus!
