//! Reduction of the store's edge stream into a compact graph: each distinct
//! identity key becomes one node with the next index, each accepted edge one
//! link between the indices of its endpoints.
//!
//! The assembler holds each record to the same filters and limit that the
//! query binds, so the result keeps its guarantees whatever the store sent.
use vstd::prelude::*;

use crate::filters::{edge_admitted, node_passes, FilterSet};
use crate::graph::{display_title, extract_key_label_title, identity_key, kind_label, NodeSnapshot};

verus! {

/// A deduplicated node of the result.
pub struct GraphNode {
    pub key: String,
    pub title: String,
    pub label: String,
    pub props: serde_json::Value,
}

/// A relation between the nodes at indices `source` and `target`.
pub struct GraphLink {
    pub source: usize,
    pub target: usize,
    pub rel: String,
}

/// Nodes in first-seen order and links in arrival order.
pub struct BrowseResult {
    pub nodes: Vec<GraphNode>,
    pub links: Vec<GraphLink>,
}

/// One record of the store: `(source)-[rel]->(target)`.
pub struct EdgeRecord {
    pub source: NodeSnapshot,
    pub target: NodeSnapshot,
    pub rel: String,
}

pub struct NodeView {
    pub key: Seq<char>,
    pub title: Seq<char>,
    pub label: Seq<char>,
    pub props: serde_json::Value,
}

pub struct LinkView {
    pub source: int,
    pub target: int,
    pub rel: Seq<char>,
}

pub struct BrowseView {
    pub nodes: Seq<NodeView>,
    pub links: Seq<LinkView>,
}

pub open spec fn node_view(n: GraphNode) -> NodeView {
    NodeView { key: n.key@, title: n.title@, label: n.label@, props: n.props }
}

pub open spec fn link_view(l: GraphLink) -> LinkView {
    LinkView { source: l.source as int, target: l.target as int, rel: l.rel@ }
}

pub open spec fn nodes_view(ns: Seq<GraphNode>) -> Seq<NodeView> {
    ns.map_values(|n: GraphNode| node_view(n))
}

pub open spec fn links_view(ls: Seq<GraphLink>) -> Seq<LinkView> {
    ls.map_values(|l: GraphLink| link_view(l))
}

/// The node that a snapshot becomes on first sighting.
pub open spec fn snapshot_view(n: NodeSnapshot) -> NodeView {
    NodeView { key: identity_key(n), title: display_title(n), label: kind_label(n), props: n.props }
}

pub open spec fn empty_view() -> BrowseView {
    BrowseView { nodes: Seq::empty(), links: Seq::empty() }
}

/// No two nodes share an identity key.
pub open spec fn distinct_keys(ns: Seq<NodeView>) -> bool {
    forall|i: int, j: int| 0 <= i < j < ns.len() ==> ns[i].key != ns[j].key
}

/// Every link points at nodes that exist.
pub open spec fn links_valid(v: BrowseView) -> bool {
    forall|i: int|
        0 <= i < v.links.len() ==> 0 <= #[trigger] v.links[i].source < v.nodes.len() && 0
            <= v.links[i].target < v.nodes.len()
}

/// The index of the node keyed `k`, or -1.
pub open spec fn position(ns: Seq<NodeView>, k: Seq<char>) -> int
    decreases ns.len(),
{
    if ns.len() == 0 {
        -1
    } else if ns.last().key == k {
        ns.len() - 1
    } else {
        position(ns.drop_last(), k)
    }
}

/// `ns` with `n` appended unless its key is already there.
pub open spec fn intern(ns: Seq<NodeView>, n: NodeView) -> Seq<NodeView> {
    if position(ns, n.key) >= 0 {
        ns
    } else {
        ns.push(n)
    }
}

/// The graph after one more edge: both endpoints interned, source first,
/// and one link appended.
pub open spec fn add_edge(v: BrowseView, s: NodeView, t: NodeView, rel: Seq<char>) -> BrowseView {
    let ns = intern(intern(v.nodes, s), t);
    BrowseView {
        nodes: ns,
        links: v.links.push(LinkView { source: position(ns, s.key), target: position(ns, t.key), rel }),
    }
}

/// An edge is taken while the limit is not reached and the filters admit it.
pub open spec fn takes(f: FilterSet, v: BrowseView, s: NodeSnapshot, t: NodeSnapshot, rel: Seq<char>) -> bool {
    v.links.len() < f.limit && edge_admitted(f, s, t, rel)
}

pub open spec fn offer_step(
    f: FilterSet,
    v: BrowseView,
    s: NodeSnapshot,
    t: NodeSnapshot,
    rel: Seq<char>,
) -> BrowseView {
    if takes(f, v, s, t, rel) {
        add_edge(v, snapshot_view(s), snapshot_view(t), rel)
    } else {
        v
    }
}

/// The graph that the records `es`, in this order, assemble into.
pub open spec fn replay(f: FilterSet, es: Seq<EdgeRecord>) -> BrowseView
    decreases es.len(),
{
    if es.len() == 0 {
        empty_view()
    } else {
        let e = es.last();
        offer_step(f, replay(f, es.drop_last()), e.source, e.target, e.rel@)
    }
}

pub proof fn lemma_position_found(ns: Seq<NodeView>, k: Seq<char>, i: int)
    requires
        distinct_keys(ns),
        0 <= i < ns.len(),
        ns[i].key == k,
    ensures
        position(ns, k) == i,
    decreases ns.len(),
{
    if ns.last().key != k {
        lemma_position_found(ns.drop_last(), k, i);
    }
}

pub proof fn lemma_position_sound(ns: Seq<NodeView>, k: Seq<char>)
    ensures
        -1 <= position(ns, k) < ns.len(),
        position(ns, k) >= 0 ==> ns[position(ns, k)].key == k,
    decreases ns.len(),
{
    if ns.len() > 0 && ns.last().key != k {
        lemma_position_sound(ns.drop_last(), k);
    }
}

pub proof fn lemma_position_absent(ns: Seq<NodeView>, k: Seq<char>)
    requires
        forall|i: int| 0 <= i < ns.len() ==> ns[i].key != k,
    ensures
        position(ns, k) == -1,
    decreases ns.len(),
{
    if ns.len() > 0 {
        lemma_position_absent(ns.drop_last(), k);
    }
}

impl BrowseResult {
    pub open spec fn view(&self) -> BrowseView {
        BrowseView { nodes: nodes_view(self.nodes@), links: links_view(self.links@) }
    }
}

/// Owns the index of one request; fed the store's records in arrival order.
pub struct GraphAssembler {
    filters: FilterSet,
    nodes: Vec<GraphNode>,
    links: Vec<GraphLink>,
}

impl GraphAssembler {
    pub closed spec fn filters(&self) -> FilterSet {
        self.filters
    }

    pub closed spec fn view(&self) -> BrowseView {
        BrowseView { nodes: nodes_view(self.nodes@), links: links_view(self.links@) }
    }

    pub open spec fn wf(&self) -> bool {
        &&& self.filters().wf()
        &&& distinct_keys(self.view().nodes)
        &&& links_valid(self.view())
        &&& self.view().links.len() <= self.filters().limit
    }

    pub fn new(filters: FilterSet) -> (r: GraphAssembler)
        requires
            filters.wf(),
        ensures
            r.wf(),
            r.filters() == filters,
            r.view() == empty_view(),
    {
        let r = GraphAssembler { filters, nodes: Vec::new(), links: Vec::new() };
        assert(r.view().nodes =~= Seq::<NodeView>::empty());
        assert(r.view().links =~= Seq::<LinkView>::empty());
        r
    }

    fn find(&self, key: &String) -> (r: Option<usize>)
        ensures
            match r {
                Some(i) => i < self.nodes.len() && self.view().nodes[i as int].key == key@,
                None => forall|i: int|
                    0 <= i < self.view().nodes.len() ==> self.view().nodes[i].key != key@,
            },
    {
        let mut i: usize = 0;
        while i < self.nodes.len()
            invariant
                i <= self.nodes.len(),
                forall|j: int| 0 <= j < i ==> self.view().nodes[j].key != key@,
            decreases self.nodes.len() - i,
        {
            if self.nodes[i].key == *key {
                return Some(i);
            }
            i = i + 1;
        }
        None
    }

    /// The index of `n`'s identity key, appending a node on first sighting.
    fn intern(&mut self, n: NodeSnapshot) -> (r: usize)
        requires
            distinct_keys(old(self).view().nodes),
        ensures
            final(self).filters == old(self).filters,
            final(self).links == old(self).links,
            distinct_keys(final(self).view().nodes),
            final(self).view().nodes == intern(old(self).view().nodes, snapshot_view(n)),
            r < final(self).nodes.len(),
            r == position(final(self).view().nodes, identity_key(n)),
    {
        let id = extract_key_label_title(&n);
        match self.find(&id.key) {
            Some(i) => {
                proof {
                    lemma_position_found(self.view().nodes, id.key@, i as int);
                }
                i
            },
            None => {
                proof {
                    lemma_position_absent(self.view().nodes, id.key@);
                }
                let i = self.nodes.len();
                self.nodes.push(GraphNode { key: id.key, title: id.title, label: id.label, props: n.props });
                assert(self.view().nodes =~= old(self).view().nodes.push(snapshot_view(n)));
                i
            },
        }
    }

    /// Takes the record `(s)-[rel]->(t)` if the limit is not reached and the
    /// filters admit it; a repeated record gives a repeated link.
    pub fn offer(&mut self, s: NodeSnapshot, t: NodeSnapshot, rel: String) -> (accepted: bool)
        requires
            old(self).wf(),
        ensures
            final(self).wf(),
            final(self).filters() == old(self).filters(),
            accepted == takes(old(self).filters(), old(self).view(), s, t, rel@),
            final(self).view() == offer_step(old(self).filters(), old(self).view(), s, t, rel@),
    {
        if self.links.len() >= self.filters.limit as usize {
            return false;
        }
        if !self.filters.admits(&s, &t, &rel) {
            return false;
        }
        let ghost v0 = self.view();
        let ghost sv = snapshot_view(s);
        let ghost tv = snapshot_view(t);
        let source = self.intern(s);
        let ghost v1 = self.view();
        let target = self.intern(t);
        proof {
            lemma_position_sound(v1.nodes, sv.key);
            assert(self.view().nodes[source as int] == v1.nodes[source as int]);
            lemma_position_found(self.view().nodes, sv.key, source as int);
        }
        self.links.push(GraphLink { source, target, rel });
        assert(self.view().links =~= v0.links.push(
            LinkView { source: source as int, target: target as int, rel: rel@ },
        ));
        assert(self.view() == add_edge(v0, sv, tv, rel@));
        true
    }

    /// The assembled graph.
    pub fn finish(self) -> (r: BrowseResult)
        requires
            self.wf(),
        ensures
            r.view() == self.view(),
            distinct_keys(r.view().nodes),
            links_valid(r.view()),
            r.links.len() <= self.filters().limit,
    {
        BrowseResult { nodes: self.nodes, links: self.links }
    }
}

/// Assembles the records `edges`, consumed once and in order.
pub fn assemble(filters: FilterSet, edges: Vec<EdgeRecord>) -> (r: BrowseResult)
    requires
        filters.wf(),
    ensures
        r.view() == replay(filters, edges@),
        distinct_keys(r.view().nodes),
        links_valid(r.view()),
        r.links.len() <= filters.limit,
{
    let ghost all = edges@;
    assert(all.len() == edges.len());
    let mut rest = edges;
    let mut builder = GraphAssembler::new(filters);
    let mut i: usize = 0;
    assert(all.subrange(0, 0) =~= Seq::<EdgeRecord>::empty());
    while rest.len() > 0
        invariant
            builder.wf(),
            builder.filters() == filters,
            i + rest@.len() == all.len() <= usize::MAX,
            rest@ == all.subrange(i as int, all.len() as int),
            builder.view() == replay(filters, all.subrange(0, i as int)),
        decreases rest.len(),
    {
        let e = rest.remove(0);
        assert(all.subrange(0, i + 1).drop_last() =~= all.subrange(0, i as int));
        assert(all.subrange(i + 1, all.len() as int) =~= rest@);
        builder.offer(e.source, e.target, e.rel);
        i = i + 1;
    }
    assert(all.subrange(0, all.len() as int) =~= all);
    builder.finish()
}

/// With no relation types given, the type of an edge never decides whether
/// it is taken: an edge whose endpoints pass is taken below the limit, and
/// its link keeps its type.
pub proof fn lemma_wildcard_relations(
    f: FilterSet,
    v: BrowseView,
    s: NodeSnapshot,
    t: NodeSnapshot,
    rel: Seq<char>,
    other: Seq<char>,
)
    requires
        f.rels@.len() == 0,
    ensures
        edge_admitted(f, s, t, rel) == edge_admitted(f, s, t, other),
        v.links.len() < f.limit && node_passes(f, s) && node_passes(f, t) ==> takes(f, v, s, t, rel)
            && offer_step(f, v, s, t, rel).links.last().rel == rel,
{
}

/// The same filters and the same records in the same order give the same
/// nodes, in the same order, and the same links.
pub proof fn lemma_deterministic(f: FilterSet, g: FilterSet, a: Seq<EdgeRecord>, b: Seq<EdgeRecord>)
    requires
        f == g,
        a == b,
    ensures
        replay(f, a) == replay(g, b),
{
}

proof fn lemma_intern(ns: Seq<NodeView>, n: NodeView, k: Seq<char>)
    requires
        distinct_keys(ns),
    ensures
        distinct_keys(intern(ns, n)),
        0 <= position(intern(ns, n), n.key) < intern(ns, n).len(),
        position(ns, k) >= 0 ==> position(intern(ns, n), k) == position(ns, k),
{
    lemma_position_sound(ns, n.key);
    lemma_position_sound(ns, k);
    if position(ns, n.key) < 0 {
        assert forall|i: int| 0 <= i < ns.len() implies ns[i].key != n.key by {
            if ns[i].key == n.key {
                lemma_position_found(ns, n.key, i);
            }
        }
        let ps = ns.push(n);
        assert(ps.drop_last() =~= ns);
        if position(ns, k) >= 0 {
            assert(ps.last().key != k);
        }
    }
}

/// Whatever records arrive, in whatever order: no two nodes share an
/// identity key, every link points at existing nodes, and there are at most
/// `limit` links.
pub proof fn lemma_replay_wf(f: FilterSet, es: Seq<EdgeRecord>)
    ensures
        distinct_keys(replay(f, es).nodes),
        links_valid(replay(f, es)),
        replay(f, es).links.len() <= f.limit,
    decreases es.len(),
{
    if es.len() > 0 {
        let e = es.last();
        let v = replay(f, es.drop_last());
        lemma_replay_wf(f, es.drop_last());
        if takes(f, v, e.source, e.target, e.rel@) {
            let s = snapshot_view(e.source);
            let t = snapshot_view(e.target);
            let n1 = intern(v.nodes, s);
            lemma_intern(v.nodes, s, s.key);
            lemma_intern(n1, t, s.key);
            let w = add_edge(v, s, t, e.rel@);
            assert(n1.len() <= w.nodes.len());
            assert forall|i: int| 0 <= i < w.links.len() implies 0 <= #[trigger] w.links[i].source
                < w.nodes.len() && 0 <= w.links[i].target < w.nodes.len() by {
                if i < v.links.len() {
                    assert(w.links[i] == v.links[i]);
                }
            }
        }
    }
}

} // verus!
