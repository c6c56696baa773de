//! Selection of the traversal mode and of one of two fixed query templates,
//! with every filter value handed to the store as a bound parameter.
use vstd::prelude::*;

use crate::filters::{FilterSet, MAX_DEPTH};
use crate::text::strs;

verus! {

/// Every directed edge `(s)-[r]->(t)` that passes the filters.
pub const UNBOUNDED_QUERY: &'static str = "
    MATCH (s)-[r]->(t)
    WHERE (size($rels) = 0 OR type(r) IN $rels)
      AND (size($node_incl) = 0 OR any(lbl IN labels(s) WHERE lbl IN $node_incl))
      AND (size($node_incl) = 0 OR any(lbl IN labels(t) WHERE lbl IN $node_incl))
      AND (size($node_excl) = 0 OR all(lbl IN labels(s) WHERE NOT lbl IN $node_excl))
      AND (size($node_excl) = 0 OR all(lbl IN labels(t) WHERE NOT lbl IN $node_excl))
      AND ($released_gte IS NULL OR s.released IS NULL OR s.released >= $released_gte)
      AND ($released_gte IS NULL OR t.released IS NULL OR t.released >= $released_gte)
      AND ($released_lte IS NULL OR s.released IS NULL OR s.released <= $released_lte)
      AND ($released_lte IS NULL OR t.released IS NULL OR t.released <= $released_lte)
    RETURN s, t, type(r) AS rel, properties(s) AS sProps, properties(t) AS tProps
    LIMIT $limit
";

/// Every relationship on an undirected path of `1..=$depth` hops from the
/// node that `$root` names, once per path it lies on.
pub const ROOTED_WALK_QUERY: &'static str = "
    MATCH (root)
    WHERE (root:Movie AND root.title = $root)
       OR (root:Person AND root.name = $root)
       OR (root:node {title:$root})
    MATCH p = (root)-[r*1..$depth]-(n)
    UNWIND relationships(p) AS relx
    WITH startNode(relx) AS s, endNode(relx) AS t, type(relx) AS rel
    WHERE (size($rels) = 0 OR rel IN $rels)
      AND (size($node_incl) = 0 OR any(lbl IN labels(s) WHERE lbl IN $node_incl))
      AND (size($node_incl) = 0 OR any(lbl IN labels(t) WHERE lbl IN $node_incl))
      AND (size($node_excl) = 0 OR all(lbl IN labels(s) WHERE NOT lbl IN $node_excl))
      AND (size($node_excl) = 0 OR all(lbl IN labels(t) WHERE NOT lbl IN $node_excl))
      AND ($released_gte IS NULL OR s.released IS NULL OR s.released >= $released_gte)
      AND ($released_gte IS NULL OR t.released IS NULL OR t.released >= $released_gte)
      AND ($released_lte IS NULL OR s.released IS NULL OR s.released <= $released_lte)
      AND ($released_lte IS NULL OR t.released IS NULL OR t.released <= $released_lte)
    RETURN s, t, rel, properties(s) AS sProps, properties(t) AS tProps
    LIMIT $limit
";

/// The traversal strategy, chosen once per request.
pub enum TraversalMode {
    /// A scan of single directed edges.
    Unbounded,
    /// An undirected walk of up to `depth` hops from `root`.
    RootedWalk { root: String, depth: u32 },
}

/// A rooted walk needs a root and at least one hop.
pub open spec fn is_rooted(f: FilterSet) -> bool {
    f.root is Some && f.depth >= 1
}

/// The values bound to the template's parameters.
pub struct QueryParams {
    /// The root, or the empty string when there is none.
    pub root: String,
    /// The walk depth, at least 1 (the unbounded template ignores it).
    pub depth: i64,
    pub rels: Vec<String>,
    pub node_incl: Vec<String>,
    pub node_excl: Vec<String>,
    pub released_gte: Option<i64>,
    pub released_lte: Option<i64>,
    pub limit: i64,
}

/// A fully parameterised traversal request.
pub struct GraphQuery {
    pub mode: TraversalMode,
    pub text: &'static str,
    pub params: QueryParams,
}

/// Selects `RootedWalk` exactly when a root is present and the depth is at
/// least one.
pub fn select_mode(f: &FilterSet) -> (r: TraversalMode)
    ensures
        r is RootedWalk <==> is_rooted(*f),
        (f.root is None || f.depth == 0) ==> r is Unbounded,
        r matches TraversalMode::RootedWalk { root, depth } ==> f.root == Some(root)
            && depth == f.depth,
{
    match &f.root {
        Some(root) => if f.depth >= 1 {
            TraversalMode::RootedWalk { root: root.clone(), depth: f.depth }
        } else {
            TraversalMode::Unbounded
        },
        None => TraversalMode::Unbounded,
    }
}

fn clone_strings(v: &Vec<String>) -> (r: Vec<String>)
    ensures
        r@ == v@,
{
    let mut r: Vec<String> = Vec::new();
    let mut i: usize = 0;
    while i < v.len()
        invariant
            i <= v.len(),
            r@ == v@.subrange(0, i as int),
        decreases v.len() - i,
    {
        r.push(v[i].clone());
        i = i + 1;
        assert(r@ =~= v@.subrange(0, i as int));
    }
    assert(v@.subrange(0, v.len() as int) =~= v@);
    r
}

/// Renders the request for `f`: the template of its mode and every filter
/// value as a parameter.
pub fn build_query(f: &FilterSet) -> (r: GraphQuery)
    requires
        f.wf(),
    ensures
        r.mode is RootedWalk <==> is_rooted(*f),
        r.mode matches TraversalMode::RootedWalk { root, depth } ==> f.root == Some(root)
            && depth == f.depth,
        r.text == if is_rooted(*f) {
            ROOTED_WALK_QUERY
        } else {
            UNBOUNDED_QUERY
        },
        r.params.root@ == match f.root {
            Some(s) => s@,
            None => Seq::<char>::empty(),
        },
        r.params.depth == if f.depth >= 1 {
            f.depth as int
        } else {
            1
        },
        strs(r.params.rels@) == strs(f.rels@),
        strs(r.params.node_incl@) == strs(f.node_incl@),
        strs(r.params.node_excl@) == strs(f.node_excl@),
        r.params.released_gte == f.released_gte,
        r.params.released_lte == f.released_lte,
        r.params.limit == f.limit,
{
    let mode = select_mode(f);
    let text = match mode {
        TraversalMode::RootedWalk { .. } => ROOTED_WALK_QUERY,
        TraversalMode::Unbounded => UNBOUNDED_QUERY,
    };
    let root = match &f.root {
        Some(s) => s.clone(),
        None => String::new(),
    };
    let depth: i64 = if f.depth >= 1 {
        f.depth as i64
    } else {
        1
    };
    assert(f.depth <= MAX_DEPTH);
    let params = QueryParams {
        root,
        depth,
        rels: clone_strings(&f.rels),
        node_incl: clone_strings(&f.node_incl),
        node_excl: clone_strings(&f.node_excl),
        released_gte: f.released_gte,
        released_lte: f.released_lte,
        limit: f.limit as i64,
    };
    GraphQuery { mode, text, params }
}

/// A browse without a root, or with depth zero, scans edges unboundedly.
pub proof fn lemma_mode_selection(f: FilterSet)
    requires
        f.root is None || f.depth == 0,
    ensures
        !is_rooted(f),
{
}

} // verus!
