//! Normalisation of the raw browse parameters into a canonical filter set,
//! and the predicate that the filter set places on an edge.
use vstd::prelude::*;

use crate::graph::{contains_string, NodeSnapshot};
use crate::text::{canon, chars_of, csv_tokens, split_csv, string_of, strs, trim, trim_bounds};

verus! {

/// The raw parameters of a graph browse request.
pub struct Browse {
    pub limit: Option<i32>,
    /// Comma-separated relation types; absent or empty means all.
    pub rel: Option<String>,
    /// Movie title or person name to start a rooted walk from.
    pub root: Option<String>,
    pub depth: Option<u32>,
    /// Comma-separated labels that an endpoint must carry one of.
    pub node_incl: Option<String>,
    /// Comma-separated labels that no endpoint may carry.
    pub node_excl: Option<String>,
    /// Lowest release year, inclusive.
    pub released_gte: Option<i64>,
    /// Highest release year, inclusive.
    pub released_lte: Option<i64>,
}

pub const DEFAULT_LIMIT: u32 = 200;

pub const MAX_LIMIT: u32 = 1000;

pub const MAX_DEPTH: u32 = 6;

/// The canonical filters of one browse request.
pub struct FilterSet {
    /// Upper-cased relation types; empty means every type.
    pub rels: Vec<String>,
    /// Labels, verbatim; empty means no restriction.
    pub node_incl: Vec<String>,
    /// Labels, verbatim; empty means no restriction.
    pub node_excl: Vec<String>,
    /// Trimmed and non-empty when present.
    pub root: Option<String>,
    /// In `0..=6`.
    pub depth: u32,
    pub released_gte: Option<i64>,
    pub released_lte: Option<i64>,
    /// In `1..=1000`.
    pub limit: u32,
}

pub open spec fn opt_view(o: Option<String>) -> Option<Seq<char>> {
    match o {
        Some(s) => Some(s@),
        None => None,
    }
}

/// The tokens of an optional comma-separated parameter.
pub open spec fn opt_tokens(raw: Option<String>, upper: bool) -> Seq<Seq<char>> {
    match raw {
        Some(s) => csv_tokens(s@, upper),
        None => Seq::empty(),
    }
}

/// The trimmed root, absent when nothing but whitespace was given.
pub open spec fn root_of(raw: Option<String>) -> Option<Seq<char>> {
    match raw {
        Some(s) => if trim(s@).len() > 0 {
            Some(trim(s@))
        } else {
            None
        },
        None => None,
    }
}

pub open spec fn clamp_depth(d: Option<u32>) -> int {
    match d {
        Some(x) => if x > MAX_DEPTH {
            MAX_DEPTH as int
        } else {
            x as int
        },
        None => 0,
    }
}

pub open spec fn clamp_limit(l: Option<i32>) -> int {
    match l {
        Some(x) => if x < 1 {
            1
        } else if x > MAX_LIMIT {
            MAX_LIMIT as int
        } else {
            x as int
        },
        None => DEFAULT_LIMIT as int,
    }
}

pub open spec fn rel_passes(f: FilterSet, rel: Seq<char>) -> bool {
    f.rels@.len() == 0 || strs(f.rels@).contains(rel)
}

pub open spec fn label_included(f: FilterSet, n: NodeSnapshot) -> bool {
    f.node_incl@.len() == 0 || exists|i: int|
        0 <= i < n.labels@.len() && #[trigger] strs(f.node_incl@).contains(n.labels@[i]@)
}

pub open spec fn label_not_excluded(f: FilterSet, n: NodeSnapshot) -> bool {
    forall|i: int| 0 <= i < n.labels@.len() ==> !#[trigger] strs(f.node_excl@).contains(n.labels@[i]@)
}

/// Year bounds apply only to a node that carries a year.
pub open spec fn year_passes(f: FilterSet, n: NodeSnapshot) -> bool {
    match n.released {
        Some(y) => (f.released_gte matches Some(g) ==> y >= g) && (f.released_lte matches Some(
            u,
        ) ==> y <= u),
        None => true,
    }
}

pub open spec fn node_passes(f: FilterSet, n: NodeSnapshot) -> bool {
    label_included(f, n) && label_not_excluded(f, n) && year_passes(f, n)
}

/// Whether the edge `(s)-[rel]->(t)` satisfies every predicate of `f`.
pub open spec fn edge_admitted(f: FilterSet, s: NodeSnapshot, t: NodeSnapshot, rel: Seq<char>) -> bool {
    rel_passes(f, rel) && node_passes(f, s) && node_passes(f, t)
}

fn tokens_of(raw: &Option<String>, upper: bool) -> (r: Vec<String>)
    ensures
        strs(r@) == opt_tokens(*raw, upper),
{
    match raw {
        Some(s) => split_csv(s.as_str(), upper),
        None => {
            let r: Vec<String> = Vec::new();
            assert(strs(r@) =~= Seq::<Seq<char>>::empty());
            r
        },
    }
}

fn root_from(raw: &Option<String>) -> (r: Option<String>)
    ensures
        opt_view(r) == root_of(*raw),
{
    match raw {
        Some(s) => {
            let cs = chars_of(s.as_str());
            let (lo, hi) = trim_bounds(&cs);
            if lo < hi {
                Some(string_of(&cs, lo, hi, false))
            } else {
                None
            }
        },
        None => None,
    }
}

impl FilterSet {
    pub open spec fn wf(&self) -> bool {
        &&& self.depth <= MAX_DEPTH
        &&& 1 <= self.limit <= MAX_LIMIT
        &&& (self.root matches Some(r) ==> r@.len() > 0)
    }

    /// Never fails: out-of-range numbers are clamped, empty tokens dropped.
    pub fn normalize(b: &Browse) -> (f: FilterSet)
        ensures
            f.wf(),
            strs(f.rels@) == opt_tokens(b.rel, true),
            strs(f.node_incl@) == opt_tokens(b.node_incl, false),
            strs(f.node_excl@) == opt_tokens(b.node_excl, false),
            opt_view(f.root) == root_of(b.root),
            f.depth == clamp_depth(b.depth),
            f.released_gte == b.released_gte,
            f.released_lte == b.released_lte,
            f.limit == clamp_limit(b.limit),
    {
        let limit: u32 = match b.limit {
            Some(x) => if x < 1 {
                1
            } else if x > MAX_LIMIT as i32 {
                MAX_LIMIT
            } else {
                x as u32
            },
            None => DEFAULT_LIMIT,
        };
        let depth: u32 = match b.depth {
            Some(x) => if x > MAX_DEPTH {
                MAX_DEPTH
            } else {
                x
            },
            None => 0,
        };
        FilterSet {
            rels: tokens_of(&b.rel, true),
            node_incl: tokens_of(&b.node_incl, false),
            node_excl: tokens_of(&b.node_excl, false),
            root: root_from(&b.root),
            depth,
            released_gte: b.released_gte,
            released_lte: b.released_lte,
            limit,
        }
    }

    fn any_label_in(set: &Vec<String>, labels: &Vec<String>) -> (r: bool)
        ensures
            r == exists|i: int| 0 <= i < labels@.len() && #[trigger] strs(set@).contains(labels@[i]@),
    {
        let mut i: usize = 0;
        while i < labels.len()
            invariant
                i <= labels.len(),
                forall|j: int| 0 <= j < i ==> !#[trigger] strs(set@).contains(labels@[j]@),
            decreases labels.len() - i,
        {
            if contains_string(set, &labels[i]) {
                return true;
            }
            i = i + 1;
        }
        false
    }

    /// Whether `n` passes the label and year predicates.
    pub fn node_passes(&self, n: &NodeSnapshot) -> (r: bool)
        ensures
            r == node_passes(*self, *n),
    {
        let incl = self.node_incl.len() == 0 || Self::any_label_in(&self.node_incl, &n.labels);
        let excl = !Self::any_label_in(&self.node_excl, &n.labels);
        let year = match n.released {
            Some(y) => {
                let lo_ok = match self.released_gte {
                    Some(g) => y >= g,
                    None => true,
                };
                let hi_ok = match self.released_lte {
                    Some(u) => y <= u,
                    None => true,
                };
                lo_ok && hi_ok
            },
            None => true,
        };
        incl && excl && year
    }

    /// Whether the edge `(s)-[rel]->(t)` satisfies every predicate.
    pub fn admits(&self, s: &NodeSnapshot, t: &NodeSnapshot, rel: &String) -> (r: bool)
        ensures
            r == edge_admitted(*self, *s, *t, rel@),
    {
        let rel_ok = self.rels.len() == 0 || contains_string(&self.rels, rel);
        rel_ok && self.node_passes(s) && self.node_passes(t)
    }
}

/// A node without a year passes both year bounds, whatever they are.
pub proof fn lemma_year_open_world(f: FilterSet, n: NodeSnapshot)
    requires
        n.released is None,
    ensures
        year_passes(f, n),
{
}

} // verus!
