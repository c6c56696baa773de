//! Node snapshots as the store returns them, and the identity of a node:
//! the key that deduplicates it, its display title and its primary label.
use vstd::prelude::*;

use crate::text::{decimal, push_char, push_str, render_i64, strs};

verus! {

/// `serde_json::Value`, carried through untouched as a node's attribute map.
#[verifier::external_type_specification]
#[verifier::external_body]
pub struct ExJsonValue(serde_json::Value);

/// One endpoint of an edge as the store reported it: backend id, labels,
/// the attributes that the rules read, and the full attribute map.
pub struct NodeSnapshot {
    pub id: i64,
    pub labels: Vec<String>,
    /// The `title` attribute, when it is a string.
    pub title: Option<String>,
    /// The `name` attribute, when it is a string.
    pub name: Option<String>,
    /// The `released` (year) attribute, when it is an integer.
    pub released: Option<i64>,
    pub props: serde_json::Value,
}

/// How a node is identified: by movie title, by person name, or by id.
pub enum NodeKind {
    Movie,
    Person,
    Other,
}

pub open spec fn has_label(n: NodeSnapshot, l: Seq<char>) -> bool {
    strs(n.labels@).contains(l)
}

/// The movie marker is checked before the person marker.
pub open spec fn kind_of(n: NodeSnapshot) -> NodeKind {
    if has_label(n, "Movie"@) {
        NodeKind::Movie
    } else if has_label(n, "Person"@) {
        NodeKind::Person
    } else {
        NodeKind::Other
    }
}

/// `#<id>`, the title of a node that lacks its natural attribute.
pub open spec fn id_title(n: NodeSnapshot) -> Seq<char> {
    seq!['#'] + decimal(n.id as int)
}

pub open spec fn display_title(n: NodeSnapshot) -> Seq<char> {
    match kind_of(n) {
        NodeKind::Movie => match n.title {
            Some(t) => t@,
            None => id_title(n),
        },
        NodeKind::Person => match n.name {
            Some(t) => t@,
            None => id_title(n),
        },
        NodeKind::Other => id_title(n),
    }
}

pub open spec fn identity_key(n: NodeSnapshot) -> Seq<char> {
    match kind_of(n) {
        NodeKind::Movie => "movie::"@ + display_title(n),
        NodeKind::Person => "person::"@ + display_title(n),
        NodeKind::Other => "node::"@ + decimal(n.id as int),
    }
}

pub open spec fn kind_label(n: NodeSnapshot) -> Seq<char> {
    match kind_of(n) {
        NodeKind::Movie => "movie"@,
        NodeKind::Person => "person"@,
        NodeKind::Other => "node"@,
    }
}

/// The identity key, primary label and display title of a node.
pub struct NodeIdentity {
    pub key: String,
    pub label: String,
    pub title: String,
}

/// Whether `v` holds a string equal to `x`.
pub fn contains_string(v: &Vec<String>, x: &String) -> (r: bool)
    ensures
        r == strs(v@).contains(x@),
{
    let mut i: usize = 0;
    while i < v.len()
        invariant
            i <= v.len(),
            forall|j: int| 0 <= j < i ==> strs(v@)[j] != x@,
        decreases v.len() - i,
    {
        if v[i] == *x {
            assert(strs(v@)[i as int] == x@);
            return true;
        }
        i = i + 1;
    }
    false
}

fn title_or_id(attr: &Option<String>, id: i64) -> (r: String)
    ensures
        r@ == match attr {
            Some(t) => t@,
            None => seq!['#'] + decimal(id as int),
        },
{
    match attr {
        Some(t) => t.clone(),
        None => {
            let mut r = String::new();
            push_char(&mut r, '#');
            let d = render_i64(id);
            push_str(&mut r, d.as_str());
            r
        },
    }
}

/// Dispatches on the labels: a movie is keyed by its title, a person by
/// its name, anything else by its backend id; a missing attribute falls
/// back to `#<id>`.
pub fn extract_key_label_title(n: &NodeSnapshot) -> (r: NodeIdentity)
    ensures
        r.key@ == identity_key(*n),
        r.label@ == kind_label(*n),
        r.title@ == display_title(*n),
{
    let movie = "Movie".to_owned();
    let person = "Person".to_owned();
    if contains_string(&n.labels, &movie) {
        let title = title_or_id(&n.title, n.id);
        let mut key = "movie::".to_owned();
        push_str(&mut key, title.as_str());
        NodeIdentity { key, label: "movie".to_owned(), title }
    } else if contains_string(&n.labels, &person) {
        let title = title_or_id(&n.name, n.id);
        let mut key = "person::".to_owned();
        push_str(&mut key, title.as_str());
        NodeIdentity { key, label: "person".to_owned(), title }
    } else {
        let title = title_or_id(&None, n.id);
        let mut key = "node::".to_owned();
        let d = render_i64(n.id);
        push_str(&mut key, d.as_str());
        NodeIdentity { key, label: "node".to_owned(), title }
    }
}

} // verus!
