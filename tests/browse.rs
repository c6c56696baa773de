use movies_graph::assemble::{assemble, BrowseResult, EdgeRecord, GraphAssembler};
use movies_graph::filters::{Browse, FilterSet};
use movies_graph::graph::{extract_key_label_title, NodeSnapshot};
use movies_graph::query::{build_query, select_mode, TraversalMode, ROOTED_WALK_QUERY, UNBOUNDED_QUERY};

fn browse() -> Browse {
    Browse {
        limit: None,
        rel: None,
        root: None,
        depth: None,
        node_incl: None,
        node_excl: None,
        released_gte: None,
        released_lte: None,
    }
}

fn movie(id: i64, title: &str, year: Option<i64>) -> NodeSnapshot {
    let mut props = serde_json::Map::new();
    props.insert("title".to_string(), serde_json::Value::String(title.to_string()));
    NodeSnapshot {
        id,
        labels: vec!["Movie".to_string()],
        title: Some(title.to_string()),
        name: None,
        released: year,
        props: serde_json::Value::Object(props),
    }
}

fn person(id: i64, name: &str) -> NodeSnapshot {
    let mut props = serde_json::Map::new();
    props.insert("name".to_string(), serde_json::Value::String(name.to_string()));
    NodeSnapshot {
        id,
        labels: vec!["Person".to_string()],
        title: None,
        name: Some(name.to_string()),
        released: None,
        props: serde_json::Value::Object(props),
    }
}

fn edge(s: NodeSnapshot, t: NodeSnapshot, rel: &str) -> EdgeRecord {
    EdgeRecord { source: s, target: t, rel: rel.to_string() }
}

fn titles(r: &BrowseResult) -> Vec<String> {
    r.nodes.iter().map(|n| n.title.clone()).collect()
}

fn links(r: &BrowseResult) -> Vec<(usize, usize, String)> {
    r.links.iter().map(|l| (l.source, l.target, l.rel.clone())).collect()
}

#[test]
fn unbounded_two_edges_share_source() {
    let mut b = browse();
    b.limit = Some(2);
    let f = FilterSet::normalize(&b);
    let r = assemble(
        f,
        vec![
            edge(movie(1, "MovieA", None), person(2, "PersonX"), "ACTED_IN"),
            edge(movie(1, "MovieA", None), person(3, "PersonY"), "ACTED_IN"),
        ],
    );
    assert_eq!(titles(&r), vec!["MovieA", "PersonX", "PersonY"]);
    assert_eq!(
        links(&r),
        vec![(0, 1, "ACTED_IN".to_string()), (0, 2, "ACTED_IN".to_string())]
    );
    assert_eq!(r.nodes[0].label, "movie");
    assert_eq!(r.nodes[1].label, "person");
    assert_eq!(r.nodes[0].key, "movie::MovieA");
}

#[test]
fn rel_directed_is_upper_cased_and_filters() {
    let mut b = browse();
    b.rel = Some("directed".to_string());
    let f = FilterSet::normalize(&b);
    assert_eq!(f.rels, vec!["DIRECTED".to_string()]);
    let r = assemble(
        f,
        vec![
            edge(person(2, "Lana"), movie(1, "The Matrix", Some(1999)), "ACTED_IN"),
            edge(person(2, "Lana"), movie(1, "The Matrix", Some(1999)), "DIRECTED"),
        ],
    );
    assert_eq!(links(&r), vec![(0, 1, "DIRECTED".to_string())]);
}

#[test]
fn root_with_depth_selects_rooted_walk() {
    let mut b = browse();
    b.root = Some("The Matrix".to_string());
    b.depth = Some(2);
    let f = FilterSet::normalize(&b);
    let q = build_query(&f);
    match &q.mode {
        TraversalMode::RootedWalk { root, depth } => {
            assert_eq!(root, "The Matrix");
            assert_eq!(*depth, 2);
        }
        TraversalMode::Unbounded => panic!("expected a rooted walk"),
    }
    assert_eq!(q.text, ROOTED_WALK_QUERY);
    assert_eq!(q.params.root, "The Matrix");
    assert_eq!(q.params.depth, 2);
    assert_eq!(q.params.limit, 200);
}

#[test]
fn no_root_or_zero_depth_is_unbounded() {
    let mut b = browse();
    b.depth = Some(3);
    b.rel = Some("ACTED_IN".to_string());
    let f = FilterSet::normalize(&b);
    assert!(matches!(select_mode(&f), TraversalMode::Unbounded));
    let q = build_query(&f);
    assert_eq!(q.text, UNBOUNDED_QUERY);
    assert_eq!(q.params.root, "");

    let mut b = browse();
    b.root = Some("The Matrix".to_string());
    b.depth = Some(0);
    let f = FilterSet::normalize(&b);
    assert!(matches!(select_mode(&f), TraversalMode::Unbounded));
    assert_eq!(build_query(&f).params.depth, 1);

    let mut b = browse();
    b.root = Some("   ".to_string());
    b.depth = Some(2);
    let f = FilterSet::normalize(&b);
    assert!(f.root.is_none());
    assert!(matches!(select_mode(&f), TraversalMode::Unbounded));
}

#[test]
fn excluded_label_drops_edge_even_when_rel_matches() {
    let mut b = browse();
    b.node_excl = Some("Person".to_string());
    b.rel = Some("acted_in".to_string());
    let f = FilterSet::normalize(&b);
    let r = assemble(
        f,
        vec![edge(person(2, "Keanu"), movie(1, "The Matrix", Some(1999)), "ACTED_IN")],
    );
    assert!(r.links.is_empty());
    assert!(r.nodes.is_empty());
}

#[test]
fn year_bound_lets_person_pass() {
    let mut b = browse();
    b.released_gte = Some(2000);
    let f = FilterSet::normalize(&b);
    assert!(f.node_passes(&person(2, "Keanu")));
    assert!(!f.node_passes(&movie(1, "The Matrix", Some(1999))));
    assert!(f.node_passes(&movie(3, "Cloud Atlas", Some(2012))));
    let r = assemble(
        f,
        vec![
            edge(person(2, "Keanu"), movie(1, "The Matrix", Some(1999)), "ACTED_IN"),
            edge(person(2, "Keanu"), movie(4, "John Wick", Some(2014)), "ACTED_IN"),
        ],
    );
    assert_eq!(titles(&r), vec!["Keanu", "John Wick"]);
}

#[test]
fn node_without_year_passes_both_bounds() {
    let mut b = browse();
    b.released_gte = Some(2000);
    b.released_lte = Some(2001);
    let f = FilterSet::normalize(&b);
    assert!(f.node_passes(&movie(1, "Undated", None)));
    assert!(f.node_passes(&person(2, "Keanu")));
    assert!(!f.node_passes(&movie(3, "Later", Some(2002))));
    assert!(f.node_passes(&movie(4, "Edge", Some(2001))));
}

#[test]
fn repeated_relationship_gives_two_links() {
    let f = FilterSet::normalize(&browse());
    let r = assemble(
        f,
        vec![
            edge(person(2, "Keanu"), movie(1, "The Matrix", None), "ACTED_IN"),
            edge(person(2, "Keanu"), movie(1, "The Matrix", None), "ACTED_IN"),
        ],
    );
    assert_eq!(r.nodes.len(), 2);
    assert_eq!(
        links(&r),
        vec![(0, 1, "ACTED_IN".to_string()), (0, 1, "ACTED_IN".to_string())]
    );
}

#[test]
fn empty_relation_set_admits_every_type() {
    let f = FilterSet::normalize(&browse());
    assert!(f.rels.is_empty());
    let r = assemble(
        f,
        vec![
            edge(person(2, "A"), movie(1, "M", None), "ACTED_IN"),
            edge(person(3, "B"), movie(1, "M", None), "DIRECTED"),
            edge(person(3, "B"), movie(1, "M", None), "PRODUCED"),
            edge(person(2, "A"), person(3, "B"), "FOLLOWS"),
        ],
    );
    let rels: Vec<String> = r.links.iter().map(|l| l.rel.clone()).collect();
    assert_eq!(rels, vec!["ACTED_IN", "DIRECTED", "PRODUCED", "FOLLOWS"]);
}

#[test]
fn limit_caps_links() {
    let mut b = browse();
    b.limit = Some(1);
    let f = FilterSet::normalize(&b);
    let r = assemble(
        f,
        vec![
            edge(person(2, "A"), movie(1, "M", None), "ACTED_IN"),
            edge(person(3, "B"), movie(1, "M", None), "ACTED_IN"),
            edge(person(4, "C"), movie(1, "M", None), "ACTED_IN"),
        ],
    );
    assert_eq!(r.links.len(), 1);
    assert_eq!(titles(&r), vec!["A", "M"]);
}

#[test]
fn nodes_are_unique_and_links_valid() {
    let f = FilterSet::normalize(&browse());
    let r = assemble(
        f,
        vec![
            edge(person(2, "A"), movie(1, "M", None), "ACTED_IN"),
            edge(movie(1, "M", None), person(2, "A"), "X"),
            edge(person(9, "A"), movie(8, "M", None), "ACTED_IN"),
            edge(person(3, "B"), person(3, "B"), "SELF"),
        ],
    );
    assert_eq!(titles(&r), vec!["A", "M", "B"]);
    for i in 0..r.nodes.len() {
        for j in i + 1..r.nodes.len() {
            assert_ne!(r.nodes[i].key, r.nodes[j].key);
        }
    }
    for l in &r.links {
        assert!(l.source < r.nodes.len() && l.target < r.nodes.len());
    }
    assert_eq!(links(&r)[3], (2, 2, "SELF".to_string()));
}

fn sample() -> Vec<EdgeRecord> {
    vec![
        edge(person(2, "A"), movie(1, "M", Some(1999)), "ACTED_IN"),
        edge(person(3, "B"), movie(1, "M", Some(1999)), "DIRECTED"),
        edge(movie(5, "N", Some(2003)), person(2, "A"), "X"),
    ]
}

#[test]
fn same_input_same_result() {
    let a = assemble(FilterSet::normalize(&browse()), sample());
    let b = assemble(FilterSet::normalize(&browse()), sample());
    assert_eq!(titles(&a), titles(&b));
    assert_eq!(links(&a), links(&b));
    let ka: Vec<String> = a.nodes.iter().map(|n| n.key.clone()).collect();
    let kb: Vec<String> = b.nodes.iter().map(|n| n.key.clone()).collect();
    assert_eq!(ka, kb);
    for i in 0..a.nodes.len() {
        assert_eq!(a.nodes[i].props, b.nodes[i].props);
    }
}

#[test]
fn streaming_offer_matches_batch() {
    let mut g = GraphAssembler::new(FilterSet::normalize(&browse()));
    for e in sample() {
        assert!(g.offer(e.source, e.target, e.rel));
    }
    let streamed = g.finish();
    let batch = assemble(FilterSet::normalize(&browse()), sample());
    assert_eq!(links(&streamed), links(&batch));
    assert_eq!(titles(&streamed), titles(&batch));
    assert_eq!(streamed.nodes[0].props, person(2, "A").props);
}

#[test]
fn include_labels_require_one_match() {
    let mut b = browse();
    b.node_incl = Some("Movie".to_string());
    let f = FilterSet::normalize(&b);
    assert!(f.node_passes(&movie(1, "M", None)));
    assert!(!f.node_passes(&person(2, "A")));
    let mut b = browse();
    b.node_incl = Some("movie".to_string());
    let f = FilterSet::normalize(&b);
    assert_eq!(f.node_incl, vec!["movie".to_string()]);
    assert!(!f.node_passes(&movie(1, "M", None)));
}

#[test]
fn normalize_clamps_and_splits() {
    let mut b = browse();
    b.limit = Some(0);
    b.depth = Some(9);
    b.rel = Some(" acted_in, ,Directed ,".to_string());
    b.node_incl = Some("Movie,  Person".to_string());
    b.node_excl = Some("".to_string());
    b.root = Some("  Keanu Reeves ".to_string());
    let f = FilterSet::normalize(&b);
    assert_eq!(f.limit, 1);
    assert_eq!(f.depth, 6);
    assert_eq!(f.rels, vec!["ACTED_IN".to_string(), "DIRECTED".to_string()]);
    assert_eq!(f.node_incl, vec!["Movie".to_string(), "Person".to_string()]);
    assert!(f.node_excl.is_empty());
    assert_eq!(f.root, Some("Keanu Reeves".to_string()));

    let mut b = browse();
    b.limit = Some(5000);
    let f = FilterSet::normalize(&b);
    assert_eq!(f.limit, 1000);
    assert_eq!(f.depth, 0);

    let f = FilterSet::normalize(&browse());
    assert_eq!(f.limit, 200);
    assert!(f.rels.is_empty() && f.node_incl.is_empty() && f.node_excl.is_empty());
    assert!(f.root.is_none());

    let mut b = browse();
    b.limit = Some(-7);
    b.rel = Some(",,, ,".to_string());
    let f = FilterSet::normalize(&b);
    assert_eq!(f.limit, 1);
    assert!(f.rels.is_empty());
}

#[test]
fn identity_falls_back_to_id() {
    let mut m = movie(42, "x", None);
    m.title = None;
    let id = extract_key_label_title(&m);
    assert_eq!(id.key, "movie::#42");
    assert_eq!(id.title, "#42");
    assert_eq!(id.label, "movie");

    let mut p = person(-5, "x");
    p.name = None;
    let id = extract_key_label_title(&p);
    assert_eq!(id.key, "person::#-5");
    assert_eq!(id.title, "#-5");
    assert_eq!(id.label, "person");

    let other = NodeSnapshot {
        id: 1234567,
        labels: vec!["Genre".to_string()],
        title: Some("Sci-Fi".to_string()),
        name: None,
        released: None,
        props: serde_json::Value::Null,
    };
    let id = extract_key_label_title(&other);
    assert_eq!(id.key, "node::1234567");
    assert_eq!(id.title, "#1234567");
    assert_eq!(id.label, "node");

    let mut both = movie(0, "Both", None);
    both.labels.push("Person".to_string());
    both.name = Some("Someone".to_string());
    assert_eq!(extract_key_label_title(&both).key, "movie::Both");

    let mut min = movie(i64::MIN, "x", None);
    min.title = None;
    assert_eq!(extract_key_label_title(&min).title, "#-9223372036854775808");
}
