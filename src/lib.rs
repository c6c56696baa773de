//! Graph browsing over a movies property graph: filter normalisation, query
//! selection and the assembly of an edge stream into compact nodes and links.
pub mod api;
pub mod assemble;
pub mod config;
pub mod filters;
pub mod graph;
pub mod query;
pub mod text;
