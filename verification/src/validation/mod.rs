//! The event-model document, its builders, and the rules a document and a
//! corpus of documents must satisfy.

pub mod names;
pub mod model;
pub mod find;
pub mod lists;
pub mod board;
pub mod rules_workflow;
pub mod reach;
pub mod rules_slices;
pub mod rules_outcomes;
pub mod rules_kinds;
pub mod rules_views;
pub mod rules_board;
pub mod rules_connections;
pub mod rules_data;
pub mod validate;
pub mod claims;
pub mod board_graph;
pub mod corpus_lookup;
pub mod corpus_rules;
pub mod corpus_transitions;
pub mod corpus;
