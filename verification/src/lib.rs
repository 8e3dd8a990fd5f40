//! Event model authoring core: semantic boundary types, the event-model
//! document validator and the workflow/verification planners.

pub mod text;
pub mod search;
pub mod types;
pub mod dto;
pub mod validation;
pub mod json;
pub mod workflow_records;
pub mod formal_graph;
pub mod effect;
pub mod verify;
pub mod workflow;
pub mod workflow_document;
pub mod cli;
pub mod event_model_files;
