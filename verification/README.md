# emc

The authoring core of the Event Model Compiler, verified with Verus: the
semantic value types that enter the core, the event-model document
validator, the workflow planner, the workflow-document reader and the
verification planner.

## Layout

- `src/text.rs`, `src/search.rs`: character sequences and first-match searches.
- `src/types.rs`, `src/dto.rs`: semantic value types and the boundary parsers
  that build them from raw text (trimming, slugs, closed vocabularies).
- `src/validation/`: the document model and every validation rule, one
  document at a time (`validate.rs`) and across a corpus (`corpus.rs`).
- `src/formal_graph.rs`, `src/workflow.rs`: workflow graphs and the plans that
  add, redescribe, rename and remove a workflow.
- `src/json.rs`, `src/workflow_document.rs`: JSON values, reading JSON text
  with serde_json, and the reading of a workflow document's name,
  description, slices, transitions and slice files.
- `src/workflow_records.rs`: the outcome, command-error, owned-definition,
  transition-evidence and entry-lifecycle records of a workflow graph.
- `src/event_model_files.rs`: picking event-model files out of a listing,
  telling slice files from workflow files, and the messages that place a
  problem in a file.
- `src/effect.rs`, `src/verify.rs`: effect plans and the Lean4/Quint
  verification plan of a project.
- `src/cli.rs`: reading command-line flags.

Each public function states its result exactly in its `ensures`, over spec
functions on plain values; the laws of the library are the `law_*` proof
functions.
