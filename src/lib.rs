//! A stream-dataflow execution engine: the descriptor of a linear
//! pipeline, the per-key semantics of its stateful operators, keyed
//! routing, the input pump's epoch protocol, and the decisions of the
//! worker loop and of the cluster supervisor.
pub mod cluster;
pub mod dataflow;
pub mod operators;
pub mod pump;
pub mod routing;
pub mod worker;
