//! Session management for wasi-nn inference: handle tables for loaded graphs
//! and execution contexts, a registry of backends selected by encoding, and
//! the load → init → set_input → compute → get_output lifecycle.
pub mod backend;
pub mod ctx;
pub mod error;
pub mod network;
pub mod table;
pub mod tensor;

pub use backend::{
    stage_outcome, Backend, BackendRegistry, Engine, EngineStage, ExecutionTarget, GraphEncoding,
    Target,
};
pub use ctx::{copy_output, Ctx, ExecutionEntry, Graph, GraphEntry, GraphExecutionContext, WasiNnCtx};
pub use error::{BackendError, UsageError, WasiNnError};
pub use network::{bounded_output, Network};
pub use table::{Table, TableKey};
pub use tensor::{Dimension, Dtype, Tensor};
