//! The session: the backend registry, the table of loaded graphs and the
//! table of execution contexts, and the operations that move a model from
//! loading to reading its outputs.
use crate::backend::{
    lookup_in, stage_outcome, view_of, Backend, BackendRegistry, Engine, EngineStage, ExecutionTarget,
    GraphEncoding,
};
use crate::error::{BackendError, UsageError, WasiNnError};
use crate::table::{issued, table_step, Table, TableKey};
use crate::tensor::Tensor;
use vstd::prelude::*;

verus! {

/// A handle to a graph loaded in a session.
#[derive(Debug, Clone, Copy, PartialEq, Eq, Structural)]
pub struct Graph(pub u32);

impl TableKey for Graph {
    open spec fn spec_index(&self) -> nat {
        self.0 as nat
    }

    fn from_index(index: u32) -> (key: Self) {
        Graph(index)
    }

    fn index(&self) -> (index: u32) {
        self.0
    }
}

/// A handle to an execution context of a session.
#[derive(Debug, Clone, Copy, PartialEq, Eq, Structural)]
pub struct GraphExecutionContext(pub u32);

impl TableKey for GraphExecutionContext {
    open spec fn spec_index(&self) -> nat {
        self.0 as nat
    }

    fn from_index(index: u32) -> (key: Self) {
        GraphExecutionContext(index)
    }

    fn index(&self) -> (index: u32) {
        self.0
    }
}

/// A loaded graph: the backend that built it and the engine's identifier for it.
#[derive(Debug, Clone, Copy, PartialEq, Eq, Structural)]
pub struct GraphEntry {
    pub backend: Backend,
    pub graph: u32,
}

/// An execution context: the backend of its graph and the engine's identifier for it.
#[derive(Debug, Clone, Copy, PartialEq, Eq, Structural)]
pub struct ExecutionEntry {
    pub backend: Backend,
    pub context: u32,
}

/// The state of a session: its backends and its two handle tables.
pub struct Ctx {
    backends: BackendRegistry,
    graphs: Table<Graph, GraphEntry>,
    executions: Table<GraphExecutionContext, ExecutionEntry>,
}

impl Ctx {
    pub closed spec fn spec_backends(&self) -> Seq<Backend> {
        self.backends@
    }

    pub closed spec fn spec_graphs(&self) -> Seq<GraphEntry> {
        self.graphs@
    }

    pub closed spec fn spec_executions(&self) -> Seq<ExecutionEntry> {
        self.executions@
    }

    /// A session state with every backend of this library and no graphs or contexts.
    pub fn new() -> (c: Self)
        ensures
            c.spec_backends() == seq![Backend::OpenVINO, Backend::PyTorch],
            c.spec_graphs() == Seq::<GraphEntry>::empty(),
            c.spec_executions() == Seq::<ExecutionEntry>::empty(),
    {
        Self::with_registry(BackendRegistry::with_all_backends())
    }

    /// A session state with the given backends and no graphs or contexts.
    pub fn with_registry(backends: BackendRegistry) -> (c: Self)
        ensures
            c.spec_backends() == backends@,
            c.spec_graphs() == Seq::<GraphEntry>::empty(),
            c.spec_executions() == Seq::<ExecutionEntry>::empty(),
    {
        Ctx { backends, graphs: Table::new(), executions: Table::new() }
    }

    /// Record the outcome of loading a graph with `backend`: a graph the
    /// engine built gets the next graph handle; a failure is passed on and
    /// records nothing.
    pub fn add_graph(&mut self, backend: Backend, outcome: Result<u32, BackendError>) -> (r: Result<
        Graph,
        WasiNnError,
    >)
        requires
            old(self).spec_graphs().len() < u32::MAX,
        ensures
            final(self).spec_backends() == old(self).spec_backends(),
            final(self).spec_executions() == old(self).spec_executions(),
            match outcome {
                Ok(graph) => {
                    &&& r == Ok::<Graph, WasiNnError>(Graph(old(self).spec_graphs().len() as u32))
                    &&& final(self).spec_graphs() == old(self).spec_graphs().push(
                        GraphEntry { backend, graph },
                    )
                    &&& issued(old(self).spec_graphs(), final(self).spec_graphs(), old(self).spec_graphs().len())
                },
                Err(e) => {
                    &&& r == Err::<Graph, WasiNnError>(WasiNnError::BackendError(e))
                    &&& final(self).spec_graphs() == old(self).spec_graphs()
                },
            },
    {
        match outcome {
            Ok(graph) => Ok(self.graphs.insert(GraphEntry { backend, graph })),
            Err(e) => Err(WasiNnError::BackendError(e)),
        }
    }

    /// Record the outcome of making an execution context for a graph of
    /// `backend`: a context the engine made gets the next execution-context
    /// handle; an engine failure becomes `ModelLoad` with the engine's
    /// message and records nothing.
    pub fn add_execution_context(&mut self, backend: Backend, outcome: Result<u32, String>) -> (r:
        Result<GraphExecutionContext, WasiNnError>)
        requires
            old(self).spec_executions().len() < u32::MAX,
        ensures
            final(self).spec_backends() == old(self).spec_backends(),
            final(self).spec_graphs() == old(self).spec_graphs(),
            match outcome {
                Ok(context) => {
                    &&& r == Ok::<GraphExecutionContext, WasiNnError>(
                        GraphExecutionContext(old(self).spec_executions().len() as u32),
                    )
                    &&& final(self).spec_executions() == old(self).spec_executions().push(
                        ExecutionEntry { backend, context },
                    )
                    &&& issued(
                        old(self).spec_executions(),
                        final(self).spec_executions(),
                        old(self).spec_executions().len(),
                    )
                },
                Err(m) => {
                    &&& r == Err::<GraphExecutionContext, WasiNnError>(
                        WasiNnError::BackendError(BackendError::ModelLoad(m)),
                    )
                    &&& final(self).spec_executions() == old(self).spec_executions()
                },
            },
    {
        match outcome {
            Ok(context) => Ok(self.executions.insert(ExecutionEntry { backend, context })),
            Err(message) => Err(WasiNnError::BackendError(BackendError::ModelLoad(message))),
        }
    }
}

/// Copy an output tensor into `destination`, and return the number of bytes
/// written. When the tensor does not fit, nothing is written.
pub fn copy_output(output: &[u8], destination: &mut [u8]) -> (r: Result<u32, BackendError>)
    requires
        old(destination)@.len() <= u32::MAX,
    ensures
        output@.len() > old(destination)@.len() ==> {
            &&& r == Err::<u32, BackendError>(BackendError::NotEnoughMemory(output@.len() as usize))
            &&& final(destination)@ == old(destination)@
        },
        output@.len() <= old(destination)@.len() ==> {
            &&& r == Ok::<u32, BackendError>(output@.len() as u32)
            &&& final(destination)@ == output@ + old(destination)@.subrange(
                output@.len() as int,
                old(destination)@.len() as int,
            )
        },
{
    if output.len() > destination.len() {
        return Err(BackendError::NotEnoughMemory(output.len()));
    }
    let mut i: usize = 0;
    while i < output.len()
        invariant
            i <= output@.len() <= old(destination)@.len(),
            destination@.len() == old(destination)@.len(),
            forall|k: int| 0 <= k < i ==> destination@[k] == output@[k],
            forall|k: int| i <= k < destination@.len() ==> destination@[k] == old(destination)@[k],
        decreases output@.len() - i,
    {
        destination[i] = output[i];
        i += 1;
    }
    assert(destination@ =~= output@ + old(destination)@.subrange(
        output@.len() as int,
        old(destination)@.len() as int,
    ));
    Ok(output.len() as u32)
}

/// A session: its state and the engine that runs its graphs.
///
/// Every operation takes the session exclusively for its whole duration.
pub struct WasiNnCtx<E> {
    ctx: Ctx,
    engine: E,
}

impl<E: Engine> WasiNnCtx<E> {
    pub closed spec fn backends(&self) -> Seq<Backend> {
        self.ctx.spec_backends()
    }

    pub closed spec fn graphs(&self) -> Seq<GraphEntry> {
        self.ctx.spec_graphs()
    }

    pub closed spec fn executions(&self) -> Seq<ExecutionEntry> {
        self.ctx.spec_executions()
    }

    /// Whether `graph` was issued by this session.
    pub open spec fn knows_graph(&self, graph: Graph) -> bool {
        graph.0 < self.graphs().len()
    }

    /// Whether `context` was issued by this session.
    pub open spec fn knows_context(&self, context: GraphExecutionContext) -> bool {
        context.0 < self.executions().len()
    }

    /// A session with every backend of this library, running on `engine`.
    pub fn new(engine: E) -> (s: Self)
        ensures
            s.backends() == seq![Backend::OpenVINO, Backend::PyTorch],
            s.graphs() == Seq::<GraphEntry>::empty(),
            s.executions() == Seq::<ExecutionEntry>::empty(),
    {
        WasiNnCtx { ctx: Ctx::new(), engine }
    }

    /// A session with the given backends, running on `engine`.
    pub fn with_registry(engine: E, backends: BackendRegistry) -> (s: Self)
        ensures
            s.backends() == backends@,
            s.graphs() == Seq::<GraphEntry>::empty(),
            s.executions() == Seq::<ExecutionEntry>::empty(),
    {
        WasiNnCtx { ctx: Ctx::with_registry(backends), engine }
    }

    pub fn engine(&self) -> &E {
        &self.engine
    }

    /// Load a graph from its buffers with the backend registered for
    /// `encoding`, and return the graph's handle.
    ///
    /// Handles are issued in call order, from 0. An encoding without a
    /// registered backend fails with `InvalidEncoding`; a backend that is
    /// missing a buffer it needs, or whose engine rejects the model, fails
    /// with `ModelLoad`. A failed load leaves the session as it was.
    pub fn load_from_bytes(
        &mut self,
        architecture: Option<&[u8]>,
        weights: &[u8],
        encoding: GraphEncoding,
        target: ExecutionTarget,
    ) -> (r: Result<Graph, WasiNnError>)
        requires
            old(self).graphs().len() < u32::MAX,
        ensures
            final(self).backends() == old(self).backends(),
            final(self).executions() == old(self).executions(),
            table_step(
                old(self).graphs(),
                final(self).graphs(),
                match r {
                    Ok(h) => Some(h.0 as nat),
                    Err(_) => None,
                },
            ),
            match lookup_in(old(self).backends(), encoding.id()) {
                None => {
                    &&& r == Err::<Graph, WasiNnError>(
                        WasiNnError::UsageError(UsageError::InvalidEncoding(encoding)),
                    )
                    &&& final(self).graphs() == old(self).graphs()
                },
                Some(b) => {
                    &&& b.graph_builders(view_of(architecture), weights@) is None ==> r is Err
                    &&& match r {
                        Ok(h) => {
                            &&& issued(old(self).graphs(), final(self).graphs(), h.0 as nat)
                            &&& final(self).graphs()[h.0 as int].backend == b
                        },
                        Err(e) => {
                            &&& e matches WasiNnError::BackendError(BackendError::ModelLoad(_))
                            &&& final(self).graphs() == old(self).graphs()
                        },
                    }
                },
            },
    {
        let id = encoding.to_string();
        let backend = match self.ctx.backends.resolve(id.as_str()) {
            Some(b) => b,
            None => {
                return Err(WasiNnError::UsageError(UsageError::InvalidEncoding(encoding)));
            },
        };
        let outcome = backend.load(&mut self.engine, architecture, weights, target);
        self.ctx.add_graph(backend, outcome)
    }

    /// Make a new execution context for a loaded graph, and return its handle.
    ///
    /// A graph handle this session never issued fails with
    /// `InvalidGraphHandle`; an engine that cannot make the context fails
    /// with `ModelLoad`. A failure leaves the session as it was.
    pub fn init_execution_context(&mut self, graph: Graph) -> (r: Result<GraphExecutionContext, WasiNnError>)
        requires
            old(self).executions().len() < u32::MAX,
        ensures
            final(self).backends() == old(self).backends(),
            final(self).graphs() == old(self).graphs(),
            table_step(
                old(self).executions(),
                final(self).executions(),
                match r {
                    Ok(h) => Some(h.0 as nat),
                    Err(_) => None,
                },
            ),
            !old(self).knows_graph(graph) ==> {
                &&& r == Err::<GraphExecutionContext, WasiNnError>(
                    WasiNnError::UsageError(UsageError::InvalidGraphHandle),
                )
                &&& final(self).executions() == old(self).executions()
            },
            old(self).knows_graph(graph) ==> match r {
                Ok(h) => {
                    &&& issued(old(self).executions(), final(self).executions(), h.0 as nat)
                    &&& final(self).executions()[h.0 as int].backend == old(self).graphs()[graph.0 as int].backend
                },
                Err(e) => {
                    &&& e matches WasiNnError::BackendError(BackendError::ModelLoad(_))
                    &&& final(self).executions() == old(self).executions()
                },
            },
    {
        let entry = match self.ctx.graphs.get_mut(graph) {
            Some(entry) => *entry,
            None => {
                return Err(WasiNnError::UsageError(UsageError::InvalidGraphHandle));
            },
        };
        proof {
            assert(self.ctx.graphs@ =~= old(self).ctx.graphs@);
        }
        let outcome = self.engine.init_execution_context(entry.graph);
        self.ctx.add_execution_context(entry.backend, outcome)
    }

    /// The engine's identifier of an execution context, or
    /// `InvalidExecutionContextHandle` when this session never issued it.
    fn context_of(&mut self, context: GraphExecutionContext) -> (r: Result<u32, WasiNnError>)
        ensures
            final(self).backends() == old(self).backends(),
            final(self).graphs() == old(self).graphs(),
            final(self).executions() == old(self).executions(),
            !old(self).knows_context(context) ==> r == Err::<u32, WasiNnError>(
                WasiNnError::UsageError(UsageError::InvalidExecutionContextHandle),
            ),
            old(self).knows_context(context) ==> r == Ok::<u32, WasiNnError>(
                old(self).executions()[context.0 as int].context,
            ),
    {
        match self.ctx.executions.get_mut(context) {
            Some(entry) => {
                let c = entry.context;
                proof {
                    assert(self.ctx.executions@ =~= old(self).ctx.executions@);
                }
                Ok(c)
            },
            None => Err(WasiNnError::UsageError(UsageError::InvalidExecutionContextHandle)),
        }
    }

    /// Bind `tensor` to input `index` of an execution context.
    ///
    /// An unknown handle fails with `InvalidExecutionContextHandle`. A tensor
    /// whose data length does not match its shape and type fails with
    /// `SetInput` before it reaches the engine, as does an engine failure.
    pub fn set_input(&mut self, exec_ctx: GraphExecutionContext, index: u32, tensor: Tensor) -> (r:
        Result<(), WasiNnError>)
        ensures
            final(self).backends() == old(self).backends(),
            final(self).graphs() == old(self).graphs(),
            final(self).executions() == old(self).executions(),
            !old(self).knows_context(exec_ctx) ==> r == Err::<(), WasiNnError>(
                WasiNnError::UsageError(UsageError::InvalidExecutionContextHandle),
            ),
            old(self).knows_context(exec_ctx) ==> {
                &&& !tensor.is_consistent() ==> r is Err
                &&& r matches Err(e) ==> e matches WasiNnError::BackendError(BackendError::SetInput(_))
            },
    {
        let context = match self.context_of(exec_ctx) {
            Ok(c) => c,
            Err(e) => {
                return Err(e);
            },
        };
        if !tensor.has_consistent_len() {
            return Err(
                WasiNnError::BackendError(
                    BackendError::SetInput(
                        "the tensor data length does not match its shape and type".to_owned(),
                    ),
                ),
            );
        }
        let outcome = self.engine.set_input(context, index, &tensor);
        match stage_outcome(EngineStage::SetInput, outcome) {
            Ok(()) => Ok(()),
            Err(e) => Err(WasiNnError::BackendError(e)),
        }
    }

    /// Run inference on an execution context with the inputs bound so far.
    ///
    /// An unknown handle fails with `InvalidExecutionContextHandle`; an
    /// engine failure with `Compute`.
    pub fn compute(&mut self, exec_ctx: GraphExecutionContext) -> (r: Result<(), WasiNnError>)
        ensures
            final(self).backends() == old(self).backends(),
            final(self).graphs() == old(self).graphs(),
            final(self).executions() == old(self).executions(),
            !old(self).knows_context(exec_ctx) ==> r == Err::<(), WasiNnError>(
                WasiNnError::UsageError(UsageError::InvalidExecutionContextHandle),
            ),
            old(self).knows_context(exec_ctx) ==> (r matches Err(e) ==> e matches WasiNnError::BackendError(
                BackendError::Compute(_),
            )),
    {
        let context = match self.context_of(exec_ctx) {
            Ok(c) => c,
            Err(e) => {
                return Err(e);
            },
        };
        let outcome = self.engine.compute(context);
        match stage_outcome(EngineStage::Compute, outcome) {
            Ok(()) => Ok(()),
            Err(e) => Err(WasiNnError::BackendError(e)),
        }
    }

    /// Copy output `index` of an execution context into `out_buffer`, and
    /// return the number of bytes written.
    ///
    /// An unknown handle fails with `InvalidExecutionContextHandle`; an
    /// output longer than `out_buffer` with `NotEnoughMemory`; an engine
    /// failure with `GetOutput`. On every failure `out_buffer` is left as it
    /// was; on success only its first bytes-written bytes change.
    pub fn get_output(&mut self, exec_ctx: GraphExecutionContext, index: u32, out_buffer: &mut [u8]) -> (r:
        Result<u32, WasiNnError>)
        requires
            old(out_buffer)@.len() <= u32::MAX,
        ensures
            final(self).backends() == old(self).backends(),
            final(self).graphs() == old(self).graphs(),
            final(self).executions() == old(self).executions(),
            final(out_buffer)@.len() == old(out_buffer)@.len(),
            !old(self).knows_context(exec_ctx) ==> r == Err::<u32, WasiNnError>(
                WasiNnError::UsageError(UsageError::InvalidExecutionContextHandle),
            ),
            r is Err ==> final(out_buffer)@ == old(out_buffer)@,
            r matches Ok(n) ==> {
                &&& n <= old(out_buffer)@.len()
                &&& final(out_buffer)@.subrange(n as int, old(out_buffer)@.len() as int)
                    == old(out_buffer)@.subrange(n as int, old(out_buffer)@.len() as int)
            },
            old(self).knows_context(exec_ctx) ==> (r matches Err(e) ==> match e {
                WasiNnError::BackendError(BackendError::GetOutput(_)) => true,
                WasiNnError::BackendError(BackendError::NotEnoughMemory(m)) => m > old(out_buffer)@.len(),
                _ => false,
            }),
    {
        let context = match self.context_of(exec_ctx) {
            Ok(c) => c,
            Err(e) => {
                return Err(e);
            },
        };
        let outcome = self.engine.get_output(context, index, out_buffer.len() as u32);
        match stage_outcome(EngineStage::GetOutput, outcome) {
            Ok(output) => match copy_output(output.as_slice(), out_buffer) {
                Err(e) => {
                    let produced = output.len();
                    assert(e == BackendError::NotEnoughMemory(produced));
                    Err(WasiNnError::BackendError(e))
                },
                Ok(n) => {
                    proof {
                        assert(out_buffer@.subrange(n as int, out_buffer@.len() as int)
                            =~= old(out_buffer)@.subrange(n as int, old(out_buffer)@.len() as int));
                    }
                    Ok(n)
                },
            },
            Err(e) => Err(WasiNnError::BackendError(e)),
        }
    }

    /// The number of graphs loaded so far.
    pub fn graph_count(&self) -> (n: usize)
        ensures
            n == self.graphs().len(),
    {
        self.ctx.graphs.len()
    }

    /// The number of execution contexts made so far.
    pub fn execution_count(&self) -> (n: usize)
        ensures
            n == self.executions().len(),
    {
        self.ctx.executions.len()
    }
}

} // verus!
