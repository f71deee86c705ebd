//! Backends, the registry that selects one by encoding, and the engine
//! interface through which backends reach the inference runtime.
use crate::error::BackendError;
use crate::tensor::Tensor;
use vstd::prelude::*;

verus! {

/// The model format of a graph.
#[derive(Debug, Clone, Copy, PartialEq, Eq, Structural)]
pub enum GraphEncoding {
    Openvino,
    Pytorch,
}

impl GraphEncoding {
    /// The canonical identifier of the encoding, under which its backend is registered.
    pub open spec fn id(self) -> Seq<char> {
        match self {
            GraphEncoding::Openvino => "openvino"@,
            GraphEncoding::Pytorch => "pytorch"@,
        }
    }

    /// The backend that loads this encoding.
    pub open spec fn backend(self) -> Backend {
        match self {
            GraphEncoding::Openvino => Backend::OpenVINO,
            GraphEncoding::Pytorch => Backend::PyTorch,
        }
    }

    /// The canonical identifier of the encoding.
    pub fn to_string(&self) -> (s: String)
        ensures
            s@ == self.id(),
    {
        match self {
            GraphEncoding::Openvino => "openvino".to_owned(),
            GraphEncoding::Pytorch => "pytorch".to_owned(),
        }
    }
}

/// The device class on which a graph runs.
#[derive(Debug, Clone, Copy, PartialEq, Eq, Structural)]
pub enum ExecutionTarget {
    CPU,
    GPU,
    TPU,
}

/// The device class on which a network runs.
pub type Target = ExecutionTarget;

/// An inference backend: how graphs of one encoding are built.
#[derive(Debug, Clone, Copy, PartialEq, Eq, Structural)]
pub enum Backend {
    OpenVINO,
    PyTorch,
}

impl Backend {
    /// The encoding this backend loads.
    pub open spec fn spec_encoding(self) -> GraphEncoding {
        match self {
            Backend::OpenVINO => GraphEncoding::Openvino,
            Backend::PyTorch => GraphEncoding::Pytorch,
        }
    }

    pub open spec fn spec_name(self) -> Seq<char> {
        self.spec_encoding().id()
    }

    /// Whether the backend needs an architecture buffer besides the weights.
    pub open spec fn needs_architecture(self) -> bool {
        self == Backend::OpenVINO
    }

    /// The backend registered under `id`, if any backend has that name.
    pub open spec fn named(id: Seq<char>) -> Option<Backend> {
        if id == Backend::OpenVINO.spec_name() {
            Some(Backend::OpenVINO)
        } else if id == Backend::PyTorch.spec_name() {
            Some(Backend::PyTorch)
        } else {
            None
        }
    }

    pub fn encoding(&self) -> (e: GraphEncoding)
        ensures
            e == self.spec_encoding(),
    {
        match self {
            Backend::OpenVINO => GraphEncoding::Openvino,
            Backend::PyTorch => GraphEncoding::Pytorch,
        }
    }

    pub fn name(&self) -> (s: String)
        ensures
            s@ == self.spec_name(),
    {
        self.encoding().to_string()
    }
}

impl Backend {
    /// The buffers a backend hands the engine to build a graph, or `None`
    /// when a buffer it needs is missing. OpenVINO takes the architecture
    /// and then the weights; PyTorch takes the weights alone.
    pub open spec fn graph_builders(self, architecture: Option<Seq<u8>>, weights: Seq<u8>) -> Option<
        Seq<Seq<u8>>,
    > {
        if self.needs_architecture() {
            match architecture {
                Some(a) => Some(seq![a, weights]),
                None => None,
            }
        } else {
            Some(seq![weights])
        }
    }

    pub fn builders<'a>(&self, architecture: Option<&'a [u8]>, weights: &'a [u8]) -> (r: Option<
        Vec<&'a [u8]>,
    >)
        ensures
            match r {
                Some(v) => self.graph_builders(view_of(architecture), weights@) == Some(
                    v@.map_values(|b: &[u8]| b@),
                ),
                None => self.graph_builders(view_of(architecture), weights@) is None,
            },
    {
        match self {
            Backend::OpenVINO => match architecture {
                Some(a) => {
                    let v = vec![a, weights];
                    assert(v@.map_values(|b: &[u8]| b@) =~= seq![a@, weights@]);
                    Some(v)
                },
                None => None,
            },
            Backend::PyTorch => {
                let v = vec![weights];
                assert(v@.map_values(|b: &[u8]| b@) =~= seq![weights@]);
                Some(v)
            },
        }
    }

    /// Build a graph on `engine` from the given buffers; the result is the
    /// engine's identifier of the graph.
    ///
    /// Fails with `ModelLoad` when the backend needs an architecture buffer
    /// and none was given, or when the engine rejects the model.
    pub fn load<E: Engine>(
        &self,
        engine: &mut E,
        architecture: Option<&[u8]>,
        weights: &[u8],
        target: ExecutionTarget,
    ) -> (r: Result<u32, BackendError>)
        ensures
            self.needs_architecture() && architecture is None ==> r is Err,
            self.graph_builders(view_of(architecture), weights@) is None ==> r is Err,
            r matches Err(e) ==> e is ModelLoad,
    {
        match self.builders(architecture, weights) {
            Some(builders) => {
                let outcome = engine.load(builders.as_slice(), self.encoding(), target);
                stage_outcome(EngineStage::ModelLoad, outcome)
            },
            None => Err(
                BackendError::ModelLoad(
                    "The model architecture file (*.xml) is required for the OpenVINO backend".to_owned(),
                ),
            ),
        }
    }
}

/// The contents of an optional buffer.
pub open spec fn view_of(b: Option<&[u8]>) -> Option<Seq<u8>> {
    match b {
        Some(b) => Some(b@),
        None => None,
    }
}

/// The inference runtime that backends drive: the wasi-nn host calls.
///
/// Graphs and execution contexts are named by the runtime's own identifiers;
/// a failure is reported as the runtime's message. Nothing is assumed of what
/// an engine returns: every outcome is handled.
pub trait Engine {
    /// Build a graph from `builders` in the given encoding, for `target`.
    fn load(&mut self, builders: &[&[u8]], encoding: GraphEncoding, target: ExecutionTarget) -> Result<u32, String>;

    /// Make a new execution context for a graph.
    fn init_execution_context(&mut self, graph: u32) -> Result<u32, String>;

    /// Bind `tensor` to input `index` of an execution context.
    fn set_input(&mut self, context: u32, index: u32, tensor: &Tensor) -> Result<(), String>;

    /// Run inference on the inputs bound so far.
    fn compute(&mut self, context: u32) -> Result<(), String>;

    /// The bytes of output `index`. An engine that can tell the output's
    /// length returns all of it, also when it is longer than `max_len`; one
    /// that cannot fails when the output does not fit in `max_len` bytes.
    fn get_output(&mut self, context: u32, index: u32, max_len: u32) -> Result<Vec<u8>, String>;
}

/// The step of the engine's work at which a failure is reported.
#[derive(Debug, Clone, Copy, PartialEq, Eq, Structural)]
pub enum EngineStage {
    ModelLoad,
    SetInput,
    Compute,
    GetOutput,
}

impl EngineStage {
    /// The error that reports an engine failure with `message` at this stage.
    pub open spec fn failure(self, message: String) -> BackendError {
        match self {
            EngineStage::ModelLoad => BackendError::ModelLoad(message),
            EngineStage::SetInput => BackendError::SetInput(message),
            EngineStage::Compute => BackendError::Compute(message),
            EngineStage::GetOutput => BackendError::GetOutput(message),
        }
    }
}

/// An engine call's outcome as this library reports it: a success is passed
/// on unchanged, a failure becomes the error of its stage with the engine's
/// message.
pub fn stage_outcome<T>(stage: EngineStage, outcome: Result<T, String>) -> (r: Result<T, BackendError>)
    ensures
        match outcome {
            Ok(v) => r == Ok::<T, BackendError>(v),
            Err(m) => r == Err::<T, BackendError>(stage.failure(m)),
        },
{
    match outcome {
        Ok(v) => Ok(v),
        Err(message) => Err(
            match stage {
                EngineStage::ModelLoad => BackendError::ModelLoad(message),
                EngineStage::SetInput => BackendError::SetInput(message),
                EngineStage::Compute => BackendError::Compute(message),
                EngineStage::GetOutput => BackendError::GetOutput(message),
            },
        ),
    }
}

/// The backend among `backends` whose name is `id`, if any.
pub open spec fn lookup_in(backends: Seq<Backend>, id: Seq<char>) -> Option<Backend> {
    match Backend::named(id) {
        Some(b) => if backends.contains(b) {
            Some(b)
        } else {
            None
        },
        None => None,
    }
}

/// The backend registered under an encoding's identifier loads that encoding.
pub proof fn lemma_dispatch_by_encoding(backends: Seq<Backend>, encoding: GraphEncoding)
    ensures
        lookup_in(backends, encoding.id()) matches Some(b) ==> b.spec_encoding() == encoding,
        backends.contains(encoding.backend()) <==> lookup_in(backends, encoding.id()) == Some(
            encoding.backend(),
        ),
        !backends.contains(encoding.backend()) <==> lookup_in(backends, encoding.id()) is None,
{
    lemma_named_by_own_name(encoding.backend());
}

/// The backends a session consults, keyed by their names.
///
/// Built once; never changed afterwards.
pub struct BackendRegistry {
    backends: Vec<Backend>,
}

impl View for BackendRegistry {
    type V = Seq<Backend>;

    closed spec fn view(&self) -> Seq<Backend> {
        self.backends@
    }
}

impl BackendRegistry {
    /// The backend registered under `id`, if any.
    pub open spec fn lookup(&self, id: Seq<char>) -> Option<Backend> {
        lookup_in(self@, id)
    }

    /// A registry holding the given backends.
    pub fn new(backends: Vec<Backend>) -> (r: Self)
        ensures
            r@ == backends@,
    {
        BackendRegistry { backends }
    }

    /// A registry holding every backend this library provides.
    pub fn with_all_backends() -> (r: Self)
        ensures
            r@ == seq![Backend::OpenVINO, Backend::PyTorch],
    {
        let r = BackendRegistry { backends: vec![Backend::OpenVINO, Backend::PyTorch] };
        assert(r@ =~= seq![Backend::OpenVINO, Backend::PyTorch]);
        r
    }

    /// The backend registered under `id`: an exact match, no fallback.
    pub fn resolve(&self, id: &str) -> (r: Option<Backend>)
        ensures
            r == self.lookup(id@),
    {
        let key = id.to_owned();
        let mut i: usize = 0;
        while i < self.backends.len()
            invariant
                i <= self@.len(),
                key@ == id@,
                forall|k: int| 0 <= k < i ==> self@[k].spec_name() != id@,
            decreases self@.len() - i,
        {
            let b = self.backends[i];
            if b.name() == key {
                proof {
                    lemma_named_by_own_name(b);
                    assert(self@[i as int] == b);
                }
                return Some(b);
            }
            i += 1;
        }
        proof {
            match Backend::named(id@) {
                Some(b) => {
                    lemma_named_by_own_name(b);
                    if self@.contains(b) {
                        let k = choose|k: int| 0 <= k < self@.len() && self@[k] == b;
                        assert(self@[k].spec_name() == id@);
                    }
                },
                None => {},
            }
        }
        None
    }
}

/// Each backend is found again under its own name.
pub proof fn lemma_named_by_own_name(b: Backend)
    ensures
        Backend::named(b.spec_name()) == Some(b),
{
    reveal_strlit("openvino");
    reveal_strlit("pytorch");
    assert(Backend::OpenVINO.spec_name().len() != Backend::PyTorch.spec_name().len());
}

} // verus!
