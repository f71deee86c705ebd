//! A single OpenVINO model with one execution context, run input by input.
use crate::backend::{stage_outcome, Backend, Engine, EngineStage, Target};
use crate::error::BackendError;
use crate::tensor::{Dimension, Tensor};
use vstd::prelude::*;

verus! {

/// The output of an inference when it fits in `len` bytes, exactly as the
/// engine produced it; `NotEnoughMemory` with the output's length otherwise.
pub fn bounded_output(output: Vec<u8>, len: u32) -> (r: Result<Vec<u8>, BackendError>)
    ensures
        output@.len() > len ==> (r matches Err(BackendError::NotEnoughMemory(m)) && m
            == output@.len()),
        output@.len() <= len ==> r == Ok::<Vec<u8>, BackendError>(output),
{
    let produced = output.len();
    if produced > len as usize {
        Err(BackendError::NotEnoughMemory(produced))
    } else {
        Ok(output)
    }
}

/// A loaded model together with the execution context that runs it.
#[derive(Debug)]
pub struct Network {
    ctx: u32,
    backend: Backend,
    target: Target,
}

impl Network {
    pub closed spec fn spec_context(&self) -> u32 {
        self.ctx
    }

    pub closed spec fn spec_backend(&self) -> Backend {
        self.backend
    }

    pub closed spec fn spec_target(&self) -> Target {
        self.target
    }

    /// Load an OpenVINO model from its XML description and weights, and make
    /// an execution context for it on `engine`.
    ///
    /// Fails with `ModelLoad` when the engine rejects the model or cannot
    /// make the context.
    pub fn init_openvino<E: Engine>(engine: &mut E, xml: &[u8], weights: &[u8], target: Target) -> (r:
        Result<Self, BackendError>)
        ensures
            match r {
                Ok(n) => n.spec_backend() == Backend::OpenVINO && n.spec_target() == target,
                Err(e) => e is ModelLoad,
            },
    {
        let backend = Backend::OpenVINO;
        let graph = match backend.load(engine, Some(xml), weights, target) {
            Ok(g) => g,
            Err(e) => {
                return Err(e);
            },
        };
        let outcome = engine.init_execution_context(graph);
        match stage_outcome(EngineStage::ModelLoad, outcome) {
            Ok(ctx) => Ok(Network { ctx, backend, target }),
            Err(e) => Err(e),
        }
    }

    /// Run the model on `input_tensor` and return the bytes of its first
    /// output, which `out_dim` bounds.
    ///
    /// An input whose data length does not match its shape and type fails
    /// with `SetInput` before it reaches the engine. An output longer than
    /// `out_dim` calls for fails with `NotEnoughMemory`; an output size that
    /// does not fit in a `u32`, or an engine failure, with `GetOutput`.
    pub fn infer<E: Engine>(&self, engine: &mut E, input_tensor: &Tensor, out_dim: Dimension) -> (r:
        Result<Vec<u8>, BackendError>)
        ensures
            !input_tensor.is_consistent() ==> r matches Err(BackendError::SetInput(_)),
            out_dim.spec_byte_len() > u32::MAX ==> r is Err,
            r matches Ok(out) ==> out@.len() <= out_dim.spec_byte_len(),
            r matches Err(e) ==> match e {
                BackendError::SetInput(_) => true,
                BackendError::Compute(_) => true,
                BackendError::GetOutput(_) => true,
                BackendError::NotEnoughMemory(m) => m > out_dim.spec_byte_len(),
                _ => false,
            },
    {
        if !input_tensor.has_consistent_len() {
            return Err(
                BackendError::SetInput(
                    "the tensor data length does not match its shape and type".to_owned(),
                ),
            );
        }
        let bound = engine.set_input(self.ctx, 0, input_tensor);
        match stage_outcome(EngineStage::SetInput, bound) {
            Ok(()) => {},
            Err(e) => {
                return Err(e);
            },
        }
        let computed = engine.compute(self.ctx);
        match stage_outcome(EngineStage::Compute, computed) {
            Ok(()) => {},
            Err(e) => {
                return Err(e);
            },
        }
        let len = match out_dim.byte_len() {
            Some(len) => len,
            None => {
                return Err(
                    BackendError::GetOutput(
                        "the output size does not fit in a 32-bit buffer length".to_owned(),
                    ),
                );
            },
        };
        let outcome = engine.get_output(self.ctx, 0, len);
        match stage_outcome(EngineStage::GetOutput, outcome) {
            Ok(output) => bounded_output(output, len),
            Err(e) => Err(e),
        }
    }

    pub fn backend(&self) -> (b: Backend)
        ensures
            b == self.spec_backend(),
    {
        self.backend
    }

    pub fn target(&self) -> (t: Target)
        ensures
            t == self.spec_target(),
    {
        self.target
    }
}

} // verus!
