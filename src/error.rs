//! The errors a session reports: caller misuse, engine failures, and I/O
//! failures while reading model files.
use crate::backend::GraphEncoding;
use vstd::prelude::*;

verus! {

/// std::io::Error, an I/O failure while reading a model file. Carried
/// opaque; nothing is assumed of it.
#[verifier::external_type_specification]
#[verifier::external_body]
pub struct ExIoError(std::io::Error);

/// Possible errors while interacting with a session.
#[derive(Debug)]
pub enum WasiNnError {
    InvalidPath(std::io::Error),
    BackendError(BackendError),
    UsageError(UsageError),
}

/// The caller used the session API wrongly; never the engine's fault.
#[derive(Debug)]
pub enum UsageError {
    InvalidContext,
    InvalidEncoding(GraphEncoding),
    InvalidNumberOfBuilders(u32),
    InvalidGraphHandle,
    InvalidExecutionContextHandle,
    NotEnoughMemory(u32),
}

/// A backend or the engine behind it failed.
#[derive(Debug)]
pub enum BackendError {
    InvalidPath(std::io::Error),
    ModelLoad(String),
    SetInput(String),
    Compute(String),
    GetOutput(String),
    InvalidNumberOfBuilders(u32, u32),
    NotEnoughMemory(usize),
}

} // verus!
