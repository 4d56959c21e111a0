//! Error handling.
//!
//! Only runtime-detectable failures become error values: allocation failure,
//! compile or link failure, and a shape/sampling combination that storage
//! allocation cannot represent. Every other misuse is a documented
//! precondition of the underlying context, reported asynchronously through
//! the debug channel rather than through return values.

use vstd::prelude::*;

use crate::pipeline::Pipeline;
use crate::pipeline::Shader;

verus! {

/// The error code with which the context reports an out-of-memory condition.
pub const OUT_OF_MEMORY_CODE: u32 = 0x0505;

/// Error return codes.
#[derive(Debug, Clone, Copy, PartialEq, Eq, Structural)]
pub enum Error {
    /// The context could not allocate memory for the resource.
    OutOfMemory,
    /// Shader compilation failed; carries the still-valid shader handle so
    /// that the caller can inspect its log before deciding how to proceed.
    CompileError(Shader),
    /// Pipeline linking failed; carries the still-valid pipeline handle so
    /// that the caller can inspect its log before deciding how to proceed.
    LinkError(Pipeline),
    /// The described combination of shape and sampling has no representable
    /// storage allocation.
    Unsupported,
}

/// Interpret an error code read back from the context after an allocation
/// call: out-of-memory is the one runtime-detectable failure; every other
/// code is a usage violation reported through the debug channel instead.
pub fn error_from_code(code: u32) -> (r: Result<(), Error>)
    ensures
        r is Err <==> code == OUT_OF_MEMORY_CODE,
        r matches Err(e) ==> e == Error::OutOfMemory,
{
    if code == OUT_OF_MEMORY_CODE {
        Err(Error::OutOfMemory)
    } else {
        Ok(())
    }
}

} // verus!
