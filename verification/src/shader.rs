//! Shader program construction outcomes.
//!
//! Compiling and linking happen on the GPU side, in the unverified front
//! end; it reports back the handle, the driver's success flag and the
//! driver's diagnostic log.  The decision made from that report — succeed
//! with the handle, or fail with an error that carries the full diagnostic
//! text — lives here.  Both failures are fatal at startup: no shader is ever
//! recompiled at runtime.

use vstd::prelude::*;

verus! {

/// The two shader stages a program is built from.
#[derive(Clone, Copy, Debug, PartialEq, Eq, Structural)]
pub enum ShaderStage {
    Vertex,
    Fragment,
}

/// Why shader program construction failed.  Every variant carries the
/// driver's full diagnostic log, not just a flag.
#[derive(Debug)]
pub enum ShaderError {
    /// The named stage did not compile.
    Compile { stage: ShaderStage, log: String },
    /// The compiled stages did not link.
    Link { log: String },
}

impl ShaderError {
    /// The driver's diagnostic text.
    pub fn log(&self) -> (l: &String)
        ensures
            l@ == match *self {
                ShaderError::Compile { log, .. } => log@,
                ShaderError::Link { log } => log@,
            },
    {
        match self {
            ShaderError::Compile { log, .. } => log,
            ShaderError::Link { log } => log,
        }
    }
}

/// Outcome of compiling one shader stage: the handle exactly when the
/// driver reported success, and otherwise a compile error naming the stage
/// and carrying the driver's log.
pub fn compile_outcome(handle: u32, compiled: bool, log: String, stage: ShaderStage)
    -> (r: Result<u32, ShaderError>)
    ensures
        compiled ==> r == Ok::<u32, ShaderError>(handle),
        !compiled ==> (r matches Err(e) && e matches ShaderError::Compile {
            stage: s,
            log: l,
        } && s == stage && l@ == log@),
{
    if compiled {
        Ok(handle)
    } else {
        Err(ShaderError::Compile { stage, log })
    }
}

/// Outcome of linking a program: the program handle exactly when the driver
/// reported link success, and otherwise a link error carrying the driver's
/// log.
pub fn link_outcome(program: u32, linked: bool, log: String) -> (r: Result<u32, ShaderError>)
    ensures
        linked ==> r == Ok::<u32, ShaderError>(program),
        !linked ==> (r matches Err(e) && e matches ShaderError::Link { log: l } && l@ == log@),
{
    if linked {
        Ok(program)
    } else {
        Err(ShaderError::Link { log })
    }
}

} // verus!
