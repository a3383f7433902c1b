use vstd::prelude::*;

verus! {

/// The step of the pipeline in which an external tool was run.
#[derive(Clone, Copy, Debug, PartialEq, Eq, Structural)]
pub enum Stage {
    /// Pulling the bitcode members out of an rlib archive.
    LinkExtract,
    /// Listing the exported symbols of an ingested module.
    SymbolDump,
    /// The first optimizer run (internalization, dead-code elimination).
    Optimize,
    /// Listing the defined symbols and the forced-inlining optimizer run.
    Inline,
    /// Lowering the optimized module to native code.
    Compile,
}

/// Everything that can stop a linking session.
#[derive(Clone, Debug)]
pub enum LinkerError {
    NoOutputPathError,
    PathArgumentError(String),
    UndefinedReferences(Vec<String>),
    /// The host compiler's version report names no LLVM version.
    ToolchainVersionUnresolved { report: String },
    /// Neither the version-pinned nor the default tool could be started.
    ToolchainNotFound { major: String },
    /// The linker exited unsuccessfully while merging `modules` (in link
    /// order); its output is kept verbatim.
    LinkFailure { modules: Vec<String>, status: Option<i32>, stdout: String, stderr: String },
    /// An external tool exited unsuccessfully; its output is kept verbatim.
    ExternalToolFailure { stage: Stage, status: Option<i32>, stdout: String, stderr: String },
    /// The file of required symbols could not be written; `reason` is the
    /// writer's account, which names the file.
    SymbolFileWriteError { reason: String },
    /// An operation was asked for while the session awaited the outcome of
    /// another, or an outcome arrived that no operation awaited.
    OutOfOrder,
}

} // verus!
