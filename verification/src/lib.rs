//! Host side of a bridge to a shader compiler that exposes its objects through
//! reference-counted, vtable-dispatched handles.
//!
//! The native calls themselves are made by the embedding program. This crate
//! holds what the host decides around them: how a status code and the
//! out-parameters of a call become a typed result, what a byte buffer or a
//! virtual file system hands to the compiler when it calls back, how compiler
//! options and session descriptors are assembled, and what a program layout
//! answers once its reflection data has been read.
pub mod blob;
pub mod codes;
pub mod component;
pub mod desc;
pub mod handle;
pub mod impls;
pub mod options;
pub mod reflection;
pub mod session;
pub mod utils;

pub use blob::{Blob, BlobOrigin};
pub use codes::{
    CapabilityID, CompileTarget, DebugInfoLevel, FloatingPointMode, LineDirectiveMode,
    OptimizationLevel, ProfileID, SourceLanguage, Stage,
};
pub use component::{ComponentType, EntryPoint, Metadata, Module, TypeConformance};
pub use desc::{FileSystem, SessionDesc, TargetDesc};
pub use handle::Handle;
pub use options::{
    CompilerOptionEntry, CompilerOptionName, CompilerOptionValueKind, CompilerOptions,
};
pub use reflection::shader::{ProgramLayout, ProgramLayoutTables};
pub use session::{GlobalSession, Session};
pub use utils::{
    is_c_string, result_from_blob, result_from_ffi, succeeded, Error, E_FAIL, E_INVALIDARG,
    E_NOINTERFACE, S_OK,
};
