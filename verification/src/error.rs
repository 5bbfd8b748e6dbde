//! The closed set of fatal conditions a build can end in. Every
//! variant carries enough context (provenance, offending value) to act
//! on without re-running; the caller formats and prints them.

use vstd::prelude::*;

use crate::source_info::SourceInfoKind;

verus! {

/// Where a module declaration stood in the specification document.
/// Unlike [`SourceInfoKind`] it exists before any module content is
/// read, so name-collision errors can point at both declarations.
#[derive(Debug, Clone, PartialEq, Eq)]
pub enum DeclOrigin {
    Local { path: String },
    Remote { url: String, commit: String, path: String },
}

/// A fatal build condition.
#[derive(Debug, Clone, PartialEq, Eq)]
pub enum BuildError {
    /// The specification document or a module document fails
    /// structural validation.
    SchemaViolation { instance_path: String, schema_path: String, message: String },
    /// One module name is declared more than once, in any combination
    /// of local and remote inputs.
    DuplicateModuleName { name: String, first_decl: DeclOrigin, second_decl: DeclOrigin },
    /// An output references a module that no input declares.
    UnknownModuleReference { name: String },
    /// A usage omits a variable the module requires.
    MissingRequiredVariable { name: String, origin: SourceInfoKind },
    /// A usage supplies a variable the module neither requires nor
    /// accepts optionally.
    UnknownProvidedVariable { name: String, origin: SourceInfoKind },
    /// A declared file path escapes the build directory.
    PathTraversalRejected { path: String },
    /// Two modules declare the same required-file destination.
    RequiredFileConflict { path: String, first: SourceInfoKind, second: SourceInfoKind },
    /// The underlying version-control tool failed; carries its output
    /// verbatim.
    RemoteFetchFailure { url: String, detail: String },
    /// A remote url is neither the SSH nor the HTTPS form.
    UnsupportedRemoteUrl { url: String },
    /// The template engine rejected a part's body.
    TemplateRenderError { origin: SourceInfoKind, detail: String },
    /// No module resolved for any output.
    NoModulesResolved,
    /// No artifact was produced from the resolved modules.
    NoArtifactsProduced,
    /// A pre- or post-build hook exited non-zero.
    HookFailure { command: String, detail: String },
    /// An assignment value could not be resolved: its environment
    /// variable is unset, or its shell command failed.
    ValueResolutionFailure { value: String, detail: String },
}

} // verus!
