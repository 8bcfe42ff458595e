//! How a generation run fails.

use vstd::prelude::*;

verus! {

/// What made a generation run fail.
#[derive(Clone, Copy, Debug, PartialEq, Eq, Structural)]
pub enum GenerationErrorKind {
    /// A template is not well formed.
    TemplateParseError,
    /// A template does not fit the context that it was rendered with.
    TemplateRenderError,
    /// The package name or a flag name is not well formed.
    ContractViolation,
}

/// A failed generation run: nothing was generated for `package`.
#[derive(Clone, Debug)]
pub struct GenerationError {
    pub package: String,
    pub kind: GenerationErrorKind,
}

/// The mathematical value of a [`GenerationError`].
pub struct GenerationErrorView {
    pub package: Seq<char>,
    pub kind: GenerationErrorKind,
}

impl View for GenerationError {
    type V = GenerationErrorView;

    open spec fn view(&self) -> GenerationErrorView {
        GenerationErrorView { package: self.package@, kind: self.kind }
    }
}

impl GenerationError {
    /// The failure of kind `kind` for `package`.
    pub fn new(package: &str, kind: GenerationErrorKind) -> (error: GenerationError)
        ensures
            error@ == (GenerationErrorView { package: package@, kind }),
    {
        GenerationError { package: String::from_str(package), kind }
    }
}

} // verus!
