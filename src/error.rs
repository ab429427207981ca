//! What generation hands back: generated files, or why there are none.

use vstd::prelude::*;
use vstd::string::*;

verus! {

/// Why generation of a plugin's files failed.
#[derive(Clone, Debug)]
pub enum GenerationError {
    /// An attribute's content-type has no registered target type.
    UnknownContentType(String),
    /// The template engine failed; carries the engine's message.
    TemplateFailure(String),
}

/// The mathematical value of a [`GenerationError`].
pub enum GenerationErrorView {
    UnknownContentType(Seq<char>),
    TemplateFailure(Seq<char>),
}

impl View for GenerationError {
    type V = GenerationErrorView;

    open spec fn view(&self) -> GenerationErrorView {
        match self {
            GenerationError::UnknownContentType(c) => GenerationErrorView::UnknownContentType(c@),
            GenerationError::TemplateFailure(m) => GenerationErrorView::TemplateFailure(m@),
        }
    }
}

/// The text that describes an error.
pub open spec fn error_message(e: GenerationErrorView) -> Seq<char> {
    match e {
        GenerationErrorView::UnknownContentType(c) => "no typescript type defined for \""@ + c
            + "\"!"@,
        GenerationErrorView::TemplateFailure(m) => m,
    }
}

impl GenerationError {
    /// The text that describes this error.
    pub fn message(&self) -> (r: String)
        ensures
            r@ == error_message(self@),
    {
        match self {
            GenerationError::UnknownContentType(c) => {
                let mut r = "no typescript type defined for \"".to_owned();
                r.append(c.as_str());
                r.append("\"!");
                r
            },
            GenerationError::TemplateFailure(m) => m.clone(),
        }
    }
}

/// A file to be written: a path relative to the package root and its text.
#[derive(Clone, Debug)]
pub struct GeneratedFile {
    pub path: String,
    pub content: String,
}

/// The mathematical value of a [`GeneratedFile`].
pub struct GeneratedFileView {
    pub path: Seq<char>,
    pub content: Seq<char>,
}

impl View for GeneratedFile {
    type V = GeneratedFileView;

    open spec fn view(&self) -> GeneratedFileView {
        GeneratedFileView { path: self.path@, content: self.content@ }
    }
}

} // verus!
