//! The error taxonomy of the pipeline and the usage line.

use vstd::prelude::*;

verus! {

/// Which stage of the pipeline failed.
#[derive(Clone, Copy, Debug, PartialEq, Eq, Structural)]
pub enum ErrorKind {
    /// A file could not be opened, read, created or written.
    Io,
    /// The data file parsed, but its root is not a mapping.
    DataFormat,
    /// The data file text is not valid structured-data syntax.
    Parse,
    /// The template failed to compile.
    TemplateSyntax,
    /// The template compiled but failed during evaluation.
    TemplateRender,
    /// The invocation itself is malformed.
    Usage,
}

/// A failure of one pipeline stage, tagged with the stage's kind and a
/// human-readable message.
#[derive(Debug)]
pub struct AppError {
    pub kind: ErrorKind,
    pub message: String,
}

impl AppError {
    /// The message to report for this error.
    pub fn message_text(&self) -> (r: &String)
        ensures
            r == &self.message,
    {
        &self.message
    }
}

/// Builds an error of the given kind around a message.
pub fn app_error(kind: ErrorKind, message: String) -> (r: AppError)
    ensures
        r.kind == kind,
        r.message == message,
{
    AppError { kind, message }
}

/// The one-line usage summary shown when no template path was supplied.
pub fn usage_message() -> (r: String)
    ensures
        r@ == "tpl-gen [-d DATA_FILE] [-o OUT_FILE] [-v:VAR_NAME VAR_VALUE]... TEMPLATE_FILE"@,
{
    "tpl-gen [-d DATA_FILE] [-o OUT_FILE] [-v:VAR_NAME VAR_VALUE]... TEMPLATE_FILE".to_owned()
}

} // verus!
