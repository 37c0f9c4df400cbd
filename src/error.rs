//! Why a template could not be built, or could not be rendered.
use vstd::prelude::*;

verus! {

/// The kinds of values that template expressions evaluate to.
#[derive(PartialEq, Eq, Structural, Clone, Copy, Debug)]
pub enum ValueKind {
    Text,
    Boolean,
    CommitOrChangeId,
    IdWithHighlightedPrefix,
    Signature,
    Timestamp,
}

/// Why a template source could not be turned into a renderer.
#[derive(Debug)]
pub enum TemplateError {
    /// The source does not follow the grammar; the position (in characters)
    /// where it stops following it.
    Syntax(usize),
    /// A string literal holds a backslash followed by this character, which
    /// is no escape of the language.
    InvalidEscape(char),
    /// No keyword has this name.
    UnknownIdentifier(Vec<char>),
    /// No function has this name.
    UnknownFunction(Vec<char>),
    /// Values of this kind have no method of this name.
    NoSuchMethod(ValueKind, Vec<char>),
    /// This function was called with this many arguments, which it does not take.
    ArgumentCount(Vec<char>, usize),
    /// The condition of `if` is of this kind, which cannot stand as a boolean.
    NotBoolean(ValueKind),
    /// The condition of `if` is a composite template, which cannot stand as a boolean.
    TemplateAsBoolean,
    /// A method of this name was called on a composite template, which has no methods.
    MethodOnTemplate(Vec<char>),
}

/// What a [`TemplateError`] says, with the names as character sequences.
pub enum ErrorModel {
    Syntax(nat),
    InvalidEscape(char),
    UnknownIdentifier(Seq<char>),
    UnknownFunction(Seq<char>),
    NoSuchMethod(ValueKind, Seq<char>),
    ArgumentCount(Seq<char>, nat),
    NotBoolean(ValueKind),
    TemplateAsBoolean,
    MethodOnTemplate(Seq<char>),
}

impl View for TemplateError {
    type V = ErrorModel;

    open spec fn view(&self) -> ErrorModel {
        match self {
            TemplateError::Syntax(p) => ErrorModel::Syntax(*p as nat),
            TemplateError::InvalidEscape(c) => ErrorModel::InvalidEscape(*c),
            TemplateError::UnknownIdentifier(n) => ErrorModel::UnknownIdentifier(n@),
            TemplateError::UnknownFunction(n) => ErrorModel::UnknownFunction(n@),
            TemplateError::NoSuchMethod(k, n) => ErrorModel::NoSuchMethod(*k, n@),
            TemplateError::ArgumentCount(n, c) => ErrorModel::ArgumentCount(n@, *c as nat),
            TemplateError::NotBoolean(k) => ErrorModel::NotBoolean(*k),
            TemplateError::TemplateAsBoolean => ErrorModel::TemplateAsBoolean,
            TemplateError::MethodOnTemplate(n) => ErrorModel::MethodOnTemplate(n@),
        }
    }
}

/// Why a built template could not be rendered against a record.
#[derive(PartialEq, Eq, Structural, Clone, Copy, Debug)]
pub enum RenderError {
    /// `first_line` was applied to an empty text, which has no lines.
    NoFirstLine,
}

} // verus!
