//! Declarations as the registrar and the synthesizer read them: plain records
//! that stand for a method, its configuration and the entry point.
use vstd::prelude::*;

verus! {

/// The value of a configuration argument.
#[derive(Debug, Clone, PartialEq, Eq)]
pub enum Literal {
    /// An integer literal, held as it was written.
    Int(String),
    /// Any other literal.
    Other,
}

/// One argument of a method's configuration.
#[derive(Debug, Clone, PartialEq, Eq)]
pub enum AttributeArg {
    /// `key = value`.
    NameValue { key: String, value: Literal },
    /// Anything else: a bare word, a nested list, a literal.
    Other,
}

/// How a parameter is bound.
#[derive(Debug, Clone, PartialEq, Eq)]
pub enum Binding {
    /// A receiver: `self`, `&self`, `&mut self`.
    Receiver,
    /// A simple identifier.
    Ident(String),
    /// A destructuring pattern, or any other pattern.
    Pattern,
}

/// One parameter of a method: its binding and its type.
#[derive(Debug, Clone, PartialEq, Eq)]
pub struct Param {
    pub binding: Binding,
    pub ty: String,
}

/// A method declaration. Visibility, types and body are carried through
/// verbatim; `return_type` is `None` where the declaration names none.
#[derive(Debug, Clone, PartialEq, Eq)]
pub struct MethodDecl {
    pub name: String,
    pub visibility: String,
    pub return_type: Option<String>,
    pub params: Vec<Param>,
    pub body: String,
}

/// The entry point's declaration: its return type, if it names one, and the
/// statements of its body, verbatim.
#[derive(Debug, Clone, PartialEq, Eq)]
pub struct EntryDecl {
    pub return_type: Option<String>,
    pub body: String,
}

/// The text of an optional piece of a declaration.
pub open spec fn option_text(t: Option<String>) -> Option<Seq<char>> {
    match t {
        Some(s) => Some(s@),
        None => None,
    }
}

/// Whether `s` holds exactly the text `word`.
pub fn text_is(s: &String, word: &str) -> (b: bool)
    ensures
        b == (s@ == word@),
{
    let w = String::from_str(word);
    *s == w
}

} // verus!
