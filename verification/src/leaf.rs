//! Leaf values that the item tree composes but does not construct.
//!
//! An external lexer and the expression/statement/type sub-parsers produce
//! these; the tree only stores them. Identifiers and source ranges are kept
//! as plain values (name text and byte offsets) so that the composition
//! logic can be stated and checked over them.

use vstd::prelude::*;

verus! {

/// A source range: byte offsets of the start and end of a token or item.
#[derive(Clone, Copy, Debug, PartialEq, Eq, Hash, Structural)]
pub struct Span {
    pub lo: u32,
    pub hi: u32,
}

/// An identifier: its name text and where it stands in the source.
#[derive(Clone, Debug)]
pub struct Ident {
    pub name: String,
    pub span: Span,
}

impl Ident {
    /// The name text of the identifier.
    pub fn as_str(&self) -> (r: &str)
        ensures
            r@ == self.name@,
    {
        self.name.as_str()
    }
}

/// A string literal: its decoded content and where it stands in the source.
///
/// Escape sequences were already decoded by the lexer; `value` holds the
/// resulting text.
#[derive(Clone, Debug)]
pub struct StrLit {
    pub value: String,
    pub span: Span,
}

/// A documentation comment attached to an item.
#[derive(Clone, Debug)]
pub struct DocComment {
    pub text: String,
    pub span: Span,
}

/// A dot-separated path of identifiers: `A.B.c`.
#[derive(Clone, Debug)]
pub struct Path {
    pub segments: Vec<Ident>,
}

/// An already-parsed type. Its internal grammar lies outside this tree.
#[derive(Clone, Debug)]
pub struct Ty {
    pub span: Span,
}

/// An already-parsed expression. Its internal grammar lies outside this tree.
#[derive(Clone, Debug)]
pub struct Expr {
    pub span: Span,
}

/// An already-parsed block of statements. Its internal grammar lies outside
/// this tree.
#[derive(Clone, Debug)]
pub struct Block {
    pub span: Span,
}

/// Already-parsed call arguments, as in `Base(1, 2)` of an inheritance
/// specifier or modifier invocation. Their internal grammar lies outside
/// this tree.
#[derive(Clone, Debug)]
pub struct CallArgs {
    pub span: Span,
}

/// One lexed token, as the pragma grammar sees it: an identifier, a string
/// literal, or any other token kept by its spelling.
#[derive(Clone, Debug)]
pub enum Token {
    /// An identifier token.
    Ident(Ident),
    /// A string literal token.
    StrLit(StrLit),
    /// Any other token, kept by its spelling.
    Other(String, Span),
}

/// A semantic-versioning requirement: `^0.8.0`, `>=0.7.0 <0.9.0`.
///
/// Kept as the raw token run it was parsed from; its internal grammar lies
/// outside this tree.
#[derive(Clone, Debug)]
pub struct SemverReq {
    pub tokens: Vec<Token>,
}

} // verus!
