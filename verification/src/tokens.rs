//! The lexical token model the parser consumes.
//!
//! A token stream is a flat sequence of tokens: identifiers, string literals,
//! braces, commas, and any other token carried through verbatim as raw text.
//! Brace matching is the parser's job, so an unterminated block is detectable.

use vstd::prelude::*;

verus! {

/// One lexical token of the notation.
#[derive(Debug)]
pub enum Token {
    /// An identifier (a keyword such as `suite`, or a user name).
    Ident(String),
    /// A string literal; the field holds its contents without quotes.
    LitStr(String),
    /// An opening brace `{`.
    LBrace,
    /// A closing brace `}`.
    RBrace,
    /// A comma `,`.
    Comma,
    /// Any other token, carried through verbatim as its source text.
    Other(String),
}

/// The mathematical value of a token: the same shape over `Seq<char>`.
pub enum Tok {
    Ident(Seq<char>),
    LitStr(Seq<char>),
    LBrace,
    RBrace,
    Comma,
    Other(Seq<char>),
}

impl View for Token {
    type V = Tok;

    open spec fn view(&self) -> Tok {
        match self {
            Token::Ident(s) => Tok::Ident(s@),
            Token::LitStr(s) => Tok::LitStr(s@),
            Token::LBrace => Tok::LBrace,
            Token::RBrace => Tok::RBrace,
            Token::Comma => Tok::Comma,
            Token::Other(s) => Tok::Other(s@),
        }
    }
}

impl DeepView for Token {
    type V = Tok;

    open spec fn deep_view(&self) -> Tok {
        self.view()
    }
}

impl Token {
    /// An exact copy: unlike a derived `Clone`, its effect is specified.
    pub fn duplicate(&self) -> (r: Token)
        ensures
            r@ == self@,
    {
        match self {
            Token::Ident(s) => Token::Ident(s.clone()),
            Token::LitStr(s) => Token::LitStr(s.clone()),
            Token::LBrace => Token::LBrace,
            Token::RBrace => Token::RBrace,
            Token::Comma => Token::Comma,
            Token::Other(s) => Token::Other(s.clone()),
        }
    }
}

/// An exact copy of a token sequence, element for element.
pub fn clone_tokens(v: &Vec<Token>) -> (r: Vec<Token>)
    ensures
        r.deep_view() == v.deep_view(),
{
    let mut r: Vec<Token> = Vec::new();
    let mut i: usize = 0;
    while i < v.len()
        invariant
            i <= v.len(),
            r.len() == i,
            forall|j: int| 0 <= j < i ==> r@[j]@ == v@[j]@,
        decreases v.len() - i,
    {
        r.push(v[i].duplicate());
        i = i + 1;
    }
    proof {
        assert(r.deep_view() =~= v.deep_view());
    }
    r
}

} // verus!
