//! The suite-reference dialect: `suite <Type> { <fn>, <fn>, ... }` blocks.
//!
//! Grammar, over the tokens of `crate::tokens`:
//!
//! ```text
//! Root  := Suite*
//! Suite := "suite" Ident "{" (Ident ("," Ident)*)? ","? "}"
//! ```
//!
//! Parsing is single-pass recursive descent with no backtracking; a malformed
//! stream yields one fatal error and no output. The specification-level
//! parser below defines the grammar; the executable parser is proved to
//! return exactly its result.

use vstd::prelude::*;
use crate::errors::ErrorKind;
use crate::errors::ParseError;
use crate::names::snake_of;
use crate::names::to_snake_case;
use crate::tokens::Tok;
use crate::tokens::Token;

verus! {

/// One referenced test function: its name, the derived snake-case name used
/// as the generated test identifier, and the owning suite type.
#[derive(Debug)]
pub struct Func {
    pub struct_ident: String,
    pub function: String,
    pub function_name: String,
}

/// The mathematical value of a `Func`.
pub struct FuncV {
    pub struct_ident: Seq<char>,
    pub function: Seq<char>,
    pub function_name: Seq<char>,
}

impl View for Func {
    type V = FuncV;

    open spec fn view(&self) -> FuncV {
        FuncV {
            struct_ident: self.struct_ident@,
            function: self.function@,
            function_name: self.function_name@,
        }
    }
}

impl DeepView for Func {
    type V = FuncV;

    open spec fn deep_view(&self) -> FuncV {
        self.view()
    }
}

/// One suite block: the introducing keyword, the suite type it is bound to,
/// the derived snake-case module name, and the referenced test functions.
#[derive(Debug)]
pub struct Suite {
    pub ident: String,
    pub suite_struct: String,
    pub suite_struct_name: String,
    pub functions: Vec<Func>,
}

/// The mathematical value of a `Suite`.
pub struct SuiteV {
    pub ident: Seq<char>,
    pub suite_struct: Seq<char>,
    pub suite_struct_name: Seq<char>,
    pub functions: Seq<FuncV>,
}

impl View for Suite {
    type V = SuiteV;

    open spec fn view(&self) -> SuiteV {
        SuiteV {
            ident: self.ident@,
            suite_struct: self.suite_struct@,
            suite_struct_name: self.suite_struct_name@,
            functions: self.functions.deep_view(),
        }
    }
}

impl DeepView for Suite {
    type V = SuiteV;

    open spec fn deep_view(&self) -> SuiteV {
        self.view()
    }
}

/// The whole input: the ordered suite blocks, and the fixed identifier of
/// the generated top-level test namespace.
#[derive(Debug)]
pub struct Root {
    pub ident: String,
    pub describes: Vec<Suite>,
}

/// The mathematical value of a `Root`.
pub struct RootV {
    pub ident: Seq<char>,
    pub describes: Seq<SuiteV>,
}

impl View for Root {
    type V = RootV;

    open spec fn view(&self) -> RootV {
        RootV { ident: self.ident@, describes: self.describes.deep_view() }
    }
}

impl DeepView for Root {
    type V = RootV;

    open spec fn deep_view(&self) -> RootV {
        self.view()
    }
}

/// The `Func` derived from a referenced function name.
pub open spec fn func_of(struct_ident: Seq<char>, name: Seq<char>) -> FuncV {
    FuncV { struct_ident: struct_ident, function: name, function_name: snake_of(name) }
}

/// The functions derived from a list of referenced names, in order.
pub open spec fn funcs_of(struct_ident: Seq<char>, names: Seq<Seq<char>>) -> Seq<FuncV> {
    names.map_values(|n: Seq<char>| func_of(struct_ident, n))
}

/// Grammar of a brace-enclosed function list, entered just after the opening
/// brace: identifiers separated by commas, a trailing comma tolerated, ended
/// by the closing brace. Yields the names and the count of tokens consumed,
/// closing brace included; `None` on malformed or unterminated input.
pub open spec fn spec_parse_funcs(t: Seq<Tok>) -> Option<(Seq<Seq<char>>, int)>
    decreases t.len(),
{
    if t.len() == 0 {
        None
    } else {
        match t[0] {
            Tok::RBrace => Some((Seq::empty(), 1)),
            Tok::Ident(name) => if t.len() < 2 {
                None
            } else {
                match t[1] {
                    Tok::RBrace => Some((seq![name], 2)),
                    Tok::Comma => match spec_parse_funcs(t.skip(2)) {
                        Some((rest, n)) => Some((seq![name] + rest, n + 2)),
                        None => None,
                    },
                    _ => None,
                }
            },
            _ => None,
        }
    }
}

/// Grammar of one suite block at the head of the stream: the keyword
/// `suite`, the suite type, and the braced function list. Yields the block
/// and the count of tokens consumed.
pub open spec fn spec_parse_suite(t: Seq<Tok>) -> Option<(SuiteV, int)> {
    if t.len() >= 3 && t[0] == Tok::Ident("suite"@) {
        match (t[1], t[2]) {
            (Tok::Ident(name), Tok::LBrace) => match spec_parse_funcs(t.skip(3)) {
                Some((names, n)) => Some(
                    (
                        SuiteV {
                            ident: "suite"@,
                            suite_struct: name,
                            suite_struct_name: snake_of(name),
                            functions: funcs_of(name, names),
                        },
                        n + 3,
                    ),
                ),
                None => None,
            },
            _ => None,
        }
    } else {
        None
    }
}

/// Grammar of the whole stream: suite blocks until the input ends. The empty
/// stream is legal and yields zero suites.
pub open spec fn spec_parse_suites(t: Seq<Tok>) -> Option<Seq<SuiteV>>
    decreases t.len(),
{
    if t.len() == 0 {
        Some(Seq::empty())
    } else {
        match spec_parse_suite(t) {
            Some((s, n)) => if 0 < n <= t.len() {
                match spec_parse_suites(t.skip(n)) {
                    Some(rest) => Some(seq![s] + rest),
                    None => None,
                }
            } else {
                None
            },
            None => None,
        }
    }
}

/// The whole input as a `Root`, under the fixed namespace name `tests`.
pub open spec fn spec_parse_root(t: Seq<Tok>) -> Option<RootV> {
    match spec_parse_suites(t) {
        Some(suites) => Some(RootV { ident: "tests"@, describes: suites }),
        None => None,
    }
}

/// Parses the function list of one suite, starting just after the opening
/// brace at token `i`.
fn parse_funcs(toks: &Vec<Token>, i: usize, suite_struct: &String) -> (r: Result<
    (Vec<Func>, usize),
    ParseError,
>)
    requires
        i <= toks@.len(),
    ensures
        match r {
            Ok((fs, n)) => {
                &&& n >= 1
                &&& i + n <= toks@.len()
                &&& exists|names: Seq<Seq<char>>|
                    spec_parse_funcs(toks.deep_view().skip(i as int)) == Some(
                        (names, n as int),
                    ) && fs.deep_view() == funcs_of(suite_struct@, names)
            },
            Err(e) => spec_parse_funcs(toks.deep_view().skip(i as int)) is None && e.pos
                <= toks@.len(),
        },
    decreases toks@.len() - i,
{
    let ghost t = toks.deep_view().skip(i as int);
    if i >= toks.len() {
        return Err(ParseError { pos: i, kind: ErrorKind::UnterminatedBlock });
    }
    proof {
        assert(t[0] == toks.deep_view()[i as int]);
    }
    match &toks[i] {
        Token::RBrace => {
            let fs: Vec<Func> = Vec::new();
            proof {
                assert(funcs_of(suite_struct@, Seq::empty()) =~= Seq::<FuncV>::empty());
                assert(fs.deep_view() =~= Seq::<FuncV>::empty());
            }
            Ok((fs, 1))
        },
        Token::Ident(name) => {
            if i + 1 >= toks.len() {
                return Err(ParseError { pos: toks.len(), kind: ErrorKind::UnterminatedBlock });
            }
            proof {
                assert(t[1] == toks.deep_view()[i + 1]);
            }
            let func = Func {
                struct_ident: suite_struct.clone(),
                function: name.clone(),
                function_name: to_snake_case(name.as_str()),
            };
            match &toks[i + 1] {
                Token::RBrace => {
                    let mut fs: Vec<Func> = Vec::new();
                    fs.push(func);
                    proof {
                        let names = seq![name@];
                        assert(spec_parse_funcs(t) == Some((names, 2int)));
                        assert(fs.deep_view() =~= funcs_of(suite_struct@, names));
                    }
                    Ok((fs, 2))
                },
                Token::Comma => {
                    match parse_funcs(toks, i + 2, suite_struct) {
                        Ok((rest, n)) => {
                            let ghost names0 = choose|names: Seq<Seq<char>>|
                                spec_parse_funcs(toks.deep_view().skip(i + 2)) == Some(
                                    (names, n as int),
                                ) && rest.deep_view() == funcs_of(suite_struct@, names);
                            let mut fs: Vec<Func> = Vec::new();
                            fs.push(func);
                            let mut k: usize = 0;
                            let rest_len = rest.len();
                            let mut rest_mut = rest;
                            // move the tail functions over, keeping order
                            while k < rest_len
                                invariant
                                    k <= rest_len,
                                    rest_len == rest_mut.len(),
                                    fs@.len() == k + 1,
                                    fs.deep_view() == seq![
                                        func_of(suite_struct@, name@),
                                    ] + rest_mut.deep_view().take(k as int),
                                    rest_mut.deep_view() == funcs_of(suite_struct@, names0),
                                decreases rest_len - k,
                            {
                                let f = Func {
                                    struct_ident: rest_mut[k].struct_ident.clone(),
                                    function: rest_mut[k].function.clone(),
                                    function_name: rest_mut[k].function_name.clone(),
                                };
                                proof {
                                    assert(f@ == rest_mut.deep_view()[k as int]);
                                }
                                let ghost pre = fs.deep_view();
                                fs.push(f);
                                proof {
                                    assert(fs.deep_view() =~= pre + seq![f@]);
                                    assert(fs.deep_view() =~= seq![
                                        func_of(suite_struct@, name@),
                                    ] + rest_mut.deep_view().take(k + 1));
                                }
                                k = k + 1;
                            }
                            proof {
                                let names = seq![name@] + names0;
                                assert(t.skip(2) =~= toks.deep_view().skip(i + 2));
                                assert(spec_parse_funcs(t) == Some((names, n + 2int)));
                                assert(rest_mut.deep_view().take(rest_len as int) =~= rest_mut.deep_view());
                                assert(fs.deep_view() =~= funcs_of(suite_struct@, names)) by {
                                    assert(rest_mut.deep_view() =~= funcs_of(suite_struct@, names0));
                                    assert(forall|j: int|
                                        0 <= j < names.len() ==> #[trigger] funcs_of(
                                            suite_struct@,
                                            names,
                                        )[j] == func_of(suite_struct@, names[j]));
                                }
                            }
                            Ok((fs, n + 2))
                        },
                        Err(e) => {
                            proof {
                                assert(t.skip(2) =~= toks.deep_view().skip(i + 2));
                            }
                            Err(e)
                        },
                    }
                },
                _ => Err(ParseError { pos: i + 1, kind: ErrorKind::UnexpectedToken }),
            }
        },
        _ => Err(ParseError { pos: i, kind: ErrorKind::UnexpectedToken }),
    }
}

/// Parses one suite block starting at token `i`.
fn parse_suite(toks: &Vec<Token>, i: usize) -> (r: Result<(Suite, usize), ParseError>)
    requires
        i < toks@.len(),
    ensures
        match r {
            Ok((s, n)) => {
                &&& n >= 1
                &&& i + n <= toks@.len()
                &&& spec_parse_suite(toks.deep_view().skip(i as int)) == Some(
                    (s.deep_view(), n as int),
                )
            },
            Err(e) => spec_parse_suite(toks.deep_view().skip(i as int)) is None && e.pos
                <= toks@.len(),
        },
{
    let ghost t = toks.deep_view().skip(i as int);
    proof {
        assert(t[0] == toks.deep_view()[i as int]);
    }
    let kw: String = match &toks[i] {
        Token::Ident(s) => s.clone(),
        _ => {
            return Err(ParseError { pos: i, kind: ErrorKind::UnexpectedToken });
        },
    };
    if !(kw == "suite".to_owned()) {
        return Err(ParseError { pos: i, kind: ErrorKind::UnknownKeyword });
    }
    if toks.len() - i < 3 {
        return Err(ParseError { pos: toks.len(), kind: ErrorKind::UnterminatedBlock });
    }
    proof {
        assert(t[1] == toks.deep_view()[i + 1]);
        assert(t[2] == toks.deep_view()[i + 2]);
    }
    let name: String = match &toks[i + 1] {
        Token::Ident(s) => s.clone(),
        _ => {
            return Err(ParseError { pos: i + 1, kind: ErrorKind::UnexpectedToken });
        },
    };
    match &toks[i + 2] {
        Token::LBrace => {},
        _ => {
            return Err(ParseError { pos: i + 2, kind: ErrorKind::UnexpectedToken });
        },
    }
    match parse_funcs(toks, i + 3, &name) {
        Ok((fs, n)) => {
            let suite = Suite {
                ident: kw,
                suite_struct: name.clone(),
                suite_struct_name: to_snake_case(name.as_str()),
                functions: fs,
            };
            proof {
                assert(t.skip(3) =~= toks.deep_view().skip(i + 3));
                let names = choose|names: Seq<Seq<char>>|
                    spec_parse_funcs(toks.deep_view().skip(i + 3)) == Some((names, n as int))
                        && suite.functions.deep_view() == funcs_of(name@, names);
                assert(spec_parse_suite(t) == Some((suite.deep_view(), n + 3int)));
            }
            Ok((suite, n + 3))
        },
        Err(e) => {
            proof {
                assert(t.skip(3) =~= toks.deep_view().skip(i + 3));
            }
            Err(e)
        },
    }
}

impl Root {
    /// Parses a whole token stream into a `Root`. An empty stream is legal
    /// and yields a root with zero suites; a malformed stream yields exactly
    /// one fatal error, and the grammar (`spec_parse_root`) decides which
    /// streams are malformed.
    pub fn parse(toks: &Vec<Token>) -> (r: Result<Root, ParseError>)
        ensures
            match r {
                Ok(root) => spec_parse_root(toks.deep_view()) == Some(root.deep_view()),
                Err(e) => spec_parse_root(toks.deep_view()) is None && e.pos <= toks@.len(),
            },
    {
        let ghost t = toks.deep_view();
        let mut describes: Vec<Suite> = Vec::new();
        let mut i: usize = 0;
        proof {
            assert(t.skip(0) =~= t);
            assert(describes.deep_view() =~= Seq::<SuiteV>::empty());
        }
        while i < toks.len()
            invariant
                i <= toks@.len(),
                t == toks.deep_view(),
                spec_parse_suites(t) == match spec_parse_suites(t.skip(i as int)) {
                    Some(rest) => Some(describes.deep_view() + rest),
                    None => None::<Seq<SuiteV>>,
                },
            decreases toks@.len() - i,
        {
            match parse_suite(toks, i) {
                Ok((s, n)) => {
                    proof {
                        assert(t.skip(i as int).skip(n as int) =~= t.skip(i + n));
                        assert(t.skip(i as int).len() > 0);
                    }
                    let ghost old_describes = describes.deep_view();
                    describes.push(s);
                    proof {
                        assert(describes.deep_view() =~= old_describes + seq![s.deep_view()]);
                        assert forall|rest: Seq<SuiteV>| #[trigger]
                            ((old_describes + seq![s.deep_view()]) + rest) == old_describes + (seq![
                                s.deep_view(),
                            ] + rest) by {
                            assert((old_describes + seq![s.deep_view()]) + rest =~= old_describes
                                + (seq![s.deep_view()] + rest));
                        }
                    }
                    i = i + n;
                },
                Err(e) => {
                    proof {
                        assert(t.skip(i as int).len() > 0);
                    }
                    return Err(e);
                },
            }
        }
        proof {
            assert(t.skip(i as int) =~= Seq::<Tok>::empty());
            assert(t.skip(i as int).len() == 0);
            assert(describes.deep_view() + Seq::<SuiteV>::empty() =~= describes.deep_view());
        }
        Ok(Root { ident: "tests".to_owned(), describes })
    }
}

} // verus!
