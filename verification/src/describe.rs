//! The describe dialect: labelled groups of inline tests with optional
//! per-test and run-once hooks.
//!
//! Grammar, over the tokens of `crate::tokens`:
//!
//! ```text
//! Root     := Describe*
//! Describe := "describe" StringLiteral "{" (Hook | Test)* "}"
//! Hook     := ("setup_all"|"teardown_all"|"setup"|"teardown") "{" Stmt* "}"
//! Test     := "test" StringLiteral "{" Stmt* "}"
//! ```
//!
//! Each hook kind may appear at most once per group. Statement bodies are
//! opaque token runs with balanced braces, carried through verbatim; an
//! unbalanced body makes the block unterminated. The specification-level
//! parser defines the grammar; the executable parser is proved to return
//! exactly its result.

use vstd::prelude::*;
use crate::errors::ErrorKind;
use crate::errors::ParseError;
use crate::tokens::Tok;
use crate::tokens::Token;

verus! {

/// One inline test: its free-text label and its statement block.
#[derive(Debug)]
pub struct Test {
    pub name: String,
    pub content: Vec<Token>,
}

/// The mathematical value of a `Test`.
pub struct TestV {
    pub name: Seq<char>,
    pub content: Seq<Tok>,
}

impl View for Test {
    type V = TestV;

    open spec fn view(&self) -> TestV {
        TestV { name: self.name@, content: self.content.deep_view() }
    }
}

impl DeepView for Test {
    type V = TestV;

    open spec fn deep_view(&self) -> TestV {
        self.view()
    }
}

/// One describe block: its label, its optional hook bodies, and its tests.
#[derive(Debug)]
pub struct Describe {
    pub name: String,
    pub setup: Option<Vec<Token>>,
    pub teardown: Option<Vec<Token>>,
    pub setup_all: Option<Vec<Token>>,
    pub teardown_all: Option<Vec<Token>>,
    pub tests: Vec<Test>,
}

/// The mathematical value of a `Describe`.
pub struct DescribeV {
    pub name: Seq<char>,
    pub setup: Option<Seq<Tok>>,
    pub teardown: Option<Seq<Tok>>,
    pub setup_all: Option<Seq<Tok>>,
    pub teardown_all: Option<Seq<Tok>>,
    pub tests: Seq<TestV>,
}

impl View for Describe {
    type V = DescribeV;

    open spec fn view(&self) -> DescribeV {
        DescribeV {
            name: self.name@,
            setup: self.setup.deep_view(),
            teardown: self.teardown.deep_view(),
            setup_all: self.setup_all.deep_view(),
            teardown_all: self.teardown_all.deep_view(),
            tests: self.tests.deep_view(),
        }
    }
}

impl DeepView for Describe {
    type V = DescribeV;

    open spec fn deep_view(&self) -> DescribeV {
        self.view()
    }
}

/// The whole input of this dialect: the ordered describe blocks, under the
/// fixed identifier of the generated top-level test namespace.
#[derive(Debug)]
pub struct Root {
    pub ident: String,
    pub describes: Vec<Describe>,
}

/// The mathematical value of a `Root`.
pub struct RootV {
    pub ident: Seq<char>,
    pub describes: Seq<DescribeV>,
}

impl View for Root {
    type V = RootV;

    open spec fn view(&self) -> RootV {
        RootV { ident: self.ident@, describes: self.describes.deep_view() }
    }
}

impl DeepView for Root {
    type V = RootV;

    open spec fn deep_view(&self) -> RootV {
        self.view()
    }
}

/// A describe block with its label and nothing else yet.
pub open spec fn empty_describe(label: Seq<char>) -> DescribeV {
    DescribeV {
        name: label,
        setup: None,
        teardown: None,
        setup_all: None,
        teardown_all: None,
        tests: Seq::empty(),
    }
}

/// How many tokens a statement body runs on, up to and including the brace
/// that closes the enclosing block; `depth` counts braces opened inside the
/// body. `None` when the input ends before the block closes.
pub open spec fn spec_scan_body(t: Seq<Tok>, depth: int) -> Option<int>
    decreases t.len(),
{
    if t.len() == 0 {
        None
    } else {
        match t[0] {
            Tok::RBrace => if depth == 0 {
                Some(1)
            } else {
                match spec_scan_body(t.skip(1), depth - 1) {
                    Some(n) => Some(n + 1),
                    None => None,
                }
            },
            Tok::LBrace => match spec_scan_body(t.skip(1), depth + 1) {
                Some(n) => Some(n + 1),
                None => None,
            },
            _ => match spec_scan_body(t.skip(1), depth) {
                Some(n) => Some(n + 1),
                None => None,
            },
        }
    }
}

/// The block with one hook body recorded, or `None` when that hook was
/// already given or the keyword names no hook.
pub open spec fn record_hook(acc: DescribeV, kw: Seq<char>, body: Seq<Tok>) -> Option<DescribeV> {
    if kw == "setup"@ {
        if acc.setup is None {
            Some(DescribeV { setup: Some(body), ..acc })
        } else {
            None
        }
    } else if kw == "teardown"@ {
        if acc.teardown is None {
            Some(DescribeV { teardown: Some(body), ..acc })
        } else {
            None
        }
    } else if kw == "setup_all"@ {
        if acc.setup_all is None {
            Some(DescribeV { setup_all: Some(body), ..acc })
        } else {
            None
        }
    } else if kw == "teardown_all"@ {
        if acc.teardown_all is None {
            Some(DescribeV { teardown_all: Some(body), ..acc })
        } else {
            None
        }
    } else {
        None
    }
}

/// Whether the identifier names a hook block.
pub open spec fn is_hook_kw(kw: Seq<char>) -> bool {
    kw == "setup"@ || kw == "teardown"@ || kw == "setup_all"@ || kw == "teardown_all"@
}

/// Grammar of the items of one describe block, entered just after its
/// opening brace, given what the block holds so far: hooks and tests in any
/// order, each hook kind at most once, closed by the matching brace. Yields
/// the completed block and the count of tokens consumed, closing brace
/// included.
pub open spec fn spec_parse_items(t: Seq<Tok>, acc: DescribeV) -> Option<(DescribeV, int)>
    decreases t.len(),
{
    if t.len() == 0 {
        None
    } else {
        match t[0] {
            Tok::RBrace => Some((acc, 1)),
            Tok::Ident(kw) => if kw == "test"@ {
                if t.len() >= 3 {
                    match (t[1], t[2]) {
                        (Tok::LitStr(name), Tok::LBrace) => match spec_scan_body(t.skip(3), 0) {
                            Some(n) => if 1 <= n && 3 + n <= t.len() {
                                let test = TestV { name: name, content: t.skip(3).take(n - 1) };
                                let acc2 = DescribeV { tests: acc.tests + seq![test], ..acc };
                                match spec_parse_items(t.skip(3 + n), acc2) {
                                    Some((d, m)) => Some((d, m + 3 + n)),
                                    None => None,
                                }
                            } else {
                                None
                            },
                            None => None,
                        },
                        _ => None,
                    }
                } else {
                    None
                }
            } else if is_hook_kw(kw) {
                if t.len() >= 2 && t[1] == Tok::LBrace {
                    match spec_scan_body(t.skip(2), 0) {
                        Some(n) => if 1 <= n && 2 + n <= t.len() {
                            let body = t.skip(2).take(n - 1);
                            match record_hook(acc, kw, body) {
                                Some(acc2) => match spec_parse_items(t.skip(2 + n), acc2) {
                                    Some((d, m)) => Some((d, m + 2 + n)),
                                    None => None,
                                },
                                None => None,
                            }
                        } else {
                            None
                        },
                        None => None,
                    }
                } else {
                    None
                }
            } else {
                None
            },
            _ => None,
        }
    }
}

/// Grammar of one describe block at the head of the stream.
pub open spec fn spec_parse_describe(t: Seq<Tok>) -> Option<(DescribeV, int)> {
    if t.len() >= 3 && t[0] == Tok::Ident("describe"@) {
        match (t[1], t[2]) {
            (Tok::LitStr(label), Tok::LBrace) => match spec_parse_items(
                t.skip(3),
                empty_describe(label),
            ) {
                Some((d, n)) => Some((d, n + 3)),
                None => None,
            },
            _ => None,
        }
    } else {
        None
    }
}

/// Grammar of the whole stream: describe blocks until the input ends. The
/// empty stream is legal and yields zero blocks.
pub open spec fn spec_parse_describes(t: Seq<Tok>) -> Option<Seq<DescribeV>>
    decreases t.len(),
{
    if t.len() == 0 {
        Some(Seq::empty())
    } else {
        match spec_parse_describe(t) {
            Some((d, n)) => if 0 < n <= t.len() {
                match spec_parse_describes(t.skip(n)) {
                    Some(rest) => Some(seq![d] + rest),
                    None => None,
                }
            } else {
                None
            },
            None => None,
        }
    }
}

/// The whole input as a `Root`, under the fixed namespace name `tests`.
pub open spec fn spec_parse_droot(t: Seq<Tok>) -> Option<RootV> {
    match spec_parse_describes(t) {
        Some(describes) => Some(RootV { ident: "tests"@, describes }),
        None => None,
    }
}

/// Collects a statement body starting at token `i` (just after its opening
/// brace), up to the brace that closes it; the closing brace is consumed but
/// not part of the body.
fn scan_body(toks: &Vec<Token>, i: usize) -> (r: Result<(Vec<Token>, usize), ParseError>)
    requires
        i <= toks@.len(),
    ensures
        match r {
            Ok((body, n)) => {
                &&& 1 <= n
                &&& i + n <= toks@.len()
                &&& spec_scan_body(toks.deep_view().skip(i as int), 0) == Some(n as int)
                &&& body.deep_view() == toks.deep_view().skip(i as int).take(n - 1)
            },
            Err(e) => spec_scan_body(toks.deep_view().skip(i as int), 0) is None && e.pos
                <= toks@.len(),
        },
{
    let ghost t = toks.deep_view();
    let mut body: Vec<Token> = Vec::new();
    let mut depth: usize = 0;
    let mut j: usize = i;
    proof {
        assert(body.deep_view() =~= t.skip(i as int).take(0));
    }
    while j < toks.len()
        invariant
            i <= j <= toks@.len(),
            depth <= j - i,
            t == toks.deep_view(),
            body.deep_view() == t.skip(i as int).take(j - i),
            spec_scan_body(t.skip(i as int), 0) == match spec_scan_body(
                t.skip(j as int),
                depth as int,
            ) {
                Some(m) => Some(m + (j - i)),
                None => None::<int>,
            },
        decreases toks@.len() - j,
    {
        proof {
            assert(t.skip(j as int)[0] == t[j as int]);
            assert(t.skip(j as int).skip(1) =~= t.skip(j + 1));
        }
        let ghost pre = body.deep_view();
        match &toks[j] {
            Token::RBrace => {
                if depth == 0 {
                    return Ok((body, j - i + 1));
                }
                depth = depth - 1;
                body.push(toks[j].duplicate());
            },
            Token::LBrace => {
                depth = depth + 1;
                body.push(toks[j].duplicate());
            },
            _ => {
                body.push(toks[j].duplicate());
            },
        }
        proof {
            assert(body.deep_view() =~= pre + seq![t[j as int]]);
            assert(body.deep_view() =~= t.skip(i as int).take(j + 1 - i));
        }
        j = j + 1;
    }
    proof {
        assert(t.skip(j as int) =~= Seq::<Tok>::empty());
    }
    Err(ParseError { pos: toks.len(), kind: ErrorKind::UnterminatedBlock })
}

/// Parses one describe block starting at token `i`.
fn parse_describe(toks: &Vec<Token>, i: usize) -> (r: Result<(Describe, usize), ParseError>)
    requires
        i < toks@.len(),
    ensures
        match r {
            Ok((d, n)) => {
                &&& n >= 1
                &&& i + n <= toks@.len()
                &&& spec_parse_describe(toks.deep_view().skip(i as int)) == Some(
                    (d.deep_view(), n as int),
                )
            },
            Err(e) => spec_parse_describe(toks.deep_view().skip(i as int)) is None && e.pos
                <= toks@.len(),
        },
{
    let ghost t = toks.deep_view();
    proof {
        assert(t.skip(i as int)[0] == t[i as int]);
    }
    let kw: String = match &toks[i] {
        Token::Ident(s) => s.clone(),
        _ => {
            return Err(ParseError { pos: i, kind: ErrorKind::UnexpectedToken });
        },
    };
    if !(kw == "describe".to_owned()) {
        return Err(ParseError { pos: i, kind: ErrorKind::UnknownKeyword });
    }
    if toks.len() - i < 3 {
        return Err(ParseError { pos: toks.len(), kind: ErrorKind::UnterminatedBlock });
    }
    proof {
        assert(t.skip(i as int)[1] == t[i + 1]);
        assert(t.skip(i as int)[2] == t[i + 2]);
    }
    let label: String = match &toks[i + 1] {
        Token::LitStr(s) => s.clone(),
        _ => {
            return Err(ParseError { pos: i + 1, kind: ErrorKind::UnexpectedToken });
        },
    };
    match &toks[i + 2] {
        Token::LBrace => {},
        _ => {
            return Err(ParseError { pos: i + 2, kind: ErrorKind::UnexpectedToken });
        },
    }
    let ghost items_start = i + 3;
    let ghost acc0 = empty_describe(label@);
    proof {
        assert(t.skip(i as int).skip(3) =~= t.skip(i + 3));
    }
    let mut setup: Option<Vec<Token>> = None;
    let mut teardown: Option<Vec<Token>> = None;
    let mut setup_all: Option<Vec<Token>> = None;
    let mut teardown_all: Option<Vec<Token>> = None;
    let mut tests: Vec<Test> = Vec::new();
    let mut j: usize = i + 3;
    proof {
        assert(tests.deep_view() =~= Seq::<TestV>::empty());
    }
    while j < toks.len()
        invariant
            i + 3 <= j <= toks@.len(),
            t == toks.deep_view(),
            items_start == i + 3,
            acc0 == empty_describe(label@),
            spec_parse_describe(t.skip(i as int)) == match spec_parse_items(
                t.skip(items_start),
                acc0,
            ) {
                Some((d, m)) => Some((d, m + 3)),
                None => None::<(DescribeV, int)>,
            },
            spec_parse_items(t.skip(items_start), acc0) == match spec_parse_items(
                t.skip(j as int),
                DescribeV {
                    name: label@,
                    setup: setup.deep_view(),
                    teardown: teardown.deep_view(),
                    setup_all: setup_all.deep_view(),
                    teardown_all: teardown_all.deep_view(),
                    tests: tests.deep_view(),
                },
            ) {
                Some((d, m)) => Some((d, m + (j - items_start))),
                None => None::<(DescribeV, int)>,
            },
        decreases toks@.len() - j,
    {
        let ghost acc_cur = DescribeV {
            name: label@,
            setup: setup.deep_view(),
            teardown: teardown.deep_view(),
            setup_all: setup_all.deep_view(),
            teardown_all: teardown_all.deep_view(),
            tests: tests.deep_view(),
        };
        proof {
            assert(t.skip(j as int)[0] == t[j as int]);
        }
        match &toks[j] {
            Token::RBrace => {
                let d = Describe { name: label, setup, teardown, setup_all, teardown_all, tests };
                proof {
                    assert(spec_parse_items(t.skip(j as int), acc_cur) == Some(
                        (acc_cur, 1int),
                    ));
                    assert(d.deep_view() == acc_cur);
                    assert(spec_parse_describe(t.skip(i as int)) == Some(
                        (d.deep_view(), (j + 1 - i) as int),
                    ));
                }
                return Ok((d, j + 1 - i));
            },
            Token::Ident(s) => {
                let kw2: String = s.clone();
                if kw2 == "test".to_owned() {
                    if toks.len() - j < 3 {
                        return Err(
                            ParseError { pos: toks.len(), kind: ErrorKind::UnterminatedBlock },
                        );
                    }
                    proof {
                        assert(t.skip(j as int)[1] == t[j + 1]);
                        assert(t.skip(j as int)[2] == t[j + 2]);
                    }
                    let tname: String = match &toks[j + 1] {
                        Token::LitStr(s2) => s2.clone(),
                        _ => {
                            return Err(
                                ParseError { pos: j + 1, kind: ErrorKind::UnexpectedToken },
                            );
                        },
                    };
                    match &toks[j + 2] {
                        Token::LBrace => {},
                        _ => {
                            return Err(
                                ParseError { pos: j + 2, kind: ErrorKind::UnexpectedToken },
                            );
                        },
                    }
                    proof {
                        assert(t.skip(j as int).skip(3) =~= t.skip(j + 3));
                    }
                    match scan_body(toks, j + 3) {
                        Ok((body, n)) => {
                            let ghost pre_tests = tests.deep_view();
                            tests.push(Test { name: tname, content: body });
                            proof {
                                let test = TestV {
                                    name: t.skip(j as int)[1]->LitStr_0,
                                    content: t.skip(j as int).skip(3).take(n - 1),
                                };
                                assert(t.skip(j as int).skip(3).take(n - 1) =~= t.skip(j + 3).take(
                                    n - 1,
                                ));
                                assert(tests.deep_view() =~= pre_tests + seq![test]);
                                assert(t.skip(j as int).skip(3 + n as int) =~= t.skip(
                                    j + 3 + n,
                                ));
                            }
                            j = j + 3 + n;
                        },
                        Err(e) => {
                            return Err(e);
                        },
                    }
                } else if kw2 == "setup".to_owned() || kw2 == "teardown".to_owned() || kw2
                    == "setup_all".to_owned() || kw2 == "teardown_all".to_owned() {
                    if toks.len() - j < 2 {
                        return Err(
                            ParseError { pos: toks.len(), kind: ErrorKind::UnterminatedBlock },
                        );
                    }
                    proof {
                        assert(t.skip(j as int)[1] == t[j + 1]);
                    }
                    match &toks[j + 1] {
                        Token::LBrace => {},
                        _ => {
                            return Err(
                                ParseError { pos: j + 1, kind: ErrorKind::UnexpectedToken },
                            );
                        },
                    }
                    proof {
                        assert(t.skip(j as int).skip(2) =~= t.skip(j + 2));
                    }
                    match scan_body(toks, j + 2) {
                        Ok((body, n)) => {
                            let ghost bodyv = t.skip(j as int).skip(2).take(n - 1);
                            proof {
                                assert(bodyv =~= t.skip(j + 2).take(n - 1));
                            }
                            let dup = if kw2 == "setup".to_owned() {
                                if setup.is_some() {
                                    true
                                } else {
                                    setup = Some(body);
                                    false
                                }
                            } else if kw2 == "teardown".to_owned() {
                                if teardown.is_some() {
                                    true
                                } else {
                                    teardown = Some(body);
                                    false
                                }
                            } else if kw2 == "setup_all".to_owned() {
                                if setup_all.is_some() {
                                    true
                                } else {
                                    setup_all = Some(body);
                                    false
                                }
                            } else {
                                if teardown_all.is_some() {
                                    true
                                } else {
                                    teardown_all = Some(body);
                                    false
                                }
                            };
                            if dup {
                                return Err(ParseError { pos: j, kind: ErrorKind::DuplicateHook });
                            }
                            proof {
                                assert(record_hook(acc_cur, kw2@, bodyv) == Some(
                                    DescribeV {
                                        name: label@,
                                        setup: setup.deep_view(),
                                        teardown: teardown.deep_view(),
                                        setup_all: setup_all.deep_view(),
                                        teardown_all: teardown_all.deep_view(),
                                        tests: tests.deep_view(),
                                    },
                                ));
                                assert(t.skip(j as int).skip(2 + n as int) =~= t.skip(j + 2 + n));
                            }
                            j = j + 2 + n;
                        },
                        Err(e) => {
                            return Err(e);
                        },
                    }
                } else {
                    proof {
                        assert(!is_hook_kw(kw2@) && kw2@ != "test"@);
                    }
                    return Err(ParseError { pos: j, kind: ErrorKind::UnknownKeyword });
                }
            },
            _ => {
                return Err(ParseError { pos: j, kind: ErrorKind::UnexpectedToken });
            },
        }
    }
    proof {
        assert(t.skip(j as int) =~= Seq::<Tok>::empty());
    }
    Err(ParseError { pos: toks.len(), kind: ErrorKind::UnterminatedBlock })
}

impl Root {
    /// Parses a whole token stream into a `Root`. An empty stream is legal
    /// and yields a root with zero describe blocks; a malformed stream
    /// yields exactly one fatal error, and the grammar (`spec_parse_droot`)
    /// decides which streams are malformed.
    pub fn parse(toks: &Vec<Token>) -> (r: Result<Root, ParseError>)
        ensures
            match r {
                Ok(root) => spec_parse_droot(toks.deep_view()) == Some(root.deep_view()),
                Err(e) => spec_parse_droot(toks.deep_view()) is None && e.pos <= toks@.len(),
            },
    {
        let ghost t = toks.deep_view();
        let mut describes: Vec<Describe> = Vec::new();
        let mut i: usize = 0;
        proof {
            assert(t.skip(0) =~= t);
            assert(describes.deep_view() =~= Seq::<DescribeV>::empty());
        }
        while i < toks.len()
            invariant
                i <= toks@.len(),
                t == toks.deep_view(),
                spec_parse_describes(t) == match spec_parse_describes(t.skip(i as int)) {
                    Some(rest) => Some(describes.deep_view() + rest),
                    None => None::<Seq<DescribeV>>,
                },
            decreases toks@.len() - i,
        {
            match parse_describe(toks, i) {
                Ok((d, n)) => {
                    proof {
                        assert(t.skip(i as int).skip(n as int) =~= t.skip(i + n));
                        assert(t.skip(i as int).len() > 0);
                    }
                    let ghost old_describes = describes.deep_view();
                    describes.push(d);
                    proof {
                        assert(describes.deep_view() =~= old_describes + seq![d.deep_view()]);
                        assert forall|rest: Seq<DescribeV>| #[trigger]
                            ((old_describes + seq![d.deep_view()]) + rest) == old_describes + (seq![
                                d.deep_view(),
                            ] + rest) by {
                            assert((old_describes + seq![d.deep_view()]) + rest =~= old_describes
                                + (seq![d.deep_view()] + rest));
                        }
                    }
                    i = i + n;
                },
                Err(e) => {
                    proof {
                        assert(t.skip(i as int).len() > 0);
                    }
                    return Err(e);
                },
            }
        }
        proof {
            assert(t.skip(i as int) =~= Seq::<Tok>::empty());
            assert(describes.deep_view() + Seq::<DescribeV>::empty() =~= describes.deep_view());
        }
        Ok(Root { ident: "tests".to_owned(), describes })
    }
}

} // verus!
