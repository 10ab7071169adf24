//! The laws the two front-ends obey: a grammar round-trip for the suite
//! dialect, the legality of empty input, and the rejection of unknown
//! keywords.

use vstd::prelude::*;
use crate::describe::DescribeV;
use crate::describe::TestV;
use crate::describe::empty_describe;
use crate::describe::is_hook_kw;
use crate::describe::record_hook;
use crate::describe::spec_parse_describe;
use crate::describe::spec_parse_describes;
use crate::describe::spec_parse_droot;
use crate::describe::spec_parse_items;
use crate::describe::spec_scan_body;
use crate::keywords::FuncV;
use crate::keywords::RootV;
use crate::keywords::SuiteV;
use crate::keywords::func_of;
use crate::keywords::funcs_of;
use crate::keywords::spec_parse_funcs;
use crate::keywords::spec_parse_root;
use crate::keywords::spec_parse_suite;
use crate::keywords::spec_parse_suites;
use crate::names::snake_of;
use crate::tokens::Tok;

verus! {

/// The canonical token rendering of a referenced-function list: each name
/// followed by a comma.
pub open spec fn render_funcs(fs: Seq<FuncV>) -> Seq<Tok>
    decreases fs.len(),
{
    if fs.len() == 0 {
        Seq::empty()
    } else {
        seq![Tok::Ident(fs[0].function), Tok::Comma] + render_funcs(fs.drop_first())
    }
}

/// The canonical token rendering of one suite block.
pub open spec fn render_suite(s: SuiteV) -> Seq<Tok> {
    seq![Tok::Ident("suite"@), Tok::Ident(s.suite_struct), Tok::LBrace] + render_funcs(s.functions)
        + seq![Tok::RBrace]
}

/// The canonical token rendering of a sequence of suite blocks.
pub open spec fn render_suites(ss: Seq<SuiteV>) -> Seq<Tok>
    decreases ss.len(),
{
    if ss.len() == 0 {
        Seq::empty()
    } else {
        render_suite(ss[0]) + render_suites(ss.drop_first())
    }
}

/// The canonical token rendering of a whole suite-dialect input.
pub open spec fn render_root(r: RootV) -> Seq<Tok> {
    render_suites(r.describes)
}

/// A function entry whose derived fields agree with its name and owner.
pub open spec fn wf_func(f: FuncV, struct_ident: Seq<char>) -> bool {
    f.struct_ident == struct_ident && f.function_name == snake_of(f.function)
}

/// A suite whose derived fields agree with its type name.
pub open spec fn wf_suite(s: SuiteV) -> bool {
    &&& s.ident == "suite"@
    &&& s.suite_struct_name == snake_of(s.suite_struct)
    &&& forall|i: int|
        0 <= i < s.functions.len() ==> wf_func(#[trigger] s.functions[i], s.suite_struct)
}

/// A root as the parser would build it.
pub open spec fn wf_root(r: RootV) -> bool {
    &&& r.ident == "tests"@
    &&& forall|i: int| 0 <= i < r.describes.len() ==> wf_suite(#[trigger] r.describes[i])
}

proof fn lemma_parse_funcs_round(fs: Seq<FuncV>, rest: Seq<Tok>)
    ensures
        spec_parse_funcs(render_funcs(fs) + seq![Tok::RBrace] + rest) == Some(
            (fs.map_values(|f: FuncV| f.function), 2 * fs.len() + 1int),
        ),
    decreases fs.len(),
{
    let t = render_funcs(fs) + seq![Tok::RBrace] + rest;
    if fs.len() == 0 {
        assert(t =~= seq![Tok::RBrace] + rest);
        assert(t[0] == Tok::RBrace);
        assert(fs.map_values(|f: FuncV| f.function) =~= Seq::<Seq<char>>::empty());
    } else {
        assert(t[0] == Tok::Ident(fs[0].function));
        assert(t[1] == Tok::Comma);
        assert(t.len() >= 2);
        lemma_parse_funcs_round(fs.drop_first(), rest);
        assert(t.skip(2) =~= render_funcs(fs.drop_first()) + seq![Tok::RBrace] + rest);
        let names_rest = fs.drop_first().map_values(|f: FuncV| f.function);
        assert(seq![fs[0].function] + names_rest =~= fs.map_values(|f: FuncV| f.function));
    }
}

proof fn lemma_parse_suite_round(s: SuiteV, rest: Seq<Tok>)
    requires
        wf_suite(s),
    ensures
        spec_parse_suite(render_suite(s) + rest) == Some((s, render_suite(s).len() as int)),
        render_suite(s).len() == 4 + 2 * s.functions.len(),
{
    let t = render_suite(s) + rest;
    assert(t[0] == Tok::Ident("suite"@));
    assert(t[1] == Tok::Ident(s.suite_struct));
    assert(t[2] == Tok::LBrace);
    lemma_parse_funcs_round(s.functions, rest);
    assert(t.skip(3) =~= render_funcs(s.functions) + seq![Tok::RBrace] + rest);
    let names = s.functions.map_values(|f: FuncV| f.function);
    assert(funcs_of(s.suite_struct, names) =~= s.functions) by {
        assert(forall|i: int|
            0 <= i < names.len() ==> #[trigger] funcs_of(s.suite_struct, names)[i] == func_of(
                s.suite_struct,
                names[i],
            ));
    }
    assert(render_funcs(s.functions).len() == 2 * s.functions.len()) by {
        lemma_render_funcs_len(s.functions);
    }
    let parsed = SuiteV {
        ident: "suite"@,
        suite_struct: s.suite_struct,
        suite_struct_name: snake_of(s.suite_struct),
        functions: funcs_of(s.suite_struct, names),
    };
    assert(parsed == s);
}

proof fn lemma_render_funcs_len(fs: Seq<FuncV>)
    ensures
        render_funcs(fs).len() == 2 * fs.len(),
    decreases fs.len(),
{
    if fs.len() > 0 {
        lemma_render_funcs_len(fs.drop_first());
    }
}

proof fn lemma_parse_suites_round(ss: Seq<SuiteV>)
    requires
        forall|i: int| 0 <= i < ss.len() ==> wf_suite(#[trigger] ss[i]),
    ensures
        spec_parse_suites(render_suites(ss)) == Some(ss),
    decreases ss.len(),
{
    let t = render_suites(ss);
    if ss.len() == 0 {
        assert(Some(Seq::<SuiteV>::empty()) == Some(ss));
    } else {
        let rest = render_suites(ss.drop_first());
        lemma_parse_suite_round(ss[0], rest);
        let n = render_suite(ss[0]).len() as int;
        assert(t =~= render_suite(ss[0]) + rest);
        assert(spec_parse_suite(t) == Some((ss[0], n)));
        assert(0 < n <= t.len());
        assert(t.skip(n) =~= rest);
        lemma_parse_suites_round(ss.drop_first());
        assert(seq![ss[0]] + ss.drop_first() =~= ss);
    }
}

/// Law: grammar round-trip. For every well-formed suite tree, parsing its
/// canonical token rendering yields exactly that tree back: the same number
/// of suites, in the original order, each with its referenced functions in
/// the original order.
pub proof fn lemma_grammar_round_trip(r: RootV)
    requires
        wf_root(r),
    ensures
        spec_parse_root(render_root(r)) == Some(r),
{
    lemma_parse_suites_round(r.describes);
    assert(RootV { ident: "tests"@, describes: r.describes } == r);
}

/// What one token contributes to the brace depth.
pub open spec fn tok_depth(t: Tok) -> int {
    match t {
        Tok::LBrace => 1,
        Tok::RBrace => -1,
        _ => 0,
    }
}

/// The brace depth a token run ends on, starting from zero.
pub open spec fn depth_of(b: Seq<Tok>) -> int
    decreases b.len(),
{
    if b.len() == 0 {
        0
    } else {
        tok_depth(b[0]) + depth_of(b.drop_first())
    }
}

/// A statement body that stays inside its block: no prefix closes more
/// braces than the body opened before it, and the whole body balances.
pub open spec fn balanced(b: Seq<Tok>) -> bool {
    &&& depth_of(b) == 0
    &&& forall|i: int| 0 <= i < b.len() && b[i] == Tok::RBrace ==> depth_of(#[trigger] b.take(i)) > 0
}

proof fn lemma_scan_through(b: Seq<Tok>, rest: Seq<Tok>, d: int)
    requires
        d >= 0,
        forall|i: int|
            0 <= i < b.len() && b[i] == Tok::RBrace ==> d + depth_of(#[trigger] b.take(i)) > 0,
    ensures
        spec_scan_body(b + rest, d) == (match spec_scan_body(rest, d + depth_of(b)) {
            Some(n) => Some(n + b.len()),
            None => None::<int>,
        }),
    decreases b.len(),
{
    if b.len() == 0 {
        assert(b + rest =~= rest);
    } else {
        let t = b + rest;
        assert(t[0] == b[0]);
        let b2 = b.drop_first();
        assert(t.skip(1) =~= b2 + rest);
        assert forall|i: int| 0 <= i <= b2.len() implies depth_of(b.take(i + 1)) == tok_depth(
            b[0],
        ) + depth_of(#[trigger] b2.take(i)) by {
            assert(b.take(i + 1)[0] == b[0]);
            assert(b.take(i + 1).drop_first() =~= b2.take(i));
        }
        assert(b.take(0) =~= Seq::<Tok>::empty());
        let d2 = d + tok_depth(b[0]);
        assert(d2 >= 0) by {
            if b[0] == Tok::RBrace {
                assert(d + depth_of(b.take(0)) > 0);
            }
        }
        assert forall|i: int|
            0 <= i < b2.len() && b2[i] == Tok::RBrace implies d2 + depth_of(
            #[trigger] b2.take(i),
        ) > 0 by {
            assert(b[i + 1] == b2[i]);
            assert(d + depth_of(b.take(i + 1)) > 0);
        }
        lemma_scan_through(b2, rest, d2);
    }
}

proof fn lemma_scan_balanced(b: Seq<Tok>, rest: Seq<Tok>)
    requires
        balanced(b),
    ensures
        spec_scan_body(b + seq![Tok::RBrace] + rest, 0) == Some(b.len() + 1int),
{
    lemma_scan_through(b, seq![Tok::RBrace] + rest, 0);
    assert(b + seq![Tok::RBrace] + rest =~= b + (seq![Tok::RBrace] + rest));
    assert((seq![Tok::RBrace] + rest)[0] == Tok::RBrace);
}

/// The canonical token rendering of one inline test.
pub open spec fn render_test(t: TestV) -> Seq<Tok> {
    seq![Tok::Ident("test"@), Tok::LitStr(t.name), Tok::LBrace] + t.content + seq![Tok::RBrace]
}

/// The canonical token rendering of a sequence of inline tests.
pub open spec fn render_tests(ts: Seq<TestV>) -> Seq<Tok>
    decreases ts.len(),
{
    if ts.len() == 0 {
        Seq::empty()
    } else {
        render_test(ts[0]) + render_tests(ts.drop_first())
    }
}

/// The canonical token rendering of one optional hook block.
pub open spec fn render_hook(kw: Seq<char>, o: Option<Seq<Tok>>) -> Seq<Tok> {
    match o {
        Some(b) => seq![Tok::Ident(kw), Tok::LBrace] + b + seq![Tok::RBrace],
        None => Seq::empty(),
    }
}

/// The canonical token rendering of one describe block: its hooks first,
/// then its tests.
pub open spec fn render_describe(d: DescribeV) -> Seq<Tok> {
    seq![Tok::Ident("describe"@), Tok::LitStr(d.name), Tok::LBrace] + render_hook("setup"@, d.setup)
        + render_hook("teardown"@, d.teardown) + render_hook("setup_all"@, d.setup_all)
        + render_hook("teardown_all"@, d.teardown_all) + render_tests(d.tests) + seq![Tok::RBrace]
}

/// The canonical token rendering of a sequence of describe blocks.
pub open spec fn render_describes(ds: Seq<DescribeV>) -> Seq<Tok>
    decreases ds.len(),
{
    if ds.len() == 0 {
        Seq::empty()
    } else {
        render_describe(ds[0]) + render_describes(ds.drop_first())
    }
}

/// The canonical token rendering of a whole describe-dialect input.
pub open spec fn render_droot(r: crate::describe::RootV) -> Seq<Tok> {
    render_describes(r.describes)
}

/// An optional hook body that is balanced, or absent.
pub open spec fn wf_body(o: Option<Seq<Tok>>) -> bool {
    match o {
        Some(b) => balanced(b),
        None => true,
    }
}

/// A describe block whose statement bodies all stay inside their braces.
pub open spec fn wf_describe(d: DescribeV) -> bool {
    &&& wf_body(d.setup)
    &&& wf_body(d.teardown)
    &&& wf_body(d.setup_all)
    &&& wf_body(d.teardown_all)
    &&& forall|i: int| 0 <= i < d.tests.len() ==> balanced(#[trigger] d.tests[i].content)
}

/// A describe-dialect root as the parser would build it.
pub open spec fn wf_droot(r: crate::describe::RootV) -> bool {
    &&& r.ident == "tests"@
    &&& forall|i: int| 0 <= i < r.describes.len() ==> wf_describe(#[trigger] r.describes[i])
}

proof fn lemma_keywords_distinct()
    ensures
        "test"@ != "setup"@,
        "test"@ != "teardown"@,
        "test"@ != "setup_all"@,
        "test"@ != "teardown_all"@,
        "setup"@ != "teardown"@,
        "setup"@ != "setup_all"@,
        "setup"@ != "teardown_all"@,
        "teardown"@ != "setup_all"@,
        "teardown"@ != "teardown_all"@,
        "setup_all"@ != "teardown_all"@,
{
    reveal_strlit("test");
    reveal_strlit("setup");
    reveal_strlit("teardown");
    reveal_strlit("setup_all");
    reveal_strlit("teardown_all");
    assert("test"@.len() == 4);
    assert("setup"@.len() == 5);
    assert("teardown"@.len() == 8);
    assert("setup_all"@.len() == 9);
    assert("teardown_all"@.len() == 12);
}

proof fn lemma_parse_tests_round(ts: Seq<TestV>, rest: Seq<Tok>, acc: DescribeV)
    requires
        forall|i: int| 0 <= i < ts.len() ==> balanced(#[trigger] ts[i].content),
    ensures
        spec_parse_items(render_tests(ts) + seq![Tok::RBrace] + rest, acc) == Some(
            (DescribeV { tests: acc.tests + ts, ..acc }, render_tests(ts).len() + 1int),
        ),
    decreases ts.len(),
{
    let t = render_tests(ts) + seq![Tok::RBrace] + rest;
    if ts.len() == 0 {
        assert(t =~= seq![Tok::RBrace] + rest);
        assert(t[0] == Tok::RBrace);
        assert(acc.tests + ts =~= acc.tests);
        assert(DescribeV { tests: acc.tests + ts, ..acc } == acc);
    } else {
        lemma_keywords_distinct();
        let t0 = ts[0];
        let rest_toks = render_tests(ts.drop_first()) + seq![Tok::RBrace] + rest;
        assert(t =~= (seq![Tok::Ident("test"@), Tok::LitStr(t0.name), Tok::LBrace] + t0.content
            + seq![Tok::RBrace]) + rest_toks);
        assert(t[0] == Tok::Ident("test"@));
        assert(t[1] == Tok::LitStr(t0.name));
        assert(t[2] == Tok::LBrace);
        lemma_scan_balanced(t0.content, rest_toks);
        assert(t.skip(3) =~= t0.content + seq![Tok::RBrace] + rest_toks);
        let n = t0.content.len() + 1int;
        assert(spec_scan_body(t.skip(3), 0) == Some(n));
        assert(t.skip(3).take(n - 1) =~= t0.content);
        let parsed = TestV { name: t0.name, content: t.skip(3).take(n - 1) };
        assert(parsed == t0);
        let acc2 = DescribeV { tests: acc.tests + seq![t0], ..acc };
        lemma_parse_tests_round(ts.drop_first(), rest, acc2);
        assert(t.skip(3 + n) =~= rest_toks);
        assert(acc2.tests + ts.drop_first() =~= acc.tests + ts);
        assert(DescribeV { tests: acc2.tests + ts.drop_first(), ..acc2 } == DescribeV {
            tests: acc.tests + ts,
            ..acc
        });
    }
}

/// How many tokens an optional hook block renders to.
pub open spec fn hook_len(o: Option<Seq<Tok>>) -> int {
    match o {
        Some(b) => b.len() + 3int,
        None => 0,
    }
}

/// The block state after an optional hook is recorded.
pub open spec fn acc_after(acc: DescribeV, kw: Seq<char>, o: Option<Seq<Tok>>) -> DescribeV {
    if o is Some {
        record_hook(acc, kw, o->0)->0
    } else {
        acc
    }
}

proof fn lemma_parse_hook_step(kw: Seq<char>, body: Seq<Tok>, rest: Seq<Tok>, acc: DescribeV)
    requires
        is_hook_kw(kw),
        balanced(body),
        record_hook(acc, kw, body) is Some,
    ensures
        spec_parse_items(seq![Tok::Ident(kw), Tok::LBrace] + body + seq![Tok::RBrace] + rest, acc)
            == (match spec_parse_items(rest, record_hook(acc, kw, body)->0) {
            Some((d, m)) => Some((d, m + body.len() + 3)),
            None => None::<(DescribeV, int)>,
        }),
{
    lemma_keywords_distinct();
    let t = seq![Tok::Ident(kw), Tok::LBrace] + body + seq![Tok::RBrace] + rest;
    assert(t[0] == Tok::Ident(kw));
    assert(t[1] == Tok::LBrace);
    assert(kw != "test"@);
    lemma_scan_balanced(body, rest);
    assert(t.skip(2) =~= body + seq![Tok::RBrace] + rest);
    let n = body.len() + 1int;
    assert(spec_scan_body(t.skip(2), 0) == Some(n));
    assert(t.skip(2).take(n - 1) =~= body);
    assert(t.skip(2 + n) =~= rest);
}

proof fn lemma_parse_opt_hook(kw: Seq<char>, o: Option<Seq<Tok>>, rest: Seq<Tok>, acc: DescribeV)
    requires
        is_hook_kw(kw),
        wf_body(o),
        o is Some ==> record_hook(acc, kw, o->0) is Some,
    ensures
        spec_parse_items(render_hook(kw, o) + rest, acc) == (match spec_parse_items(
            rest,
            acc_after(acc, kw, o),
        ) {
            Some((d, m)) => Some((d, m + hook_len(o))),
            None => None::<(DescribeV, int)>,
        }),
{
    match o {
        Some(body) => {
            lemma_parse_hook_step(kw, body, rest, acc);
            assert(render_hook(kw, o) + rest =~= seq![Tok::Ident(kw), Tok::LBrace] + body + seq![
                Tok::RBrace,
            ] + rest);
        },
        None => {
            assert(render_hook(kw, o) + rest =~= rest);
        },
    }
}

#[verifier::rlimit(100)]
#[verifier::spinoff_prover]
proof fn lemma_parse_describe_items(d: DescribeV, rest: Seq<Tok>)
    requires
        wf_describe(d),
    ensures
        ({
            let r0 = render_hook("setup"@, d.setup) + (render_hook("teardown"@, d.teardown) + (
            render_hook("setup_all"@, d.setup_all) + (render_hook("teardown_all"@, d.teardown_all)
                + (render_tests(d.tests) + seq![Tok::RBrace] + rest))));
            spec_parse_items(r0, empty_describe(d.name)) == Some((d, describe_items_len(d)))
        }),
{
    lemma_keywords_distinct();
    let pt = render_tests(d.tests) + seq![Tok::RBrace];
    let acc0 = empty_describe(d.name);
    let acc1 = acc_after(acc0, "setup"@, d.setup);
    let acc2 = acc_after(acc1, "teardown"@, d.teardown);
    let acc3 = acc_after(acc2, "setup_all"@, d.setup_all);
    let acc4 = acc_after(acc3, "teardown_all"@, d.teardown_all);
    assert(acc1 == (DescribeV { setup: d.setup, ..acc0 }) && acc2 == (DescribeV {
        teardown: d.teardown,
        ..acc1
    }) && acc3 == (DescribeV { setup_all: d.setup_all, ..acc2 }) && acc4 == (DescribeV {
        teardown_all: d.teardown_all,
        ..acc3
    }));
    let r4 = pt + rest;
    let r3 = render_hook("teardown_all"@, d.teardown_all) + r4;
    let r2 = render_hook("setup_all"@, d.setup_all) + r3;
    let r1 = render_hook("teardown"@, d.teardown) + r2;
    let r0 = render_hook("setup"@, d.setup) + r1;
    // the tests, from the block with every hook recorded
    lemma_parse_tests_round(d.tests, rest, acc4);
    assert(r4 =~= render_tests(d.tests) + seq![Tok::RBrace] + rest);
    let dd = DescribeV { tests: acc4.tests + d.tests, ..acc4 };
    let ct = render_tests(d.tests).len() + 1int;
    assert(spec_parse_items(r4, acc4) == Some((dd, ct)));
    // each hook, innermost last
    lemma_parse_opt_hook("teardown_all"@, d.teardown_all, r4, acc3);
    lemma_parse_opt_hook("setup_all"@, d.setup_all, r3, acc2);
    lemma_parse_opt_hook("teardown"@, d.teardown, r2, acc1);
    lemma_parse_opt_hook("setup"@, d.setup, r1, acc0);
    assert(spec_parse_items(r0, acc0) == Some((dd, describe_items_len(d))));
    assert(acc4.tests + d.tests =~= d.tests);
    assert(dd == d);
}

/// How many tokens the items region of a describe block renders to, closing
/// brace included.
pub open spec fn describe_items_len(d: DescribeV) -> int {
    render_tests(d.tests).len() + 1 + hook_len(d.teardown_all) + hook_len(d.setup_all) + hook_len(
        d.teardown,
    ) + hook_len(d.setup)
}

#[verifier::spinoff_prover]
proof fn lemma_parse_describe_round(d: DescribeV, rest: Seq<Tok>)
    requires
        wf_describe(d),
    ensures
        spec_parse_describe(render_describe(d) + rest) == Some(
            (d, render_describe(d).len() as int),
        ),
        render_describe(d).len() >= 4,
{
    let t = render_describe(d) + rest;
    assert(t[0] == Tok::Ident("describe"@));
    assert(t[1] == Tok::LitStr(d.name));
    assert(t[2] == Tok::LBrace);
    lemma_parse_describe_items(d, rest);
    let r0 = render_hook("setup"@, d.setup) + (render_hook("teardown"@, d.teardown) + (render_hook(
        "setup_all"@,
        d.setup_all,
    ) + (render_hook("teardown_all"@, d.teardown_all) + (render_tests(d.tests) + seq![Tok::RBrace]
        + rest))));
    assert(t.skip(3) =~= r0);
    assert(render_describe(d).len() == 3 + describe_items_len(d));
}

proof fn lemma_parse_describes_round(ds: Seq<DescribeV>)
    requires
        forall|i: int| 0 <= i < ds.len() ==> wf_describe(#[trigger] ds[i]),
    ensures
        spec_parse_describes(render_describes(ds)) == Some(ds),
    decreases ds.len(),
{
    let t = render_describes(ds);
    if ds.len() == 0 {
        assert(Some(Seq::<DescribeV>::empty()) == Some(ds));
    } else {
        let rest = render_describes(ds.drop_first());
        lemma_parse_describe_round(ds[0], rest);
        let n = render_describe(ds[0]).len() as int;
        assert(t =~= render_describe(ds[0]) + rest);
        assert(spec_parse_describe(t) == Some((ds[0], n)));
        assert(0 < n <= t.len());
        assert(t.skip(n) =~= rest);
        lemma_parse_describes_round(ds.drop_first());
        assert(seq![ds[0]] + ds.drop_first() =~= ds);
    }
}

/// Law: grammar round-trip, describe dialect. For every well-formed describe
/// tree — every statement body balanced — parsing its canonical token
/// rendering yields exactly that tree back: the same describe blocks, in the
/// original order, each with its hooks and its tests in the original order.
pub proof fn lemma_describe_grammar_round_trip(r: crate::describe::RootV)
    requires
        wf_droot(r),
    ensures
        spec_parse_droot(render_droot(r)) == Some(r),
{
    lemma_parse_describes_round(r.describes);
    assert(crate::describe::RootV { ident: "tests"@, describes: r.describes } == r);
}

/// Law: empty input. An empty token stream is legal in both dialects and
/// yields a root with zero suites — not an error.
pub proof fn lemma_empty_input()
    ensures
        spec_parse_root(Seq::<Tok>::empty()) == Some(
            RootV { ident: "tests"@, describes: Seq::<SuiteV>::empty() },
        ),
        crate::describe::spec_parse_droot(Seq::<Tok>::empty()) == Some(
            crate::describe::RootV {
                ident: "tests"@,
                describes: Seq::<crate::describe::DescribeV>::empty(),
            },
        ),
{
}

/// Law: an unknown block keyword is rejected. A stream that opens with any
/// identifier other than the dialect's keyword parses to nothing in that
/// dialect, and so fails with an error and produces no output declarations.
pub proof fn lemma_unknown_keyword_rejected(t: Seq<Tok>, kw: Seq<char>)
    requires
        t.len() > 0,
        t[0] == Tok::Ident(kw),
        kw != "suite"@,
        kw != "describe"@,
    ensures
        spec_parse_root(t) is None,
        crate::describe::spec_parse_droot(t) is None,
{
    assert(spec_parse_suite(t) is None);
    assert(crate::describe::spec_parse_describe(t) is None);
}

} // verus!
