//! The code generator: walks a parsed tree and synthesizes the equivalent
//! declaration tree — an outer test namespace, one module per group, one test
//! function per declared test — as a pure, total transformation. The tree is
//! handed to the host toolchain, which renders it as ordinary source.
//!
//! Both dialects feed one backend: a `GenRoot` of `GenModule`s of `GenTest`s.

use vstd::prelude::*;
use crate::describe::Describe;
use crate::describe::DescribeV;
use crate::describe::TestV;
use crate::keywords::FuncV;
use crate::keywords::SuiteV;
use crate::names::sanitize_label;
use crate::names::sanitize_label_spec;
use crate::tokens::Tok;
use crate::tokens::Token;
use crate::tokens::clone_tokens;

verus! {

/// One statement of a generated test body.
#[derive(Debug)]
pub enum GenStmt {
    /// Acquire the shared suite instance and invoke its before-test hook.
    BeforeHook,
    /// Acquire the shared suite instance and invoke the named method on it.
    CallMethod { method: String },
    /// Acquire the shared suite instance and invoke its after-test hook.
    AfterHook,
    /// Run the enclosed statements under the group's run-once guard: however
    /// many tests of the group run, the body executes at most once per
    /// process, and later attempts are no-ops.
    RunOnce { body: Vec<Token> },
    /// Splice the enclosed statements in place, verbatim.
    Inline { body: Vec<Token> },
}

/// The mathematical value of a `GenStmt`.
pub enum GenStmtV {
    BeforeHook,
    CallMethod { method: Seq<char> },
    AfterHook,
    RunOnce { body: Seq<Tok> },
    Inline { body: Seq<Tok> },
}

impl View for GenStmt {
    type V = GenStmtV;

    open spec fn view(&self) -> GenStmtV {
        match self {
            GenStmt::BeforeHook => GenStmtV::BeforeHook,
            GenStmt::CallMethod { method } => GenStmtV::CallMethod { method: method@ },
            GenStmt::AfterHook => GenStmtV::AfterHook,
            GenStmt::RunOnce { body } => GenStmtV::RunOnce { body: body.deep_view() },
            GenStmt::Inline { body } => GenStmtV::Inline { body: body.deep_view() },
        }
    }
}

impl DeepView for GenStmt {
    type V = GenStmtV;

    open spec fn deep_view(&self) -> GenStmtV {
        self.view()
    }
}

/// One generated test function: its identifier and its body statements.
#[derive(Debug)]
pub struct GenTest {
    pub ident: String,
    pub stmts: Vec<GenStmt>,
}

/// The mathematical value of a `GenTest`.
pub struct GenTestV {
    pub ident: Seq<char>,
    pub stmts: Seq<GenStmtV>,
}

impl View for GenTest {
    type V = GenTestV;

    open spec fn view(&self) -> GenTestV {
        GenTestV { ident: self.ident@, stmts: self.stmts.deep_view() }
    }
}

impl DeepView for GenTest {
    type V = GenTestV;

    open spec fn deep_view(&self) -> GenTestV {
        self.view()
    }
}

/// One generated module: its identifier, the suite type whose shared holder
/// it declares (if any), whether it declares a run-once guard, and its tests.
#[derive(Debug)]
pub struct GenModule {
    pub ident: String,
    pub holder: Option<String>,
    pub declares_guard: bool,
    pub tests: Vec<GenTest>,
}

/// The mathematical value of a `GenModule`.
pub struct GenModuleV {
    pub ident: Seq<char>,
    pub holder: Option<Seq<char>>,
    pub declares_guard: bool,
    pub tests: Seq<GenTestV>,
}

impl View for GenModule {
    type V = GenModuleV;

    open spec fn view(&self) -> GenModuleV {
        GenModuleV {
            ident: self.ident@,
            holder: self.holder.deep_view(),
            declares_guard: self.declares_guard,
            tests: self.tests.deep_view(),
        }
    }
}

impl DeepView for GenModule {
    type V = GenModuleV;

    open spec fn deep_view(&self) -> GenModuleV {
        self.view()
    }
}

/// The generated top-level test namespace and its modules, in input order.
#[derive(Debug)]
pub struct GenRoot {
    pub ident: String,
    pub modules: Vec<GenModule>,
}

/// The mathematical value of a `GenRoot`.
pub struct GenRootV {
    pub ident: Seq<char>,
    pub modules: Seq<GenModuleV>,
}

impl View for GenRoot {
    type V = GenRootV;

    open spec fn view(&self) -> GenRootV {
        GenRootV { ident: self.ident@, modules: self.modules.deep_view() }
    }
}

impl DeepView for GenRoot {
    type V = GenRootV;

    open spec fn deep_view(&self) -> GenRootV {
        self.view()
    }
}

/// The test generated from one referenced function: the snake-case name, and
/// a body that invokes the before-hook, the named method, then the
/// after-hook, in that order, each through its own acquisition of the shared
/// holder.
pub open spec fn spec_gen_func(f: FuncV) -> GenTestV {
    GenTestV {
        ident: f.function_name,
        stmts: seq![
            GenStmtV::BeforeHook,
            GenStmtV::CallMethod { method: f.function },
            GenStmtV::AfterHook,
        ],
    }
}

/// The module generated from one suite block: named by the snake-cased suite
/// type, holding one shared suite instance, no run-once guard, one test per
/// referenced function in order.
pub open spec fn spec_gen_suite(s: SuiteV) -> GenModuleV {
    GenModuleV {
        ident: s.suite_struct_name,
        holder: Some(s.suite_struct),
        declares_guard: false,
        tests: s.functions.map_values(|f: FuncV| spec_gen_func(f)),
    }
}

/// An optional hook body as an inlined statement, or nothing.
pub open spec fn opt_inline(o: Option<Seq<Tok>>) -> Seq<GenStmtV> {
    match o {
        Some(b) => seq![GenStmtV::Inline { body: b }],
        None => Seq::empty(),
    }
}

/// An optional run-once hook body under its guard, or nothing.
pub open spec fn opt_once(o: Option<Seq<Tok>>) -> Seq<GenStmtV> {
    match o {
        Some(b) => seq![GenStmtV::RunOnce { body: b }],
        None => Seq::empty(),
    }
}

/// The statements of one generated test of a describe block, in fixed order:
/// per-test setup, run-once setup invocation, the test body, run-once
/// teardown invocation, per-test teardown — each present only when declared.
pub open spec fn spec_gen_stmts(d: DescribeV, body: Seq<Tok>) -> Seq<GenStmtV> {
    opt_inline(d.setup) + opt_once(d.setup_all) + seq![GenStmtV::Inline { body: body }] + opt_once(
        d.teardown_all,
    ) + opt_inline(d.teardown)
}

/// The test generated from one inline test of a describe block, with the
/// block's hooks spliced around its body.
pub open spec fn spec_gen_test(d: DescribeV, t: TestV) -> GenTestV {
    GenTestV { ident: sanitize_label_spec(t.name), stmts: spec_gen_stmts(d, t.content) }
}

/// The test generated from one inline test alone, hooks ignored: the
/// normalized label and the verbatim body.
pub open spec fn spec_gen_test_plain(t: TestV) -> GenTestV {
    GenTestV { ident: sanitize_label_spec(t.name), stmts: seq![GenStmtV::Inline { body: t.content }] }
}

/// The module generated from one describe block: named by the normalized
/// label, no shared holder, a run-once guard declared exactly when some
/// run-once hook is present, one test per inline test in order.
pub open spec fn spec_gen_describe(d: DescribeV) -> GenModuleV {
    GenModuleV {
        ident: sanitize_label_spec(d.name),
        holder: None,
        declares_guard: d.setup_all is Some || d.teardown_all is Some,
        tests: d.tests.map_values(|t: TestV| spec_gen_test(d, t)),
    }
}

/// The namespace generated from a suite-dialect root: one module per suite,
/// in input order.
pub open spec fn spec_gen_root(r: crate::keywords::RootV) -> GenRootV {
    GenRootV { ident: r.ident, modules: r.describes.map_values(|s: SuiteV| spec_gen_suite(s)) }
}

/// The namespace generated from a describe-dialect root: one module per
/// describe block, in input order.
pub open spec fn spec_gen_droot(r: crate::describe::RootV) -> GenRootV {
    GenRootV {
        ident: r.ident,
        modules: r.describes.map_values(|d: DescribeV| spec_gen_describe(d)),
    }
}

impl crate::keywords::Func {
    /// Generates the test function for one referenced function.
    pub fn generate(&self) -> (r: GenTest)
        ensures
            r.deep_view() == spec_gen_func(self.deep_view()),
    {
        let mut stmts: Vec<GenStmt> = Vec::new();
        stmts.push(GenStmt::BeforeHook);
        stmts.push(GenStmt::CallMethod { method: self.function.clone() });
        stmts.push(GenStmt::AfterHook);
        let r = GenTest { ident: self.function_name.clone(), stmts };
        proof {
            assert(r.deep_view().stmts =~= spec_gen_func(self.deep_view()).stmts);
        }
        r
    }
}

impl crate::keywords::Suite {
    /// Generates the module for one suite block.
    pub fn generate(&self) -> (r: GenModule)
        ensures
            r.deep_view() == spec_gen_suite(self.deep_view()),
    {
        let mut tests: Vec<GenTest> = Vec::new();
        let mut k: usize = 0;
        while k < self.functions.len()
            invariant
                k <= self.functions@.len(),
                tests.deep_view() == self.functions.deep_view().take(k as int).map_values(
                    |f: FuncV| spec_gen_func(f),
                ),
            decreases self.functions@.len() - k,
        {
            let ghost pre = tests.deep_view();
            tests.push(self.functions[k].generate());
            proof {
                assert(tests.deep_view() =~= pre + seq![
                    spec_gen_func(self.functions.deep_view()[k as int]),
                ]);
                assert(tests.deep_view() =~= self.functions.deep_view().take(
                    k + 1,
                ).map_values(|f: FuncV| spec_gen_func(f)));
            }
            k = k + 1;
        }
        let r = GenModule {
            ident: self.suite_struct_name.clone(),
            holder: Some(self.suite_struct.clone()),
            declares_guard: false,
            tests,
        };
        proof {
            assert(self.functions.deep_view().take(self.functions@.len() as int)
                =~= self.functions.deep_view());
            assert(r.deep_view().tests =~= spec_gen_suite(self.deep_view()).tests);
        }
        r
    }
}

impl crate::keywords::Root {
    /// Generates the whole test namespace for a suite-dialect input.
    pub fn generate(&self) -> (r: GenRoot)
        ensures
            r.deep_view() == spec_gen_root(self.deep_view()),
    {
        let mut modules: Vec<GenModule> = Vec::new();
        let mut k: usize = 0;
        while k < self.describes.len()
            invariant
                k <= self.describes@.len(),
                modules.deep_view() == self.describes.deep_view().take(k as int).map_values(
                    |s: SuiteV| spec_gen_suite(s),
                ),
            decreases self.describes@.len() - k,
        {
            let ghost pre = modules.deep_view();
            modules.push(self.describes[k].generate());
            proof {
                assert(modules.deep_view() =~= pre + seq![
                    spec_gen_suite(self.describes.deep_view()[k as int]),
                ]);
                assert(modules.deep_view() =~= self.describes.deep_view().take(
                    k + 1,
                ).map_values(|s: SuiteV| spec_gen_suite(s)));
            }
            k = k + 1;
        }
        proof {
            assert(self.describes.deep_view().take(self.describes@.len() as int)
                =~= self.describes.deep_view());
        }
        GenRoot { ident: self.ident.clone(), modules }
    }
}

impl crate::describe::Test {
    /// Generates the test function for one inline test, hooks ignored: the
    /// normalized label over the verbatim body.
    pub fn generate(&self) -> (r: GenTest)
        ensures
            r.deep_view() == spec_gen_test_plain(self.deep_view()),
    {
        let mut stmts: Vec<GenStmt> = Vec::new();
        stmts.push(GenStmt::Inline { body: clone_tokens(&self.content) });
        let r = GenTest { ident: sanitize_label(self.name.as_str()), stmts };
        proof {
            assert(r.deep_view().stmts =~= spec_gen_test_plain(self.deep_view()).stmts);
        }
        r
    }

    /// Generates the test function for one inline test of a group, splicing
    /// the group's hook bodies around the test body in the fixed order.
    pub fn generate_test(
        &self,
        setup_all: &Option<Vec<Token>>,
        setup: &Option<Vec<Token>>,
        teardown_all: &Option<Vec<Token>>,
        teardown: &Option<Vec<Token>>,
    ) -> (r: GenTest)
        ensures
            r.deep_view() == (GenTestV {
                ident: sanitize_label_spec(self.name@),
                stmts: opt_inline(setup.deep_view()) + opt_once(setup_all.deep_view()) + seq![
                    GenStmtV::Inline { body: self.content.deep_view() },
                ] + opt_once(teardown_all.deep_view()) + opt_inline(teardown.deep_view()),
            }),
    {
        let mut stmts: Vec<GenStmt> = Vec::new();
        match setup {
            Some(b) => {
                stmts.push(GenStmt::Inline { body: clone_tokens(b) });
            },
            None => {},
        }
        match setup_all {
            Some(b) => {
                stmts.push(GenStmt::RunOnce { body: clone_tokens(b) });
            },
            None => {},
        }
        stmts.push(GenStmt::Inline { body: clone_tokens(&self.content) });
        match teardown_all {
            Some(b) => {
                stmts.push(GenStmt::RunOnce { body: clone_tokens(b) });
            },
            None => {},
        }
        match teardown {
            Some(b) => {
                stmts.push(GenStmt::Inline { body: clone_tokens(b) });
            },
            None => {},
        }
        let r = GenTest { ident: sanitize_label(self.name.as_str()), stmts };
        proof {
            assert(r.deep_view().stmts =~= opt_inline(setup.deep_view()) + opt_once(
                setup_all.deep_view(),
            ) + seq![GenStmtV::Inline { body: self.content.deep_view() }] + opt_once(
                teardown_all.deep_view(),
            ) + opt_inline(teardown.deep_view()));
        }
        r
    }
}

impl Describe {
    /// Generates the module for one describe block: the normalized label as
    /// its name, a run-once guard only when some run-once hook is present,
    /// and one test per inline test with the hooks spliced in.
    pub fn generate(&self) -> (r: GenModule)
        ensures
            r.deep_view() == spec_gen_describe(self.deep_view()),
    {
        let mut tests: Vec<GenTest> = Vec::new();
        let mut k: usize = 0;
        while k < self.tests.len()
            invariant
                k <= self.tests@.len(),
                tests.deep_view() == self.tests.deep_view().take(k as int).map_values(
                    |t: TestV| spec_gen_test(self.deep_view(), t),
                ),
            decreases self.tests@.len() - k,
        {
            let ghost pre = tests.deep_view();
            let g = self.tests[k].generate_test(
                &self.setup_all,
                &self.setup,
                &self.teardown_all,
                &self.teardown,
            );
            proof {
                assert(g.deep_view() == spec_gen_test(
                    self.deep_view(),
                    self.tests.deep_view()[k as int],
                ));
            }
            tests.push(g);
            proof {
                assert(tests.deep_view() =~= pre + seq![
                    spec_gen_test(self.deep_view(), self.tests.deep_view()[k as int]),
                ]);
                assert(tests.deep_view() =~= self.tests.deep_view().take(k + 1).map_values(
                    |t: TestV| spec_gen_test(self.deep_view(), t),
                ));
            }
            k = k + 1;
        }
        let declares_guard = self.setup_all.is_some() || self.teardown_all.is_some();
        let r = GenModule {
            ident: sanitize_label(self.name.as_str()),
            holder: None,
            declares_guard,
            tests,
        };
        proof {
            assert(self.tests.deep_view().take(self.tests@.len() as int)
                =~= self.tests.deep_view());
            assert(r.deep_view().tests =~= spec_gen_describe(self.deep_view()).tests);
        }
        r
    }
}

impl crate::describe::Root {
    /// Generates the whole test namespace for a describe-dialect input.
    pub fn generate(&self) -> (r: GenRoot)
        ensures
            r.deep_view() == spec_gen_droot(self.deep_view()),
    {
        let mut modules: Vec<GenModule> = Vec::new();
        let mut k: usize = 0;
        while k < self.describes.len()
            invariant
                k <= self.describes@.len(),
                modules.deep_view() == self.describes.deep_view().take(k as int).map_values(
                    |d: DescribeV| spec_gen_describe(d),
                ),
            decreases self.describes@.len() - k,
        {
            let ghost pre = modules.deep_view();
            modules.push(self.describes[k].generate());
            proof {
                assert(modules.deep_view() =~= pre + seq![
                    spec_gen_describe(self.describes.deep_view()[k as int]),
                ]);
                assert(modules.deep_view() =~= self.describes.deep_view().take(
                    k + 1,
                ).map_values(|d: DescribeV| spec_gen_describe(d)));
            }
            k = k + 1;
        }
        proof {
            assert(self.describes.deep_view().take(self.describes@.len() as int)
                =~= self.describes.deep_view());
        }
        GenRoot { ident: self.ident.clone(), modules }
    }
}

/// Law: hook ordering. In every test generated for a group, the per-test
/// setup statements come before the test body, the per-test teardown
/// statements come after it, and each run-once hook body stands only under
/// its guard — the setup-all invocation between setup and body, the
/// teardown-all invocation between body and teardown — so across N test
/// invocations the guarded bodies execute at most once while the per-test
/// hooks run around every body.
pub proof fn lemma_hook_ordering(d: DescribeV, t: TestV)
    ensures
        ({
            let s = spec_gen_test(d, t).stmts;
            let before = opt_inline(d.setup).len() + opt_once(d.setup_all).len() as int;
            &&& s.len() == before + 1 + opt_once(d.teardown_all).len() + opt_inline(
                d.teardown,
            ).len()
            &&& s[before as int] == GenStmtV::Inline { body: t.content }
            &&& (d.setup is Some ==> s[0] == GenStmtV::Inline { body: d.setup->0 })
            &&& (d.setup_all is Some ==> s[before as int - 1] == GenStmtV::RunOnce {
                body: d.setup_all->0,
            })
            &&& (d.teardown_all is Some ==> s[before as int + 1] == GenStmtV::RunOnce {
                body: d.teardown_all->0,
            })
            &&& (d.teardown is Some ==> s[s.len() as int - 1] == GenStmtV::Inline {
                body: d.teardown->0,
            })
        }),
{
}

} // verus!
