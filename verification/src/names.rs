//! Name derivation: every generated identifier is a pure function of the
//! input text, so regenerating from the same input yields the same names.
//!
//! Two normalizations exist: referenced identifiers are snake-cased, and
//! free-text labels are lower-cased with spaces turned into underscores and
//! colons removed. One shared routine serves every code path that names a
//! generated item from a label.

use vstd::prelude::*;
use convert_case::Case;
use convert_case::Casing;

verus! {

/// What `str::to_lowercase` returns for these characters.
pub uninterp spec fn lower_of(s: Seq<char>) -> Seq<char>;

/// What `convert_case` snake-casing returns for these characters.
pub uninterp spec fn snake_of(s: Seq<char>) -> Seq<char>;

/// Relies on str::to_lowercase: the lower-case form of the text, a function
/// of the characters alone.
#[verifier::external_body]
fn lower_chars(s: &str) -> (r: Vec<char>)
    ensures
        r@ == lower_of(s@),
{
    s.to_lowercase().chars().collect()
}

/// Relies on convert_case::Casing::to_case with Case::Snake: the name split
/// into words at the crate's default boundaries, lower-cased and joined with
/// underscores, a function of the characters alone.
#[verifier::external_body]
pub(crate) fn to_snake_case(s: &str) -> (r: String)
    ensures
        r@ == snake_of(s@),
{
    s.to_case(Case::Snake)
}

/// Relies on String::from_iter (through collect): the string holding exactly
/// these characters.
#[verifier::external_body]
fn chars_to_string(v: Vec<char>) -> (r: String)
    ensures
        r@ == v@,
{
    v.into_iter().collect()
}

/// What one character of a lower-cased label contributes to the identifier:
/// a colon vanishes, a space becomes an underscore, all else stays.
pub open spec fn sanitize_step(c: char) -> Seq<char> {
    if c == ':' {
        Seq::empty()
    } else if c == ' ' {
        seq!['_']
    } else {
        seq![c]
    }
}

/// The label characters with spaces turned into underscores and colons
/// removed, in order.
pub open spec fn sanitize_chars(s: Seq<char>) -> Seq<char>
    decreases s.len(),
{
    if s.len() == 0 {
        Seq::empty()
    } else {
        sanitize_chars(s.drop_last()) + sanitize_step(s.last())
    }
}

/// The normalized identifier derived from a free-text label: lower-cased,
/// spaces to underscores, colons removed.
pub open spec fn sanitize_label_spec(s: Seq<char>) -> Seq<char> {
    sanitize_chars(lower_of(s))
}

fn sanitize_vec(v: &Vec<char>) -> (r: Vec<char>)
    ensures
        r@ == sanitize_chars(v@),
{
    let mut r: Vec<char> = Vec::new();
    let mut i: usize = 0;
    while i < v.len()
        invariant
            i <= v.len(),
            r@ == sanitize_chars(v@.take(i as int)),
        decreases v.len() - i,
    {
        let c = v[i];
        if c == ':' {
        } else if c == ' ' {
            r.push('_');
        } else {
            r.push(c);
        }
        proof {
            let pre = v@.take(i + 1);
            assert(pre.drop_last() =~= v@.take(i as int));
            assert(pre.last() == v@[i as int]);
            assert(r@ =~= sanitize_chars(v@.take(i as int)) + sanitize_step(v@[i as int]));
        }
        i = i + 1;
    }
    proof {
        assert(v@.take(v.len() as int) =~= v@);
    }
    r
}

/// Normalizes a free-text label into the generated test identifier.
pub fn sanitize_label(s: &str) -> (r: String)
    ensures
        r@ == sanitize_label_spec(s@),
{
    let lc = lower_chars(s);
    let sv = sanitize_vec(&lc);
    chars_to_string(sv)
}

/// Law: the normalized generated name is a pure, deterministic function of
/// the input text alone — regenerating from an identical label or identifier
/// always yields the identical name.
pub proof fn lemma_naming_deterministic(a: Seq<char>, b: Seq<char>)
    requires
        a == b,
    ensures
        sanitize_label_spec(a) == sanitize_label_spec(b),
        snake_of(a) == snake_of(b),
{
}

} // verus!
