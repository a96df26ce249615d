//! The lint policy: which lints are applied to every compiled unit, which must
//! have been applied before an artifact is trusted, and how user code that
//! tries to relax one of them is recognised.

use vstd::prelude::*;
use crate::text::{chars_eq, chars_of, split, split_chars, string_of, trim, trimmed, views};

verus! {

/// The built-in lint list, which both lint sets default to.
pub open spec fn builtin_lints_text() -> Seq<char> {
    "plrust_extern_blocks, plrust_lifetime_parameterized_traits, implied_bounds_entailment, unsafe_code, unknown_lints"@
}

/// The lint that no configuration may drop: it forbids unsafe code and unsafe
/// attributes.
pub open spec fn baseline_lint() -> Seq<char> {
    "unsafe_code"@
}

/// The character sequences held by a vector of strings.
pub open spec fn strings(v: Seq<String>) -> Seq<Seq<char>> {
    v.map_values(|s: String| s@)
}

/// The pieces, each trimmed, that are not empty once trimmed.
pub open spec fn trimmed_nonempty(pieces: Seq<Seq<char>>) -> Seq<Seq<char>>
    decreases pieces.len(),
{
    if pieces.len() == 0 {
        Seq::<Seq<char>>::empty()
    } else {
        let before = trimmed_nonempty(pieces.drop_last());
        let piece = trim(pieces.last());
        if piece.len() == 0 {
            before
        } else {
            before.push(piece)
        }
    }
}

/// The lint names in a comma-separated list, in the order given: each trimmed,
/// empty entries left out.
pub open spec fn lint_names(setting: Seq<char>) -> Seq<Seq<char>> {
    trimmed_nonempty(split(setting, ','))
}

/// Reads a comma-separated lint list.
pub fn parse_lints(setting: &str) -> (lints: Vec<String>)
    ensures
        strings(lints@) == lint_names(setting@),
{
    let all = chars_of(setting);
    let pieces = split_chars(&all, ',');
    let ghost spec_pieces = split(setting@, ',');
    let mut lints: Vec<String> = Vec::new();
    let mut i: usize = 0;
    assert(spec_pieces.take(0) =~= Seq::<Seq<char>>::empty());
    assert(strings(lints@) =~= Seq::<Seq<char>>::empty());
    while i < pieces.len()
        invariant
            i <= pieces.len(),
            views(pieces@) == spec_pieces,
            strings(lints@) == trimmed_nonempty(spec_pieces.take(i as int)),
        decreases pieces.len() - i,
    {
        let piece = trimmed(&pieces[i]);
        proof {
            let next = spec_pieces.take(i + 1);
            assert(next.drop_last() =~= spec_pieces.take(i as int));
            assert(next.last() == pieces@[i as int]@);
        }
        if piece.len() > 0 {
            let name = string_of(&piece);
            let ghost before = strings(lints@);
            lints.push(name);
            assert(strings(lints@) =~= before.push(name@));
        }
        i = i + 1;
    }
    assert(spec_pieces.take(pieces@.len() as int) =~= spec_pieces);
    lints
}

/// The lint names that a setting stands for: those it lists, or the built-in
/// list where it is not set.
pub open spec fn configured_lints(setting: Option<&str>) -> Seq<Seq<char>> {
    match setting {
        Some(s) => lint_names(s@),
        None => lint_names(builtin_lints_text()),
    }
}

/// The lints applied, at deny level, to every unit that is compiled.
pub fn compile_lints(setting: Option<&str>) -> (lints: Vec<String>)
    ensures
        strings(lints@) == configured_lints(setting),
{
    match setting {
        Some(s) => parse_lints(s),
        None => parse_lints(
            "plrust_extern_blocks, plrust_lifetime_parameterized_traits, implied_bounds_entailment, unsafe_code, unknown_lints",
        ),
    }
}

/// The lints that must have been applied to a unit before its artifact is
/// loaded.
pub fn required_lints(setting: Option<&str>) -> (lints: Vec<String>)
    ensures
        strings(lints@) == configured_lints(setting),
{
    compile_lints(setting)
}

/// Whether a required set still holds the lint that no configuration may drop.
/// A loader refuses an artifact whose required set fails this.
pub fn covers_baseline(required: &Vec<String>) -> (r: bool)
    ensures
        r == strings(required@).contains(baseline_lint()),
{
    let baseline = chars_of("unsafe_code");
    let mut i: usize = 0;
    while i < required.len()
        invariant
            i <= required.len(),
            baseline@ == baseline_lint(),
            forall|k: int| 0 <= k < i ==> strings(required@)[k] != baseline_lint(),
        decreases required.len() - i,
    {
        let name = chars_of(required[i].as_str());
        if chars_eq(&name, &baseline) {
            assert(strings(required@)[i as int] == baseline_lint());
            return true;
        }
        i = i + 1;
    }
    false
}

/// Whether `word` stands in `text` at position `i`.
pub open spec fn occurs_at(text: Seq<char>, i: int, word: Seq<char>) -> bool {
    0 <= i && i + word.len() <= text.len() && text.subrange(i, i + word.len()) == word
}

/// Whether one of the level words below deny ends just before position `e`:
/// allow, warn or expect.
pub open spec fn level_word_ends_at(code: Seq<char>, e: int) -> bool {
    occurs_at(code, e - 5, "allow"@) || occurs_at(code, e - 4, "warn"@) || occurs_at(
        code,
        e - 6,
        "expect"@,
    )
}

/// Whether a level word ends at `e`, an opening parenthesis stands at `p`, at
/// or after `e`, and `lint` stands at `j`, after `p`.
pub open spec fn names_after_level(code: Seq<char>, e: int, p: int, j: int, lint: Seq<char>) -> bool {
    level_word_ends_at(code, e) && e <= p < code.len() && code[p] == '(' && p < j && occurs_at(
        code,
        j,
        lint,
    )
}

/// Whether user code may hold a directive that lowers the level of `lint`:
/// whether a level word below deny is followed, anywhere later, by an opening
/// parenthesis, and that, anywhere later, by the name of the lint.
///
/// The test is textual and errs on the side of refusal. What stands between
/// the three is not looked at, so whitespace and comments there hide nothing,
/// and neither does a closing bracket in a comment; code that merely mentions
/// the three in this order, in a string or a comment, is refused as well. Still
/// missed are a directive that a macro puts together, one that names a group of
/// lints or an older name of the lint, and one that writes the path of a lint
/// with whitespace or a comment in it.
pub open spec fn disables_lint(code: Seq<char>, lint: Seq<char>) -> bool {
    exists|e: int, p: int, j: int| #[trigger] names_after_level(code, e, p, j, lint)
}

fn matches_at(text: &Vec<char>, i: usize, word: &Vec<char>) -> (r: bool)
    ensures
        r == occurs_at(text@, i as int, word@),
{
    if word.len() > text.len() || i > text.len() - word.len() {
        return false;
    }
    let mut k: usize = 0;
    while k < word.len()
        invariant
            k <= word.len(),
            i + word.len() <= text.len(),
            forall|m: int| 0 <= m < k ==> text@[i + m] == word@[m],
        decreases word.len() - k,
    {
        if text[i + k] != word[k] {
            assert(text@.subrange(i as int, i + word.len())[k as int] != word@[k as int]);
            return false;
        }
        k = k + 1;
    }
    assert(text@.subrange(i as int, i + word.len()) =~= word@);
    true
}

fn word_ends_at(text: &Vec<char>, e: usize, word: &Vec<char>) -> (r: bool)
    ensures
        r == occurs_at(text@, e - word@.len(), word@),
{
    if e < word.len() {
        return false;
    }
    matches_at(text, e - word.len(), word)
}

/// The first position at which a level word ends, if there is one.
fn first_level_word_end(code: &Vec<char>) -> (r: Option<usize>)
    ensures
        match r {
            Some(e) => e <= code.len() && level_word_ends_at(code@, e as int) && forall|k: int|
                k < e ==> !level_word_ends_at(code@, k),
            None => forall|k: int| !level_word_ends_at(code@, k),
        },
{
    let allow = chars_of("allow");
    let warn = chars_of("warn");
    let expect = chars_of("expect");
    proof {
        reveal_strlit("allow");
        reveal_strlit("warn");
        reveal_strlit("expect");
    }
    let mut e: usize = 0;
    loop
        invariant
            e <= code.len(),
            allow@ == "allow"@,
            warn@ == "warn"@,
            expect@ == "expect"@,
            "allow"@.len() == 5,
            "warn"@.len() == 4,
            "expect"@.len() == 6,
            forall|k: int| k < e ==> !level_word_ends_at(code@, k),
        decreases code.len() - e,
    {
        if word_ends_at(code, e, &allow) || word_ends_at(code, e, &warn) || word_ends_at(
            code,
            e,
            &expect,
        ) {
            return Some(e);
        }
        if e == code.len() {
            return None;
        }
        e = e + 1;
    }
}

/// The first position at or after `from` that holds an opening parenthesis.
fn first_parenthesis(code: &Vec<char>, from: usize) -> (r: Option<usize>)
    ensures
        match r {
            Some(p) => from <= p < code.len() && code@[p as int] == '(' && forall|k: int|
                from <= k < p ==> code@[k] != '(',
            None => forall|k: int| from <= k < code.len() ==> code@[k] != '(',
        },
{
    let mut p: usize = from;
    while p < code.len()
        invariant
            from <= p,
            forall|k: int| from <= k < p && k < code.len() ==> code@[k] != '(',
        decreases code.len() - p,
    {
        if code[p] == '(' {
            return Some(p);
        }
        p = p + 1;
    }
    None
}

/// Whether `lint` stands anywhere after position `p`.
fn named_after(code: &Vec<char>, p: usize, lint: &Vec<char>) -> (r: bool)
    requires
        p < code.len(),
    ensures
        r == exists|j: int| p < j && #[trigger] occurs_at(code@, j, lint@),
{
    let mut j: usize = p + 1;
    loop
        invariant
            p < j <= code.len(),
            forall|k: int| p < k < j ==> !occurs_at(code@, k, lint@),
        decreases code.len() - j,
    {
        if matches_at(code, j, lint) {
            return true;
        }
        if j == code.len() {
            return false;
        }
        j = j + 1;
    }
}

/// Whether user code may hold a directive that lowers the level of `lint`.
pub fn lint_disabled(code: &Vec<char>, lint: &Vec<char>) -> (r: bool)
    ensures
        r == disables_lint(code@, lint@),
{
    let e = match first_level_word_end(code) {
        Some(e) => e,
        None => {
            return false;
        },
    };
    let p = match first_parenthesis(code, e) {
        Some(p) => p,
        None => {
            return false;
        },
    };
    let found = named_after(code, p, lint);
    proof {
        if found {
            let j = choose|j: int| p < j && #[trigger] occurs_at(code@, j, lint@);
            assert(names_after_level(code@, e as int, p as int, j, lint@));
        } else {
            assert forall|e2: int, p2: int, j2: int| !#[trigger] names_after_level(
                code@,
                e2,
                p2,
                j2,
                lint@,
            ) by {
                if names_after_level(code@, e2, p2, j2, lint@) {
                    assert(e <= e2);
                    assert(p <= p2);
                    assert(occurs_at(code@, j2, lint@));
                }
            }
        }
    }
    found
}

/// The position, at or after `from`, of the first lint in `lints` that `code`
/// disables, if it disables any of them.
pub open spec fn first_disabled(code: Seq<char>, lints: Seq<Seq<char>>, from: int) -> Option<int>
    decreases lints.len() - from,
{
    if from < 0 || from >= lints.len() {
        None
    } else if disables_lint(code, lints[from]) {
        Some(from)
    } else {
        first_disabled(code, lints, from + 1)
    }
}

/// Looks for a lint that user code tries to relax. Returns the position of the
/// first such lint in `lints`, or `None` where the code leaves every one of
/// them alone.
pub fn find_disabled_lint(code: &str, lints: &Vec<String>) -> (r: Option<usize>)
    ensures
        r is Some == first_disabled(code@, strings(lints@), 0) is Some,
        r matches Some(k) ==> first_disabled(code@, strings(lints@), 0) == Some(k as int),
{
    let text = chars_of(code);
    let mut i: usize = 0;
    while i < lints.len()
        invariant
            i <= lints.len(),
            text@ == code@,
            first_disabled(code@, strings(lints@), 0) == first_disabled(
                code@,
                strings(lints@),
                i as int,
            ),
        decreases lints.len() - i,
    {
        let lint = chars_of(lints[i].as_str());
        assert(strings(lints@)[i as int] == lint@);
        if lint_disabled(&text, &lint) {
            return Some(i);
        }
        i = i + 1;
    }
    None
}

/// A disabled lint is found exactly where some lint of the list is disabled,
/// and the one found is the first.
pub proof fn lemma_first_disabled(code: Seq<char>, lints: Seq<Seq<char>>, from: int)
    requires
        0 <= from,
    ensures
        first_disabled(code, lints, from) is None <==> forall|k: int|
            from <= k < lints.len() ==> !disables_lint(code, lints[k]),
        first_disabled(code, lints, from) matches Some(k) ==> from <= k < lints.len()
            && disables_lint(code, lints[k]) && forall|m: int|
            from <= m < k ==> !disables_lint(code, lints[m]),
    decreases lints.len() - from,
{
    if from < lints.len() && !disables_lint(code, lints[from]) {
        lemma_first_disabled(code, lints, from + 1);
    }
}

} // verus!
