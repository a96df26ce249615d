//! The stored text of a function: a dependency section and a code section,
//! told apart by marker lines.

use vstd::prelude::*;
use vstd::string::StringExecFns;
use crate::builder::FunctionDefinition;
use crate::codegen::Argument;
use crate::text::{chars_eq, chars_of, lines, lines_of, string_of, trim, trimmed, views};
use crate::types::SemanticType;

verus! {

/// Whether a line is the marker that opens the dependency section.
pub open spec fn is_deps_marker(line: Seq<char>) -> bool {
    trim(line) == "[dependencies]"@
}

/// Whether a line is the marker that opens the code section.
pub open spec fn is_code_marker(line: Seq<char>) -> bool {
    trim(line) == "[code]"@
}

/// Whether the dependency section is open once `lines` have been read. The
/// nearest marker decides; before any marker, the code section is open.
pub open spec fn in_deps_after(lines: Seq<Seq<char>>) -> bool
    decreases lines.len(),
{
    if lines.len() == 0 {
        false
    } else if is_deps_marker(lines.last()) {
        true
    } else if is_code_marker(lines.last()) {
        false
    } else {
        in_deps_after(lines.drop_last())
    }
}

/// The text of one section: every line that is no marker and stands in that
/// section, in order, each followed by a line feed. `deps` chooses the
/// dependency section, otherwise the code section is meant.
pub open spec fn section_text(lines: Seq<Seq<char>>, deps: bool) -> Seq<char>
    decreases lines.len(),
{
    if lines.len() == 0 {
        Seq::<char>::empty()
    } else {
        let before = section_text(lines.drop_last(), deps);
        let line = lines.last();
        if is_deps_marker(line) || is_code_marker(line) {
            before
        } else if in_deps_after(lines.drop_last()) == deps {
            before + line + seq!['\n']
        } else {
            before
        }
    }
}

/// The dependency section and the code section of a stored source text.
pub open spec fn source_and_deps(code: Seq<char>) -> (Seq<char>, Seq<char>) {
    let ls = lines(trim(code));
    (section_text(ls, true), section_text(ls, false))
}

/// Splits a stored source text into its dependency section and its code
/// section. The text is trimmed first. A line that reads `[dependencies]` or
/// `[code]` once trimmed opens that section and belongs to neither; every other
/// line goes, untrimmed and followed by a line feed, to the section that is
/// open. Until the first marker that is the code section.
pub fn parse_source_and_deps(code: &str) -> (r: (String, String))
    ensures
        (r.0@, r.1@) == source_and_deps(code@),
{
    let all = chars_of(code);
    let body = trimmed(&all);
    let ls = lines_of(&body);
    let deps_marker = chars_of("[dependencies]");
    let code_marker = chars_of("[code]");
    let mut deps_block: Vec<char> = Vec::new();
    let mut code_block: Vec<char> = Vec::new();
    let mut in_deps = false;
    let ghost spec_lines = lines(trim(code@));
    let mut i: usize = 0;
    assert(spec_lines.take(0) =~= Seq::<Seq<char>>::empty());
    while i < ls.len()
        invariant
            i <= ls.len(),
            views(ls@) == spec_lines,
            deps_marker@ == "[dependencies]"@,
            code_marker@ == "[code]"@,
            in_deps == in_deps_after(spec_lines.take(i as int)),
            deps_block@ == section_text(spec_lines.take(i as int), true),
            code_block@ == section_text(spec_lines.take(i as int), false),
        decreases ls.len() - i,
    {
        let line = &ls[i];
        proof {
            let next = spec_lines.take(i + 1);
            assert(next.drop_last() =~= spec_lines.take(i as int));
            assert(next.last() == line@);
        }
        let trimmed_line = trimmed(line);
        if chars_eq(&trimmed_line, &deps_marker) {
            in_deps = true;
        } else if chars_eq(&trimmed_line, &code_marker) {
            in_deps = false;
        } else if in_deps {
            push_line(&mut deps_block, line);
        } else {
            push_line(&mut code_block, line);
        }
        i = i + 1;
    }
    assert(spec_lines.take(ls@.len() as int) =~= spec_lines);
    (string_of(&deps_block), string_of(&code_block))
}

/// Appends a line and a line feed to a block.
fn push_line(block: &mut Vec<char>, line: &Vec<char>)
    ensures
        final(block)@ == old(block)@ + line@ + seq!['\n'],
{
    let mut k: usize = 0;
    while k < line.len()
        invariant
            k <= line.len(),
            block@ == old(block)@ + line@.take(k as int),
        decreases line.len() - k,
    {
        block.push(line[k]);
        assert(line@.take(k + 1) =~= line@.take(k as int).push(line@[k as int]));
        assert(block@ =~= old(block)@ + line@.take(k + 1));
        k = k + 1;
    }
    assert(line@.take(line@.len() as int) =~= line@);
    block.push('\n');
    assert(block@ =~= old(block)@ + line@ + seq!['\n']);
}

/// What the catalog holds for a function.
pub struct ProcEntry {
    pub fn_oid: u32,
    /// Whether the function is written in the language of this pipeline.
    pub is_plrust: bool,
    /// The stored source text.
    pub source: Option<String>,
    /// The number of parameters.
    pub nargs: usize,
    pub argnames: Option<Vec<Option<String>>>,
    pub argtypes: Option<Vec<SemanticType>>,
    pub return_type: SemanticType,
    pub is_set: bool,
    pub is_strict: bool,
}

/// Why a catalog entry gives no function definition.
#[derive(Clone, Copy, Debug, PartialEq, Eq, Structural)]
pub enum CatalogError {
    /// The function is written in another language.
    NotPlRust,
    /// The entry holds no source text.
    SourceMissing,
    /// The entry gives no type for the parameter at this position.
    ArgumentTypeMissing(usize),
}

/// The position of the first parameter, below `n`, for which the entry gives
/// no type.
pub open spec fn first_untyped(argtypes: Option<Vec<SemanticType>>, n: int) -> Option<int> {
    match argtypes {
        None => if n > 0 {
            Some(0)
        } else {
            None
        },
        Some(types) => if n > types@.len() {
            Some(types@.len() as int)
        } else {
            None
        },
    }
}

/// The name that the entry gives for the parameter at a position.
pub open spec fn name_at(argnames: Option<Vec<Option<String>>>, i: int) -> Option<String> {
    match argnames {
        Some(names) => if 0 <= i < names@.len() {
            names@[i]
        } else {
            None
        },
        None => None,
    }
}

/// Why an entry gives no definition, if it gives none. The language is looked
/// at first, then the source, then the parameters.
pub open spec fn catalog_error(entry: ProcEntry) -> Option<CatalogError> {
    if !entry.is_plrust {
        Some(CatalogError::NotPlRust)
    } else if entry.source is None {
        Some(CatalogError::SourceMissing)
    } else {
        match first_untyped(entry.argtypes, entry.nargs as int) {
            Some(i) => Some(CatalogError::ArgumentTypeMissing(i as usize)),
            None => None,
        }
    }
}

/// Reads a function definition out of its catalog entry: the two sections of
/// the source text, and one parameter per declared argument, each with its
/// type and, where the entry names it, its name.
pub fn extract_code_and_args(entry: &ProcEntry) -> (r: Result<FunctionDefinition, CatalogError>)
    ensures
        match r {
            Ok(def) => {
                &&& catalog_error(*entry) is None
                &&& def.fn_oid == entry.fn_oid
                &&& (def.dependencies@, def.code@) == source_and_deps(entry.source->Some_0@)
                &&& def.return_type == entry.return_type
                &&& def.is_set == entry.is_set
                &&& def.is_strict == entry.is_strict
                &&& def.args@.len() == entry.nargs
                &&& forall|i: int|
                    0 <= i < entry.nargs ==> (#[trigger] def.args@[i]).0
                        == entry.argtypes->Some_0@[i] && def.args@[i].1 == name_at(
                        entry.argnames,
                        i,
                    )
            },
            Err(e) => catalog_error(*entry) == Some(e),
        },
{
    if !entry.is_plrust {
        return Err(CatalogError::NotPlRust);
    }
    let source = match &entry.source {
        Some(source) => source,
        None => {
            return Err(CatalogError::SourceMissing);
        },
    };
    let (dependencies, code) = parse_source_and_deps(source.as_str());
    let mut args: Vec<Argument> = Vec::new();
    let mut i: usize = 0;
    while i < entry.nargs
        invariant
            i <= entry.nargs,
            args@.len() == i,
            entry.is_plrust,
            entry.source is Some,
            entry.argtypes is Some ==> i <= entry.argtypes->Some_0@.len(),
            entry.argtypes is None ==> i == 0,
            forall|k: int|
                0 <= k < i ==> (#[trigger] args@[k]).0 == entry.argtypes->Some_0@[k] && args@[k].1
                    == name_at(entry.argnames, k),
        decreases entry.nargs - i,
    {
        let ty = match &entry.argtypes {
            Some(types) => {
                if i < types.len() {
                    types[i]
                } else {
                    return Err(CatalogError::ArgumentTypeMissing(i));
                }
            },
            None => {
                return Err(CatalogError::ArgumentTypeMissing(i));
            },
        };
        let name = match &entry.argnames {
            Some(names) => {
                if i < names.len() {
                    match &names[i] {
                        Some(name) => Some(name.clone()),
                        None => None,
                    }
                } else {
                    None
                }
            },
            None => None,
        };
        args.push((ty, name));
        i = i + 1;
    }
    Ok(
        FunctionDefinition {
            fn_oid: entry.fn_oid,
            dependencies,
            code,
            args,
            return_type: entry.return_type,
            is_set: entry.is_set,
            is_strict: entry.is_strict,
        },
    )
}

} // verus!
