//! The entry file of a scaffolded project, and how script modules are
//! registered in it.
//!
//! The entry file is the one text that is edited in place.  Registering a
//! module puts one declaration line into it, right after the anchor line
//! where there is one and at the very start where there is none, unless the
//! line already stands somewhere in the file.  Nothing that the file held is
//! removed or moved.

use vstd::prelude::*;
use crate::error::ScaffoldError;
use crate::text::{
    chars_of, contains_text, extends_by, find_first, first_occurrence, insert_at,
    lemma_first_occurrence_exists, lemma_first_occurrence_unique, lemma_inserted_occurs,
    lemma_occurrence_char, lemma_occurrence_survives_insertion, occurs_at,
};

verus! {

/// The line after which module declarations are inserted.
pub const ANCHOR: &'static str = "use godot::prelude::*;\n";

/// The anchor, as a sequence of characters.
pub open spec fn anchor() -> Seq<char> {
    ANCHOR@
}

/// The declaration line that registers `module`.
pub open spec fn registration_line(module: Seq<char>) -> Seq<char> {
    "mod "@ + module + ";\n"@
}

/// Where a new declaration goes: right after the first anchor, or at the
/// start of a file without one.
pub open spec fn insertion_point(entry: Seq<char>) -> int {
    if contains_text(entry, anchor()) {
        first_occurrence(entry, anchor()) + anchor().len()
    } else {
        0
    }
}

/// The entry file after `module` has been registered in it.
pub open spec fn registered(entry: Seq<char>, module: Seq<char>) -> Seq<char> {
    if contains_text(entry, registration_line(module)) {
        entry
    } else {
        insert_at(entry, insertion_point(entry), registration_line(module))
    }
}

/// What registering a module did to the entry file.
#[derive(Clone, Copy, Debug, PartialEq, Eq, Structural)]
pub enum RegistrationStatus {
    /// The declaration was there already; the file is unchanged.
    AlreadyRegistered,
    /// The declaration was inserted right after the anchor.
    InsertedAfterAnchor,
    /// The file has no anchor; the declaration was inserted at its start.
    InsertedAtStart,
}

/// What registering `module` in `entry` does, as a status.
pub open spec fn registration_status(entry: Seq<char>, module: Seq<char>) -> RegistrationStatus {
    if contains_text(entry, registration_line(module)) {
        RegistrationStatus::AlreadyRegistered
    } else if contains_text(entry, anchor()) {
        RegistrationStatus::InsertedAfterAnchor
    } else {
        RegistrationStatus::InsertedAtStart
    }
}

/// What a registration did to an entry file, with the new contents of the
/// file where it has to be written back.
#[derive(Debug)]
pub struct EntryUpdate {
    pub status: RegistrationStatus,
    /// The file's new contents, or nothing where the file is unchanged.
    pub new_contents: Option<String>,
}

/// Builds the declaration line that registers `module`.
pub fn module_declaration(module: &str) -> (line: String)
    ensures
        line@ == registration_line(module@),
{
    let mut line = String::from_str("mod ");
    line.append(module);
    line.append(";\n");
    line
}

fn anchor_end(entry: &Vec<char>) -> (end: Result<usize, ScaffoldError>)
    ensures
        end is Ok <==> contains_text(entry@, anchor()),
        end is Ok ==> end->Ok_0 == insertion_point(entry@) && end->Ok_0 <= entry@.len(),
        end is Err ==> end->Err_0 == ScaffoldError::MissingAnchor && insertion_point(entry@) == 0,
{
    let pattern = chars_of(ANCHOR);
    match find_first(entry, &pattern) {
        Some(at) => {
            proof {
                lemma_first_occurrence_unique(entry@, anchor(), at as int);
            }
            assert(at + pattern.len() <= entry.len());
            Ok(at + pattern.len())
        },
        None => Err(ScaffoldError::MissingAnchor),
    }
}

/// Finds the position right after the first anchor line of `entry`, counted
/// in characters.
pub fn locate_anchor(entry: &str) -> (end: Result<usize, ScaffoldError>)
    ensures
        end is Ok <==> contains_text(entry@, anchor()),
        end is Ok ==> end->Ok_0 == insertion_point(entry@) && end->Ok_0 <= entry@.len(),
        end is Err ==> end->Err_0 == ScaffoldError::MissingAnchor,
{
    let chars = chars_of(entry);
    anchor_end(&chars)
}

/// Registers `module` in `entry` and says what that took.  The new contents
/// are given only where they differ from `entry`, so that the file is
/// written back only where the registration changed it.
pub fn update_entry(entry: &str, module: &str) -> (update: EntryUpdate)
    ensures
        update.status == registration_status(entry@, module@),
        update.new_contents is None <==> contains_text(entry@, registration_line(module@)),
        update.new_contents is Some ==> update.new_contents->0@ == registered(entry@, module@),
{
    let line = module_declaration(module);
    let chars = chars_of(entry);
    let line_chars = chars_of(line.as_str());
    if find_first(&chars, &line_chars).is_some() {
        return EntryUpdate { status: RegistrationStatus::AlreadyRegistered, new_contents: None };
    }
    let (status, at) = match anchor_end(&chars) {
        Ok(end) => (RegistrationStatus::InsertedAfterAnchor, end),
        Err(_) => (RegistrationStatus::InsertedAtStart, 0),
    };
    let mut contents = String::from_str(entry.substring_char(0, at));
    contents.append(line.as_str());
    contents.append(entry.substring_char(at, chars.len()));
    EntryUpdate { status, new_contents: Some(contents) }
}

/// Registers `module` in the text of an entry file: the text itself where
/// the module's declaration line stands in it already, else the text with
/// that line inserted after the first anchor line, or at the start where
/// there is no anchor.
pub fn register_module(entry: &str, module: &str) -> (text: String)
    ensures
        text@ == registered(entry@, module@),
{
    match update_entry(entry, module).new_contents {
        Some(contents) => contents,
        None => String::from_str(entry),
    }
}

/// The insertion point of any entry file lies inside it, and where the file
/// holds the anchor, the first anchor ends there.
pub proof fn lemma_insertion_point_bounds(entry: Seq<char>)
    ensures
        0 <= insertion_point(entry) <= entry.len(),
        contains_text(entry, anchor()) ==> occurs_at(
            entry,
            anchor(),
            insertion_point(entry) - anchor().len(),
        ),
{
    if contains_text(entry, anchor()) {
        lemma_first_occurrence_exists(entry, anchor());
    }
}

/// After a module has been registered, its declaration line stands in the
/// entry file.
pub proof fn lemma_registered_contains_line(entry: Seq<char>, module: Seq<char>)
    ensures
        contains_text(registered(entry, module), registration_line(module)),
{
    if !contains_text(entry, registration_line(module)) {
        lemma_insertion_point_bounds(entry);
        lemma_inserted_occurs(entry, insertion_point(entry), registration_line(module));
    }
}

/// Registering a module a second time changes nothing.
pub proof fn lemma_register_idempotent(entry: Seq<char>, module: Seq<char>)
    ensures
        registered(registered(entry, module), module) == registered(entry, module),
{
    lemma_registered_contains_line(entry, module);
}

/// Registering a module removes and reorders nothing: the result is the
/// entry file itself, or the entry file with the declaration line put in at
/// one place.
pub proof fn lemma_register_keeps_content(entry: Seq<char>, module: Seq<char>)
    ensures
        extends_by(entry, registration_line(module), registered(entry, module)),
{
    lemma_insertion_point_bounds(entry);
}

/// An entry file that holds the anchor still holds it after a module has
/// been registered.
pub proof fn lemma_register_keeps_anchor(entry: Seq<char>, module: Seq<char>)
    requires
        contains_text(entry, anchor()),
    ensures
        contains_text(registered(entry, module), anchor()),
{
    if !contains_text(entry, registration_line(module)) {
        lemma_insertion_point_bounds(entry);
        let end = insertion_point(entry);
        lemma_occurrence_survives_insertion(
            entry,
            anchor(),
            end - anchor().len(),
            end,
            registration_line(module),
        );
    }
}

/// The anchor holds no `m`, starts with `u` and ends with a line break that
/// no other place of it holds.
proof fn lemma_anchor_shape()
    ensures
        anchor().len() == 23,
        anchor()[0] == 'u',
        anchor()[22] == '\n',
        forall|j: int| 0 <= j < 23 ==> #[trigger] anchor()[j] != 'm',
{
    reveal_strlit("use godot::prelude::*;\n");
}

/// A declaration line is `mod `, the module, `;` and a line break.
proof fn lemma_line_shape(module: Seq<char>)
    ensures
        registration_line(module).len() == module.len() + 6,
        registration_line(module)[0] == 'm',
        registration_line(module)[1] == 'o',
        registration_line(module)[2] == 'd',
        registration_line(module)[3] == ' ',
        registration_line(module)[module.len() as int + 4] == ';',
{
    reveal_strlit("mod ");
    reveal_strlit(";\n");
}

/// A pattern that lies inside an occurrence of `head + body + tail`, behind
/// `head` and before `tail`, lies inside `body`.
proof fn lemma_occurrence_inside_body(
    text: Seq<char>,
    head: Seq<char>,
    body: Seq<char>,
    tail: Seq<char>,
    whole_at: int,
    pattern: Seq<char>,
    pattern_at: int,
)
    requires
        occurs_at(text, head + body + tail, whole_at),
        occurs_at(text, pattern, pattern_at),
        whole_at + head.len() <= pattern_at,
        pattern_at + pattern.len() <= whole_at + head.len() + body.len(),
    ensures
        occurs_at(body, pattern, pattern_at - whole_at - head.len()),
{
    let whole = head + body + tail;
    let inner = pattern_at - whole_at - head.len();
    assert forall|j: int| 0 <= j < pattern.len() implies body[inner + j] == pattern[j] by {
        lemma_occurrence_char(text, pattern, pattern_at, j);
        lemma_occurrence_char(text, whole, whole_at, head.len() + inner + j);
    }
    assert(body.subrange(inner, inner + pattern.len()) =~= pattern);
}

/// Where a module's name does not hold the anchor, no anchor in a text ends
/// strictly inside an occurrence of the module's declaration line.
proof fn lemma_anchor_end_outside_line(
    text: Seq<char>,
    module: Seq<char>,
    line_at: int,
    anchor_at: int,
)
    requires
        occurs_at(text, registration_line(module), line_at),
        occurs_at(text, anchor(), anchor_at),
        !contains_text(module, anchor()),
    ensures
        anchor_at + anchor().len() <= line_at || line_at + registration_line(module).len()
            <= anchor_at + anchor().len(),
{
    let line = registration_line(module);
    let end = anchor_at + anchor().len();
    lemma_anchor_shape();
    lemma_line_shape(module);
    if line_at < end && end < line_at + line.len() {
        if anchor_at < line_at {
            // the line's first character, an `m`, would stand inside the anchor
            lemma_occurrence_char(text, anchor(), anchor_at, line_at - anchor_at);
            lemma_occurrence_char(text, line, line_at, 0);
            assert(false);
        } else {
            // the anchor would lie inside the line, and so inside the module's name
            reveal_strlit("mod ");
            let offset = anchor_at - line_at;
            lemma_occurrence_char(text, anchor(), anchor_at, 0);
            lemma_occurrence_char(text, line, line_at, offset);
            assert(offset >= 4);
            lemma_occurrence_char(text, anchor(), anchor_at, 22);
            lemma_occurrence_char(text, line, line_at, offset + 22);
            assert(offset + 22 != module.len() + 4);
            lemma_occurrence_inside_body(text, "mod "@, module, ";\n"@, line_at, anchor(), anchor_at);
            assert(occurs_at(module, anchor(), offset - 4));
            assert(false);
        }
    }
}

/// Registering two modules one after the other leaves both declaration
/// lines in the entry file, and the anchor where the file held it; each
/// registration puts in at most its own line and moves nothing else.  The
/// one condition is on the first module: its name does not itself hold the
/// anchor line.
pub proof fn lemma_register_two_modules(entry: Seq<char>, first: Seq<char>, second: Seq<char>)
    requires
        !contains_text(first, anchor()),
    ensures
        extends_by(entry, registration_line(first), registered(entry, first)),
        extends_by(
            registered(entry, first),
            registration_line(second),
            registered(registered(entry, first), second),
        ),
        contains_text(
            registered(registered(entry, first), second),
            registration_line(first),
        ),
        contains_text(
            registered(registered(entry, first), second),
            registration_line(second),
        ),
        contains_text(entry, anchor()) ==> contains_text(
            registered(registered(entry, first), second),
            anchor(),
        ),
{
    let once = registered(entry, first);
    lemma_register_keeps_content(entry, first);
    lemma_register_keeps_content(once, second);
    lemma_registered_contains_line(entry, first);
    lemma_registered_contains_line(once, second);
    if contains_text(entry, anchor()) {
        lemma_register_keeps_anchor(entry, first);
        lemma_register_keeps_anchor(once, second);
    }
    if !contains_text(once, registration_line(second)) {
        let line_at = choose|at: int| occurs_at(once, registration_line(first), at);
        let end = insertion_point(once);
        lemma_insertion_point_bounds(once);
        if contains_text(once, anchor()) {
            lemma_anchor_end_outside_line(once, first, line_at, end - anchor().len());
        }
        lemma_occurrence_survives_insertion(
            once,
            registration_line(first),
            line_at,
            end,
            registration_line(second),
        );
    }
}

} // verus!
