//! Heuristics that guess at descriptions which no source gives.

use vstd::prelude::*;
use vstd::string::*;
use crate::dump::{ContentSource, Dump, DumpClass, DumpClassMember};
use crate::text::str_eq;

verus! {

/// Whether `char::is_lowercase` holds of `c`.
pub uninterp spec fn lowercase(c: char) -> bool;

/// The characters that `char::to_uppercase` gives for `c`.
pub uninterp spec fn uppercased(c: char) -> Seq<char>;

/// Whether a character is a lowercase letter.
///
/// Calls `char::is_lowercase` of std, which goes by the Unicode property
/// `Lowercase`; the contract only names the answer.
#[verifier::external_body]
fn char_is_lowercase(c: char) -> (lower: bool)
    ensures
        lower == lowercase(c),
{
    c.is_lowercase()
}

/// The uppercase form of a character, which may be several characters.
///
/// Calls `char::to_uppercase` of std and collects what it yields; the
/// contract only names the result.
#[verifier::external_body]
fn char_to_uppercase(c: char) -> (upper: String)
    ensures
        upper@ == uppercased(c),
{
    c.to_uppercase().collect()
}

/// `name` with its first character in uppercase.
pub open spec fn capitalised(name: Seq<char>) -> Seq<char> {
    if name.len() == 0 {
        name
    } else {
        uppercased(name[0]) + name.skip(1)
    }
}

/// The description given to a member that is taken for deprecated.
pub open spec fn deprecation_note(name: Seq<char>, replacement: Seq<char>) -> Seq<char> {
    "`"@ + name + "` is deprecated. Use `"@ + replacement + "` instead."@
}

/// Whether a member of this name is among `members`.
pub open spec fn names_member(members: Seq<DumpClassMember>, name: Seq<char>) -> bool {
    exists|j: int| 0 <= j < members.len() && #[trigger] members[j].spec_name() == name
}

/// Whether the member at `i` is probably deprecated: its name starts with a
/// lowercase letter, and the class has a member of the capitalised name.
pub open spec fn probably_deprecated(members: Seq<DumpClassMember>, i: int) -> bool {
    let name = members[i].spec_name();
    name.len() > 0 && lowercase(name[0]) && names_member(members, capitalised(name))
}

/// What the heuristic makes of one member: a deprecated one gets the note,
/// with the heuristic as its source, and is otherwise unchanged; any other
/// stays as it is.
pub open spec fn member_marked(
    members: Seq<DumpClassMember>,
    i: int,
    marked: DumpClassMember,
) -> bool {
    if probably_deprecated(members, i) {
        &&& marked == members[i].with_description(
            marked.spec_description(),
            Some(ContentSource::Heuristic),
        )
        &&& marked.spec_description() is Some
        &&& marked.spec_description()->0@ == deprecation_note(
            members[i].spec_name(),
            capitalised(members[i].spec_name()),
        )
    } else {
        marked == members[i]
    }
}

/// What the heuristic makes of one class: only descriptions of members
/// change, each as `member_marked` says.
pub open spec fn class_marked(before: DumpClass, after: DumpClass) -> bool {
    &&& after == (DumpClass { members: after.members, ..before })
    &&& after.members@.len() == before.members@.len()
    &&& forall|i: int|
        0 <= i < before.members@.len() ==> member_marked(
            before.members@,
            i,
            #[trigger] after.members@[i],
        )
}

/// Whether every member has a name of at least one character.
pub open spec fn members_named(class: DumpClass) -> bool {
    forall|i: int|
        0 <= i < class.members@.len() ==> (#[trigger] class.members@[i]).spec_name().len() > 0
}

/// Puts the first character of `input` in uppercase.
pub fn make_first_letter_uppercase(input: &str) -> (output: String)
    ensures
        output@ == capitalised(input@),
{
    let len: usize = input.unicode_len();
    if len == 0 {
        String::from_str(input)
    } else {
        let first = input.get_char(0);
        let rest = input.substring_char(1, len);
        assert(input@.skip(1) =~= input@.subrange(1, len as int));
        char_to_uppercase(first).concat(rest)
    }
}

/// Whether a member of this name is among `members`.
fn has_member_named(members: &Vec<DumpClassMember>, name: &str) -> (found: bool)
    ensures
        found == names_member(members@, name@),
{
    let mut j: usize = 0;
    while j < members.len()
        invariant
            j <= members.len(),
            forall|k: int| 0 <= k < j ==> members@[k].spec_name() != name@,
        decreases members.len() - j,
    {
        if str_eq(members[j].get_name(), name) {
            return true;
        }
        j = j + 1;
    }
    false
}

/// The note for a member `name` that `replacement` supersedes.
fn deprecation_text(name: &str, replacement: &str) -> (note: String)
    ensures
        note@ == deprecation_note(name@, replacement@),
{
    String::from_str("`").concat(name).concat("` is deprecated. Use `").concat(replacement).concat(
        "` instead.",
    )
}

/// Marks the members of one class that are probably deprecated.
pub fn mark_deprecated_members(class: &mut DumpClass)
    requires
        members_named(*old(class)),
    ensures
        class_marked(*old(class), *final(class)),
{
    let ghost before = class.members@;
    let count: usize = class.members.len();
    let mut i: usize = 0;
    while i < count
        invariant
            i <= count,
            before == old(class).members@,
            members_named(*old(class)),
            *class == (DumpClass { members: class.members, ..*old(class) }),
            class.members@.len() == count,
            count == before.len(),
            forall|k: int| 0 <= k < i ==> member_marked(before, k, #[trigger] class.members@[k]),
            forall|k: int| i <= k < count ==> class.members@[k] == before[k],
            forall|k: int|
                0 <= k < count ==> (#[trigger] class.members@[k]).spec_name()
                    == before[k].spec_name(),
        decreases count - i,
    {
        let name = class.members[i].get_name();
        let first = name.get_char(0);
        if char_is_lowercase(first) {
            let replacement = make_first_letter_uppercase(name);
            if has_member_named(&class.members, replacement.as_str()) {
                let note = deprecation_text(name, replacement.as_str());
                proof {
                    let j = choose|j: int|
                        0 <= j < class.members@.len() && #[trigger] class.members@[j].spec_name()
                            == replacement@;
                    assert(before[j].spec_name() == replacement@);
                }
                class.members[i].set_description(note, ContentSource::Heuristic);
            } else {
                proof {
                    if names_member(before, replacement@) {
                        let j = choose|j: int|
                            0 <= j < before.len() && #[trigger] before[j].spec_name()
                                == replacement@;
                        assert(class.members@[j].spec_name() == replacement@);
                    }
                }
            }
        }
        i = i + 1;
    }
}

/// Members with camelCase names are probably deprecated: where a class has
/// a member whose name starts with a lowercase letter and another member of
/// the same name with that letter in uppercase, the first is described as
/// deprecated in favour of the second.
pub fn camelcase_members_probably_deprecated(dump: &mut Dump)
    requires
        forall|c: int| 0 <= c < old(dump).classes@.len() ==> members_named(old(dump).classes@[c]),
    ensures
        *final(dump) == (Dump { classes: final(dump).classes, ..*old(dump) }),
        final(dump).classes@.len() == old(dump).classes@.len(),
        forall|c: int|
            0 <= c < old(dump).classes@.len() ==> class_marked(
                old(dump).classes@[c],
                #[trigger] final(dump).classes@[c],
            ),
{
    let count: usize = dump.classes.len();
    let mut c: usize = 0;
    while c < count
        invariant
            c <= count,
            count == old(dump).classes@.len(),
            dump.classes@.len() == count,
            *dump == (Dump { classes: dump.classes, ..*old(dump) }),
            forall|k: int| 0 <= k < count ==> members_named(old(dump).classes@[k]),
            forall|k: int|
                0 <= k < c ==> class_marked(old(dump).classes@[k], #[trigger] dump.classes@[k]),
            forall|k: int| c <= k < count ==> dump.classes@[k] == old(dump).classes@[k],
        decreases count - c,
    {
        mark_deprecated_members(&mut dump.classes[c]);
        c = c + 1;
    }
}

} // verus!
