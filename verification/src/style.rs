//! The style classes of the elements that show classes and members.

use vstd::prelude::*;
use vstd::string::*;
use crate::dump::{has_tag, texts};

verus! {

/// Whether the tags mark their owner as deprecated.
pub open spec fn deprecated(tags: Seq<String>) -> bool {
    texts(tags).contains("Deprecated"@)
}

/// The style classes of a member's element: those of every member and
/// `main_class`, and one more where the member is deprecated.
pub open spec fn member_classes(tags: Seq<String>, main_class: Seq<char>) -> Seq<char> {
    if deprecated(tags) {
        "dump-class-member "@ + main_class + " dump-member-deprecated"@
    } else {
        "dump-class-member "@ + main_class
    }
}

/// The style classes of a class's element.
pub open spec fn class_classes(tags: Seq<String>) -> Seq<char> {
    if deprecated(tags) {
        "dump-class"@ + " dump-class-deprecated"@
    } else {
        "dump-class"@
    }
}

/// The value of the `class` attribute of a member's element.
pub fn member_element_class(tags: &Vec<String>, main_class: &str) -> (element_class: String)
    ensures
        element_class@ == member_classes(tags@, main_class@),
{
    let mut element_class = String::from_str("dump-class-member ");
    element_class.append(main_class);
    if has_tag(tags, "Deprecated") {
        element_class.append(" dump-member-deprecated");
    }
    element_class
}

/// The value of the `class` attribute of a class's element.
pub fn class_element_class(tags: &Vec<String>) -> (element_class: String)
    ensures
        element_class@ == class_classes(tags@),
{
    let mut element_class = String::from_str("dump-class");
    if has_tag(tags, "Deprecated") {
        element_class.append(" dump-class-deprecated");
    }
    element_class
}

} // verus!
