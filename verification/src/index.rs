//! The symbol index and the parser of dotted references.
//!
//! The index is built once from the list of classes. A reference is then
//! classified by its head: the word `Enum`, a primitive name, a known class,
//! or anything else, which is taken for a data type.

use vstd::prelude::*;
use vstd::string::*;
use vstd::hash_map::StringHashMap;
use vstd::hash_set::StringHashSet;
use crate::dump::{Dump, DumpClass, DumpClassMember, DumpType, TypeView};
use crate::text::{
    dot_free, dotted, lemma_split_head, lemma_split_ignores_fourth, lemma_split_one,
    lemma_segments_dot_free, lemma_split_three, lemma_split_two, split_path, split_reference,
    str_eq,
};

verus! {

/// The position of the last occurrence of `name` in `names`, or -1.
pub open spec fn last_position(names: Seq<Seq<char>>, name: Seq<char>) -> int
    decreases names.len(),
{
    if names.len() == 0 {
        -1
    } else if names.last() == name {
        names.len() - 1
    } else {
        last_position(names.drop_last(), name)
    }
}

/// Each name that occurs in `names`, with the position of its last occurrence.
pub open spec fn positions(names: Seq<Seq<char>>) -> Map<Seq<char>, usize> {
    Map::new(
        |n: Seq<char>| last_position(names, n) >= 0,
        |n: Seq<char>| last_position(names, n) as usize,
    )
}

/// The names of the classes, in the order of the list.
pub open spec fn class_names(classes: Seq<DumpClass>) -> Seq<Seq<char>> {
    classes.map_values(|c: DumpClass| c.name@)
}

/// The names of a class's members, in the order of its member list.
pub open spec fn member_names(class: DumpClass) -> Seq<Seq<char>> {
    class.members@.map_values(|m: DumpClassMember| m.spec_name())
}

/// The fixed set of primitive type names.
pub open spec fn primitive_names() -> Set<Seq<char>> {
    set!["bool"@, "double"@, "float"@, "int"@, "int64"@, "string"@, "void"@]
}

/// Whether `name` is one of the primitive type names.
pub open spec fn is_primitive(name: Seq<char>) -> bool {
    primitive_names().contains(name)
}

/// `last_position` finds an occurrence, and the last one: no later position
/// holds the name. It is -1 exactly when the name does not occur.
pub proof fn lemma_last_position(names: Seq<Seq<char>>, name: Seq<char>)
    ensures
        -1 <= last_position(names, name) < names.len(),
        last_position(names, name) >= 0 <==> names.contains(name),
        last_position(names, name) >= 0 ==> names[last_position(names, name)] == name,
        forall|j: int| last_position(names, name) < j < names.len() ==> names[j] != name,
    decreases names.len(),
{
    if names.len() > 0 {
        let front = names.drop_last();
        lemma_last_position(front, name);
        if names.last() == name {
            assert(names[names.len() - 1] == name);
        } else {
            assert forall|j: int| last_position(names, name) < j < names.len() implies names[j]
                != name by {
                if j < front.len() {
                    assert(front[j] == names[j]);
                }
            }
            if last_position(front, name) >= 0 {
                assert(names[last_position(front, name)] == front[last_position(front, name)]);
            }
            if names.contains(name) {
                let k = choose|k: int| 0 <= k < names.len() && names[k] == name;
                assert(front[k] == name);
            }
        }
    }
}

/// Extending a list by one name moves that name's last position to the end
/// and leaves every other name where it was.
pub proof fn lemma_last_position_step(names: Seq<Seq<char>>, i: int, name: Seq<char>)
    requires
        0 <= i < names.len(),
    ensures
        last_position(names.take(i + 1), name) == if names[i] == name {
            i
        } else {
            last_position(names.take(i), name)
        },
{
    assert(names.take(i + 1).drop_last() =~= names.take(i));
    assert(names.take(i + 1).last() == names[i]);
}

/// What the index holds of one class: its position in the class list and
/// the position of each of its members.
pub struct DumpIndexClass {
    pub class_index: usize,
    pub members: StringHashMap<usize>,
}

/// Whether `entries` is the index of `classes`: it knows exactly the names
/// that occur, and for each the last class of that name.
pub open spec fn describes(entries: Map<Seq<char>, DumpIndexClass>, classes: Seq<DumpClass>) -> bool {
    forall|n: Seq<char>|
        {
            let at = last_position(class_names(classes), n);
            &&& #[trigger] entries.contains_key(n) <==> at >= 0
            &&& at >= 0 ==> entries[n].class_index == at && entries[n].members@ == positions(
                member_names(classes[at]),
            )
        }
}

/// A reference, classified.
pub enum DumpReference {
    Type(DumpType),
    Member(DumpType, String),
}

/// What a `DumpReference` stands for.
pub enum ReferenceView {
    Type(TypeView),
    Member(TypeView, Seq<char>),
}

impl View for DumpReference {
    type V = ReferenceView;

    open spec fn view(&self) -> ReferenceView {
        match self {
            DumpReference::Type(t) => ReferenceView::Type(t@),
            DumpReference::Member(t, m) => ReferenceView::Member(t@, m@),
        }
    }
}

/// The view of a reference that may be absent.
pub open spec fn reference_view(found: Option<DumpReference>) -> Option<ReferenceView> {
    match found {
        Some(r) => Some(r@),
        None => None,
    }
}

/// The lookup structure: the known classes with their members, and the
/// primitive names.
pub struct DumpIndex {
    classes: StringHashMap<DumpIndexClass>,
    primitives: StringHashSet,
}

impl DumpIndex {
    #[verifier::type_invariant]
    spec fn well_formed(&self) -> bool {
        self.primitives@ == primitive_names()
    }

    /// The class names that the index knows, each with its entry.
    pub closed spec fn entries(&self) -> Map<Seq<char>, DumpIndexClass> {
        self.classes@
    }

    pub open spec fn class_known(&self, name: Seq<char>) -> bool {
        self.entries().contains_key(name)
    }

    pub open spec fn member_known(&self, class_name: Seq<char>, member_name: Seq<char>) -> bool {
        self.class_known(class_name) && self.entries()[class_name].members@.contains_key(
            member_name,
        )
    }

    /// The classification of the reference `s`. The first rule that matches
    /// decides: `Enum`, then a primitive, then a known class, then a data type.
    pub open spec fn resolve(&self, s: Seq<char>) -> Option<ReferenceView> {
        let path = split_path(s);
        if path.head == "Enum"@ {
            match (path.second, path.third) {
                (Some(enum_name), Some(item)) => Some(
                    ReferenceView::Member(TypeView::Enum(enum_name), item),
                ),
                (Some(enum_name), None) => Some(ReferenceView::Type(TypeView::Enum(enum_name))),
                (None, _) => None,
            }
        } else if is_primitive(path.head) {
            Some(ReferenceView::Type(TypeView::Primitive(path.head)))
        } else if self.class_known(path.head) {
            match path.second {
                Some(member) => if self.member_known(path.head, member) {
                    Some(ReferenceView::Member(TypeView::Class(path.head), member))
                } else {
                    None
                },
                None => Some(ReferenceView::Type(TypeView::Class(path.head))),
            }
        } else {
            match path.second {
                Some(member) => Some(ReferenceView::Member(TypeView::DataType(path.head), member)),
                None => Some(ReferenceView::Type(TypeView::DataType(path.head))),
            }
        }
    }

    /// Builds the index of a dump's classes. Where two classes or two
    /// members of a class share a name, the later one is recorded.
    pub fn new_from_dump(dump: &Dump) -> (index: DumpIndex)
        ensures
            describes(index.entries(), dump.classes@),
    {
        let mut classes: StringHashMap<DumpIndexClass> = StringHashMap::new();
        let mut i: usize = 0;
        while i < dump.classes.len()
            invariant
                i <= dump.classes.len(),
                describes(classes@, dump.classes@.take(i as int)),
            decreases dump.classes.len() - i,
        {
            let class = &dump.classes[i];
            let ghost names = member_names(*class);
            let mut members: StringHashMap<usize> = StringHashMap::new();
            let mut j: usize = 0;
            while j < class.members.len()
                invariant
                    j <= class.members.len(),
                    names == member_names(*class),
                    members@ =~= positions(names.take(j as int)),
                decreases class.members.len() - j,
            {
                let member_name = String::from_str(class.members[j].get_name());
                proof {
                    assert forall|n: Seq<char>|
                        last_position(names.take(j + 1), n) == if names[j as int] == n {
                            j as int
                        } else {
                            last_position(names.take(j as int), n)
                        } by {
                        lemma_last_position_step(names, j as int, n);
                    }
                }
                members.insert(member_name, j);
                j = j + 1;
            }
            proof {
                assert(names.take(j as int) =~= names);
                let all = class_names(dump.classes@);
                let before = dump.classes@.take(i as int);
                let after = dump.classes@.take(i + 1);
                assert(class_names(before) =~= all.take(i as int));
                assert(class_names(after) =~= all.take(i + 1));
                assert forall|n: Seq<char>|
                    last_position(all.take(i + 1), n) == if all[i as int] == n {
                        i as int
                    } else {
                        last_position(all.take(i as int), n)
                    } by {
                    lemma_last_position_step(all, i as int, n);
                }
                assert forall|n: Seq<char>| last_position(all.take(i as int), n) < i by {
                    lemma_last_position(all.take(i as int), n);
                }
            }
            let entry = DumpIndexClass { class_index: i, members };
            classes.insert(String::from_str(class.name.as_str()), entry);
            i = i + 1;
        }
        assert(dump.classes@.take(i as int) =~= dump.classes@);
        let mut primitives = StringHashSet::new();
        primitives.insert(String::from_str("bool"));
        primitives.insert(String::from_str("double"));
        primitives.insert(String::from_str("float"));
        primitives.insert(String::from_str("int"));
        primitives.insert(String::from_str("int64"));
        primitives.insert(String::from_str("string"));
        primitives.insert(String::from_str("void"));
        assert(primitives@ =~= primitive_names());
        DumpIndex { classes, primitives }
    }

    /// Whether a class of this name is in the index.
    pub fn class_exists(&self, name: &str) -> (known: bool)
        ensures
            known == self.class_known(name@),
    {
        self.classes.contains_key(name)
    }

    /// Whether the class is in the index and has a member of this name.
    pub fn member_exists(&self, class_name: &str, member_name: &str) -> (known: bool)
        ensures
            known == self.member_known(class_name@, member_name@),
    {
        match self.classes.get(class_name) {
            Some(entry) => entry.members.contains_key(member_name),
            None => false,
        }
    }

    /// The position in the class list of the class of this name, if the
    /// index knows one.
    pub fn class_position(&self, name: &str) -> (position: Option<usize>)
        ensures
            position is Some == self.class_known(name@),
            position is Some ==> position->0 == self.entries()[name@].class_index,
    {
        match self.classes.get(name) {
            Some(entry) => Some(entry.class_index),
            None => None,
        }
    }

    /// The position of a member in the member list of its class, if the
    /// index knows the class and the member.
    pub fn member_position(&self, class_name: &str, member_name: &str) -> (position: Option<usize>)
        ensures
            position is Some == self.member_known(class_name@, member_name@),
            position is Some ==> position->0 == self.entries()[class_name@].members@[member_name@],
    {
        match self.classes.get(class_name) {
            Some(entry) => match entry.members.get(member_name) {
                Some(at) => Some(*at),
                None => None,
            },
            None => None,
        }
    }

    /// Whether `name` is a primitive type name.
    pub fn primitive_exists(&self, name: &str) -> (known: bool)
        ensures
            known == is_primitive(name@),
    {
        proof {
            use_type_invariant(self);
        }
        self.primitives.contains(name)
    }

    /// Classifies a dotted reference, or finds that it names nothing.
    pub fn resolve_reference(&self, reference: &str) -> (found: Option<DumpReference>)
        ensures
            reference_view(found) == self.resolve(reference@),
    {
        let parts = split_reference(reference);
        if str_eq(parts.head, "Enum") {
            match parts.second {
                Some(enum_name) => match parts.third {
                    Some(item) => Some(
                        DumpReference::Member(
                            DumpType::Enum(String::from_str(enum_name)),
                            String::from_str(item),
                        ),
                    ),
                    None => Some(DumpReference::Type(DumpType::Enum(String::from_str(enum_name)))),
                },
                None => None,
            }
        } else if self.primitive_exists(parts.head) {
            Some(DumpReference::Type(DumpType::Primitive(String::from_str(parts.head))))
        } else if self.class_exists(parts.head) {
            match parts.second {
                Some(member_name) => if self.member_exists(parts.head, member_name) {
                    Some(
                        DumpReference::Member(
                            DumpType::Class(String::from_str(parts.head)),
                            String::from_str(member_name),
                        ),
                    )
                } else {
                    None
                },
                None => Some(DumpReference::Type(DumpType::Class(String::from_str(parts.head)))),
            }
        } else {
            match parts.second {
                Some(member_name) => Some(
                    DumpReference::Member(
                        DumpType::DataType(String::from_str(parts.head)),
                        String::from_str(member_name),
                    ),
                ),
                None => Some(DumpReference::Type(DumpType::DataType(String::from_str(parts.head)))),
            }
        }
    }
}

/// A primitive name holds no `.` and is not the word `Enum`.
pub proof fn lemma_primitive_names_plain(p: Seq<char>)
    requires
        is_primitive(p),
    ensures
        dot_free(p),
        p != "Enum"@,
{
    reveal_strlit("bool");
    reveal_strlit("double");
    reveal_strlit("float");
    reveal_strlit("int");
    reveal_strlit("int64");
    reveal_strlit("string");
    reveal_strlit("void");
    reveal_strlit("Enum");
    assert("Enum"@[0] == 'E');
    assert("bool"@[0] == 'b' && "double"@[0] == 'd' && "float"@[0] == 'f');
    assert("int"@[0] == 'i' && "int64"@[0] == 'i' && "string"@[0] == 's' && "void"@[0] == 'v');
    assert(p[0] != 'E');
}

/// The word `Enum` holds no `.`.
pub proof fn lemma_enum_word_plain()
    ensures
        dot_free("Enum"@),
{
    reveal_strlit("Enum");
}

/// A primitive name resolves to the primitive type of that name, alone or
/// with anything appended after a `.`.
pub proof fn law_primitive(index: &DumpIndex, p: Seq<char>, rest: Seq<char>)
    requires
        is_primitive(p),
    ensures
        index.resolve(p) == Some(ReferenceView::Type(TypeView::Primitive(p))),
        index.resolve(dotted(p, rest)) == Some(ReferenceView::Type(TypeView::Primitive(p))),
{
    lemma_primitive_names_plain(p);
    lemma_split_one(p);
    lemma_split_head(p, rest);
}

/// `Enum.X` resolves to the enum type `X` and `Enum.X.Y` to its member `Y`,
/// whatever `X` and `Y` are and whatever the index holds; segments after `Y`
/// are ignored, and `Enum` alone resolves to nothing.
pub proof fn law_enum(index: &DumpIndex, x: Seq<char>, y: Seq<char>, rest: Seq<char>)
    requires
        dot_free(x),
        dot_free(y),
    ensures
        index.resolve(dotted("Enum"@, x)) == Some(ReferenceView::Type(TypeView::Enum(x))),
        index.resolve(dotted("Enum"@, dotted(x, y))) == Some(
            ReferenceView::Member(TypeView::Enum(x), y),
        ),
        index.resolve(dotted("Enum"@, dotted(x, dotted(y, rest)))) == Some(
            ReferenceView::Member(TypeView::Enum(x), y),
        ),
        index.resolve("Enum"@) is None,
{
    lemma_enum_word_plain();
    lemma_split_one("Enum"@);
    lemma_split_two("Enum"@, x);
    lemma_split_three("Enum"@, x, y);
    lemma_split_ignores_fourth("Enum"@, x, y, rest);
}

/// Whether `c` can be the head of a reference to a class: it holds no `.`,
/// is not the word `Enum` and is no primitive name.
pub open spec fn plain_class_name(c: Seq<char>) -> bool {
    dot_free(c) && c != "Enum"@ && !is_primitive(c)
}

/// For a known class `c`, `c.m` resolves to the member `m` of the class where
/// the class has such a member, and to nothing where it has none.
pub proof fn law_class_member(index: &DumpIndex, c: Seq<char>, m: Seq<char>)
    requires
        index.class_known(c),
        plain_class_name(c),
        dot_free(m),
    ensures
        index.member_known(c, m) ==> index.resolve(dotted(c, m)) == Some(
            ReferenceView::Member(TypeView::Class(c), m),
        ),
        !index.member_known(c, m) ==> index.resolve(dotted(c, m)) is None,
{
    lemma_split_two(c, m);
}

/// A known class name alone resolves to the class.
pub proof fn law_class(index: &DumpIndex, c: Seq<char>)
    requires
        index.class_known(c),
        plain_class_name(c),
    ensures
        index.resolve(c) == Some(ReferenceView::Type(TypeView::Class(c))),
{
    lemma_split_one(c);
}

/// A reference whose head is neither `Enum`, nor a primitive, nor a known
/// class always resolves, to a data type or to a member of one.
pub proof fn law_data_type(index: &DumpIndex, s: Seq<char>)
    requires
        split_path(s).head != "Enum"@,
        !is_primitive(split_path(s).head),
        !index.class_known(split_path(s).head),
    ensures
        index.resolve(s) == Some(
            match split_path(s).second {
                Some(member) => ReferenceView::Member(
                    TypeView::DataType(split_path(s).head),
                    member,
                ),
                None => ReferenceView::Type(TypeView::DataType(split_path(s).head)),
            },
        ),
{
}

/// The names in a resolved reference are bare: neither the name of the type
/// nor that of the member holds a `.`.
pub proof fn law_resolved_names_bare(index: &DumpIndex, s: Seq<char>)
    ensures
        match index.resolve(s) {
            Some(ReferenceView::Type(t)) => dot_free(t.name()),
            Some(ReferenceView::Member(t, m)) => dot_free(t.name()) && dot_free(m),
            None => true,
        },
{
    lemma_segments_dot_free(s);
}

} // verus!
