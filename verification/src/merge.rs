//! Merging descriptive text from the several sources onto a dump.

use vstd::prelude::*;
use vstd::string::*;
use crate::dump::{
    ContentSource, Dump, DumpClass, DumpClassFunction, DumpClassMember, DumpReturnType, DumpType,
};
use crate::devhub::{DevHubClass, DevHubData, DevHubProperty};
use crate::reflection_metadata::{ReflectionMetadata, ReflectionMetadataClass};
use crate::supplement::{ItemDescription, SupplementalData};
use crate::dump::TypeView;
use crate::text::{dotted, str_eq};

verus! {

/// What the metadata of a class makes of one of its members: a member with
/// a summary that is not empty gets it as description, with the metadata as
/// source; any other stays as it is.
pub open spec fn member_with_metadata(
    before: DumpClassMember,
    metadata: ReflectionMetadataClass,
) -> DumpClassMember {
    let name = before.spec_name();
    if metadata.members@.contains_key(name) && metadata.members@[name].summary@.len() > 0 {
        before.with_description(
            Some(metadata.members@[name].summary),
            Some(ContentSource::ReflectionMetadata),
        )
    } else {
        before
    }
}

/// What the metadata makes of a class: a class that it knows gets the
/// summary as description, unless that is empty, and each member is treated
/// as `member_with_metadata` says. A class that it does not know stays as
/// it is.
pub open spec fn class_with_metadata(
    before: DumpClass,
    after: DumpClass,
    metadata: ReflectionMetadata,
) -> bool {
    if metadata.classes@.contains_key(before.name@) {
        let known = metadata.classes@[before.name@];
        &&& after == (DumpClass { description: after.description, members: after.members, ..before })
        &&& after.description == if known.summary@.len() > 0 {
            Some(known.summary)
        } else {
            before.description
        }
        &&& after.members@.len() == before.members@.len()
        &&& forall|i: int|
            0 <= i < before.members@.len() ==> #[trigger] after.members@[i] == member_with_metadata(
                before.members@[i],
                known,
            )
    } else {
        after == before
    }
}

/// Applies the metadata of one class to it.
fn apply_class_metadata(class: &mut DumpClass, known: &ReflectionMetadataClass)
    ensures
        *final(class) == (DumpClass {
            description: final(class).description,
            members: final(class).members,
            ..*old(class)
        }),
        final(class).description == if known.summary@.len() > 0 {
            Some(known.summary)
        } else {
            old(class).description
        },
        final(class).members@.len() == old(class).members@.len(),
        forall|i: int|
            0 <= i < old(class).members@.len() ==> #[trigger] final(class).members@[i]
                == member_with_metadata(old(class).members@[i], *known),
{
    if !known.summary.as_str().is_empty() {
        class.description = Some(known.summary.clone());
    }
    let count: usize = class.members.len();
    let mut i: usize = 0;
    while i < count
        invariant
            i <= count,
            count == old(class).members@.len(),
            class.members@.len() == count,
            *class == (DumpClass {
                description: class.description,
                members: class.members,
                ..*old(class)
            }),
            class.description == if known.summary@.len() > 0 {
                Some(known.summary)
            } else {
                old(class).description
            },
            forall|k: int|
                0 <= k < i ==> #[trigger] class.members@[k] == member_with_metadata(
                    old(class).members@[k],
                    *known,
                ),
            forall|k: int| i <= k < count ==> class.members@[k] == old(class).members@[k],
        decreases count - i,
    {
        match known.members.get(class.members[i].get_name()) {
            Some(meta_member) => {
                if !meta_member.summary.as_str().is_empty() {
                    let summary = meta_member.summary.clone();
                    class.members[i].set_description(summary, ContentSource::ReflectionMetadata);
                }
            },
            None => {},
        }
        i = i + 1;
    }
}

/// Gives classes and members the summaries of the reflection metadata.
pub fn apply_reflection_metadata(dump: &mut Dump, metadata: &ReflectionMetadata)
    ensures
        *final(dump) == (Dump { classes: final(dump).classes, ..*old(dump) }),
        final(dump).classes@.len() == old(dump).classes@.len(),
        forall|c: int|
            0 <= c < old(dump).classes@.len() ==> class_with_metadata(
                old(dump).classes@[c],
                #[trigger] final(dump).classes@[c],
                *metadata,
            ),
{
    let count: usize = dump.classes.len();
    let mut c: usize = 0;
    while c < count
        invariant
            c <= count,
            count == old(dump).classes@.len(),
            dump.classes@.len() == count,
            *dump == (Dump { classes: dump.classes, ..*old(dump) }),
            forall|k: int|
                0 <= k < c ==> class_with_metadata(
                    old(dump).classes@[k],
                    #[trigger] dump.classes@[k],
                    *metadata,
                ),
            forall|k: int| c <= k < count ==> dump.classes@[k] == old(dump).classes@[k],
        decreases count - c,
    {
        match metadata.classes.get(dump.classes[c].name.as_str()) {
            Some(known) => {
                apply_class_metadata(&mut dump.classes[c], known);
            },
            None => {},
        }
        c = c + 1;
    }
}

/// Whether `name` starts with `Enum.`.
pub open spec fn names_enum(name: Seq<char>) -> bool {
    name.len() >= 5 && name.subrange(0, 5) == "Enum."@
}

/// The type that a plain name in supplemental metadata stands for: an enum
/// where the name starts with `Enum.`, a data type otherwise.
pub open spec fn simple_type(name: Seq<char>) -> TypeView {
    if names_enum(name) {
        TypeView::Enum(name.skip(5))
    } else {
        TypeView::DataType(name)
    }
}

/// Reads a plain type name as a type reference.
pub fn simple_name_to_dump_type(name: &String) -> (dump_type: DumpType)
    ensures
        dump_type@ == simple_type(name@),
{
    let text = name.as_str();
    let len: usize = text.unicode_len();
    if len >= 5 && str_eq(text.substring_char(0, 5), "Enum.") {
        assert(text@.skip(5) =~= text@.subrange(5, len as int));
        DumpType::Enum(String::from_str(text.substring_char(5, len)))
    } else {
        DumpType::DataType(name.clone())
    }
}

/// Whether `types` are the types that `names` stand for, one for one.
pub open spec fn types_of_names(types: Seq<DumpType>, names: Seq<String>) -> bool {
    &&& types.len() == names.len()
    &&& forall|j: int| 0 <= j < names.len() ==> (#[trigger] types[j])@ == simple_type(names[j]@)
}

/// Reads each of `names` as a type reference.
fn simple_names_to_dump_types(names: &Vec<String>) -> (types: Vec<DumpType>)
    ensures
        types_of_names(types@, names@),
{
    let mut types: Vec<DumpType> = Vec::new();
    let mut j: usize = 0;
    while j < names.len()
        invariant
            j <= names.len(),
            types_of_names(types@, names@.take(j as int)),
        decreases names.len() - j,
    {
        types.push(simple_name_to_dump_type(&names[j]));
        j = j + 1;
    }
    assert(names@.take(j as int) =~= names@);
    types
}

/// What a supplemental description makes of the return type of a function:
/// where it lists return types, they replace it.
pub open spec fn return_type_described(
    before: DumpReturnType,
    after: DumpReturnType,
    description: ItemDescription,
) -> bool {
    match description.metadata.return_types {
        Some(names) => after is Multiple && types_of_names(after->Multiple_0@, names@),
        None => after == before,
    }
}

/// What the supplemental data makes of a member of the class `class_name`:
/// a member with a description under `class.member` gets its prose, with
/// the supplemental data as source, and a function also the return types
/// that the description lists. Any other member stays as it is.
pub open spec fn member_with_supplement(
    before: DumpClassMember,
    after: DumpClassMember,
    class_name: Seq<char>,
    content: SupplementalData,
) -> bool {
    let key = dotted(class_name, before.spec_name());
    if content.item_descriptions@.contains_key(key) {
        let description = content.item_descriptions@[key];
        match before {
            DumpClassMember::Function(function) => {
                &&& after is Function
                &&& after == DumpClassMember::Function(
                    DumpClassFunction {
                        description: Some(description.prose),
                        description_source: Some(ContentSource::Supplemental),
                        return_type: after->Function_0.return_type,
                        ..function
                    },
                )
                &&& return_type_described(
                    function.return_type,
                    after->Function_0.return_type,
                    description,
                )
            },
            _ => after == before.with_description(
                Some(description.prose),
                Some(ContentSource::Supplemental),
            ),
        }
    } else {
        after == before
    }
}

/// What the supplemental data makes of a class: a class with a description
/// under its name gets its prose, with the supplemental data as source, and
/// each member is treated as `member_with_supplement` says.
pub open spec fn class_with_supplement(
    before: DumpClass,
    after: DumpClass,
    content: SupplementalData,
) -> bool {
    &&& after == (DumpClass {
        description: after.description,
        description_source: after.description_source,
        members: after.members,
        ..before
    })
    &&& if content.item_descriptions@.contains_key(before.name@) {
        &&& after.description == Some(content.item_descriptions@[before.name@].prose)
        &&& after.description_source == Some(ContentSource::Supplemental)
    } else {
        &&& after.description == before.description
        &&& after.description_source == before.description_source
    }
    &&& after.members@.len() == before.members@.len()
    &&& forall|i: int|
        0 <= i < before.members@.len() ==> member_with_supplement(
            before.members@[i],
            #[trigger] after.members@[i],
            before.name@,
            content,
        )
}

/// Applies the description that the supplemental data has for a member.
fn apply_member_supplement(member: &mut DumpClassMember, class_name: &str, content: &SupplementalData)
    ensures
        member_with_supplement(*old(member), *final(member), class_name@, *content),
{
    proof {
        reveal_strlit(".");
        assert("."@ =~= seq!['.']);
    }
    let key = String::from_str(class_name).concat(".").concat(member.get_name());
    match content.item_descriptions.get(key.as_str()) {
        Some(description) => {
            match member {
                DumpClassMember::Function(function) => {
                    function.description = Some(description.prose.clone());
                    function.description_source = Some(ContentSource::Supplemental);
                    match &description.metadata.return_types {
                        Some(names) => {
                            function.return_type = DumpReturnType::Multiple(
                                simple_names_to_dump_types(names),
                            );
                        },
                        None => {},
                    }
                },
                _ => {
                    member.set_description(description.prose.clone(), ContentSource::Supplemental);
                },
            }
        },
        None => {},
    }
}

/// Applies the supplemental data to one class.
fn apply_class_supplement(class: &mut DumpClass, content: &SupplementalData)
    ensures
        class_with_supplement(*old(class), *final(class), *content),
{
    let class_name = class.name.clone();
    match content.item_descriptions.get(class_name.as_str()) {
        Some(description) => {
            class.description = Some(description.prose.clone());
            class.description_source = Some(ContentSource::Supplemental);
        },
        None => {},
    }
    let ghost described = *class;
    let count: usize = class.members.len();
    let mut i: usize = 0;
    while i < count
        invariant
            i <= count,
            count == old(class).members@.len(),
            class.members@.len() == count,
            class_name@ == old(class).name@,
            *class == (DumpClass { members: class.members, ..described }),
            forall|k: int|
                0 <= k < i ==> member_with_supplement(
                    old(class).members@[k],
                    #[trigger] class.members@[k],
                    class_name@,
                    *content,
                ),
            forall|k: int| i <= k < count ==> class.members@[k] == old(class).members@[k],
        decreases count - i,
    {
        apply_member_supplement(&mut class.members[i], class_name.as_str(), content);
        i = i + 1;
    }
}

/// Gives classes and members the descriptions of the supplemental data.
/// They replace what other sources gave.
pub fn apply_supplemental(dump: &mut Dump, content: &SupplementalData)
    ensures
        *final(dump) == (Dump { classes: final(dump).classes, ..*old(dump) }),
        final(dump).classes@.len() == old(dump).classes@.len(),
        forall|c: int|
            0 <= c < old(dump).classes@.len() ==> class_with_supplement(
                old(dump).classes@[c],
                #[trigger] final(dump).classes@[c],
                *content,
            ),
{
    let count: usize = dump.classes.len();
    let mut c: usize = 0;
    while c < count
        invariant
            c <= count,
            count == old(dump).classes@.len(),
            dump.classes@.len() == count,
            *dump == (Dump { classes: dump.classes, ..*old(dump) }),
            forall|k: int|
                0 <= k < c ==> class_with_supplement(
                    old(dump).classes@[k],
                    #[trigger] dump.classes@[k],
                    *content,
                ),
            forall|k: int| c <= k < count ==> dump.classes@[k] == old(dump).classes@[k],
        decreases count - c,
    {
        apply_class_supplement(&mut dump.classes[c], content);
        c = c + 1;
    }
}

/// The first position at or after `from` whose item meets `wanted`, or the
/// length of `items` when none does.
pub open spec fn first_match<T>(items: Seq<T>, wanted: spec_fn(T) -> bool, from: int) -> int
    decreases items.len() - from,
{
    if from < 0 || from >= items.len() || wanted(items[from]) {
        from
    } else {
        first_match(items, wanted, from + 1)
    }
}

/// `first_match` is the one position that meets `wanted` after none that does.
pub proof fn lemma_first_match<T>(items: Seq<T>, wanted: spec_fn(T) -> bool, from: int, at: int)
    requires
        0 <= from <= at <= items.len(),
        forall|k: int| from <= k < at ==> !wanted(#[trigger] items[k]),
        at < items.len() ==> wanted(items[at]),
    ensures
        first_match(items, wanted, from) == at,
    decreases at - from,
{
    if from < at {
        lemma_first_match(items, wanted, from + 1, at);
    }
}

/// Whether a class has this name.
pub open spec fn class_named(name: Seq<char>) -> spec_fn(DumpClass) -> bool {
    |c: DumpClass| c.name@ == name
}

/// Whether a member is a property of this name.
pub open spec fn property_named(name: Seq<char>) -> spec_fn(DumpClassMember) -> bool {
    |m: DumpClassMember| m is Property && m.spec_name() == name
}

/// The members after the hub's description of one property is applied: the
/// first property of that name gets the description, with the hub as source.
pub open spec fn members_with_hub_property(
    members: Seq<DumpClassMember>,
    property: DevHubProperty,
) -> Seq<DumpClassMember> {
    let at = first_match(members, property_named(property.name@), 0);
    if at < members.len() {
        members.update(
            at,
            members[at].with_description(Some(property.description), Some(ContentSource::DevHub)),
        )
    } else {
        members
    }
}

/// The members after the hub's descriptions of properties are applied, one
/// after the other.
pub open spec fn members_with_hub_properties(
    members: Seq<DumpClassMember>,
    properties: Seq<DevHubProperty>,
) -> Seq<DumpClassMember>
    decreases properties.len(),
{
    if properties.len() == 0 {
        members
    } else {
        members_with_hub_property(
            members_with_hub_properties(members, properties.drop_last()),
            properties.last(),
        )
    }
}

/// Whether the hub's class `hub` is applied to the class at `i`: it is the
/// first class of the hub class's name.
pub open spec fn hub_class_meets(classes: Seq<DumpClass>, i: int, hub: DevHubClass) -> bool {
    first_match(classes, class_named(hub.name@), 0) == i
}

/// The members of the class at `i` after the hub's classes are applied, one
/// after the other.
pub open spec fn members_with_hub(
    classes: Seq<DumpClass>,
    i: int,
    hub: Seq<DevHubClass>,
) -> Seq<DumpClassMember>
    decreases hub.len(),
{
    if hub.len() == 0 {
        classes[i].members@
    } else {
        let earlier = members_with_hub(classes, i, hub.drop_last());
        if hub_class_meets(classes, i, hub.last()) {
            members_with_hub_properties(earlier, hub.last().properties@)
        } else {
            earlier
        }
    }
}

/// The description of the class at `i` after the hub's classes are applied:
/// that of the last hub class that meets it, if any.
pub open spec fn description_with_hub(
    classes: Seq<DumpClass>,
    i: int,
    hub: Seq<DevHubClass>,
) -> Option<String>
    decreases hub.len(),
{
    if hub.len() == 0 {
        classes[i].description
    } else if hub_class_meets(classes, i, hub.last()) {
        Some(hub.last().description)
    } else {
        description_with_hub(classes, i, hub.drop_last())
    }
}

/// Whether `after` is the class at `i` of `classes` with the hub's classes
/// applied.
pub open spec fn class_with_hub(
    classes: Seq<DumpClass>,
    i: int,
    after: DumpClass,
    hub: Seq<DevHubClass>,
) -> bool {
    &&& after == (DumpClass {
        description: description_with_hub(classes, i, hub),
        members: after.members,
        ..classes[i]
    })
    &&& after.members@ == members_with_hub(classes, i, hub)
}

/// The position of the first class of this name, if there is one.
fn find_class(classes: &Vec<DumpClass>, name: &str) -> (found: Option<usize>)
    ensures
        match found {
            Some(at) => at < classes@.len() && first_match(classes@, class_named(name@), 0) == at,
            None => first_match(classes@, class_named(name@), 0) == classes@.len(),
        },
{
    let mut i: usize = 0;
    while i < classes.len()
        invariant
            i <= classes@.len(),
            forall|k: int| 0 <= k < i ==> !class_named(name@)(#[trigger] classes@[k]),
        decreases classes@.len() - i,
    {
        if str_eq(classes[i].name.as_str(), name) {
            proof {
                lemma_first_match(classes@, class_named(name@), 0, i as int);
            }
            return Some(i);
        }
        i = i + 1;
    }
    proof {
        lemma_first_match(classes@, class_named(name@), 0, classes@.len() as int);
    }
    None
}

/// The position of the first property of this name, if there is one.
fn find_property(members: &Vec<DumpClassMember>, name: &str) -> (found: Option<usize>)
    ensures
        match found {
            Some(at) => at < members@.len() && first_match(members@, property_named(name@), 0)
                == at,
            None => first_match(members@, property_named(name@), 0) == members@.len(),
        },
{
    let mut i: usize = 0;
    while i < members.len()
        invariant
            i <= members@.len(),
            forall|k: int| 0 <= k < i ==> !property_named(name@)(#[trigger] members@[k]),
        decreases members@.len() - i,
    {
        let matched = match &members[i] {
            DumpClassMember::Property(inner) => str_eq(inner.name.as_str(), name),
            _ => false,
        };
        if matched {
            proof {
                lemma_first_match(members@, property_named(name@), 0, i as int);
            }
            return Some(i);
        }
        i = i + 1;
    }
    proof {
        lemma_first_match(members@, property_named(name@), 0, members@.len() as int);
    }
    None
}

/// Applies what the hub says of one class to it.
fn apply_hub_class(class: &mut DumpClass, hub: &DevHubClass)
    ensures
        *final(class) == (DumpClass {
            description: Some(hub.description),
            members: final(class).members,
            ..*old(class)
        }),
        final(class).members@ == members_with_hub_properties(old(class).members@, hub.properties@),
{
    class.description = Some(hub.description.clone());
    let mut p: usize = 0;
    while p < hub.properties.len()
        invariant
            p <= hub.properties@.len(),
            *class == (DumpClass {
                description: Some(hub.description),
                members: class.members,
                ..*old(class)
            }),
            class.members@ == members_with_hub_properties(
                old(class).members@,
                hub.properties@.take(p as int),
            ),
        decreases hub.properties@.len() - p,
    {
        let property = &hub.properties[p];
        assert(hub.properties@.take(p + 1).drop_last() =~= hub.properties@.take(p as int));
        match find_property(&class.members, property.name.as_str()) {
            Some(at) => {
                class.members[at].set_description(
                    property.description.clone(),
                    ContentSource::DevHub,
                );
            },
            None => {},
        }
        p = p + 1;
    }
    assert(hub.properties@.take(p as int) =~= hub.properties@);
}

/// Gives classes and their properties the descriptions of the developer
/// hub. Each class of the hub is applied to the first class of its name,
/// each of its properties to the first property of that name.
pub fn apply_devhub(dump: &mut Dump, content: &DevHubData)
    ensures
        *final(dump) == (Dump { classes: final(dump).classes, ..*old(dump) }),
        final(dump).classes@.len() == old(dump).classes@.len(),
        forall|i: int|
            0 <= i < old(dump).classes@.len() ==> class_with_hub(
                old(dump).classes@,
                i,
                #[trigger] final(dump).classes@[i],
                content.classes@,
            ),
{
    let ghost before = dump.classes@;
    let count: usize = dump.classes.len();
    let mut h: usize = 0;
    while h < content.classes.len()
        invariant
            h <= content.classes@.len(),
            before == old(dump).classes@,
            count == before.len(),
            dump.classes@.len() == count,
            *dump == (Dump { classes: dump.classes, ..*old(dump) }),
            forall|i: int|
                0 <= i < count ==> class_with_hub(
                    before,
                    i,
                    #[trigger] dump.classes@[i],
                    content.classes@.take(h as int),
                ),
        decreases content.classes@.len() - h,
    {
        let hub = &content.classes[h];
        let ghost earlier = content.classes@.take(h as int);
        let ghost current = dump.classes@;
        proof {
            assert(content.classes@.take(h + 1).drop_last() =~= earlier);
            assert(content.classes@.take(h + 1).last() == *hub);
            assert forall|k: int| 0 <= k < count implies class_named(hub.name@)(
                #[trigger] current[k],
            ) == class_named(hub.name@)(before[k]) by {
                assert(class_with_hub(before, k, current[k], earlier));
            }
            lemma_first_match_same(current, before, class_named(hub.name@), 0);
        }
        match find_class(&dump.classes, hub.name.as_str()) {
            Some(at) => {
                apply_hub_class(&mut dump.classes[at], hub);
                proof {
                    assert(class_with_hub(before, at as int, current[at as int], earlier));
                    assert forall|i: int| 0 <= i < count implies class_with_hub(
                        before,
                        i,
                        #[trigger] dump.classes@[i],
                        content.classes@.take(h + 1),
                    ) by {
                        assert(class_with_hub(before, i, current[i], earlier));
                    }
                }
            },
            None => {
                proof {
                    assert forall|i: int| 0 <= i < count implies class_with_hub(
                        before,
                        i,
                        #[trigger] dump.classes@[i],
                        content.classes@.take(h + 1),
                    ) by {
                        assert(class_with_hub(before, i, current[i], earlier));
                    }
                }
            },
        }
        h = h + 1;
    }
    assert(content.classes@.take(h as int) =~= content.classes@);
}

/// Two lists whose items meet `wanted` at the same positions have the same
/// first match.
pub proof fn lemma_first_match_same<T>(a: Seq<T>, b: Seq<T>, wanted: spec_fn(T) -> bool, from: int)
    requires
        a.len() == b.len(),
        0 <= from,
        forall|k: int| 0 <= k < a.len() ==> wanted(#[trigger] a[k]) == wanted(b[k]),
    ensures
        first_match(a, wanted, from) == first_match(b, wanted, from),
    decreases a.len() - from,
{
    if from < a.len() && !wanted(a[from]) {
        lemma_first_match_same(a, b, wanted, from + 1);
    }
}

} // verus!
