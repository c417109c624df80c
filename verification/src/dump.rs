//! The API description: classes, members, enumerations and type references.

use vstd::prelude::*;
use vstd::string::*;
use crate::text::{dotted, str_eq};

verus! {

/// Where a piece of descriptive text came from.
#[derive(Debug, Clone, Copy, PartialEq, Eq, Structural)]
pub enum ContentSource {
    ApiDump,
    ReflectionMetadata,
    DevHub,
    Heuristic,
    Supplemental,
}

/// A reference to a type, by kind and bare name.
#[derive(Debug)]
pub enum DumpType {
    Class(String),
    DataType(String),
    Enum(String),
    Group(String),
    Primitive(String),
}

/// What a `DumpType` stands for: its kind and the characters of its name.
pub enum TypeView {
    Class(Seq<char>),
    DataType(Seq<char>),
    Enum(Seq<char>),
    Group(Seq<char>),
    Primitive(Seq<char>),
}

impl TypeView {
    /// The bare name, whatever the kind.
    pub open spec fn name(self) -> Seq<char> {
        match self {
            TypeView::Class(n) => n,
            TypeView::DataType(n) => n,
            TypeView::Enum(n) => n,
            TypeView::Group(n) => n,
            TypeView::Primitive(n) => n,
        }
    }

    /// The dotted path by which a reference names the type: an enum is
    /// written behind the word `Enum`, every other type by its bare name.
    pub open spec fn path(self) -> Seq<char> {
        match self {
            TypeView::Enum(n) => dotted("Enum"@, n),
            _ => self.name(),
        }
    }
}

impl View for DumpType {
    type V = TypeView;

    open spec fn view(&self) -> TypeView {
        match self {
            DumpType::Class(n) => TypeView::Class(n@),
            DumpType::DataType(n) => TypeView::DataType(n@),
            DumpType::Enum(n) => TypeView::Enum(n@),
            DumpType::Group(n) => TypeView::Group(n@),
            DumpType::Primitive(n) => TypeView::Primitive(n@),
        }
    }
}

impl DumpType {
    /// The dotted path by which a reference names the type.
    pub fn path(&self) -> (path: String)
        ensures
            path@ == self@.path(),
    {
        match self {
            DumpType::Enum(name) => {
                proof {
                    reveal_strlit(".");
                    assert("."@ =~= seq!['.']);
                }
                String::from_str("Enum").concat(".").concat(name.as_str())
            },
            _ => String::from_str(self.get_name()),
        }
    }

    pub fn get_name(&self) -> (name: &str)
        ensures
            name@ == self@.name(),
    {
        match self {
            DumpType::Class(name) => name.as_str(),
            DumpType::DataType(name) => name.as_str(),
            DumpType::Enum(name) => name.as_str(),
            DumpType::Group(name) => name.as_str(),
            DumpType::Primitive(name) => name.as_str(),
        }
    }
}

/// One parameter of a function, event or callback.
pub struct DumpFunctionParameter {
    pub name: String,
    pub kind: DumpType,
    pub description: Option<String>,
    pub description_source: Option<ContentSource>,
}

/// What a function or callback returns: one type, or several.
pub enum DumpReturnType {
    Single(DumpType),
    Multiple(Vec<DumpType>),
}

pub struct DumpClassProperty {
    pub name: String,
    pub tags: Vec<String>,
    pub value_type: DumpType,
    /// Who may read and who may write, as pairs of key and value.
    pub security: Vec<(String, String)>,
    pub category: String,
    pub description: Option<String>,
    pub description_source: Option<ContentSource>,
}

pub struct DumpClassFunction {
    pub name: String,
    pub tags: Vec<String>,
    pub parameters: Vec<DumpFunctionParameter>,
    pub return_type: DumpReturnType,
    pub security: String,
    pub description: Option<String>,
    pub description_source: Option<ContentSource>,
}

pub struct DumpClassEvent {
    pub name: String,
    pub tags: Vec<String>,
    pub parameters: Vec<DumpFunctionParameter>,
    pub security: String,
    pub description: Option<String>,
    pub description_source: Option<ContentSource>,
}

pub struct DumpClassCallback {
    pub name: String,
    pub tags: Vec<String>,
    pub parameters: Vec<DumpFunctionParameter>,
    pub return_type: DumpReturnType,
    pub security: String,
    pub description: Option<String>,
    pub description_source: Option<ContentSource>,
}

/// A member of a class, by kind.
pub enum DumpClassMember {
    Property(DumpClassProperty),
    Function(DumpClassFunction),
    Event(DumpClassEvent),
    Callback(DumpClassCallback),
}

pub struct DumpEnumItem {
    pub name: String,
    pub value: u32,
}

pub struct DumpEnum {
    pub name: String,
    pub items: Vec<DumpEnumItem>,
}

pub struct DumpClass {
    pub name: String,
    pub members: Vec<DumpClassMember>,
    pub tags: Vec<String>,
    pub superclass: Option<String>,
    pub description: Option<String>,
    pub description_source: Option<ContentSource>,
}

/// The whole API description.
pub struct Dump {
    pub classes: Vec<DumpClass>,
    pub enums: Vec<DumpEnum>,
    pub version: u32,
}

/// The texts of a list of strings, in order.
pub open spec fn texts(strings: Seq<String>) -> Seq<Seq<char>> {
    strings.map_values(|s: String| s@)
}

/// Whether `tags` holds the text `tag`.
pub fn has_tag(tags: &Vec<String>, tag: &str) -> (found: bool)
    ensures
        found == texts(tags@).contains(tag@),
{
    let mut i: usize = 0;
    while i < tags.len()
        invariant
            i <= tags.len(),
            forall|k: int| 0 <= k < i ==> texts(tags@)[k] != tag@,
        decreases tags.len() - i,
    {
        if str_eq(tags[i].as_str(), tag) {
            assert(texts(tags@)[i as int] == tag@);
            return true;
        }
        i = i + 1;
    }
    false
}

impl ContentSource {
    /// The name under which the source is shown to readers.
    pub open spec fn title(self) -> Seq<char> {
        match self {
            ContentSource::ApiDump => "JSON API Dump"@,
            ContentSource::ReflectionMetadata => "ReflectionMetadata.xml"@,
            ContentSource::DevHub => "Roblox Developer Hub"@,
            ContentSource::Heuristic => "Dumpling Heuristics"@,
            ContentSource::Supplemental => "Dumpling Supplemental"@,
        }
    }

    pub fn to_string(&self) -> (shown: String)
        ensures
            shown@ == self.title(),
    {
        match self {
            ContentSource::ApiDump => String::from_str("JSON API Dump"),
            ContentSource::ReflectionMetadata => String::from_str("ReflectionMetadata.xml"),
            ContentSource::DevHub => String::from_str("Roblox Developer Hub"),
            ContentSource::Heuristic => String::from_str("Dumpling Heuristics"),
            ContentSource::Supplemental => String::from_str("Dumpling Supplemental"),
        }
    }
}

impl DumpClassMember {
    /// The characters of the member's name.
    pub open spec fn spec_name(&self) -> Seq<char> {
        match self {
            DumpClassMember::Property(inner) => inner.name@,
            DumpClassMember::Function(inner) => inner.name@,
            DumpClassMember::Event(inner) => inner.name@,
            DumpClassMember::Callback(inner) => inner.name@,
        }
    }

    pub open spec fn spec_tags(&self) -> Vec<String> {
        match self {
            DumpClassMember::Property(inner) => inner.tags,
            DumpClassMember::Function(inner) => inner.tags,
            DumpClassMember::Event(inner) => inner.tags,
            DumpClassMember::Callback(inner) => inner.tags,
        }
    }

    pub open spec fn spec_description(&self) -> Option<String> {
        match self {
            DumpClassMember::Property(inner) => inner.description,
            DumpClassMember::Function(inner) => inner.description,
            DumpClassMember::Event(inner) => inner.description,
            DumpClassMember::Callback(inner) => inner.description,
        }
    }

    pub open spec fn spec_description_source(&self) -> Option<ContentSource> {
        match self {
            DumpClassMember::Property(inner) => inner.description_source,
            DumpClassMember::Function(inner) => inner.description_source,
            DumpClassMember::Event(inner) => inner.description_source,
            DumpClassMember::Callback(inner) => inner.description_source,
        }
    }

    /// The same member with another description and source.
    pub open spec fn with_description(
        self,
        description: Option<String>,
        description_source: Option<ContentSource>,
    ) -> DumpClassMember {
        match self {
            DumpClassMember::Property(inner) => DumpClassMember::Property(
                DumpClassProperty { description, description_source, ..inner },
            ),
            DumpClassMember::Function(inner) => DumpClassMember::Function(
                DumpClassFunction { description, description_source, ..inner },
            ),
            DumpClassMember::Event(inner) => DumpClassMember::Event(
                DumpClassEvent { description, description_source, ..inner },
            ),
            DumpClassMember::Callback(inner) => DumpClassMember::Callback(
                DumpClassCallback { description, description_source, ..inner },
            ),
        }
    }

    /// The same member with another list of tags.
    pub open spec fn with_tags(self, tags: Vec<String>) -> DumpClassMember {
        match self {
            DumpClassMember::Property(inner) => DumpClassMember::Property(
                DumpClassProperty { tags, ..inner },
            ),
            DumpClassMember::Function(inner) => DumpClassMember::Function(
                DumpClassFunction { tags, ..inner },
            ),
            DumpClassMember::Event(inner) => DumpClassMember::Event(
                DumpClassEvent { tags, ..inner },
            ),
            DumpClassMember::Callback(inner) => DumpClassMember::Callback(
                DumpClassCallback { tags, ..inner },
            ),
        }
    }

    pub fn get_name(&self) -> (name: &str)
        ensures
            name@ == self.spec_name(),
    {
        match self {
            DumpClassMember::Property(inner) => inner.name.as_str(),
            DumpClassMember::Function(inner) => inner.name.as_str(),
            DumpClassMember::Event(inner) => inner.name.as_str(),
            DumpClassMember::Callback(inner) => inner.name.as_str(),
        }
    }

    /// Replaces the description and records where it came from.
    pub fn set_description(&mut self, description: String, source: ContentSource)
        ensures
            *final(self) == old(self).with_description(Some(description), Some(source)),
    {
        match self {
            DumpClassMember::Property(inner) => {
                inner.description = Some(description);
                inner.description_source = Some(source);
            },
            DumpClassMember::Function(inner) => {
                inner.description = Some(description);
                inner.description_source = Some(source);
            },
            DumpClassMember::Event(inner) => {
                inner.description = Some(description);
                inner.description_source = Some(source);
            },
            DumpClassMember::Callback(inner) => {
                inner.description = Some(description);
                inner.description_source = Some(source);
            },
        }
    }

    /// Adds a tag unless the member has it already. Tags that were distinct
    /// stay distinct.
    pub fn add_tag(&mut self, tag: &str)
        ensures
            texts(old(self).spec_tags()@).no_duplicates() ==> texts(
                final(self).spec_tags()@,
            ).no_duplicates(),
            *final(self) == old(self).with_tags(final(self).spec_tags()),
            texts(old(self).spec_tags()@).contains(tag@) ==> final(self).spec_tags()@ == old(
                self,
            ).spec_tags()@,
            !texts(old(self).spec_tags()@).contains(tag@) ==> texts(final(self).spec_tags()@)
                == texts(old(self).spec_tags()@).push(tag@),
    {
        let tags = match self {
            DumpClassMember::Property(inner) => &mut inner.tags,
            DumpClassMember::Function(inner) => &mut inner.tags,
            DumpClassMember::Event(inner) => &mut inner.tags,
            DumpClassMember::Callback(inner) => &mut inner.tags,
        };
        if !has_tag(tags, tag) {
            tags.push(String::from_str(tag));
            assert(texts(tags@) =~= texts(old(self).spec_tags()@).push(tag@));
        }
    }
}

/// The properties among `members`, in their order.
pub open spec fn properties_of(members: Seq<DumpClassMember>) -> Seq<DumpClassProperty>
    decreases members.len(),
{
    if members.len() == 0 {
        Seq::empty()
    } else {
        match members.last() {
            DumpClassMember::Property(inner) => properties_of(members.drop_last()).push(inner),
            _ => properties_of(members.drop_last()),
        }
    }
}

/// A longer list of members holds at least as many properties.
pub proof fn lemma_properties_grow(members: Seq<DumpClassMember>, n: int)
    requires
        0 <= n <= members.len(),
    ensures
        properties_of(members.take(n)).len() <= properties_of(members).len(),
    decreases members.len() - n,
{
    if n < members.len() {
        assert(members.take(n + 1).drop_last() =~= members.take(n));
        lemma_properties_grow(members, n + 1);
    } else {
        assert(members.take(n) =~= members);
    }
}

/// The functions among `members`, in their order.
pub open spec fn functions_of(members: Seq<DumpClassMember>) -> Seq<DumpClassFunction>
    decreases members.len(),
{
    if members.len() == 0 {
        Seq::empty()
    } else {
        match members.last() {
            DumpClassMember::Function(inner) => functions_of(members.drop_last()).push(inner),
            _ => functions_of(members.drop_last()),
        }
    }
}

/// A longer list of members holds at least as many functions.
pub proof fn lemma_functions_grow(members: Seq<DumpClassMember>, n: int)
    requires
        0 <= n <= members.len(),
    ensures
        functions_of(members.take(n)).len() <= functions_of(members).len(),
    decreases members.len() - n,
{
    if n < members.len() {
        assert(members.take(n + 1).drop_last() =~= members.take(n));
        lemma_functions_grow(members, n + 1);
    } else {
        assert(members.take(n) =~= members);
    }
}

/// The events among `members`, in their order.
pub open spec fn events_of(members: Seq<DumpClassMember>) -> Seq<DumpClassEvent>
    decreases members.len(),
{
    if members.len() == 0 {
        Seq::empty()
    } else {
        match members.last() {
            DumpClassMember::Event(inner) => events_of(members.drop_last()).push(inner),
            _ => events_of(members.drop_last()),
        }
    }
}

/// A longer list of members holds at least as many events.
pub proof fn lemma_events_grow(members: Seq<DumpClassMember>, n: int)
    requires
        0 <= n <= members.len(),
    ensures
        events_of(members.take(n)).len() <= events_of(members).len(),
    decreases members.len() - n,
{
    if n < members.len() {
        assert(members.take(n + 1).drop_last() =~= members.take(n));
        lemma_events_grow(members, n + 1);
    } else {
        assert(members.take(n) =~= members);
    }
}

/// The callbacks among `members`, in their order.
pub open spec fn callbacks_of(members: Seq<DumpClassMember>) -> Seq<DumpClassCallback>
    decreases members.len(),
{
    if members.len() == 0 {
        Seq::empty()
    } else {
        match members.last() {
            DumpClassMember::Callback(inner) => callbacks_of(members.drop_last()).push(inner),
            _ => callbacks_of(members.drop_last()),
        }
    }
}

/// A longer list of members holds at least as many callbacks.
pub proof fn lemma_callbacks_grow(members: Seq<DumpClassMember>, n: int)
    requires
        0 <= n <= members.len(),
    ensures
        callbacks_of(members.take(n)).len() <= callbacks_of(members).len(),
    decreases members.len() - n,
{
    if n < members.len() {
        assert(members.take(n + 1).drop_last() =~= members.take(n));
        lemma_callbacks_grow(members, n + 1);
    } else {
        assert(members.take(n) =~= members);
    }
}

impl DumpClass {
    /// The properties of the class, in the order of its member list.
    pub fn properties(&self) -> (found: Vec<&DumpClassProperty>)
        ensures
            found@.map_values(|inner: &DumpClassProperty| *inner) == properties_of(self.members@),
    {
        let mut found: Vec<&DumpClassProperty> = Vec::new();
        let mut i: usize = 0;
        while i < self.members.len()
            invariant
                i <= self.members.len(),
                found@.map_values(|inner: &DumpClassProperty| *inner) == properties_of(
                    self.members@.take(i as int),
                ),
            decreases self.members.len() - i,
        {
            assert(self.members@.take(i + 1).drop_last() =~= self.members@.take(i as int));
            let ghost before = found@;
            match &self.members[i] {
                DumpClassMember::Property(inner) => {
                    found.push(inner);
                    assert(found@.map_values(|inner: &DumpClassProperty| *inner) =~= before.map_values(
                        |inner: &DumpClassProperty| *inner,
                    ).push(*inner));
                },
                _ => {},
            }
            i = i + 1;
        }
        assert(self.members@.take(i as int) =~= self.members@);
        found
    }

    /// Whether the class has a property.
    pub fn has_properties(&self) -> (any: bool)
        ensures
            any == (properties_of(self.members@).len() > 0),
    {
        let mut i: usize = 0;
        while i < self.members.len()
            invariant
                i <= self.members.len(),
                properties_of(self.members@.take(i as int)).len() == 0,
            decreases self.members.len() - i,
        {
            proof {
                assert(self.members@.take(i + 1).drop_last() =~= self.members@.take(i as int));
                lemma_properties_grow(self.members@, i + 1);
            }
            match &self.members[i] {
                DumpClassMember::Property(_) => {
                    return true;
                },
                _ => {},
            }
            i = i + 1;
        }
        assert(self.members@.take(i as int) =~= self.members@);
        false
    }

    /// The functions of the class, in the order of its member list.
    pub fn functions(&self) -> (found: Vec<&DumpClassFunction>)
        ensures
            found@.map_values(|inner: &DumpClassFunction| *inner) == functions_of(self.members@),
    {
        let mut found: Vec<&DumpClassFunction> = Vec::new();
        let mut i: usize = 0;
        while i < self.members.len()
            invariant
                i <= self.members.len(),
                found@.map_values(|inner: &DumpClassFunction| *inner) == functions_of(
                    self.members@.take(i as int),
                ),
            decreases self.members.len() - i,
        {
            assert(self.members@.take(i + 1).drop_last() =~= self.members@.take(i as int));
            let ghost before = found@;
            match &self.members[i] {
                DumpClassMember::Function(inner) => {
                    found.push(inner);
                    assert(found@.map_values(|inner: &DumpClassFunction| *inner) =~= before.map_values(
                        |inner: &DumpClassFunction| *inner,
                    ).push(*inner));
                },
                _ => {},
            }
            i = i + 1;
        }
        assert(self.members@.take(i as int) =~= self.members@);
        found
    }

    /// Whether the class has a function.
    pub fn has_functions(&self) -> (any: bool)
        ensures
            any == (functions_of(self.members@).len() > 0),
    {
        let mut i: usize = 0;
        while i < self.members.len()
            invariant
                i <= self.members.len(),
                functions_of(self.members@.take(i as int)).len() == 0,
            decreases self.members.len() - i,
        {
            proof {
                assert(self.members@.take(i + 1).drop_last() =~= self.members@.take(i as int));
                lemma_functions_grow(self.members@, i + 1);
            }
            match &self.members[i] {
                DumpClassMember::Function(_) => {
                    return true;
                },
                _ => {},
            }
            i = i + 1;
        }
        assert(self.members@.take(i as int) =~= self.members@);
        false
    }

    /// The events of the class, in the order of its member list.
    pub fn events(&self) -> (found: Vec<&DumpClassEvent>)
        ensures
            found@.map_values(|inner: &DumpClassEvent| *inner) == events_of(self.members@),
    {
        let mut found: Vec<&DumpClassEvent> = Vec::new();
        let mut i: usize = 0;
        while i < self.members.len()
            invariant
                i <= self.members.len(),
                found@.map_values(|inner: &DumpClassEvent| *inner) == events_of(
                    self.members@.take(i as int),
                ),
            decreases self.members.len() - i,
        {
            assert(self.members@.take(i + 1).drop_last() =~= self.members@.take(i as int));
            let ghost before = found@;
            match &self.members[i] {
                DumpClassMember::Event(inner) => {
                    found.push(inner);
                    assert(found@.map_values(|inner: &DumpClassEvent| *inner) =~= before.map_values(
                        |inner: &DumpClassEvent| *inner,
                    ).push(*inner));
                },
                _ => {},
            }
            i = i + 1;
        }
        assert(self.members@.take(i as int) =~= self.members@);
        found
    }

    /// Whether the class has a event.
    pub fn has_events(&self) -> (any: bool)
        ensures
            any == (events_of(self.members@).len() > 0),
    {
        let mut i: usize = 0;
        while i < self.members.len()
            invariant
                i <= self.members.len(),
                events_of(self.members@.take(i as int)).len() == 0,
            decreases self.members.len() - i,
        {
            proof {
                assert(self.members@.take(i + 1).drop_last() =~= self.members@.take(i as int));
                lemma_events_grow(self.members@, i + 1);
            }
            match &self.members[i] {
                DumpClassMember::Event(_) => {
                    return true;
                },
                _ => {},
            }
            i = i + 1;
        }
        assert(self.members@.take(i as int) =~= self.members@);
        false
    }

    /// The callbacks of the class, in the order of its member list.
    pub fn callbacks(&self) -> (found: Vec<&DumpClassCallback>)
        ensures
            found@.map_values(|inner: &DumpClassCallback| *inner) == callbacks_of(self.members@),
    {
        let mut found: Vec<&DumpClassCallback> = Vec::new();
        let mut i: usize = 0;
        while i < self.members.len()
            invariant
                i <= self.members.len(),
                found@.map_values(|inner: &DumpClassCallback| *inner) == callbacks_of(
                    self.members@.take(i as int),
                ),
            decreases self.members.len() - i,
        {
            assert(self.members@.take(i + 1).drop_last() =~= self.members@.take(i as int));
            let ghost before = found@;
            match &self.members[i] {
                DumpClassMember::Callback(inner) => {
                    found.push(inner);
                    assert(found@.map_values(|inner: &DumpClassCallback| *inner) =~= before.map_values(
                        |inner: &DumpClassCallback| *inner,
                    ).push(*inner));
                },
                _ => {},
            }
            i = i + 1;
        }
        assert(self.members@.take(i as int) =~= self.members@);
        found
    }

    /// Whether the class has a callback.
    pub fn has_callbacks(&self) -> (any: bool)
        ensures
            any == (callbacks_of(self.members@).len() > 0),
    {
        let mut i: usize = 0;
        while i < self.members.len()
            invariant
                i <= self.members.len(),
                callbacks_of(self.members@.take(i as int)).len() == 0,
            decreases self.members.len() - i,
        {
            proof {
                assert(self.members@.take(i + 1).drop_last() =~= self.members@.take(i as int));
                lemma_callbacks_grow(self.members@, i + 1);
            }
            match &self.members[i] {
                DumpClassMember::Callback(_) => {
                    return true;
                },
                _ => {},
            }
            i = i + 1;
        }
        assert(self.members@.take(i as int) =~= self.members@);
        false
    }
}

} // verus!
