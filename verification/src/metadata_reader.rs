//! Reading the reflection metadata: a state machine that is fed the events
//! of the file one by one and gathers the summaries of classes and members.

use vstd::prelude::*;
use vstd::hash_map::StringHashMap;
use vstd::slice::slice_subrange;
use crate::reflection_metadata::{
    class_pieces, member_pieces, name_pieces, query_matches, summary_pieces, ReflectionMetadata,
    ReflectionMetadataClass, ReflectionMetadataMember, XmlElement, XmlQuery,
};

verus! {

/// One event of the file.
pub enum XmlEvent {
    /// An element opens.
    Start(XmlElement),
    /// The innermost open element closes.
    End,
    /// Text, unescaped.
    Text(String),
    /// The file ends.
    Eof,
    /// Anything else.
    Other,
}

/// An event, with text as characters.
pub enum EventView {
    Start(XmlElement),
    End,
    Text(Seq<char>),
    Eof,
    Other,
}

impl View for XmlEvent {
    type V = EventView;

    open spec fn view(&self) -> EventView {
        match self {
            XmlEvent::Start(element) => EventView::Start(*element),
            XmlEvent::End => EventView::End,
            XmlEvent::Text(text) => EventView::Text(text@),
            XmlEvent::Eof => EventView::Eof,
            XmlEvent::Other => EventView::Other,
        }
    }
}

/// The name and the summary of a member.
pub struct MemberRecord {
    pub name: Seq<char>,
    pub summary: Seq<char>,
}

/// The name and the summary of a class, and its members by name.
pub struct ClassRecord {
    pub name: Seq<char>,
    pub summary: Seq<char>,
    pub members: Map<Seq<char>, MemberRecord>,
}

/// A member whose item is open: the depth at which it was opened and what
/// was read of it.
pub struct OpenMember {
    pub start: int,
    pub record: MemberRecord,
}

/// A class whose item is open, and its member whose item is open, if any.
pub struct OpenClass {
    pub start: int,
    pub record: ClassRecord,
    pub member: Option<OpenMember>,
}

/// The state of the reader.
pub struct ReaderView {
    /// The open elements, from the outermost inwards.
    pub stack: Seq<XmlElement>,
    /// The class that is being read.
    pub class: Option<OpenClass>,
    /// The classes read so far, by name.
    pub classes: Map<Seq<char>, ClassRecord>,
    /// Whether the end of the file was seen.
    pub finished: bool,
}

/// What a member of the metadata says.
pub open spec fn member_record(member: ReflectionMetadataMember) -> MemberRecord {
    MemberRecord { name: member.name@, summary: member.summary@ }
}

/// What a class of the metadata says.
pub open spec fn class_record(class: ReflectionMetadataClass) -> ClassRecord {
    ClassRecord {
        name: class.name@,
        summary: class.summary@,
        members: class.members@.map_values(|m: ReflectionMetadataMember| member_record(m)),
    }
}

/// What the metadata says, class by class.
pub open spec fn metadata_records(metadata: ReflectionMetadata) -> Map<Seq<char>, ClassRecord> {
    metadata.classes@.map_values(|c: ReflectionMetadataClass| class_record(c))
}

/// The open elements from the depth `start` inwards.
pub open spec fn relevant(stack: Seq<XmlElement>, start: int) -> Seq<XmlElement> {
    stack.subrange(start, stack.len() as int)
}

/// Whether a text that stands below these elements is a name.
pub open spec fn is_name(below: Seq<XmlElement>) -> bool {
    query_matches(name_pieces(), below)
}

/// Whether a text that stands below these elements is a summary, and no name.
pub open spec fn is_summary(below: Seq<XmlElement>) -> bool {
    !is_name(below) && query_matches(summary_pieces(), below)
}

/// The class with the member that is open closed and recorded under its name.
pub open spec fn close_member(class: OpenClass) -> OpenClass {
    match class.member {
        Some(member) => OpenClass {
            record: ClassRecord {
                members: class.record.members.insert(member.record.name, member.record),
                ..class.record
            },
            member: None,
            ..class
        },
        None => class,
    }
}

/// The state with the class that is open closed and recorded under its name.
pub open spec fn close_class(state: ReaderView) -> ReaderView {
    match state.class {
        Some(class) => ReaderView {
            classes: state.classes.insert(class.record.name, class.record),
            class: None,
            ..state
        },
        None => state,
    }
}

/// The state after an element opened. Outside a class, an element on the
/// path of a class opens one; in a class and outside a member, an element on
/// the path of a member opens one.
pub open spec fn after_start(state: ReaderView, element: XmlElement) -> ReaderView {
    let stack = state.stack.push(element);
    let fresh = MemberRecord { name: Seq::empty(), summary: Seq::empty() };
    match state.class {
        None => ReaderView {
            stack,
            class: if query_matches(class_pieces(), stack) {
                Some(
                    OpenClass {
                        start: stack.len() as int,
                        record: ClassRecord {
                            name: Seq::empty(),
                            summary: Seq::empty(),
                            members: Map::empty(),
                        },
                        member: None,
                    },
                )
            } else {
                None
            },
            ..state
        },
        Some(class) => ReaderView {
            stack,
            class: Some(
                OpenClass {
                    member: if class.member is None && query_matches(
                        member_pieces(),
                        relevant(stack, class.start),
                    ) {
                        Some(OpenMember { start: stack.len() as int, record: fresh })
                    } else {
                        class.member
                    },
                    ..class
                },
            ),
            ..state
        },
    }
}

/// The state after an element closed. A member, or else a class, is closed
/// and recorded when fewer elements are open than when it was opened.
pub open spec fn after_end(state: ReaderView) -> ReaderView {
    let stack = if state.stack.len() > 0 {
        state.stack.drop_last()
    } else {
        state.stack
    };
    let popped = ReaderView { stack, ..state };
    match state.class {
        None => popped,
        Some(class) => match class.member {
            Some(member) => if stack.len() < member.start {
                ReaderView { class: Some(close_member(class)), ..popped }
            } else {
                popped
            },
            None => if stack.len() < class.start {
                close_class(popped)
            } else {
                popped
            },
        },
    }
}

/// The state after a text. It becomes the name or the summary of the member
/// that is open, or else of the class that is open, where it stands on the
/// path of one of them.
pub open spec fn after_text(state: ReaderView, text: Seq<char>) -> ReaderView {
    match state.class {
        None => state,
        Some(class) => match class.member {
            Some(member) => {
                let below = relevant(state.stack, member.start);
                let record = if is_name(below) {
                    MemberRecord { name: text, ..member.record }
                } else if is_summary(below) {
                    MemberRecord { summary: text, ..member.record }
                } else {
                    member.record
                };
                ReaderView {
                    class: Some(OpenClass { member: Some(OpenMember { record, ..member }), ..class }),
                    ..state
                }
            },
            None => {
                let below = relevant(state.stack, class.start);
                let record = if is_name(below) {
                    ClassRecord { name: text, ..class.record }
                } else if is_summary(below) {
                    ClassRecord { summary: text, ..class.record }
                } else {
                    class.record
                };
                ReaderView { class: Some(OpenClass { record, ..class }), ..state }
            },
        },
    }
}

/// The state after the end of the file: what is open is closed and recorded.
pub open spec fn after_eof(state: ReaderView) -> ReaderView {
    let closed = match state.class {
        Some(class) => close_class(ReaderView { class: Some(close_member(class)), ..state }),
        None => state,
    };
    ReaderView { finished: true, ..closed }
}

/// The state after an event. Once the file has ended nothing changes.
pub open spec fn next_state(state: ReaderView, event: EventView) -> ReaderView {
    if state.finished {
        state
    } else {
        match event {
            EventView::Start(element) => after_start(state, element),
            EventView::End => after_end(state),
            EventView::Text(text) => after_text(state, text),
            EventView::Eof => after_eof(state),
            EventView::Other => state,
        }
    }
}

/// Whether a text that came now would be kept: a class is open, and the
/// text would stand on the path of a name or a summary.
pub open spec fn text_wanted(state: ReaderView) -> bool {
    !state.finished && match state.class {
        None => false,
        Some(class) => {
            let start = match class.member {
                Some(member) => member.start,
                None => class.start,
            };
            is_name(relevant(state.stack, start)) || is_summary(relevant(state.stack, start))
        },
    }
}

/// Whether what is open was opened at depths that fit the open elements.
pub open spec fn depths_fit(state: ReaderView) -> bool {
    match state.class {
        None => true,
        Some(class) => 0 <= class.start <= state.stack.len() && match class.member {
            Some(member) => class.start < member.start <= state.stack.len(),
            None => true,
        },
    }
}

/// What a text is to the item below which it stands.
enum TextRole {
    Name,
    Summary,
    Neither,
}

struct MemberInProgress {
    start_len: usize,
    name: String,
    summary: String,
}

struct ClassInProgress {
    start_len: usize,
    name: String,
    summary: String,
    members: StringHashMap<ReflectionMetadataMember>,
    member: Option<MemberInProgress>,
}

impl MemberInProgress {
    spec fn view(&self) -> OpenMember {
        OpenMember {
            start: self.start_len as int,
            record: MemberRecord { name: self.name@, summary: self.summary@ },
        }
    }
}

impl ClassInProgress {
    spec fn view(&self) -> OpenClass {
        OpenClass {
            start: self.start_len as int,
            record: ClassRecord {
                name: self.name@,
                summary: self.summary@,
                members: self.members@.map_values(|m: ReflectionMetadataMember| member_record(m)),
            },
            member: match self.member {
                Some(member) => Some(member@),
                None => None,
            },
        }
    }

    /// Closes the member that is open, if any, and records it.
    fn close_member(&mut self)
        ensures
            final(self)@ == close_member(old(self)@),
    {
        match self.member.take() {
            Some(member) => {
                let key = member.name.clone();
                let record = ReflectionMetadataMember { name: member.name, summary: member.summary };
                self.members.insert(key, record);
                assert(self@.record.members =~= close_member(old(self)@).record.members);
            },
            None => {},
        }
    }
}

/// The reader of the metadata file. It is fed the events in the order of
/// the file and holds the classes read so far.
pub struct MetadataReader {
    class_query: XmlQuery,
    member_query: XmlQuery,
    name_query: XmlQuery,
    summary_query: XmlQuery,
    element_stack: Vec<XmlElement>,
    class: Option<ClassInProgress>,
    classes: StringHashMap<ReflectionMetadataClass>,
    finished: bool,
}

impl View for MetadataReader {
    type V = ReaderView;

    closed spec fn view(&self) -> ReaderView {
        ReaderView {
            stack: self.element_stack@,
            class: match self.class {
                Some(class) => Some(class@),
                None => None,
            },
            classes: self.classes@.map_values(|c: ReflectionMetadataClass| class_record(c)),
            finished: self.finished,
        }
    }
}

impl MetadataReader {
    /// Whether the reader is in a state that `new` and `on_event` lead to.
    pub closed spec fn well_formed(&self) -> bool {
        &&& self.class_query@ == class_pieces()
        &&& self.member_query@ == member_pieces()
        &&& self.name_query@ == name_pieces()
        &&& self.summary_query@ == summary_pieces()
        &&& depths_fit(self@)
    }

    /// A reader at the start of a file.
    pub fn new() -> (reader: MetadataReader)
        ensures
            reader.well_formed(),
            reader@ == (ReaderView {
                stack: Seq::empty(),
                class: None,
                classes: Map::empty(),
                finished: false,
            }),
    {
        let reader = MetadataReader {
            class_query: XmlQuery::class_query(),
            member_query: XmlQuery::member_query(),
            name_query: XmlQuery::name_query(),
            summary_query: XmlQuery::summary_query(),
            element_stack: Vec::new(),
            class: None,
            classes: StringHashMap::new(),
            finished: false,
        };
        assert(reader@.classes =~= Map::empty());
        reader
    }

    /// Whether the end of the file was seen.
    pub fn is_finished(&self) -> (finished: bool)
        ensures
            finished == self@.finished,
    {
        self.finished
    }

    /// What a text below the elements from depth `start` inwards would be.
    fn text_role(&self, start: usize) -> (role: TextRole)
        requires
            self.well_formed(),
            start <= self@.stack.len(),
        ensures
            role is Name <==> is_name(relevant(self@.stack, start as int)),
            role is Summary <==> is_summary(relevant(self@.stack, start as int)),
    {
        let below = slice_subrange(self.element_stack.as_slice(), start, self.element_stack.len());
        if self.name_query.matches(below) {
            TextRole::Name
        } else if self.summary_query.matches(below) {
            TextRole::Summary
        } else {
            TextRole::Neither
        }
    }

    /// Whether a text that came now would be kept. Where it would not, the
    /// event may be given as `Other`, and the text need not be decoded.
    pub fn wants_text(&self) -> (wanted: bool)
        requires
            self.well_formed(),
        ensures
            wanted == text_wanted(self@),
    {
        if self.finished {
            return false;
        }
        match &self.class {
            None => false,
            Some(class) => {
                let start: usize = match &class.member {
                    Some(member) => member.start_len,
                    None => class.start_len,
                };
                match self.text_role(start) {
                    TextRole::Neither => false,
                    _ => true,
                }
            },
        }
    }

    /// Closes the class that is open, if any, and records it.
    fn close_class(&mut self)
        ensures
            final(self)@ == close_class(old(self)@),
            final(self).class_query == old(self).class_query,
            final(self).member_query == old(self).member_query,
            final(self).name_query == old(self).name_query,
            final(self).summary_query == old(self).summary_query,
    {
        match self.class.take() {
            Some(class) => {
                let key = class.name.clone();
                let record = ReflectionMetadataClass {
                    name: class.name,
                    summary: class.summary,
                    members: class.members,
                };
                self.classes.insert(key, record);
                assert(self@.classes =~= close_class(old(self)@).classes);
            },
            None => {},
        }
    }

    /// Takes the next event of the file.
    pub fn on_event(&mut self, event: XmlEvent)
        requires
            old(self).well_formed(),
        ensures
            final(self).well_formed(),
            final(self)@ == next_state(old(self)@, event@),
    {
        if self.finished {
            return ;
        }
        match event {
            XmlEvent::Start(element) => {
                self.element_stack.push(element);
                match self.class.take() {
                    None => {
                        if self.class_query.matches(self.element_stack.as_slice()) {
                            let opened = ClassInProgress {
                                start_len: self.element_stack.len(),
                                name: String::new(),
                                summary: String::new(),
                                members: StringHashMap::new(),
                                member: None,
                            };
                            assert(opened@.record.members =~= Map::empty());
                            self.class = Some(opened);
                        }
                    },
                    Some(class) => {
                        let mut class = class;
                        if class.member.is_none() {
                            let below = slice_subrange(
                                self.element_stack.as_slice(),
                                class.start_len,
                                self.element_stack.len(),
                            );
                            if self.member_query.matches(below) {
                                class.member = Some(
                                    MemberInProgress {
                                        start_len: self.element_stack.len(),
                                        name: String::new(),
                                        summary: String::new(),
                                    },
                                );
                            }
                        }
                        self.class = Some(class);
                    },
                }
            },
            XmlEvent::End => {
                self.element_stack.pop();
                let depth: usize = self.element_stack.len();
                match self.class.take() {
                    None => {},
                    Some(class) => {
                        let mut class = class;
                        let member_start: Option<usize> = match &class.member {
                            Some(member) => Some(member.start_len),
                            None => None,
                        };
                        match member_start {
                            Some(start) => {
                                if depth < start {
                                    class.close_member();
                                }
                                self.class = Some(class);
                            },
                            None => {
                                let start: usize = class.start_len;
                                self.class = Some(class);
                                if depth < start {
                                    self.close_class();
                                }
                            },
                        }
                    },
                }
            },
            XmlEvent::Text(text) => {
                let start: Option<usize> = match &self.class {
                    None => None,
                    Some(class) => match &class.member {
                        Some(member) => Some(member.start_len),
                        None => Some(class.start_len),
                    },
                };
                match start {
                    None => {},
                    Some(start) => {
                        let role = self.text_role(start);
                        match self.class.take() {
                            None => {},
                            Some(class) => {
                                let mut class = class;
                                match class.member.take() {
                                    Some(member) => {
                                        let mut member = member;
                                        match role {
                                            TextRole::Name => {
                                                member.name = text;
                                            },
                                            TextRole::Summary => {
                                                member.summary = text;
                                            },
                                            TextRole::Neither => {},
                                        }
                                        class.member = Some(member);
                                    },
                                    None => {
                                        match role {
                                            TextRole::Name => {
                                                class.name = text;
                                            },
                                            TextRole::Summary => {
                                                class.summary = text;
                                            },
                                            TextRole::Neither => {},
                                        }
                                    },
                                }
                                self.class = Some(class);
                            },
                        }
                    },
                }
            },
            XmlEvent::Eof => {
                match self.class.take() {
                    None => {},
                    Some(class) => {
                        let mut class = class;
                        class.close_member();
                        self.class = Some(class);
                        self.close_class();
                    },
                }
                self.finished = true;
            },
            XmlEvent::Other => {},
        }
    }

    /// The metadata read.
    pub fn finish(self) -> (metadata: ReflectionMetadata)
        ensures
            metadata_records(metadata) == self@.classes,
    {
        ReflectionMetadata { classes: self.classes }
    }
}

} // verus!
