//! Summaries of classes and members, as the reflection metadata file gives
//! them, and the queries by which its elements are recognised.

use vstd::prelude::*;
use vstd::hash_map::StringHashMap;
use crate::text::str_eq;

verus! {

pub struct ReflectionMetadataMember {
    pub name: String,
    pub summary: String,
}

pub struct ReflectionMetadataClass {
    pub name: String,
    pub summary: String,
    pub members: StringHashMap<ReflectionMetadataMember>,
}

pub struct ReflectionMetadata {
    pub classes: StringHashMap<ReflectionMetadataClass>,
}

/// An element of the file, as far as queries look at it: its tag name and
/// its attributes.
pub struct XmlElement {
    pub name: String,
    pub attributes: StringHashMap<String>,
}

impl XmlElement {
    /// An element without attributes.
    pub fn new(name: String) -> (element: XmlElement)
        ensures
            element.name == name,
            element.attributes@ == Map::<Seq<char>, String>::empty(),
    {
        XmlElement { name, attributes: StringHashMap::new() }
    }

    /// Gives the element an attribute. A later value for a key replaces an
    /// earlier one.
    pub fn set_attribute(&mut self, key: String, value: String)
        ensures
            final(self).name == old(self).name,
            final(self).attributes@ == old(self).attributes@.insert(key@, value),
    {
        self.attributes.insert(key, value);
    }

    /// Whether the element has the attribute `key` with the value `value`.
    pub open spec fn has_attribute(&self, key: Seq<char>, value: Seq<char>) -> bool {
        self.attributes@.contains_key(key) && self.attributes@[key]@ == value
    }
}

/// What one piece of a query asks of an element: a tag name, and values
/// for some attributes.
pub struct PieceView {
    pub tag: Seq<char>,
    pub attributes: Seq<(Seq<char>, Seq<char>)>,
}

/// The view of the attributes that a piece asks for.
pub open spec fn attributes_view(attributes: Seq<(&'static str, &'static str)>) -> Seq<
    (Seq<char>, Seq<char>),
> {
    attributes.map_values(|a: (&'static str, &'static str)| (a.0@, a.1@))
}

/// Whether `element` is what `piece` asks for.
pub open spec fn piece_matches(piece: PieceView, element: XmlElement) -> bool {
    &&& element.name@ == piece.tag
    &&& forall|j: int|
        0 <= j < piece.attributes.len() ==> element.has_attribute(
            (#[trigger] piece.attributes[j]).0,
            piece.attributes[j].1,
        )
}

/// A path of elements, from the outermost inwards: for each a tag name and
/// the attribute values that it must have.
pub struct XmlQuery {
    pieces: Vec<(&'static str, Vec<(&'static str, &'static str)>)>,
}

impl View for XmlQuery {
    type V = Seq<PieceView>;

    closed spec fn view(&self) -> Seq<PieceView> {
        self.pieces@.map_values(
            |p: (&'static str, Vec<(&'static str, &'static str)>)|
                PieceView { tag: p.0@, attributes: attributes_view(p.1@) },
        )
    }
}

/// Whether a stack of open elements is what the pieces ask for: as many
/// elements as pieces, and each element what its piece asks for.
pub open spec fn query_matches(pieces: Seq<PieceView>, element_stack: Seq<XmlElement>) -> bool {
    &&& element_stack.len() == pieces.len()
    &&& forall|i: int|
        0 <= i < pieces.len() ==> piece_matches(#[trigger] pieces[i], element_stack[i])
}

impl XmlQuery {
    /// A query of the given pieces.
    pub fn new(query: &[(&'static str, &[(&'static str, &'static str)])]) -> (made: XmlQuery)
        ensures
            made@.len() == query@.len(),
            forall|i: int|
                0 <= i < query@.len() ==> (#[trigger] made@[i]) == (PieceView {
                    tag: query@[i].0@,
                    attributes: attributes_view(query@[i].1@),
                }),
    {
        let mut pieces: Vec<(&'static str, Vec<(&'static str, &'static str)>)> = Vec::new();
        let mut i: usize = 0;
        while i < query.len()
            invariant
                i <= query@.len(),
                pieces@.len() == i,
                forall|k: int|
                    0 <= k < i ==> (#[trigger] pieces@[k]).0@ == query@[k].0@ && pieces@[k].1@
                        == query@[k].1@,
            decreases query@.len() - i,
        {
            let asked = query[i].1;
            let mut attributes: Vec<(&'static str, &'static str)> = Vec::new();
            let mut j: usize = 0;
            while j < asked.len()
                invariant
                    j <= asked@.len(),
                    attributes@ =~= asked@.take(j as int),
                decreases asked@.len() - j,
            {
                attributes.push(asked[j]);
                j = j + 1;
            }
            assert(asked@.take(j as int) =~= asked@);
            pieces.push((query[i].0, attributes));
            i = i + 1;
        }
        XmlQuery { pieces }
    }

    /// Whether the element is what the piece at `index` asks for.
    fn piece_matches_element(&self, index: usize, element: &XmlElement) -> (matched: bool)
        requires
            index < self@.len(),
        ensures
            matched == piece_matches(self@[index as int], *element),
    {
        assert(self@.len() == self.pieces@.len());
        let piece = &self.pieces[index];
        let ghost asked_view = self@[index as int];
        assert(asked_view == (PieceView { tag: piece.0@, attributes: attributes_view(piece.1@) }));
        if !str_eq(element.name.as_str(), piece.0) {
            return false;
        }
        let mut j: usize = 0;
        while j < piece.1.len()
            invariant
                j <= piece.1@.len(),
                asked_view == self@[index as int],
                asked_view.tag == element.name@,
                asked_view.attributes == attributes_view(piece.1@),
                forall|k: int|
                    0 <= k < j ==> element.has_attribute(
                        (#[trigger] asked_view.attributes[k]).0,
                        asked_view.attributes[k].1,
                    ),
            decreases piece.1@.len() - j,
        {
            let asked = piece.1[j];
            let matched = match element.attributes.get(asked.0) {
                Some(value) => str_eq(value.as_str(), asked.1),
                None => false,
            };
            if !matched {
                assert(!element.has_attribute(
                    asked_view.attributes[j as int].0,
                    asked_view.attributes[j as int].1,
                ));
                return false;
            }
            j = j + 1;
        }
        true
    }

    /// Whether the open elements, from the outermost inwards, are what the
    /// query asks for.
    pub fn matches(&self, element_stack: &[XmlElement]) -> (matched: bool)
        ensures
            matched == query_matches(self@, element_stack@),
    {
        if element_stack.len() != self.pieces.len() {
            return false;
        }
        let mut i: usize = 0;
        while i < element_stack.len()
            invariant
                i <= element_stack@.len(),
                element_stack@.len() == self@.len(),
                forall|k: int| 0 <= k < i ==> piece_matches(#[trigger] self@[k], element_stack@[k]),
            decreases element_stack@.len() - i,
        {
            if !self.piece_matches_element(i, &element_stack[i]) {
                return false;
            }
            i = i + 1;
        }
        true
    }
}

/// A piece that asks for a tag name and nothing else.
pub open spec fn plain_piece(tag: Seq<char>) -> PieceView {
    PieceView { tag, attributes: Seq::empty() }
}

/// A piece that asks for a tag name and the value of one attribute.
pub open spec fn piece_with(tag: Seq<char>, key: Seq<char>, value: Seq<char>) -> PieceView {
    PieceView { tag, attributes: seq![(key, value)] }
}

/// The path from the root of the file to the item of a class.
pub open spec fn class_pieces() -> Seq<PieceView> {
    seq![
        plain_piece("roblox"@),
        plain_piece("Item"@),
        piece_with("Item"@, "class"@, "ReflectionMetadataClass"@),
    ]
}

/// The path from the item of a class to the item of one of its members.
pub open spec fn member_pieces() -> Seq<PieceView> {
    seq![plain_piece("Item"@), piece_with("Item"@, "class"@, "ReflectionMetadataMember"@)]
}

/// The path from an item to the text of its name.
pub open spec fn name_pieces() -> Seq<PieceView> {
    seq![plain_piece("Properties"@), piece_with("string"@, "name"@, "Name"@)]
}

/// The path from an item to the text of its summary.
pub open spec fn summary_pieces() -> Seq<PieceView> {
    seq![plain_piece("Properties"@), piece_with("string"@, "name"@, "summary"@)]
}

impl XmlQuery {
    /// A query of two pieces: a tag, and below it a tag with an attribute.
    fn of_two(
        outer: &'static str,
        inner: &'static str,
        key: &'static str,
        value: &'static str,
    ) -> (made: XmlQuery)
        ensures
            made@ == seq![plain_piece(outer@), piece_with(inner@, key@, value@)],
    {
        let mut asked: Vec<(&'static str, &'static str)> = Vec::new();
        asked.push((key, value));
        let mut pieces: Vec<(&'static str, Vec<(&'static str, &'static str)>)> = Vec::new();
        pieces.push((outer, Vec::new()));
        pieces.push((inner, asked));
        let made = XmlQuery { pieces };
        assert(made@[0].attributes =~= Seq::empty());
        assert(made@[1].attributes =~= seq![(key@, value@)]);
        assert(made@ =~= seq![plain_piece(outer@), piece_with(inner@, key@, value@)]);
        made
    }

    /// The query that finds the item of a class.
    pub fn class_query() -> (made: XmlQuery)
        ensures
            made@ == class_pieces(),
    {
        let mut asked: Vec<(&'static str, &'static str)> = Vec::new();
        asked.push(("class", "ReflectionMetadataClass"));
        let mut pieces: Vec<(&'static str, Vec<(&'static str, &'static str)>)> = Vec::new();
        pieces.push(("roblox", Vec::new()));
        pieces.push(("Item", Vec::new()));
        pieces.push(("Item", asked));
        let made = XmlQuery { pieces };
        assert(made@[0].attributes =~= Seq::empty());
        assert(made@[1].attributes =~= Seq::empty());
        assert(made@[2].attributes =~= seq![("class"@, "ReflectionMetadataClass"@)]);
        assert(made@ =~= class_pieces());
        made
    }

    /// The query that finds the item of a member, from the item of its class.
    pub fn member_query() -> (made: XmlQuery)
        ensures
            made@ == member_pieces(),
    {
        XmlQuery::of_two("Item", "Item", "class", "ReflectionMetadataMember")
    }

    /// The query that finds the text of an item's name.
    pub fn name_query() -> (made: XmlQuery)
        ensures
            made@ == name_pieces(),
    {
        XmlQuery::of_two("Properties", "string", "name", "Name")
    }

    /// The query that finds the text of an item's summary.
    pub fn summary_query() -> (made: XmlQuery)
        ensures
            made@ == summary_pieces(),
    {
        XmlQuery::of_two("Properties", "string", "name", "summary")
    }
}

} // verus!
