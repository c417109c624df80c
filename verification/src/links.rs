//! Link resolvers: from a reference or a type to a link, in the shape that
//! the output needs, and the identifiers of the elements that links point to.

use vstd::prelude::*;
use vstd::string::*;
use crate::dump::{DumpType, TypeView};
use crate::index::{
    plain_class_name, DumpIndex, DumpReference, ReferenceView,
};
use crate::text::{dot_free, dotted, lemma_split_two};

verus! {

/// A link: where it leads and what it is called.
pub struct LinkView {
    pub url: Seq<char>,
    pub title: Seq<char>,
}

/// The view of a link that may be absent, given as the pair `(url, title)`.
pub open spec fn link_view(link: Option<(String, String)>) -> Option<LinkView> {
    match link {
        Some(pair) => Some(LinkView { url: pair.0@, title: pair.1@ }),
        None => None,
    }
}

/// A strategy that shapes links and element identifiers for one kind of
/// output. All strategies classify references in the same way.
pub trait LinkResolver: Sized {
    /// The index that references are classified against.
    spec fn index(&self) -> DumpIndex;

    /// The link to a type, if the strategy has one.
    spec fn type_target(&self, t: TypeView) -> Option<LinkView>;

    /// The link to a member of a type, if the strategy has one.
    spec fn member_target(&self, t: TypeView, member: Seq<char>) -> Option<LinkView>;

    /// The identifier of the element that shows a class.
    spec fn class_anchor(&self, class_name: Seq<char>) -> Seq<char>;

    /// The identifier of the element that shows a member of a class.
    spec fn member_anchor(&self, class_name: Seq<char>, member_name: Seq<char>) -> Seq<char>;

    /// Resolves a dotted reference to `(url, title)`: the reference is
    /// classified against the index, and the strategy shapes the link for
    /// the type or the member found.
    fn resolve_reference(&self, reference_str: &str) -> (link: Option<(String, String)>)
        ensures
            link_view(link) == match self.index().resolve(reference_str@) {
                Some(ReferenceView::Type(t)) => self.type_target(t),
                Some(ReferenceView::Member(t, m)) => self.member_target(t, m),
                None => None,
            },
    ;

    /// The link to a type, as `(url, title)`.
    fn type_link(&self, dump_type: &DumpType) -> (link: Option<(String, String)>)
        ensures
            link_view(link) == self.type_target(dump_type@),
    ;

    fn class_id(&self, class_name: &str) -> (id: String)
        ensures
            id@ == self.class_anchor(class_name@),
    ;

    fn class_member_id(&self, class_name: &str, member_name: &str) -> (id: String)
        ensures
            id@ == self.member_anchor(class_name@, member_name@),
    ;
}

/// The link that a resolver gives for the reference `s`, as
/// `resolve_reference` returns it.
pub open spec fn reference_target<R: LinkResolver>(resolver: &R, s: Seq<char>) -> Option<LinkView> {
    match resolver.index().resolve(s) {
        Some(ReferenceView::Type(t)) => resolver.type_target(t),
        Some(ReferenceView::Member(t, m)) => resolver.member_target(t, m),
        None => None,
    }
}

/// Links for documentation with one page per class, named after the class.
pub struct FullSiteLinkResolver {
    pub dump_index: DumpIndex,
}

/// Links for documentation on a single page.
pub struct MiniSiteLinkResolver {
    pub dump_index: DumpIndex,
}

/// `owner_name.member_name`, as an owned string.
fn qualified_name(owner_name: &str, member_name: &str) -> (joined: String)
    ensures
        joined@ == dotted(owner_name@, member_name@),
{
    proof {
        reveal_strlit(".");
        assert("."@ =~= seq!['.']);
    }
    String::from_str(owner_name).concat(".").concat(member_name)
}

/// `#fragment`, as an owned string.
fn fragment_url(fragment: &str) -> (url: String)
    ensures
        url@ == seq!['#'] + fragment@,
{
    proof {
        reveal_strlit("#");
        assert("#"@ =~= seq!['#']);
    }
    String::from_str("#").concat(fragment)
}

impl FullSiteLinkResolver {
    pub fn new(dump_index: DumpIndex) -> (resolver: FullSiteLinkResolver)
        ensures
            resolver.dump_index == dump_index,
    {
        FullSiteLinkResolver { dump_index }
    }
}

impl LinkResolver for FullSiteLinkResolver {
    open spec fn index(&self) -> DumpIndex {
        self.dump_index
    }

    /// Only a class has a page: the page of its name.
    open spec fn type_target(&self, t: TypeView) -> Option<LinkView> {
        match t {
            TypeView::Class(name) => Some(LinkView { url: name, title: name }),
            _ => None,
        }
    }

    /// A member of a class is found on the class's page, under its own name.
    open spec fn member_target(&self, t: TypeView, member: Seq<char>) -> Option<LinkView> {
        match t {
            TypeView::Class(name) => Some(
                LinkView { url: name + seq!['#'] + member, title: dotted(name, member) },
            ),
            _ => None,
        }
    }

    open spec fn class_anchor(&self, class_name: Seq<char>) -> Seq<char> {
        class_name
    }

    open spec fn member_anchor(&self, class_name: Seq<char>, member_name: Seq<char>) -> Seq<char> {
        member_name
    }

    fn resolve_reference(&self, reference_str: &str) -> (link: Option<(String, String)>) {
        match self.dump_index.resolve_reference(reference_str) {
            Some(DumpReference::Type(dump_type)) => self.type_link(&dump_type),
            Some(DumpReference::Member(dump_type, member_name)) => match &dump_type {
                DumpType::Class(_name) => {
                    let owner_name = dump_type.get_name();
                    let member_title = qualified_name(owner_name, member_name.as_str());
                    proof {
                        reveal_strlit("#");
                        assert("#"@ =~= seq!['#']);
                    }
                    let member_link = String::from_str(owner_name).concat("#").concat(
                        member_name.as_str(),
                    );
                    Some((member_link, member_title))
                },
                _ => None,
            },
            None => None,
        }
    }

    fn type_link(&self, dump_type: &DumpType) -> (link: Option<(String, String)>) {
        match dump_type {
            DumpType::Class(_name) => {
                let owner_name = dump_type.get_name();
                Some((String::from_str(owner_name), String::from_str(owner_name)))
            },
            _ => None,
        }
    }

    fn class_id(&self, class_name: &str) -> (id: String) {
        String::from_str(class_name)
    }

    fn class_member_id(&self, _class_name: &str, member_name: &str) -> (id: String) {
        String::from_str(member_name)
    }
}

impl MiniSiteLinkResolver {
    pub fn new(dump_index: DumpIndex) -> (resolver: MiniSiteLinkResolver)
        ensures
            resolver.dump_index == dump_index,
    {
        MiniSiteLinkResolver { dump_index }
    }
}

impl LinkResolver for MiniSiteLinkResolver {
    open spec fn index(&self) -> DumpIndex {
        self.dump_index
    }

    /// Every type is found on the one page, under its name.
    open spec fn type_target(&self, t: TypeView) -> Option<LinkView> {
        Some(LinkView { url: seq!['#'] + t.name(), title: t.name() })
    }

    /// Every member is found on the one page, under the path of its type
    /// and its own name.
    open spec fn member_target(&self, t: TypeView, member: Seq<char>) -> Option<LinkView> {
        Some(
            LinkView { url: seq!['#'] + dotted(t.path(), member), title: dotted(t.path(), member) },
        )
    }

    open spec fn class_anchor(&self, class_name: Seq<char>) -> Seq<char> {
        class_name
    }

    open spec fn member_anchor(&self, class_name: Seq<char>, member_name: Seq<char>) -> Seq<char> {
        dotted(class_name, member_name)
    }

    fn resolve_reference(&self, reference_str: &str) -> (link: Option<(String, String)>) {
        match self.dump_index.resolve_reference(reference_str) {
            Some(DumpReference::Type(dump_type)) => self.type_link(&dump_type),
            Some(DumpReference::Member(dump_type, member_name)) => {
                let owner_path = dump_type.path();
                let member_title = qualified_name(owner_path.as_str(), member_name.as_str());
                let member_link = fragment_url(member_title.as_str());
                Some((member_link, member_title))
            },
            None => None,
        }
    }

    fn type_link(&self, dump_type: &DumpType) -> (link: Option<(String, String)>) {
        let owner_name = dump_type.get_name();
        let type_link = fragment_url(owner_name);
        Some((type_link, String::from_str(owner_name)))
    }

    fn class_id(&self, class_name: &str) -> (id: String) {
        String::from_str(class_name)
    }

    fn class_member_id(&self, class_name: &str, member_name: &str) -> (id: String) {
        qualified_name(class_name, member_name)
    }
}

/// On a single page the links agree with the identifiers: the link to a
/// known member `c.m` leads to the fragment that is the member's identifier,
/// and the link to the class `c` to the fragment that is the class's.
pub proof fn law_single_page_consistent(resolver: &MiniSiteLinkResolver, c: Seq<char>, m: Seq<char>)
    requires
        resolver.index().member_known(c, m),
        plain_class_name(c),
        dot_free(m),
    ensures
        reference_target(resolver, dotted(c, m)) is Some,
        reference_target(resolver, dotted(c, m))->0.url == seq!['#'] + resolver.member_anchor(c, m),
        resolver.type_target(TypeView::Class(c)) is Some,
        resolver.type_target(TypeView::Class(c))->0.url == seq!['#'] + resolver.class_anchor(c),
{
    lemma_split_two(c, m);
}

/// With a page per class, only classes and their members have links: a type
/// that is no class has none, and a reference to a member of such a type
/// resolves to none.
pub proof fn law_full_site_only_classes(
    resolver: &FullSiteLinkResolver,
    t: TypeView,
    m: Seq<char>,
    s: Seq<char>,
)
    requires
        !(t is Class),
    ensures
        resolver.type_target(t) is None,
        resolver.member_target(t, m) is None,
        resolver.index().resolve(s) == Some(ReferenceView::Member(t, m)) ==> reference_target(resolver, s) is None,
        resolver.index().resolve(s) == Some(ReferenceView::Type(t)) ==> reference_target(resolver, s) is None,
{
}

/// Resolving is repeatable: two answers of one resolver to one reference
/// are the same link, or both none.
pub proof fn law_resolution_repeatable<R: LinkResolver>(
    resolver: &R,
    s: Seq<char>,
    first: Option<(String, String)>,
    second: Option<(String, String)>,
)
    requires
        link_view(first) == reference_target(resolver, s),
        link_view(second) == reference_target(resolver, s),
    ensures
        link_view(first) == link_view(second),
{
}

} // verus!
