//! A small builder of HTML: tags with attributes and children, and the
//! escaping of text.

use vstd::prelude::*;
use vstd::string::*;
use crate::index::{last_position, lemma_last_position_step};
use crate::text::str_eq;

verus! {

/// What stands for one character of text in HTML.
pub open spec fn escaped_char(c: char) -> Seq<char> {
    if c == '"' {
        "&quot;"@
    } else if c == '&' {
        "&amp;"@
    } else if c == '\'' {
        "&#x27;"@
    } else if c == '<' {
        "&lt;"@
    } else if c == '>' {
        "&gt;"@
    } else {
        seq![c]
    }
}

/// A text with each of its characters escaped.
pub open spec fn escaped(text: Seq<char>) -> Seq<char>
    decreases text.len(),
{
    if text.len() == 0 {
        Seq::empty()
    } else {
        escaped(text.drop_last()) + escaped_char(text.last())
    }
}

/// Appends one character.
///
/// Calls `String::push` of std, which appends the character to the end of
/// the string.
#[verifier::external_body]
fn push_char(text: &mut String, c: char)
    ensures
        final(text)@ == old(text)@.push(c),
{
    text.push(c)
}

/// A text that is shown escaped.
pub struct HtmlEscape<'a>(pub &'a str);

impl<'a> HtmlEscape<'a> {
    /// The text with `"`, `&`, `'`, `<` and `>` replaced by their entities.
    pub fn to_string(&self) -> (output: String)
        ensures
            output@ == escaped(self.0@),
    {
        let mut output = String::new();
        let text: &str = self.0;
        broadcast use axiom_spec_iter;
        for c in it: text.chars()
            invariant
                it.seq() == text@,
                output@ == escaped(text@.take(it.index() as int)),
        {
            assert(text@.take(it.index() + 1).drop_last() =~= text@.take(it.index() as int));
            if c == '"' {
                output.append("&quot;");
            } else if c == '&' {
                output.append("&amp;");
            } else if c == '\'' {
                output.append("&#x27;");
            } else if c == '<' {
                output.append("&lt;");
            } else if c == '>' {
                output.append("&gt;");
            } else {
                push_char(&mut output, c);
                assert(output@ =~= escaped(text@.take(it.index() as int)) + seq![c]);
            }
        }
        assert(text@.take(text@.len() as int) =~= text@);
        output
    }
}

/// A piece of content: text, which is shown escaped, or a tag.
pub enum HtmlContent {
    Text(String),
    Tag(HtmlTag),
}

/// Content that may be absent.
pub enum MaybeHtmlContent {
    Present(HtmlContent),
    Absent,
}

/// A tag with its attributes and its children. An attribute is held once,
/// at the place where its key was first set.
pub struct HtmlTag {
    name: String,
    content: Vec<HtmlContent>,
    attributes: Vec<(String, String)>,
}

/// The keys of a list of attributes, in order.
pub open spec fn attribute_keys(attributes: Seq<(Seq<char>, Seq<char>)>) -> Seq<Seq<char>> {
    attributes.map_values(|a: (Seq<char>, Seq<char>)| a.0)
}

/// A list of attributes after `key` is set to `value`: where the key is
/// there already, its last entry gets the value; otherwise a new entry
/// follows the others.
pub open spec fn with_attribute(
    attributes: Seq<(Seq<char>, Seq<char>)>,
    key: Seq<char>,
    value: Seq<char>,
) -> Seq<(Seq<char>, Seq<char>)> {
    let at = last_position(attribute_keys(attributes), key);
    if at >= 0 {
        attributes.update(at, (key, value))
    } else {
        attributes.push((key, value))
    }
}

/// The contents that are there, in order.
pub open spec fn present(children: Seq<MaybeHtmlContent>) -> Seq<HtmlContent>
    decreases children.len(),
{
    if children.len() == 0 {
        Seq::empty()
    } else {
        match children.last() {
            MaybeHtmlContent::Present(content) => present(children.drop_last()).push(content),
            MaybeHtmlContent::Absent => present(children.drop_last()),
        }
    }
}

/// The attributes as they are written in a tag: each as ` key="value"`.
pub open spec fn rendered_attributes(attributes: Seq<(Seq<char>, Seq<char>)>) -> Seq<char>
    decreases attributes.len(),
{
    if attributes.len() == 0 {
        Seq::empty()
    } else {
        rendered_attributes(attributes.drop_last()) + seq![' '] + attributes.last().0 + seq![
            '=',
            '"',
        ] + attributes.last().1 + seq!['"']
    }
}

/// A tag as HTML: the opening tag with the attributes, the children, and
/// the closing tag.
pub open spec fn rendered_tag(tag: HtmlTag) -> Seq<char>
    decreases tag, tag.children_view().len() + 1,
{
    seq!['<'] + tag.name_view() + rendered_attributes(tag.attributes_view()) + seq!['>']
        + rendered_children(tag, tag.children_view().len()) + seq!['<', '/'] + tag.name_view()
        + seq!['>']
}

/// The first `n` children of a tag as HTML.
pub open spec fn rendered_children(tag: HtmlTag, n: nat) -> Seq<char>
    decreases tag, n,
{
    if n == 0 || n > tag.children_view().len() {
        Seq::empty()
    } else {
        rendered_children(tag, (n - 1) as nat) + rendered_content(tag.children_view()[n - 1])
    }
}

/// A piece of content as HTML: text escaped, a tag as `rendered_tag` says.
pub open spec fn rendered_content(content: HtmlContent) -> Seq<char>
    decreases content, 0nat,
{
    match content {
        HtmlContent::Text(text) => escaped(text@),
        HtmlContent::Tag(tag) => rendered_tag(tag),
    }
}

/// A tag of this name, without attributes or children.
pub fn tag(name: &str) -> (made: HtmlTag)
    ensures
        made.name_view() == name@,
        made.attributes_view() == Seq::<(Seq<char>, Seq<char>)>::empty(),
        made.children_view() == Seq::<HtmlContent>::empty(),
{
    let made = HtmlTag { name: String::from_str(name), content: Vec::new(), attributes: Vec::new() };
    assert(made.attributes_view() =~= Seq::<(Seq<char>, Seq<char>)>::empty());
    made
}

/// A tag of this name with the attribute `class`, without children.
pub fn tag_class(name: &str, class: &str) -> (made: HtmlTag)
    ensures
        made.name_view() == name@,
        made.attributes_view() == seq![("class"@, class@)],
        made.children_view() == Seq::<HtmlContent>::empty(),
{
    let mut attributes: Vec<(String, String)> = Vec::new();
    attributes.push((String::from_str("class"), String::from_str(class)));
    let made = HtmlTag { name: String::from_str(name), content: Vec::new(), attributes };
    assert(made.attributes_view() =~= seq![("class"@, class@)]);
    made
}

impl HtmlTag {
    /// The tag's name.
    pub closed spec fn name_view(&self) -> Seq<char> {
        self.name@
    }

    /// The tag's attributes, as pairs of key and value.
    pub closed spec fn attributes_view(&self) -> Seq<(Seq<char>, Seq<char>)> {
        self.attributes@.map_values(|a: (String, String)| (a.0@, a.1@))
    }

    /// The tag's children.
    pub closed spec fn children_view(&self) -> Seq<HtmlContent> {
        self.content@
    }

    /// Sets an attribute in place.
    fn set_attribute(&mut self, key: &str, value: &str)
        ensures
            final(self).name_view() == old(self).name_view(),
            final(self).children_view() == old(self).children_view(),
            final(self).attributes_view() == with_attribute(
                old(self).attributes_view(),
                key@,
                value@,
            ),
    {
        let ghost keys = attribute_keys(self.attributes_view());
        let mut found: Option<usize> = None;
        let mut i: usize = 0;
        while i < self.attributes.len()
            invariant
                i <= self.attributes@.len(),
                *self == *old(self),
                keys == attribute_keys(self.attributes_view()),
                keys.len() == self.attributes@.len(),
                match found {
                    Some(at) => at < i && last_position(keys.take(i as int), key@) == at,
                    None => last_position(keys.take(i as int), key@) == -1,
                },
            decreases self.attributes@.len() - i,
        {
            proof {
                lemma_last_position_step(keys, i as int, key@);
            }
            if str_eq(self.attributes[i].0.as_str(), key) {
                found = Some(i);
            }
            i = i + 1;
        }
        assert(keys.take(i as int) =~= keys);
        match found {
            Some(at) => {
                self.attributes[at] = (String::from_str(key), String::from_str(value));
                assert(self.attributes_view() =~= old(self).attributes_view().update(
                    at as int,
                    (key@, value@),
                ));
            },
            None => {
                self.attributes.push((String::from_str(key), String::from_str(value)));
                assert(self.attributes_view() =~= old(self).attributes_view().push(
                    (key@, value@),
                ));
            },
        }
    }

    /// The tag with the attribute `key` set to `value`.
    pub fn attr(self, key: &str, value: &str) -> (made: HtmlTag)
        ensures
            made.name_view() == self.name_view(),
            made.children_view() == self.children_view(),
            made.attributes_view() == with_attribute(self.attributes_view(), key@, value@),
    {
        let mut made = self;
        made.set_attribute(key, value);
        made
    }

    /// The tag with the attribute `class` set.
    pub fn class(self, class: &str) -> (made: HtmlTag)
        ensures
            made.name_view() == self.name_view(),
            made.children_view() == self.children_view(),
            made.attributes_view() == with_attribute(self.attributes_view(), "class"@, class@),
    {
        let mut made = self;
        made.set_attribute("class", class);
        made
    }

    /// Appends a child, unless it is absent.
    pub fn add_child(&mut self, child: MaybeHtmlContent)
        ensures
            final(self).name_view() == old(self).name_view(),
            final(self).attributes_view() == old(self).attributes_view(),
            final(self).children_view() == old(self).children_view() + present(seq![child]),
    {
        proof {
            let none = Seq::<MaybeHtmlContent>::empty();
            assert(seq![child].drop_last() =~= none);
            assert(seq![child].last() == child);
            assert(present(none) =~= Seq::<HtmlContent>::empty());
            assert(present(seq![child]) =~= match child {
                MaybeHtmlContent::Present(content) => seq![content],
                MaybeHtmlContent::Absent => Seq::<HtmlContent>::empty(),
            });
        }
        match child {
            MaybeHtmlContent::Present(content) => {
                self.content.push(content);
                assert(self.children_view() =~= old(self).children_view() + present(seq![child]));
            },
            MaybeHtmlContent::Absent => {
                assert(self.children_view() =~= old(self).children_view() + present(seq![child]));
            },
        }
    }

    /// Appends the children that are there, in order.
    pub fn add_children(&mut self, children: Vec<MaybeHtmlContent>)
        ensures
            final(self).name_view() == old(self).name_view(),
            final(self).attributes_view() == old(self).attributes_view(),
            final(self).children_view() == old(self).children_view() + present(children@),
    {
        let ghost all = children@;
        let mut rest = children;
        let mut taken: Vec<HtmlContent> = Vec::new();
        while rest.len() > 0
            invariant
                rest@.len() <= all.len(),
                present(all) == present(rest@) + taken@.reverse(),
            decreases rest@.len(),
        {
            let ghost before = rest@;
            let ghost taken_before = taken@;
            let child = rest.pop().unwrap();
            assert(rest@ =~= before.drop_last());
            match child {
                MaybeHtmlContent::Present(content) => {
                    taken.push(content);
                    assert(taken@.reverse() =~= seq![content] + taken_before.reverse());
                    assert(present(before) =~= present(rest@) + seq![content]);
                    assert(present(all) =~= present(rest@) + taken@.reverse());
                },
                MaybeHtmlContent::Absent => {},
            }
        }
        assert(present(all) =~= taken@.reverse());
        while taken.len() > 0
            invariant
                self.name_view() == old(self).name_view(),
                self.attributes_view() == old(self).attributes_view(),
                self.children_view() + taken@.reverse() == old(self).children_view() + present(all),
            decreases taken@.len(),
        {
            let ghost before = taken@;
            let ghost held = self.children_view();
            let content = taken.pop().unwrap();
            self.content.push(content);
            assert(before.reverse() =~= seq![content] + taken@.reverse());
            assert(self.children_view() + taken@.reverse() =~= held + before.reverse());
        }
        assert(self.children_view() + taken@.reverse() =~= self.children_view());
    }

    /// The tag with a child appended, unless it is absent.
    pub fn child(self, child: MaybeHtmlContent) -> (made: HtmlTag)
        ensures
            made.name_view() == self.name_view(),
            made.attributes_view() == self.attributes_view(),
            made.children_view() == self.children_view() + present(seq![child]),
    {
        let mut made = self;
        made.add_child(child);
        made
    }

    /// The tag with the children that are there appended, in order.
    pub fn children(self, children: Vec<MaybeHtmlContent>) -> (made: HtmlTag)
        ensures
            made.name_view() == self.name_view(),
            made.attributes_view() == self.attributes_view(),
            made.children_view() == self.children_view() + present(children@),
    {
        let mut made = self;
        made.add_children(children);
        made
    }

    pub fn child_count(&self) -> (count: usize)
        ensures
            count == self.children_view().len(),
    {
        self.content.len()
    }
}

/// The literals of which markup is made, character by character.
proof fn lemma_markup_literals()
    ensures
        "<"@ == seq!['<'],
        ">"@ == seq!['>'],
        "</"@ == seq!['<', '/'],
        " "@ == seq![' '],
        "=\""@ == seq!['=', '"'],
        "\""@ == seq!['"'],
{
    reveal_strlit("<");
    reveal_strlit(">");
    reveal_strlit("</");
    reveal_strlit(" ");
    reveal_strlit("=\"");
    reveal_strlit("\"");
    assert("<"@ =~= seq!['<']);
    assert(">"@ =~= seq!['>']);
    assert("</"@ =~= seq!['<', '/']);
    assert(" "@ =~= seq![' ']);
    assert("=\""@ =~= seq!['=', '"']);
    assert("\""@ =~= seq!['"']);
}

impl HtmlContent {
    /// Text content.
    pub fn text(value: &str) -> (content: HtmlContent)
        ensures
            content is Text,
            content->Text_0@ == value@,
    {
        HtmlContent::Text(String::from_str(value))
    }

    /// The content as HTML.
    pub fn to_string(&self) -> (output: String)
        ensures
            output@ == rendered_content(*self),
    {
        match self {
            HtmlContent::Text(text) => HtmlEscape(text.as_str()).to_string(),
            HtmlContent::Tag(tag) => tag.to_string(),
        }
    }
}

impl HtmlTag {
    /// Appends the attributes as they are written in a tag.
    fn render_attributes_into(&self, output: &mut String)
        ensures
            final(output)@ == old(output)@ + rendered_attributes(self.attributes_view()),
    {
        let ghost all = self.attributes_view();
        let mut i: usize = 0;
        while i < self.attributes.len()
            invariant
                i <= self.attributes@.len(),
                all == self.attributes_view(),
                all.len() == self.attributes@.len(),
                output@ == old(output)@ + rendered_attributes(all.take(i as int)),
            decreases self.attributes@.len() - i,
        {
            proof {
                lemma_markup_literals();
                assert(all.take(i + 1).drop_last() =~= all.take(i as int));
                assert(all.take(i + 1).last() == all[i as int]);
            }
            let ghost before = output@;
            output.append(" ");
            output.append(self.attributes[i].0.as_str());
            output.append("=\"");
            output.append(self.attributes[i].1.as_str());
            output.append("\"");
            assert(output@ =~= before + (seq![' '] + all[i as int].0 + seq!['=', '"']
                + all[i as int].1 + seq!['"']));
            assert(output@ =~= old(output)@ + rendered_attributes(all.take(i + 1)));
            i = i + 1;
        }
        assert(all.take(i as int) =~= all);
    }

    /// Appends the tag as HTML.
    fn render_into(&self, output: &mut String)
        ensures
            final(output)@ == old(output)@ + rendered_tag(*self),
        decreases self,
    {
        proof {
            lemma_markup_literals();
        }
        output.append("<");
        output.append(self.name.as_str());
        self.render_attributes_into(output);
        output.append(">");
        let ghost opened = output@;
        assert(opened =~= old(output)@ + (seq!['<'] + self.name_view() + rendered_attributes(
            self.attributes_view(),
        ) + seq!['>']));
        let mut i: usize = 0;
        while i < self.content.len()
            invariant
                i <= self.content@.len(),
                output@ == opened + rendered_children(*self, i as nat),
            decreases self.content@.len() - i,
        {
            let ghost before = output@;
            match &self.content[i] {
                HtmlContent::Text(text) => {
                    let shown = HtmlEscape(text.as_str()).to_string();
                    output.append(shown.as_str());
                },
                HtmlContent::Tag(inner) => {
                    inner.render_into(output);
                },
            }
            assert(output@ == before + rendered_content(self.children_view()[i as int]));
            assert(output@ =~= opened + rendered_children(*self, (i + 1) as nat));
            i = i + 1;
        }
        let ghost filled = output@;
        output.append("</");
        output.append(self.name.as_str());
        output.append(">");
        assert(output@ =~= filled + (seq!['<', '/'] + self.name_view() + seq!['>']));
        assert(output@ =~= old(output)@ + rendered_tag(*self));
    }

    /// The tag as HTML.
    pub fn to_string(&self) -> (output: String)
        ensures
            output@ == rendered_tag(*self),
    {
        let mut output = String::new();
        self.render_into(&mut output);
        assert(output@ =~= rendered_tag(*self));
        output
    }
}

impl From<HtmlTag> for HtmlContent {
    fn from(value: HtmlTag) -> (content: HtmlContent) {
        HtmlContent::Tag(value)
    }
}

impl vstd::std_specs::convert::FromSpecImpl<HtmlTag> for HtmlContent {
    open spec fn obeys_from_spec() -> bool {
        true
    }

    open spec fn from_spec(value: HtmlTag) -> HtmlContent {
        HtmlContent::Tag(value)
    }
}

impl From<HtmlContent> for MaybeHtmlContent {
    fn from(value: HtmlContent) -> (content: MaybeHtmlContent) {
        MaybeHtmlContent::Present(value)
    }
}

impl vstd::std_specs::convert::FromSpecImpl<HtmlContent> for MaybeHtmlContent {
    open spec fn obeys_from_spec() -> bool {
        true
    }

    open spec fn from_spec(value: HtmlContent) -> MaybeHtmlContent {
        MaybeHtmlContent::Present(value)
    }
}

impl From<Option<HtmlContent>> for MaybeHtmlContent {
    fn from(value: Option<HtmlContent>) -> (content: MaybeHtmlContent) {
        match value {
            Some(content) => MaybeHtmlContent::Present(content),
            None => MaybeHtmlContent::Absent,
        }
    }
}

impl vstd::std_specs::convert::FromSpecImpl<Option<HtmlContent>> for MaybeHtmlContent {
    open spec fn obeys_from_spec() -> bool {
        true
    }

    open spec fn from_spec(value: Option<HtmlContent>) -> MaybeHtmlContent {
        match value {
            Some(content) => MaybeHtmlContent::Present(content),
            None => MaybeHtmlContent::Absent,
        }
    }
}

} // verus!
