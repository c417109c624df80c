use dumpling::templating::{tag, tag_class, HtmlContent, HtmlEscape, MaybeHtmlContent};

#[test]
fn text_is_escaped() {
    assert_eq!(HtmlEscape("a < b && c > \"d\" 'e'").to_string(), "a &lt; b &amp;&amp; c &gt; &quot;d&quot; &#x27;e&#x27;");
    assert_eq!(HtmlEscape("plain text").to_string(), "plain text");
    assert_eq!(HtmlEscape("").to_string(), "");
    assert_eq!(HtmlEscape("é<ü").to_string(), "é&lt;ü");
}

#[test]
fn empty_tag() {
    assert_eq!(tag("div").to_string(), "<div></div>");
    assert_eq!(tag("div").child_count(), 0);
    assert_eq!(tag_class("p", "note").to_string(), "<p class=\"note\"></p>");
}

#[test]
fn attributes_are_written_once_in_order() {
    let made = tag("a").attr("href", "#Part").attr("title", "Part").attr("href", "#Model");
    assert_eq!(made.to_string(), "<a href=\"#Model\" title=\"Part\"></a>");
    let made = tag_class("a", "first").class("second").attr("id", "x");
    assert_eq!(made.to_string(), "<a class=\"second\" id=\"x\"></a>");
    let made = tag("a").class("only");
    assert_eq!(made.to_string(), "<a class=\"only\"></a>");
}

#[test]
fn children_are_appended_where_present() {
    let inner = tag("b").child(MaybeHtmlContent::from(HtmlContent::text("x < y")));
    let made = tag("p")
        .child(MaybeHtmlContent::from(HtmlContent::text("see ")))
        .child(MaybeHtmlContent::Absent)
        .child(MaybeHtmlContent::from(HtmlContent::from(inner)));
    assert_eq!(made.child_count(), 2);
    assert_eq!(made.to_string(), "<p>see <b>x &lt; y</b></p>");
}

#[test]
fn many_children() {
    let made = tag("ul").children(vec![
        MaybeHtmlContent::from(Some(HtmlContent::from(tag("li")))),
        MaybeHtmlContent::from(None),
        MaybeHtmlContent::from(HtmlContent::text("a")),
        MaybeHtmlContent::Absent,
        MaybeHtmlContent::from(HtmlContent::text("b")),
    ]);
    assert_eq!(made.child_count(), 3);
    assert_eq!(made.to_string(), "<ul><li></li>ab</ul>");
    let mut made = tag("ul");
    made.add_child(MaybeHtmlContent::from(HtmlContent::text("1")));
    made.add_children(vec![
        MaybeHtmlContent::from(HtmlContent::text("2")),
        MaybeHtmlContent::from(HtmlContent::text("3")),
    ]);
    made.add_children(Vec::new());
    made.add_child(MaybeHtmlContent::Absent);
    assert_eq!(made.child_count(), 3);
    assert_eq!(made.to_string(), "<ul>123</ul>");
}

#[test]
fn content_as_html() {
    assert_eq!(HtmlContent::text("a&b").to_string(), "a&amp;b");
    assert_eq!(HtmlContent::from(tag("br")).to_string(), "<br></br>");
}
