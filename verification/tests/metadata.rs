use dumpling::metadata_reader::{MetadataReader, XmlEvent};
use dumpling::reflection_metadata::{XmlElement, XmlQuery};
use dumpling::supplement::{parse_item_descriptions, ItemFrame};

fn element(name: &str, attributes: &[(&str, &str)]) -> XmlElement {
    let mut made = XmlElement::new(name.to_string());
    for (key, value) in attributes {
        made.set_attribute(key.to_string(), value.to_string());
    }
    made
}

#[test]
fn query_matches_path_of_elements() {
    let query = XmlQuery::new(&[("roblox", &[]), ("Item", &[("class", "A"), ("kind", "B")])]);
    assert!(query.matches(&[
        element("roblox", &[("version", "4")]),
        element("Item", &[("kind", "B"), ("class", "A"), ("more", "x")]),
    ]));
    assert!(!query.matches(&[element("roblox", &[]), element("Item", &[("class", "A")])]));
    assert!(!query.matches(&[
        element("roblox", &[]),
        element("Item", &[("class", "A"), ("kind", "C")]),
    ]));
    assert!(!query.matches(&[
        element("Roblox", &[]),
        element("Item", &[("class", "A"), ("kind", "B")]),
    ]));
    assert!(!query.matches(&[element("roblox", &[])]));
    assert!(!query.matches(&[
        element("roblox", &[]),
        element("Item", &[("class", "A"), ("kind", "B")]),
        element("Item", &[]),
    ]));
    assert!(!query.matches(&[]));
    assert!(XmlQuery::new(&[]).matches(&[]));
}

#[test]
fn later_attribute_value_counts() {
    let query = XmlQuery::new(&[("Item", &[("class", "A")])]);
    assert!(query.matches(&[element("Item", &[("class", "B"), ("class", "A")])]));
    assert!(!query.matches(&[element("Item", &[("class", "A"), ("class", "B")])]));
}

#[test]
fn fixed_queries() {
    let class = [
        element("roblox", &[]),
        element("Item", &[("class", "ReflectionMetadataClasses")]),
        element("Item", &[("class", "ReflectionMetadataClass")]),
    ];
    assert!(XmlQuery::class_query().matches(&class));
    assert!(!XmlQuery::member_query().matches(&class));
    let member = [
        element("Item", &[("class", "ReflectionMetadataProperties")]),
        element("Item", &[("class", "ReflectionMetadataMember")]),
    ];
    assert!(XmlQuery::member_query().matches(&member));
    let name = [element("Properties", &[]), element("string", &[("name", "Name")])];
    let summary = [element("Properties", &[]), element("string", &[("name", "summary")])];
    assert!(XmlQuery::name_query().matches(&name));
    assert!(!XmlQuery::name_query().matches(&summary));
    assert!(XmlQuery::summary_query().matches(&summary));
    assert!(!XmlQuery::summary_query().matches(&name));
}

fn start(name: &str, attributes: &[(&str, &str)]) -> XmlEvent {
    XmlEvent::Start(element(name, attributes))
}

fn text_property(reader: &mut MetadataReader, name: &str, value: &str) {
    reader.on_event(start("string", &[("name", name)]));
    if reader.wants_text() {
        reader.on_event(XmlEvent::Text(value.to_string()));
    } else {
        reader.on_event(XmlEvent::Other);
    }
    reader.on_event(XmlEvent::End);
}

fn properties(reader: &mut MetadataReader, name: &str, summary: &str) {
    reader.on_event(start("Properties", &[]));
    text_property(reader, "Name", name);
    text_property(reader, "Browsable", "true");
    text_property(reader, "summary", summary);
    reader.on_event(XmlEvent::End);
}

fn member(reader: &mut MetadataReader, name: &str, summary: &str) {
    reader.on_event(start("Item", &[("class", "ReflectionMetadataMember")]));
    properties(reader, name, summary);
    reader.on_event(XmlEvent::End);
}

#[test]
fn reader_gathers_classes_and_members() {
    let mut reader = MetadataReader::new();
    assert!(!reader.is_finished());
    assert!(!reader.wants_text());
    reader.on_event(start("roblox", &[("version", "4")]));
    reader.on_event(start("Item", &[("class", "ReflectionMetadataClasses")]));
    reader.on_event(start("Item", &[("class", "ReflectionMetadataClass")]));
    properties(&mut reader, "Part", "A brick.");
    reader.on_event(start("Item", &[("class", "ReflectionMetadataProperties")]));
    member(&mut reader, "Size", "How large.");
    member(&mut reader, "Color", "");
    reader.on_event(XmlEvent::End);
    reader.on_event(start("Item", &[("class", "ReflectionMetadataFunctions")]));
    member(&mut reader, "GetMass", "The mass.");
    reader.on_event(XmlEvent::End);
    reader.on_event(XmlEvent::End);
    reader.on_event(start("Item", &[("class", "ReflectionMetadataClass")]));
    properties(&mut reader, "Model", "A group.");
    reader.on_event(XmlEvent::End);
    reader.on_event(XmlEvent::End);
    reader.on_event(start("Item", &[("class", "ReflectionMetadataEnums")]));
    reader.on_event(start("Item", &[("class", "ReflectionMetadataEnum")]));
    properties(&mut reader, "Material", "Not a class.");
    reader.on_event(XmlEvent::End);
    reader.on_event(XmlEvent::End);
    reader.on_event(XmlEvent::End);
    assert!(!reader.is_finished());
    reader.on_event(XmlEvent::Eof);
    assert!(reader.is_finished());
    reader.on_event(start("roblox", &[]));
    let metadata = reader.finish();
    assert_eq!(metadata.classes.len(), 2);
    let part = metadata.classes.get("Part").unwrap();
    assert_eq!(part.name, "Part");
    assert_eq!(part.summary, "A brick.");
    assert_eq!(part.members.len(), 3);
    assert_eq!(part.members.get("Size").unwrap().summary, "How large.");
    assert_eq!(part.members.get("Size").unwrap().name, "Size");
    assert_eq!(part.members.get("Color").unwrap().summary, "");
    assert_eq!(part.members.get("GetMass").unwrap().summary, "The mass.");
    let model = metadata.classes.get("Model").unwrap();
    assert_eq!(model.summary, "A group.");
    assert_eq!(model.members.len(), 0);
    assert!(metadata.classes.get("Material").is_none());
}

#[test]
fn reader_closes_what_is_open_at_the_end() {
    let mut reader = MetadataReader::new();
    reader.on_event(start("roblox", &[]));
    reader.on_event(start("Item", &[]));
    reader.on_event(start("Item", &[("class", "ReflectionMetadataClass")]));
    properties(&mut reader, "Part", "A brick.");
    reader.on_event(start("Item", &[]));
    reader.on_event(start("Item", &[("class", "ReflectionMetadataMember")]));
    properties(&mut reader, "Size", "How large.");
    reader.on_event(XmlEvent::Eof);
    let metadata = reader.finish();
    let part = metadata.classes.get("Part").unwrap();
    assert_eq!(part.summary, "A brick.");
    assert_eq!(part.members.get("Size").unwrap().summary, "How large.");
}

#[test]
fn reader_on_an_empty_file() {
    let mut reader = MetadataReader::new();
    reader.on_event(XmlEvent::End);
    reader.on_event(XmlEvent::Text("stray".to_string()));
    reader.on_event(XmlEvent::Other);
    reader.on_event(XmlEvent::Eof);
    assert!(reader.is_finished());
    assert_eq!(reader.finish().classes.len(), 0);
}

fn frame(a: usize, b: usize, c: usize, d: usize) -> ItemFrame {
    ItemFrame { metadata_start: a, metadata_end: b, prose_start: c, prose_end: d }
}

#[test]
fn descriptions_are_framed() {
    let source = "+++\ntarget = \"A\"\n+++\n\nProse A.\n\n+++\ntarget = \"B\"\n+++\nProse B.";
    let framed = parse_item_descriptions(source.as_bytes());
    assert!(!framed.unclosed);
    assert_eq!(framed.items, vec![frame(3, 17, 20, 32), frame(35, 49, 52, 61)]);
    let first = framed.items[0];
    assert_eq!(&source[first.metadata_start..first.metadata_end], "\ntarget = \"A\"\n");
    assert_eq!(&source[first.prose_start..first.prose_end], "\n\nProse A.\n\n");
    let second = framed.items[1];
    assert_eq!(&source[second.prose_start..second.prose_end], "\nProse B.");
}

#[test]
fn unclosed_block_is_reported() {
    let framed = parse_item_descriptions("+++a+++b+++c".as_bytes());
    assert!(framed.unclosed);
    assert_eq!(framed.items, vec![frame(3, 4, 7, 8)]);
    let framed = parse_item_descriptions("+++".as_bytes());
    assert!(framed.unclosed);
    assert_eq!(framed.items, Vec::new());
}

#[test]
fn fences_do_not_overlap() {
    let framed = parse_item_descriptions("".as_bytes());
    assert!(!framed.unclosed);
    assert_eq!(framed.items, Vec::new());
    let framed = parse_item_descriptions("no fence + here ++".as_bytes());
    assert!(!framed.unclosed);
    assert_eq!(framed.items, Vec::new());
    let framed = parse_item_descriptions("++++++".as_bytes());
    assert!(!framed.unclosed);
    assert_eq!(framed.items, vec![frame(3, 3, 6, 6)]);
    let framed = parse_item_descriptions("+++++".as_bytes());
    assert!(framed.unclosed);
    assert_eq!(framed.items, Vec::new());
    let framed = parse_item_descriptions("é+++ü+++".as_bytes());
    assert_eq!(framed.items, vec![frame(5, 7, 10, 10)]);
}
