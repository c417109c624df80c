use dumpling::dump::{
    ContentSource, Dump, DumpClass, DumpClassEvent, DumpClassFunction, DumpClassMember,
    DumpClassProperty, DumpReturnType, DumpType,
};
use dumpling::index::{DumpIndex, DumpReference};
use dumpling::links::{FullSiteLinkResolver, LinkResolver, MiniSiteLinkResolver};
use dumpling::markup::{render_markdown, resolve_markup_link};
use dumpling::text::split_reference;

fn property(name: &str) -> DumpClassMember {
    DumpClassMember::Property(DumpClassProperty {
        name: name.to_string(),
        tags: Vec::new(),
        value_type: DumpType::Primitive("int".to_string()),
        security: Vec::new(),
        category: "Data".to_string(),
        description: None,
        description_source: None,
    })
}

fn function(name: &str) -> DumpClassMember {
    DumpClassMember::Function(DumpClassFunction {
        name: name.to_string(),
        tags: Vec::new(),
        parameters: Vec::new(),
        return_type: DumpReturnType::Single(DumpType::Primitive("void".to_string())),
        security: "None".to_string(),
        description: None,
        description_source: None,
    })
}

fn event(name: &str) -> DumpClassMember {
    DumpClassMember::Event(DumpClassEvent {
        name: name.to_string(),
        tags: Vec::new(),
        parameters: Vec::new(),
        security: "None".to_string(),
        description: None,
        description_source: None,
    })
}

fn class(name: &str, members: Vec<DumpClassMember>) -> DumpClass {
    DumpClass {
        name: name.to_string(),
        members,
        tags: Vec::new(),
        superclass: None,
        description: None,
        description_source: None,
    }
}

fn part_dump() -> Dump {
    Dump { classes: vec![class("Part", vec![property("Size")])], enums: Vec::new(), version: 1 }
}

fn part_index() -> DumpIndex {
    DumpIndex::new_from_dump(&part_dump())
}

fn link(url: &str, title: &str) -> Option<(String, String)> {
    Some((url.to_string(), title.to_string()))
}

fn shown(found: Option<DumpReference>) -> String {
    match found {
        Some(DumpReference::Type(t)) => format!("type {:?}", t),
        Some(DumpReference::Member(t, m)) => format!("member {:?} {}", t, m),
        None => "none".to_string(),
    }
}

#[test]
fn single_page_member_of_known_class() {
    let resolver = MiniSiteLinkResolver::new(part_index());
    assert_eq!(resolver.resolve_reference("Part.Size"), link("#Part.Size", "Part.Size"));
}

#[test]
fn single_page_unknown_member_fails() {
    let resolver = MiniSiteLinkResolver::new(part_index());
    assert_eq!(resolver.resolve_reference("Part.Missing"), None);
}

#[test]
fn single_page_primitive() {
    let resolver = MiniSiteLinkResolver::new(part_index());
    assert_eq!(resolver.resolve_reference("int"), link("#int", "int"));
}

#[test]
fn single_page_enum_member_is_not_validated() {
    let resolver = MiniSiteLinkResolver::new(part_index());
    assert_eq!(
        resolver.resolve_reference("Enum.Material.Plastic"),
        link("#Enum.Material.Plastic", "Enum.Material.Plastic")
    );
}

#[test]
fn full_site_type_links() {
    let resolver = FullSiteLinkResolver::new(part_index());
    assert_eq!(resolver.type_link(&DumpType::Primitive("int".to_string())), None);
    assert_eq!(resolver.type_link(&DumpType::Class("Part".to_string())), link("Part", "Part"));
}

#[test]
fn full_site_member_of_known_class() {
    let resolver = FullSiteLinkResolver::new(part_index());
    assert_eq!(resolver.resolve_reference("Part.Size"), link("Part#Size", "Part.Size"));
    assert_eq!(resolver.resolve_reference("Part"), link("Part", "Part"));
    assert_eq!(resolver.resolve_reference("Part.Missing"), None);
}

#[test]
fn full_site_declines_everything_but_classes() {
    let resolver = FullSiteLinkResolver::new(part_index());
    assert_eq!(resolver.resolve_reference("int"), None);
    assert_eq!(resolver.resolve_reference("Enum.Material"), None);
    assert_eq!(resolver.resolve_reference("Enum.Material.Plastic"), None);
    assert_eq!(resolver.resolve_reference("Vector3"), None);
    assert_eq!(resolver.resolve_reference("Vector3.X"), None);
    assert_eq!(resolver.type_link(&DumpType::Enum("Material".to_string())), None);
    assert_eq!(resolver.type_link(&DumpType::DataType("Vector3".to_string())), None);
    assert_eq!(resolver.type_link(&DumpType::Group("Tuple".to_string())), None);
}

#[test]
fn primitives_resolve_whatever_follows() {
    let index = part_index();
    for p in ["bool", "double", "float", "int", "int64", "string", "void"] {
        assert_eq!(shown(index.resolve_reference(p)), format!("type Primitive({:?})", p));
        let longer = format!("{}.anything.more", p);
        assert_eq!(shown(index.resolve_reference(&longer)), format!("type Primitive({:?})", p));
        assert!(index.primitive_exists(p));
    }
    assert!(!index.primitive_exists("Int"));
    assert!(!index.primitive_exists(""));
}

#[test]
fn enum_references() {
    let index = part_index();
    assert_eq!(shown(index.resolve_reference("Enum.Material")), "type Enum(\"Material\")");
    assert_eq!(
        shown(index.resolve_reference("Enum.Material.Plastic")),
        "member Enum(\"Material\") Plastic"
    );
    assert_eq!(
        shown(index.resolve_reference("Enum.Material.Plastic.Extra")),
        "member Enum(\"Material\") Plastic"
    );
    assert_eq!(shown(index.resolve_reference("Enum")), "none");
    assert_eq!(shown(index.resolve_reference("Enum.")), "type Enum(\"\")");
}

#[test]
fn class_references() {
    let index = part_index();
    assert_eq!(shown(index.resolve_reference("Part")), "type Class(\"Part\")");
    assert_eq!(shown(index.resolve_reference("Part.Size")), "member Class(\"Part\") Size");
    assert_eq!(shown(index.resolve_reference("Part.Size.More")), "member Class(\"Part\") Size");
    assert_eq!(shown(index.resolve_reference("Part.size")), "none");
    assert_eq!(shown(index.resolve_reference("Part.")), "none");
}

#[test]
fn unknown_heads_are_data_types() {
    let index = part_index();
    assert_eq!(shown(index.resolve_reference("Vector3")), "type DataType(\"Vector3\")");
    assert_eq!(shown(index.resolve_reference("Vector3.X")), "member DataType(\"Vector3\") X");
    assert_eq!(shown(index.resolve_reference("part")), "type DataType(\"part\")");
    assert_eq!(shown(index.resolve_reference("")), "type DataType(\"\")");
    assert_eq!(shown(index.resolve_reference(".x")), "member DataType(\"\") x");
}

#[test]
fn index_lookups() {
    let index = part_index();
    assert!(index.class_exists("Part"));
    assert!(!index.class_exists("Model"));
    assert!(index.member_exists("Part", "Size"));
    assert!(!index.member_exists("Part", "Name"));
    assert!(!index.member_exists("Model", "Size"));
}

#[test]
fn later_class_of_a_name_is_recorded() {
    let dump = Dump {
        classes: vec![
            class("Part", vec![property("Size")]),
            class("Model", vec![function("Move"), event("Moved")]),
            class("Part", vec![property("Color")]),
        ],
        enums: Vec::new(),
        version: 1,
    };
    let index = DumpIndex::new_from_dump(&dump);
    assert_eq!(index.class_position("Part"), Some(2));
    assert_eq!(index.class_position("Model"), Some(1));
    assert_eq!(index.class_position("Other"), None);
    assert_eq!(index.member_position("Model", "Moved"), Some(1));
    assert_eq!(index.member_position("Part", "Color"), Some(0));
    assert_eq!(index.member_position("Part", "Size"), None);
    assert_eq!(index.member_position("Other", "Size"), None);
    assert!(index.member_exists("Part", "Color"));
    assert!(!index.member_exists("Part", "Size"));
    assert!(index.member_exists("Model", "Move"));
    assert!(index.member_exists("Model", "Moved"));
}

#[test]
fn later_member_of_a_name_is_recorded() {
    let dump = Dump {
        classes: vec![class("Part", vec![property("Size"), event("Touched"), function("Size")])],
        enums: Vec::new(),
        version: 1,
    };
    let index = DumpIndex::new_from_dump(&dump);
    assert_eq!(index.member_position("Part", "Size"), Some(2));
    assert_eq!(index.member_position("Part", "Touched"), Some(1));
}

#[test]
fn index_of_no_classes() {
    let dump = Dump { classes: Vec::new(), enums: Vec::new(), version: 1 };
    let index = DumpIndex::new_from_dump(&dump);
    assert!(!index.class_exists("Part"));
    assert!(index.primitive_exists("int"));
    assert_eq!(shown(index.resolve_reference("Part.Size")), "member DataType(\"Part\") Size");
}

#[test]
fn single_page_links_agree_with_identifiers() {
    let resolver = MiniSiteLinkResolver::new(part_index());
    let (member_url, _) = resolver.resolve_reference("Part.Size").unwrap();
    assert_eq!(member_url, format!("#{}", resolver.class_member_id("Part", "Size")));
    let (type_url, _) = resolver.type_link(&DumpType::Class("Part".to_string())).unwrap();
    assert_eq!(type_url, format!("#{}", resolver.class_id("Part")));
    assert_eq!(resolver.class_id("Part"), "Part");
    assert_eq!(resolver.class_member_id("Part", "Size"), "Part.Size");
}

#[test]
fn full_site_identifiers() {
    let resolver = FullSiteLinkResolver::new(part_index());
    assert_eq!(resolver.class_id("Part"), "Part");
    assert_eq!(resolver.class_member_id("Part", "Size"), "Size");
}

#[test]
fn resolving_twice_gives_the_same_link() {
    let mini = MiniSiteLinkResolver::new(part_index());
    let full = FullSiteLinkResolver::new(part_index());
    for s in ["Part.Size", "Part.Missing", "int", "Enum.Material.Plastic", "Vector3", ""] {
        assert_eq!(mini.resolve_reference(s), mini.resolve_reference(s));
        assert_eq!(full.resolve_reference(s), full.resolve_reference(s));
    }
}

#[test]
fn single_page_type_links_for_every_kind() {
    let resolver = MiniSiteLinkResolver::new(part_index());
    assert_eq!(resolver.type_link(&DumpType::Group("Tuple".to_string())), link("#Tuple", "Tuple"));
    assert_eq!(
        resolver.type_link(&DumpType::DataType("Vector3".to_string())),
        link("#Vector3", "Vector3")
    );
    assert_eq!(resolver.resolve_reference("Vector3.X"), link("#Vector3.X", "Vector3.X"));
    assert_eq!(resolver.resolve_reference("Enum.Material"), link("#Material", "Material"));
}

#[test]
fn segments_of_a_path() {
    let parts = split_reference("a.bc.d.e");
    assert_eq!(parts.head, "a");
    assert_eq!(parts.second, Some("bc"));
    assert_eq!(parts.third, Some("d"));
    let parts = split_reference("a.");
    assert_eq!(parts.head, "a");
    assert_eq!(parts.second, Some(""));
    assert_eq!(parts.third, None);
    let parts = split_reference("né.ü");
    assert_eq!(parts.head, "né");
    assert_eq!(parts.second, Some("ü"));
    let parts = split_reference("");
    assert_eq!(parts.head, "");
    assert_eq!(parts.second, None);
}

#[test]
fn markup_link_text_is_trimmed() {
    let resolver = MiniSiteLinkResolver::new(part_index());
    assert_eq!(resolve_markup_link(&resolver, "  Part.Size \n"), link("#Part.Size", "Part.Size"));
    assert_eq!(resolve_markup_link(&resolver, " Part.Missing "), None);
}

#[test]
fn prose_links_are_resolved() {
    let resolver = MiniSiteLinkResolver::new(part_index());
    let html = render_markdown("See [Part.Size] and [Part.Missing].", &resolver);
    assert_eq!(
        html,
        "<p>See <a href=\"#Part.Size\" title=\"Part.Size\">Part.Size</a> and [Part.Missing].</p>\n"
    );
    let full = FullSiteLinkResolver::new(part_index());
    let html = render_markdown("See [Part.Size].", &full);
    assert_eq!(html, "<p>See <a href=\"Part#Size\" title=\"Part.Size\">Part.Size</a>.</p>\n");
}

#[test]
fn content_source_titles() {
    assert_eq!(ContentSource::ApiDump.to_string(), "JSON API Dump");
    assert_eq!(ContentSource::ReflectionMetadata.to_string(), "ReflectionMetadata.xml");
    assert_eq!(ContentSource::DevHub.to_string(), "Roblox Developer Hub");
    assert_eq!(ContentSource::Heuristic.to_string(), "Dumpling Heuristics");
    assert_eq!(ContentSource::Supplemental.to_string(), "Dumpling Supplemental");
}
