use dumpling::devhub::{
    instance_page_to_class, Class, ClassSection, DevHubClass, DevHubData, DevHubProperty, Entry,
    InstancePage, ModularBlock, Property,
};
use dumpling::dump::{
    has_tag, ContentSource, Dump, DumpClass, DumpClassCallback, DumpClassEvent, DumpClassFunction,
    DumpClassMember, DumpClassProperty, DumpReturnType, DumpType,
};
use dumpling::heuristics::{camelcase_members_probably_deprecated, make_first_letter_uppercase};
use dumpling::merge::{
    apply_devhub, apply_reflection_metadata, apply_supplemental, simple_name_to_dump_type,
};
use dumpling::reflection_metadata::{
    ReflectionMetadata, ReflectionMetadataClass, ReflectionMetadataMember,
};
use dumpling::style::{class_element_class, member_element_class};
use dumpling::supplement::{Metadata, SupplementalData};
use vstd::hash_map::StringHashMap;

fn new_property(name: &str) -> DumpClassMember {
    DumpClassMember::Property(DumpClassProperty {
        name: name.to_string(),
        tags: Vec::new(),
        value_type: DumpType::Primitive("int".to_string()),
        security: Vec::new(),
        category: "Data".to_string(),
        description: None,
        description_source: None,
    })
}

fn new_function(name: &str) -> DumpClassMember {
    DumpClassMember::Function(DumpClassFunction {
        name: name.to_string(),
        tags: Vec::new(),
        parameters: Vec::new(),
        return_type: DumpReturnType::Single(DumpType::Primitive("void".to_string())),
        security: "None".to_string(),
        description: None,
        description_source: None,
    })
}

fn new_event(name: &str) -> DumpClassMember {
    DumpClassMember::Event(DumpClassEvent {
        name: name.to_string(),
        tags: Vec::new(),
        parameters: Vec::new(),
        security: "None".to_string(),
        description: None,
        description_source: None,
    })
}

fn new_callback(name: &str) -> DumpClassMember {
    DumpClassMember::Callback(DumpClassCallback {
        name: name.to_string(),
        tags: Vec::new(),
        parameters: Vec::new(),
        return_type: DumpReturnType::Single(DumpType::Primitive("void".to_string())),
        security: "None".to_string(),
        description: None,
        description_source: None,
    })
}

fn new_class(name: &str, members: Vec<DumpClassMember>) -> DumpClass {
    DumpClass {
        name: name.to_string(),
        members,
        tags: Vec::new(),
        superclass: None,
        description: None,
        description_source: None,
    }
}

fn new_dump(classes: Vec<DumpClass>) -> Dump {
    Dump { classes, enums: Vec::new(), version: 1 }
}

fn description_of(member: &DumpClassMember) -> (Option<String>, Option<ContentSource>) {
    match member {
        DumpClassMember::Property(inner) => (inner.description.clone(), inner.description_source),
        DumpClassMember::Function(inner) => (inner.description.clone(), inner.description_source),
        DumpClassMember::Event(inner) => (inner.description.clone(), inner.description_source),
        DumpClassMember::Callback(inner) => (inner.description.clone(), inner.description_source),
    }
}

fn text(s: &str) -> Option<String> {
    Some(s.to_string())
}

#[test]
fn first_letter_is_capitalised() {
    assert_eq!(make_first_letter_uppercase("size"), "Size");
    assert_eq!(make_first_letter_uppercase("Size"), "Size");
    assert_eq!(make_first_letter_uppercase(""), "");
    assert_eq!(make_first_letter_uppercase("x"), "X");
    assert_eq!(make_first_letter_uppercase("ßeta"), "SSeta");
    assert_eq!(make_first_letter_uppercase("éclair"), "Éclair");
}

#[test]
fn camelcase_member_with_pascal_twin_is_deprecated() {
    let mut dump = new_dump(vec![
        new_class(
            "Part",
            vec![
                new_function("getMass"),
                new_function("GetMass"),
                new_property("size"),
                new_event("Touched"),
            ],
        ),
        new_class("Model", vec![new_property("Size"), new_callback("onMove")]),
    ]);
    camelcase_members_probably_deprecated(&mut dump);
    let part = &dump.classes[0];
    assert_eq!(
        description_of(&part.members[0]),
        (text("`getMass` is deprecated. Use `GetMass` instead."), Some(ContentSource::Heuristic))
    );
    assert_eq!(description_of(&part.members[1]), (None, None));
    assert_eq!(description_of(&part.members[2]), (None, None));
    assert_eq!(description_of(&part.members[3]), (None, None));
    let model = &dump.classes[1];
    assert_eq!(description_of(&model.members[0]), (None, None));
    assert_eq!(description_of(&model.members[1]), (None, None));
    assert_eq!(part.members[0].get_name(), "getMass");
    assert_eq!(dump.version, 1);
}

#[test]
fn member_descriptions_and_tags() {
    let mut member = new_property("Size");
    member.set_description("How large.".to_string(), ContentSource::DevHub);
    assert_eq!(description_of(&member), (text("How large."), Some(ContentSource::DevHub)));
    assert_eq!(member.get_name(), "Size");
    member.add_tag("Deprecated");
    member.add_tag("ReadOnly");
    member.add_tag("Deprecated");
    match &member {
        DumpClassMember::Property(inner) => {
            assert_eq!(inner.tags, vec!["Deprecated".to_string(), "ReadOnly".to_string()]);
            assert!(has_tag(&inner.tags, "ReadOnly"));
            assert!(!has_tag(&inner.tags, "readonly"));
        }
        _ => panic!("the member is a property"),
    }
}

#[test]
fn members_by_kind() {
    let class = new_class(
        "Part",
        vec![
            new_function("GetMass"),
            new_property("Size"),
            new_event("Touched"),
            new_property("Color"),
        ],
    );
    let names: Vec<&str> = class.properties().iter().map(|p| p.name.as_str()).collect();
    assert_eq!(names, vec!["Size", "Color"]);
    let names: Vec<&str> = class.functions().iter().map(|p| p.name.as_str()).collect();
    assert_eq!(names, vec!["GetMass"]);
    let names: Vec<&str> = class.events().iter().map(|p| p.name.as_str()).collect();
    assert_eq!(names, vec!["Touched"]);
    assert_eq!(class.callbacks().len(), 0);
    assert!(class.has_properties());
    assert!(class.has_functions());
    assert!(class.has_events());
    assert!(!class.has_callbacks());
    let empty = new_class("Empty", Vec::new());
    assert!(!empty.has_properties());
    assert!(!empty.has_functions());
    assert!(!empty.has_events());
    assert!(!empty.has_callbacks());
}

#[test]
fn type_names_and_paths() {
    assert_eq!(DumpType::Class("Part".to_string()).get_name(), "Part");
    assert_eq!(DumpType::Enum("Material".to_string()).get_name(), "Material");
    assert_eq!(DumpType::Enum("Material".to_string()).path(), "Enum.Material");
    assert_eq!(DumpType::Class("Part".to_string()).path(), "Part");
    assert_eq!(DumpType::Primitive("int".to_string()).path(), "int");
    assert_eq!(DumpType::DataType("Vector3".to_string()).path(), "Vector3");
    assert_eq!(DumpType::Group("Tuple".to_string()).path(), "Tuple");
}

fn metadata_class(name: &str, summary: &str, members: &[(&str, &str)]) -> ReflectionMetadataClass {
    let mut map = StringHashMap::new();
    for (member, member_summary) in members {
        map.insert(
            member.to_string(),
            ReflectionMetadataMember {
                name: member.to_string(),
                summary: member_summary.to_string(),
            },
        );
    }
    ReflectionMetadataClass { name: name.to_string(), summary: summary.to_string(), members: map }
}

#[test]
fn reflection_metadata_is_applied() {
    let mut classes = StringHashMap::new();
    classes.insert(
        "Part".to_string(),
        metadata_class("Part", "A brick.", &[("Size", "How large."), ("Color", "")]),
    );
    classes.insert("Model".to_string(), metadata_class("Model", "", &[]));
    let metadata = ReflectionMetadata { classes };
    let mut model = new_class("Model", vec![new_property("Size")]);
    model.description = text("kept");
    let mut dump = new_dump(vec![
        new_class("Part", vec![new_property("Size"), new_property("Color"), new_event("Touched")]),
        model,
        new_class("Other", vec![new_property("Size")]),
    ]);
    apply_reflection_metadata(&mut dump, &metadata);
    let part = &dump.classes[0];
    assert_eq!(part.description, text("A brick."));
    assert_eq!(part.description_source, None);
    assert_eq!(
        description_of(&part.members[0]),
        (text("How large."), Some(ContentSource::ReflectionMetadata))
    );
    assert_eq!(description_of(&part.members[1]), (None, None));
    assert_eq!(description_of(&part.members[2]), (None, None));
    assert_eq!(dump.classes[1].description, text("kept"));
    assert_eq!(description_of(&dump.classes[1].members[0]), (None, None));
    assert_eq!(dump.classes[2].description, None);
    assert_eq!(description_of(&dump.classes[2].members[0]), (None, None));
}

fn shown_type(t: &DumpType) -> String {
    format!("{:?}", t)
}

#[test]
fn simple_type_names() {
    assert_eq!(
        shown_type(&simple_name_to_dump_type(&"Enum.Material".to_string())),
        "Enum(\"Material\")"
    );
    assert_eq!(shown_type(&simple_name_to_dump_type(&"Enum.".to_string())), "Enum(\"\")");
    assert_eq!(shown_type(&simple_name_to_dump_type(&"Enum".to_string())), "DataType(\"Enum\")");
    assert_eq!(
        shown_type(&simple_name_to_dump_type(&"Vector3".to_string())),
        "DataType(\"Vector3\")"
    );
    assert_eq!(shown_type(&simple_name_to_dump_type(&"".to_string())), "DataType(\"\")");
}

#[test]
fn supplemental_descriptions_are_applied() {
    let mut content = SupplementalData::new();
    content.insert(
        Metadata { target: "Part".to_string(), return_types: None },
        "The class.".to_string(),
    );
    content.insert(
        Metadata {
            target: "Part.GetMass".to_string(),
            return_types: Some(vec!["number".to_string(), "Enum.Unit".to_string()]),
        },
        "The mass.".to_string(),
    );
    content.insert(
        Metadata { target: "Part.Move".to_string(), return_types: None },
        "Moves.".to_string(),
    );
    content.insert(
        Metadata { target: "Part.Size".to_string(), return_types: Some(vec!["x".to_string()]) },
        "old".to_string(),
    );
    content.insert(
        Metadata { target: "Part.Size".to_string(), return_types: None },
        "The size.".to_string(),
    );
    content.insert(
        Metadata { target: "Part.Touched".to_string(), return_types: None },
        "On touch.".to_string(),
    );
    content.insert(
        Metadata { target: "Part.OnMove".to_string(), return_types: None },
        "Called.".to_string(),
    );
    let mut dump = new_dump(vec![
        new_class(
            "Part",
            vec![
                new_function("GetMass"),
                new_function("Move"),
                new_property("Size"),
                new_event("Touched"),
                new_callback("OnMove"),
                new_property("Color"),
            ],
        ),
        new_class("Model", vec![new_property("Size")]),
    ]);
    apply_supplemental(&mut dump, &content);
    let part = &dump.classes[0];
    assert_eq!(part.description, text("The class."));
    assert_eq!(part.description_source, Some(ContentSource::Supplemental));
    let supplemental = Some(ContentSource::Supplemental);
    assert_eq!(description_of(&part.members[0]), (text("The mass."), supplemental));
    assert_eq!(description_of(&part.members[1]), (text("Moves."), supplemental));
    assert_eq!(description_of(&part.members[2]), (text("The size."), supplemental));
    assert_eq!(description_of(&part.members[3]), (text("On touch."), supplemental));
    assert_eq!(description_of(&part.members[4]), (text("Called."), supplemental));
    assert_eq!(description_of(&part.members[5]), (None, None));
    match &part.members[0] {
        DumpClassMember::Function(f) => match &f.return_type {
            DumpReturnType::Multiple(types) => {
                let shown: Vec<String> = types.iter().map(shown_type).collect();
                assert_eq!(shown, vec!["DataType(\"number\")", "Enum(\"Unit\")"]);
            }
            DumpReturnType::Single(_) => panic!("the return types are replaced"),
        },
        _ => panic!("the member is a function"),
    }
    match &part.members[1] {
        DumpClassMember::Function(f) => match &f.return_type {
            DumpReturnType::Single(t) => assert_eq!(shown_type(t), "Primitive(\"void\")"),
            DumpReturnType::Multiple(_) => panic!("the return type is kept"),
        },
        _ => panic!("the member is a function"),
    }
    assert_eq!(dump.classes[1].description, None);
    assert_eq!(description_of(&dump.classes[1].members[0]), (None, None));
}

fn hub_page(title: &str, description: Option<&str>, properties: &[(&str, Option<&str>)]) -> InstancePage {
    InstancePage {
        entry: Entry {
            modular_blocks: vec![ModularBlock {
                api_class_section: ClassSection {
                    current_class: vec![Class {
                        title: title.to_string(),
                        description: description.map(|d| d.to_string()),
                        property: properties
                            .iter()
                            .map(|(name, d)| Property {
                                title: format!("title of {}", name),
                                display_title: name.to_string(),
                                description: d.map(|d| d.to_string()),
                            })
                            .collect(),
                    }],
                    inherited_class: Vec::new(),
                },
            }],
        },
    }
}

#[test]
fn hub_page_becomes_class() {
    let page = hub_page("Part", Some("A brick."), &[("Size", Some("How large.")), ("Color", None)]);
    assert!(page.has_class());
    let class = instance_page_to_class(&page);
    assert_eq!(class.name, "Part");
    assert_eq!(class.description, "A brick.");
    assert_eq!(class.properties.len(), 2);
    assert_eq!(class.properties[0].name, "Size");
    assert_eq!(class.properties[0].description, "How large.");
    assert_eq!(class.properties[1].name, "Color");
    assert_eq!(class.properties[1].description, "");
    let bare = instance_page_to_class(&hub_page("Model", None, &[]));
    assert_eq!(bare.description, "");
    assert_eq!(bare.properties.len(), 0);
    let empty = InstancePage { entry: Entry { modular_blocks: Vec::new() } };
    assert!(!empty.has_class());
}

#[test]
fn hub_data_from_pages() {
    let pages = vec![Some(hub_page("Part", None, &[])), None, Some(hub_page("Model", None, &[]))];
    let data = DevHubData::fetch(&pages);
    let names: Vec<&str> = data.classes.iter().map(|c| c.name.as_str()).collect();
    assert_eq!(names, vec!["Part", "Model"]);
    assert_eq!(DevHubData::fetch(&Vec::new()).classes.len(), 0);
}

#[test]
fn hub_descriptions_are_applied() {
    let content = DevHubData {
        classes: vec![
            DevHubClass {
                name: "Part".to_string(),
                description: "A brick.".to_string(),
                properties: vec![
                    DevHubProperty { name: "Size".to_string(), description: "first".to_string() },
                    DevHubProperty { name: "Mass".to_string(), description: "none".to_string() },
                    DevHubProperty { name: "Size".to_string(), description: "second".to_string() },
                    DevHubProperty { name: "Move".to_string(), description: "no".to_string() },
                ],
            },
            DevHubClass {
                name: "Unknown".to_string(),
                description: "?".to_string(),
                properties: Vec::new(),
            },
        ],
    };
    let mut dump = new_dump(vec![
        new_class("Model", vec![new_property("Size")]),
        new_class("Part", vec![new_function("Move"), new_property("Size"), new_property("Size")]),
        new_class("Part", vec![new_property("Size")]),
    ]);
    apply_devhub(&mut dump, &content);
    assert_eq!(dump.classes[0].description, None);
    assert_eq!(description_of(&dump.classes[0].members[0]), (None, None));
    let part = &dump.classes[1];
    assert_eq!(part.description, text("A brick."));
    assert_eq!(part.description_source, None);
    assert_eq!(description_of(&part.members[0]), (None, None));
    assert_eq!(description_of(&part.members[1]), (text("second"), Some(ContentSource::DevHub)));
    assert_eq!(description_of(&part.members[2]), (None, None));
    assert_eq!(dump.classes[2].description, None);
    assert_eq!(description_of(&dump.classes[2].members[0]), (None, None));
}

#[test]
fn element_classes() {
    let plain = vec!["ReadOnly".to_string()];
    let deprecated = vec!["ReadOnly".to_string(), "Deprecated".to_string()];
    assert_eq!(
        member_element_class(&plain, "dump-class-property"),
        "dump-class-member dump-class-property"
    );
    assert_eq!(
        member_element_class(&deprecated, "dump-class-function"),
        "dump-class-member dump-class-function dump-member-deprecated"
    );
    assert_eq!(class_element_class(&plain), "dump-class");
    assert_eq!(class_element_class(&deprecated), "dump-class dump-class-deprecated");
    assert_eq!(class_element_class(&Vec::new()), "dump-class");
}
