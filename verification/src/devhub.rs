//! Pages of the developer hub, as far as they describe a class, and what is
//! taken from them.

use vstd::prelude::*;

verus! {

pub struct Property {
    pub title: String,
    pub display_title: String,
    pub description: Option<String>,
}

pub struct Class {
    pub title: String,
    pub description: Option<String>,
    pub property: Vec<Property>,
}

pub struct ClassSection {
    pub current_class: Vec<Class>,
    pub inherited_class: Vec<Class>,
}

pub struct ModularBlock {
    pub api_class_section: ClassSection,
}

pub struct Entry {
    pub modular_blocks: Vec<ModularBlock>,
}

/// The page of one class.
pub struct InstancePage {
    pub entry: Entry,
}

/// What the hub says of a property.
pub struct DevHubProperty {
    pub name: String,
    pub description: String,
}

/// What the hub says of a class.
pub struct DevHubClass {
    pub name: String,
    pub description: String,
    pub properties: Vec<DevHubProperty>,
}

/// What the hub says of the classes of a dump: one entry for each class
/// whose page was found, in the order of the dump.
pub struct DevHubData {
    pub classes: Vec<DevHubClass>,
}

/// The text of a description that may be missing: empty where it is.
pub open spec fn text_or_empty(text: Option<String>) -> Seq<char> {
    match text {
        Some(t) => t@,
        None => Seq::empty(),
    }
}

impl InstancePage {
    /// Whether the page has a first block that describes a class.
    pub open spec fn describes_class(&self) -> bool {
        self.entry.modular_blocks@.len() > 0
            && self.entry.modular_blocks@[0].api_class_section.current_class@.len() > 0
    }

    /// The class that the page describes.
    pub open spec fn described(&self) -> Class
        recommends
            self.describes_class(),
    {
        self.entry.modular_blocks@[0].api_class_section.current_class@[0]
    }

    /// Whether the page has a first block that describes a class.
    pub fn has_class(&self) -> (present: bool)
        ensures
            present == self.describes_class(),
    {
        self.entry.modular_blocks.len() > 0
            && self.entry.modular_blocks[0].api_class_section.current_class.len() > 0
    }
}

/// Whether `class` says of a page's class what the page says: the title,
/// the description, and each property's displayed title and description. A
/// missing description becomes the empty text.
pub open spec fn class_of_page(class: DevHubClass, source: Class) -> bool {
    &&& class.name@ == source.title@
    &&& class.description@ == text_or_empty(source.description)
    &&& class.properties@.len() == source.property@.len()
    &&& forall|i: int|
        0 <= i < source.property@.len() ==> {
            &&& (#[trigger] class.properties@[i]).name@ == source.property@[i].display_title@
            &&& class.properties@[i].description@ == text_or_empty(source.property@[i].description)
        }
}

/// A copy of a description, or the empty text where there is none.
fn description_text(text: &Option<String>) -> (copy: String)
    ensures
        copy@ == text_or_empty(*text),
{
    match text {
        Some(t) => t.clone(),
        None => String::new(),
    }
}

/// Takes from a page what it says of its class.
pub fn instance_page_to_class(page: &InstancePage) -> (class: DevHubClass)
    requires
        page.describes_class(),
    ensures
        class_of_page(class, page.described()),
{
    let source = &page.entry.modular_blocks[0].api_class_section.current_class[0];
    let mut properties: Vec<DevHubProperty> = Vec::new();
    let mut i: usize = 0;
    while i < source.property.len()
        invariant
            i <= source.property.len(),
            properties@.len() == i,
            forall|k: int|
                0 <= k < i ==> {
                    &&& (#[trigger] properties@[k]).name@ == source.property@[k].display_title@
                    &&& properties@[k].description@ == text_or_empty(
                        source.property@[k].description,
                    )
                },
        decreases source.property.len() - i,
    {
        let property = &source.property[i];
        properties.push(
            DevHubProperty {
                name: property.display_title.clone(),
                description: description_text(&property.description),
            },
        );
        i = i + 1;
    }
    DevHubClass {
        name: source.title.clone(),
        description: description_text(&source.description),
        properties,
    }
}

/// The pages among the first `n` that were found.
pub open spec fn found_pages(pages: Seq<Option<InstancePage>>, n: int) -> Seq<InstancePage>
    decreases n,
{
    if n <= 0 {
        Seq::empty()
    } else {
        match pages[n - 1] {
            Some(page) => found_pages(pages, n - 1).push(page),
            None => found_pages(pages, n - 1),
        }
    }
}

impl DevHubData {
    /// Gathers what the hub says of a dump's classes. `pages` holds, for
    /// each class of the dump in order, the page that was fetched for it,
    /// or nothing where the hub has none.
    pub fn fetch(pages: &Vec<Option<InstancePage>>) -> (data: DevHubData)
        requires
            forall|i: int|
                0 <= i < pages@.len() && pages@[i] is Some ==> (#[trigger] pages@[i])->0.describes_class(),
        ensures
            data.classes@.len() == found_pages(pages@, pages@.len() as int).len(),
            forall|k: int|
                0 <= k < data.classes@.len() ==> class_of_page(
                    #[trigger] data.classes@[k],
                    found_pages(pages@, pages@.len() as int)[k].described(),
                ),
    {
        let mut classes: Vec<DevHubClass> = Vec::new();
        let mut i: usize = 0;
        while i < pages.len()
            invariant
                i <= pages.len(),
                forall|i: int|
                    0 <= i < pages@.len() && pages@[i] is Some ==> (#[trigger] pages@[i])->0.describes_class(),
                classes@.len() == found_pages(pages@, i as int).len(),
                forall|k: int|
                    0 <= k < classes@.len() ==> class_of_page(
                        #[trigger] classes@[k],
                        found_pages(pages@, i as int)[k].described(),
                    ),
            decreases pages.len() - i,
        {
            match &pages[i] {
                Some(page) => {
                    classes.push(instance_page_to_class(page));
                },
                None => {},
            }
            i = i + 1;
        }
        DevHubData { classes }
    }
}

} // verus!
