//! Cross-reference resolution and link generation for documentation of a
//! reflection API: classes, their members and enumerations.
//!
//! A dotted path such as `Part.Size` or `Enum.Material.Plastic` is split into
//! segments (`text`), classified against an index of the known classes
//! (`index`), and turned into a link whose shape depends on whether the
//! documentation is one page or one page per class (`links`). Prose refers
//! to classes and members through the same resolvers (`markup`).
//!
//! Around that stand the description of the API itself (`dump`), the
//! sources of descriptive text (`reflection_metadata`, `metadata_reader`,
//! `supplement`, `devhub`), their merging onto the dump (`merge`,
//! `heuristics`), and what rendering needs besides links (`style`,
//! `templating`).

pub mod text;
pub mod dump;
pub mod index;
pub mod links;
pub mod markup;
pub mod heuristics;
pub mod devhub;
pub mod reflection_metadata;
pub mod metadata_reader;
pub mod supplement;
pub mod merge;
pub mod templating;
pub mod style;
