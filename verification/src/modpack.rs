//! The modpack descriptor a server configuration may refer to.

use vstd::prelude::*;

verus! {

/// Where the contents of a modpack come from.
#[derive(Debug, Clone)]
pub enum ModpackSource {
    PresetHtml(String),
}

/// A named collection of mods a server can be associated with.
///
/// The record itself is owned by the external store; the library only reads
/// a snapshot of it, so the identity is held as its plain string form.
#[derive(Debug, Clone)]
pub struct Modpack {
    pub id: String,
    pub name: String,
    pub description: Option<String>,
    pub source: ModpackSource,
}

} // verus!
