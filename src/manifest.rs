//! Records of the game's definition catalog.
use vstd::prelude::*;

verus! {

/// How a catalog entry is shown.
#[derive(Debug, Clone)]
pub struct DisplayPropertiesData {
    pub description: String,
    pub name: String,
    pub icon_path: Option<String>,
    pub has_icon: bool,
}

/// A destination of the catalog, keyed by its hash.
#[derive(Debug, Clone)]
pub struct DestinyDestinationDefinitionData {
    pub id: u32,
    pub display_properties: DisplayPropertiesData,
    pub place_hash: u32,
}

} // verus!
