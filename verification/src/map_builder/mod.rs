//! Building the levels: caves, prefabricated structures, and visual themes.

pub mod drunkard;
pub mod themes;
pub mod prefab;
