//! What the heads-up display says.

use vstd::prelude::*;

verus! {

/// The name of a level theme.
pub open spec fn level_name_text(level_theme: i32) -> Seq<char> {
    if level_theme == 0 {
        "Forgotten Forest"@
    } else if level_theme == 1 {
        "Decrepit Dungeon"@
    } else if level_theme == 2 {
        "Forsaken Temple"@
    } else {
        "Netherworld"@
    }
}

/// The name shown for the level theme the player is in.
pub fn level_name(level_theme: i32) -> (s: String)
    ensures
        s@ == level_name_text(level_theme),
{
    if level_theme == 0 {
        "Forgotten Forest".to_string()
    } else if level_theme == 1 {
        "Decrepit Dungeon".to_string()
    } else if level_theme == 2 {
        "Forsaken Temple".to_string()
    } else {
        "Netherworld".to_string()
    }
}

} // verus!
