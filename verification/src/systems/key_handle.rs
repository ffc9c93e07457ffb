//! Doors and the key.

use vstd::prelude::*;
use crate::geometry::{Point, SCREEN_WIDTH};
use crate::map::{spec_map_idx, GameMap};

verus! {

/// The key system: carrying a key opens doors; without one, doors close
/// again once the player stands outside every prefabricated structure (so
/// that the player cannot lock itself inside one).
pub fn key_handle(map: &mut GameMap, carries_key: bool, player_pos: Point)
    requires
        !carries_key ==> i32::MIN <= player_pos.y * SCREEN_WIDTH <= i32::MAX && 0 <= spec_map_idx(
            player_pos.x as int,
            player_pos.y as int,
        ) <= i32::MAX,
    ensures
        final(map).tiles == old(map).tiles,
        final(map).revealed_tiles == old(map).revealed_tiles,
        final(map).spawned_points == old(map).spawned_points,
        final(map).prefab_indices == old(map).prefab_indices,
        final(map).key_carried == (if carries_key {
            true
        } else if old(map).prefab_indices@.contains(spec_map_idx(player_pos.x as int, player_pos.y as int) as usize) {
            old(map).key_carried
        } else {
            false
        }),
{
    if carries_key {
        map.key_carried = true;
    } else {
        let position = map.point2d_to_index(player_pos);
        let mut inside = false;
        let mut i: usize = 0;
        while i < map.prefab_indices.len()
            invariant
                i <= map.prefab_indices.len(),
                inside <==> exists|k: int| 0 <= k < i && map.prefab_indices@[k] == position,
            decreases map.prefab_indices.len() - i,
        {
            if map.prefab_indices[i] == position {
                inside = true;
            }
            i += 1;
        }
        if !inside {
            map.key_carried = false;
        }
        proof {
            if old(map).prefab_indices@.contains(position) {
                let k = choose|k: int| 0 <= k < old(map).prefab_indices@.len() && old(map).prefab_indices@[k] == position;
            }
        }
    }
}

} // verus!
