use dungeon_crawler::components::{FieldOfView, FOV_REDUC};
use dungeon_crawler::geometry::Point;
use dungeon_crawler::map::TileType;
use dungeon_crawler::map_builder::themes::{DungeonTheme, ForestTheme, MapTheme, TempleTheme, VolcanoTheme};
use dungeon_crawler::systems::fov::fov;
use dungeon_crawler::systems::hud::level_name;

#[test]
fn field_of_view_lifecycle() {
    let mut f = FieldOfView::new(8);
    assert!(f.is_dirty);
    assert_eq!(f.radius, 8);
    assert!(f.visible_tiles.is_empty());
    fov(&mut f, vec![Point::new(1, 1), Point::new(2, 1)]);
    assert!(!f.is_dirty);
    assert!(f.sees(Point::new(2, 1)));
    assert!(!f.sees(Point::new(3, 1)));
    // An up-to-date view ignores new tiles.
    fov(&mut f, vec![]);
    assert!(f.sees(Point::new(1, 1)));
    let c = f.clone_dirty();
    assert!(c.is_dirty && c.visible_tiles.is_empty() && c.radius == 8);
}

#[test]
fn widen_then_narrow_restores_radius() {
    let mut f = FieldOfView::new(6);
    f.visible_tiles.push(Point::new(0, 0));
    f.is_dirty = false;
    f.inc_fov();
    assert_eq!(f.radius, 7);
    assert!(f.is_dirty && f.visible_tiles.is_empty());
    f.dec_fov();
    assert_eq!(f.radius, 7 - FOV_REDUC);
    assert_eq!(f.radius, 6);
}

#[test]
fn theme_glyphs() {
    let d = DungeonTheme::new();
    let f = ForestTheme::new();
    let v = VolcanoTheme::new();
    let t = TempleTheme::new();
    assert_eq!(d.tile_to_render(TileType::Floor), '.' as u16);
    assert_eq!(d.tile_to_render(TileType::Wall), 35);
    assert_eq!(f.tile_to_render(TileType::Wall), '"' as u16);
    assert_eq!(f.tile_to_render(TileType::Decorative), 36);
    assert_eq!(v.tile_to_render(TileType::Door), 'Y' as u16);
    assert_eq!(t.tile_to_render(TileType::PoisonFloor), '*' as u16);
    for tile in [TileType::Exit] {
        assert_eq!(d.tile_to_render(tile), 62);
        assert_eq!(f.tile_to_render(tile), 62);
        assert_eq!(v.tile_to_render(tile), 62);
        assert_eq!(t.tile_to_render(tile), 62);
    }
}

#[test]
fn level_names() {
    assert_eq!(level_name(0), "Forgotten Forest");
    assert_eq!(level_name(1), "Decrepit Dungeon");
    assert_eq!(level_name(2), "Forsaken Temple");
    assert_eq!(level_name(3), "Netherworld");
    assert_eq!(level_name(-4), "Netherworld");
}
