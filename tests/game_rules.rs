use dst_clone::atlas::{box_region, load_graphics, player_region, AtlasLayout, PlaceHolderGraphics, Region, ATLAS_SIZE};
use dst_clone::camera::{camera_follow, Translation};
use dst_clone::movement::{movement_direction, player_movement, MovementKeys, Player, PLAYER_SPEED};
use dst_clone::scene::{spawn_camera, spawn_inventory_ui, spawn_player, startup_scene, EntityKind, Scene};

fn keys(left: bool, right: bool, up: bool, down: bool) -> MovementKeys {
    MovementKeys { left, right, up, down }
}

fn count(scene: &Scene, kind: EntityKind) -> usize {
    scene.entities.iter().filter(|e| e.kind == kind).count()
}

#[test]
fn placeholder_atlas_layout() {
    let g = load_graphics();
    assert_eq!(g.texture_atlas.width, 256);
    assert_eq!(g.texture_atlas.height, ATLAS_SIZE);
    assert_eq!(g.texture_atlas.len(), 2);
    assert_eq!(g.player_index, 0);
    assert_eq!(g.box_index, 1);
    assert_eq!(g.texture_atlas.regions[0], Region { min_x: 0, min_y: 0, max_x: 32, max_y: 32 });
    assert_eq!(g.texture_atlas.regions[1], Region { min_x: 32, min_y: 32, max_x: 64, max_y: 64 });
    assert_eq!(player_region(), g.texture_atlas.regions[g.player_index]);
    assert_eq!(box_region(), g.texture_atlas.regions[g.box_index]);
}

#[test]
fn add_region_returns_consecutive_indices() {
    let mut atlas = AtlasLayout::new_empty(64, 32);
    assert_eq!(atlas.len(), 0);
    assert_eq!(atlas.add_region(box_region()), 0);
    assert_eq!(atlas.add_region(player_region()), 1);
    assert_eq!(atlas.add_region(box_region()), 2);
    assert_eq!(atlas.regions[1], player_region());
    assert_eq!((atlas.width, atlas.height), (64, 32));
}

#[test]
fn player_speed_is_fixed() {
    assert_eq!(Player::new().speed(), 300);
    assert_eq!(PLAYER_SPEED, 300);
}

#[test]
fn each_key_moves_along_one_axis() {
    let p = Player::new();
    assert_eq!(player_movement(&p, keys(true, false, false, false)), (-300, 0));
    assert_eq!(player_movement(&p, keys(false, true, false, false)), (300, 0));
    assert_eq!(player_movement(&p, keys(false, false, true, false)), (0, 300));
    assert_eq!(player_movement(&p, keys(false, false, false, true)), (0, -300));
}

#[test]
fn opposite_keys_cancel_and_axes_combine() {
    let p = Player::new();
    assert_eq!(player_movement(&p, keys(false, false, false, false)), (0, 0));
    assert_eq!(player_movement(&p, keys(true, true, false, false)), (0, 0));
    assert_eq!(player_movement(&p, keys(false, false, true, true)), (0, 0));
    assert_eq!(player_movement(&p, keys(false, true, true, false)), (300, 300));
    assert_eq!(player_movement(&p, keys(true, true, true, true)), (0, 0));
    assert_eq!(movement_direction(keys(true, false, false, true)), (-1, -1));
}

#[test]
fn movement_scales_with_frame_time() {
    let p = Player::new();
    let (vx, vy) = player_movement(&p, keys(false, true, false, false));
    let dt: f32 = 0.5;
    let mut pos = Translation::new(10.0f32, -4.0f32, 0.0f32);
    pos.x += vx as f32 * dt;
    pos.y += vy as f32 * dt;
    assert_eq!((pos.x, pos.y, pos.z), (160.0, -4.0, 0.0));
}

#[test]
fn camera_takes_player_position_and_keeps_depth() {
    let mut camera = Translation::new(0.0f32, 0.0f32, 999.9f32);
    let player = Translation::new(12.5f32, -7.25f32, 0.0f32);
    camera_follow(&mut camera, &player);
    assert_eq!((camera.x, camera.y, camera.z), (12.5, -7.25, 999.9));
    let mut c = Translation::new(1i32, 2i32, 3i32);
    camera_follow(&mut c, &Translation::new(-5i32, 6i32, 7i32));
    assert_eq!(c, Translation::new(-5, 6, 3));
}

#[test]
fn startup_has_one_camera_and_one_player() {
    let g = load_graphics();
    let scene = startup_scene(&g);
    assert_eq!(scene.len(), 7);
    assert_eq!(count(&scene, EntityKind::Camera), 1);
    assert_eq!(count(&scene, EntityKind::Player), 1);
    assert_eq!(count(&scene, EntityKind::InventorySlot), 5);
    assert_eq!(scene.find_single(EntityKind::Camera), Some(0));
    assert_eq!(scene.find_single(EntityKind::Player), Some(1));
    assert_eq!(scene.find_single(EntityKind::InventorySlot), None);
    assert_eq!(scene.entities[1].sprite, Some(g.player_index));
}

#[test]
fn inventory_strip_hangs_from_camera() {
    let g = PlaceHolderGraphics { texture_atlas: (), player_index: 3, box_index: 7 };
    let scene = startup_scene(&g);
    let xs: Vec<i32> = vec![0, 40, 80, 120, 160];
    for (i, x) in xs.iter().enumerate() {
        let e = &scene.entities[2 + i];
        assert_eq!(e.kind, EntityKind::InventorySlot);
        assert_eq!(e.parent, Some(0));
        assert_eq!(e.translation, Some(Translation::new(*x, 40, -1)));
        assert_eq!(e.sprite, Some(7));
    }
}

#[test]
fn inventory_finds_camera_wherever_it_stands() {
    let mut scene = Scene::new();
    assert_eq!(spawn_player(&mut scene, 0), 0);
    assert_eq!(spawn_camera(&mut scene), 1);
    let boxes = spawn_inventory_ui(&mut scene, 1);
    assert_eq!(boxes, vec![2, 3, 4, 5, 6]);
    assert!(scene.entities[2..].iter().all(|e| e.parent == Some(1)));
}

#[test]
fn single_lookup_rejects_none_and_many() {
    let mut scene = Scene::new();
    assert_eq!(scene.find_single(EntityKind::Camera), None);
    spawn_camera(&mut scene);
    spawn_camera(&mut scene);
    assert_eq!(scene.find_single(EntityKind::Camera), None);
    assert_eq!(scene.find_single(EntityKind::Player), None);
    spawn_player(&mut scene, 0);
    assert_eq!(scene.find_single(EntityKind::Player), Some(2));
}
