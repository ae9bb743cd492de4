//! What the startup sequence spawns: the camera, the player, and the
//! inventory strip held by the camera.

use vstd::prelude::*;
use crate::atlas::PlaceHolderGraphics;
use crate::camera::Translation;

verus! {

/// The number of boxes in the inventory strip.
pub const SLOT_COUNT: usize = 5;

/// The distance between two neighbouring boxes of the strip.
pub const SLOT_SPACING: i32 = 40;

/// The height of the strip above the camera's centre.
pub const SLOT_Y: i32 = 40;

/// The depth of the strip relative to the camera.
pub const SLOT_Z: i32 = -1;

/// What an entity of the scene is.
#[derive(Clone, Copy, Debug, PartialEq, Eq, Structural)]
pub enum EntityKind {
    /// The 2D camera, cleared to green.
    Camera,
    /// The player sprite, carrying the player marker.
    Player,
    /// One box of the inventory strip.
    InventorySlot,
}

/// One entity to spawn.
#[derive(Clone, Copy, Debug)]
pub struct EntitySpec {
    pub kind: EntityKind,
    /// The index, in the scene, of the entity that this one is a child of.
    pub parent: Option<usize>,
    /// The position relative to the parent; `None` keeps the position that
    /// the engine gives an entity of this kind.
    pub translation: Option<Translation<i32>>,
    /// The index of the atlas sprite to draw, if the entity is drawn.
    pub sprite: Option<usize>,
}

/// The entities to spawn, in order; an entity is named by its index.
#[derive(Clone, Debug)]
pub struct Scene {
    pub entities: Vec<EntitySpec>,
}

/// How many entities of `s` are of kind `k`.
pub open spec fn count_kind(s: Seq<EntitySpec>, k: EntityKind) -> nat
    decreases s.len(),
{
    if s.len() == 0 {
        0
    } else {
        count_kind(s.drop_last(), k) + if s.last().kind == k {
            1nat
        } else {
            0nat
        }
    }
}

proof fn lemma_count_push(s: Seq<EntitySpec>, e: EntitySpec, k: EntityKind)
    ensures
        count_kind(s.push(e), k) == count_kind(s, k) + if e.kind == k {
            1nat
        } else {
            0nat
        },
{
    assert(s.push(e).drop_last() =~= s);
}

/// The camera entity as it is spawned.
pub open spec fn is_camera_spec(e: EntitySpec) -> bool {
    &&& e.kind == EntityKind::Camera
    &&& e.parent is None
    &&& e.translation is None
    &&& e.sprite is None
}

/// The player entity as it is spawned, drawn with sprite `sprite`.
pub open spec fn is_player_spec(e: EntitySpec, sprite: usize) -> bool {
    &&& e.kind == EntityKind::Player
    &&& e.parent is None
    &&& e.translation is None
    &&& e.sprite == Some(sprite)
}

/// Box `i` of the inventory strip, drawn with sprite `sprite`: at
/// `(40 * i, 40, -1)` relative to its parent.
pub open spec fn is_slot_spec(e: EntitySpec, i: int, sprite: usize) -> bool {
    &&& e.kind == EntityKind::InventorySlot
    &&& e.translation == Some(Translation { x: (SLOT_SPACING * i) as i32, y: SLOT_Y, z: SLOT_Z })
    &&& e.sprite == Some(sprite)
}

impl Scene {
    /// A scene with nothing in it.
    pub fn new() -> (r: Scene)
        ensures
            r.entities@.len() == 0,
    {
        Scene { entities: Vec::new() }
    }

    /// The number of entities.
    pub fn len(&self) -> (r: usize)
        ensures
            r == self.entities@.len(),
    {
        self.entities.len()
    }

    /// The index of the one entity of kind `kind`, or `None` where there is
    /// no such entity or more than one.
    pub fn find_single(&self, kind: EntityKind) -> (r: Option<usize>)
        ensures
            r is Some <==> count_kind(self.entities@, kind) == 1,
            r matches Some(i) ==> i < self.entities@.len() && self.entities@[i as int].kind == kind,
    {
        let ghost s = self.entities@;
        let mut found: Option<usize> = None;
        let mut n: usize = 0;
        let mut i: usize = 0;
        while i < self.entities.len()
            invariant
                s == self.entities@,
                i <= s.len(),
                n == count_kind(s.take(i as int), kind),
                n <= i,
                n > 0 <==> found is Some,
                found matches Some(j) ==> j < i && s[j as int].kind == kind,
            decreases s.len() - i,
        {
            proof {
                assert(s.take(i + 1).drop_last() =~= s.take(i as int));
            }
            if self.entities[i].kind == kind {
                if found.is_none() {
                    found = Some(i);
                }
                n = n + 1;
            }
            i = i + 1;
        }
        proof {
            assert(s.take(s.len() as int) =~= s);
        }
        if n == 1 {
            found
        } else {
            None
        }
    }
}

/// Adds the camera, placed and cleared as the engine's 2D camera is.
pub fn spawn_camera(scene: &mut Scene) -> (id: usize)
    requires
        old(scene).entities@.len() < usize::MAX,
    ensures
        id == old(scene).entities@.len(),
        final(scene).entities@.len() == id + 1,
        final(scene).entities@.drop_last() == old(scene).entities@,
        is_camera_spec(final(scene).entities@[id as int]),
{
    let id = scene.entities.len();
    scene.entities.push(EntitySpec { kind: EntityKind::Camera, parent: None, translation: None, sprite: None });
    proof {
        assert(scene.entities@.drop_last() =~= old(scene).entities@);
    }
    id
}

/// Adds the player, drawn with sprite `sprite` at the engine's default place.
pub fn spawn_player(scene: &mut Scene, sprite: usize) -> (id: usize)
    requires
        old(scene).entities@.len() < usize::MAX,
    ensures
        id == old(scene).entities@.len(),
        final(scene).entities@.len() == id + 1,
        final(scene).entities@.drop_last() == old(scene).entities@,
        is_player_spec(final(scene).entities@[id as int], sprite),
{
    let id = scene.entities.len();
    scene.entities.push(EntitySpec { kind: EntityKind::Player, parent: None, translation: None, sprite: Some(sprite) });
    proof {
        assert(scene.entities@.drop_last() =~= old(scene).entities@);
    }
    id
}

/// Adds the inventory strip: `SLOT_COUNT` boxes drawn with sprite `sprite`,
/// in a row, each a child of the scene's one camera so that the strip keeps
/// its place on the screen as the camera moves. Returns the boxes' indices.
pub fn spawn_inventory_ui(scene: &mut Scene, sprite: usize) -> (boxes: Vec<usize>)
    requires
        count_kind(old(scene).entities@, EntityKind::Camera) == 1,
        old(scene).entities@.len() + SLOT_COUNT <= usize::MAX,
    ensures
        ({
            let s0 = old(scene).entities@;
            let s = final(scene).entities@;
            &&& s.len() == s0.len() + SLOT_COUNT
            &&& s.take(s0.len() as int) == s0
            &&& boxes@.len() == SLOT_COUNT
            &&& forall|i: int|
                0 <= i < SLOT_COUNT ==> {
                    &&& boxes@[i] == s0.len() + i
                    &&& is_slot_spec(#[trigger] s[s0.len() + i], i, sprite)
                    &&& s[s0.len() + i].parent matches Some(c) && c < s0.len() && s0[c as int].kind
                        == EntityKind::Camera
                }
        }),
        count_kind(final(scene).entities@, EntityKind::Camera) == 1,
        count_kind(final(scene).entities@, EntityKind::Player) == count_kind(
            old(scene).entities@,
            EntityKind::Player,
        ),
        count_kind(final(scene).entities@, EntityKind::InventorySlot) == count_kind(
            old(scene).entities@,
            EntityKind::InventorySlot,
        ) + SLOT_COUNT,
{
    let ghost s0 = scene.entities@;
    let n = scene.entities.len();
    let camera = scene.find_single(EntityKind::Camera);
    let camera = match camera {
        Some(c) => c,
        None => {
            return Vec::new();
        },
    };
    let mut boxes: Vec<usize> = Vec::new();
    let mut i: usize = 0;
    while i < SLOT_COUNT
        invariant
            n == s0.len(),
            camera < n,
            s0[camera as int].kind == EntityKind::Camera,
            i <= SLOT_COUNT,
            n + SLOT_COUNT <= usize::MAX,
            scene.entities@.len() == n + i,
            scene.entities@.take(n as int) == s0,
            boxes@.len() == i,
            forall|j: int|
                0 <= j < i ==> {
                    &&& boxes@[j] == n + j
                    &&& is_slot_spec(#[trigger] scene.entities@[n + j], j, sprite)
                    &&& scene.entities@[n + j].parent == Some(camera)
                },
            count_kind(scene.entities@, EntityKind::Camera) == count_kind(s0, EntityKind::Camera),
            count_kind(scene.entities@, EntityKind::Player) == count_kind(s0, EntityKind::Player),
            count_kind(scene.entities@, EntityKind::InventorySlot) == count_kind(
                s0,
                EntityKind::InventorySlot,
            ) + i,
        decreases SLOT_COUNT - i,
    {
        let x: i32 = SLOT_SPACING * (i as i32);
        let e = EntitySpec {
            kind: EntityKind::InventorySlot,
            parent: Some(camera),
            translation: Some(Translation { x, y: SLOT_Y, z: SLOT_Z }),
            sprite: Some(sprite),
        };
        let ghost before = scene.entities@;
        proof {
            lemma_count_push(before, e, EntityKind::Camera);
            lemma_count_push(before, e, EntityKind::Player);
            lemma_count_push(before, e, EntityKind::InventorySlot);
        }
        boxes.push(n + i);
        scene.entities.push(e);
        proof {
            assert(scene.entities@.take(n as int) =~= before.take(n as int));
        }
        i = i + 1;
    }
    boxes
}

/// The whole startup sequence: the camera first, then the player drawn with
/// the player sprite, then the inventory strip drawn with the box sprite.
/// It holds exactly one camera and exactly one player, and the camera holds
/// the strip's boxes at `(0, 40, -1)`, `(40, 40, -1)`, ..., `(160, 40, -1)`.
pub fn startup_scene<A>(graphics: &PlaceHolderGraphics<A>) -> (scene: Scene)
    ensures
        count_kind(scene.entities@, EntityKind::Camera) == 1,
        count_kind(scene.entities@, EntityKind::Player) == 1,
        count_kind(scene.entities@, EntityKind::InventorySlot) == SLOT_COUNT,
        scene.entities@.len() == 2 + SLOT_COUNT,
        is_camera_spec(scene.entities@[0]),
        is_player_spec(scene.entities@[1], graphics.player_index),
        forall|i: int|
            0 <= i < SLOT_COUNT ==> {
                &&& is_slot_spec(#[trigger] scene.entities@[2 + i], i, graphics.box_index)
                &&& scene.entities@[2 + i].parent == Some(0usize)
            },
{
    let mut scene = Scene::new();
    let ghost s0 = scene.entities@;
    let camera = spawn_camera(&mut scene);
    let ghost s1 = scene.entities@;
    proof {
        assert(s1 =~= s0.push(s1[0]));
        lemma_count_push(s0, s1[0], EntityKind::Camera);
        lemma_count_push(s0, s1[0], EntityKind::Player);
        lemma_count_push(s0, s1[0], EntityKind::InventorySlot);
    }
    let player = spawn_player(&mut scene, graphics.player_index);
    let ghost s2 = scene.entities@;
    proof {
        assert(s2 =~= s1.push(s2[1]));
        lemma_count_push(s1, s2[1], EntityKind::Camera);
        lemma_count_push(s1, s2[1], EntityKind::Player);
        lemma_count_push(s1, s2[1], EntityKind::InventorySlot);
    }
    let _boxes = spawn_inventory_ui(&mut scene, graphics.box_index);
    proof {
        assert forall|i: int| 0 <= i < SLOT_COUNT implies (#[trigger] scene.entities@[2 + i]).parent == Some(0usize) by {
            assert(is_slot_spec(scene.entities@[2 + i], i, graphics.box_index));
            assert(scene.entities@.take(2) =~= s2);
        }
        assert(scene.entities@[0] == scene.entities@.take(2)[0]);
        assert(scene.entities@[1] == scene.entities@.take(2)[1]);
    }
    scene
}

} // verus!
