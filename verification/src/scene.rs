//! The world as it starts: one camera, the bodies, and the collision shapes
//! that hang on them.
//!
//! Bodies and shapes live in two flat lists. A shape names its body by that
//! body's index; nothing is nested.

use vstd::prelude::*;
use crate::camera::{Position, FIXED_DEPTH};
use crate::layers::{is_player, is_player_spec, lemma_inert, lemma_layer_bits, CollisionLayers, Layer};
use crate::units::whole;

verus! {

/// Downward acceleration, in hundredths of a distance unit per second squared.
pub const GRAVITY: i32 = 40_000;

/// Whether a body moves.
#[derive(Clone, Copy, Debug, PartialEq, Eq)]
pub enum RigidBody {
    /// Never moves and carries no velocity.
    Static,
    /// Moves under gravity and under collisions.
    Dynamic,
}

/// The outline of a collision shape. Lengths are in hundredths.
#[derive(Clone, Copy, Debug, PartialEq, Eq)]
pub enum CollisionShape {
    /// A box, by half its width and half its height; the corners may be
    /// rounded by a radius that is added around the box.
    Cuboid { half_width: i32, half_height: i32, border_radius: Option<i32> },
    /// A disc.
    Sphere { radius: i32 },
    /// A segment of half length `half_segment` with a disc at each end.
    Capsule { half_segment: i32, radius: i32 },
}

impl CollisionShape {
    /// Every length is positive; a border radius may be zero.
    pub open spec fn wf(self) -> bool {
        match self {
            CollisionShape::Cuboid { half_width, half_height, border_radius } => {
                &&& half_width > 0
                &&& half_height > 0
                &&& border_radius matches Some(r) ==> r >= 0
            },
            CollisionShape::Sphere { radius } => radius > 0,
            CollisionShape::Capsule { half_segment, radius } => half_segment > 0 && radius > 0,
        }
    }

    /// Checks the lengths.
    pub fn is_valid(&self) -> (r: bool)
        ensures
            r == self.wf(),
    {
        match *self {
            CollisionShape::Cuboid { half_width, half_height, border_radius } => {
                let border_ok = match border_radius {
                    Some(r) => r >= 0,
                    None => true,
                };
                half_width > 0 && half_height > 0 && border_ok
            },
            CollisionShape::Sphere { radius } => radius > 0,
            CollisionShape::Capsule { half_segment, radius } => half_segment > 0 && radius > 0,
        }
    }
}

/// One rigid body. Coordinates are in hundredths.
#[derive(Clone, Copy, Debug, PartialEq, Eq)]
pub struct Body {
    pub kind: RigidBody,
    pub x: i32,
    pub y: i32,
    /// The body that the keys steer and the bounce acts on.
    pub player: bool,
    /// Physics may not turn this body; only steering does.
    pub rotation_locked: bool,
    /// The body carries a velocity that the bounce may rewrite.
    pub has_velocity: bool,
}

/// Where a shape sits relative to its body.
#[derive(Clone, Copy, Debug, PartialEq, Eq)]
pub enum Placement {
    /// On the body itself.
    OnBody,
    /// A part of the body, shifted by an offset in hundredths.
    Part { x: i32, y: i32 },
}

/// One collision shape and the body that owns it.
#[derive(Clone, Copy, Debug, PartialEq, Eq)]
pub struct Shape {
    /// Index of the owning body.
    pub owner: usize,
    pub placement: Placement,
    pub collider: CollisionShape,
    /// The shape's layers; without any it collides with everything.
    pub layers: Option<CollisionLayers>,
    /// Marks the tip of the pogo stick.
    pub pogo_stick: bool,
}

impl Shape {
    /// The layers that the shape counts as having.
    pub open spec fn effective_layers(self) -> CollisionLayers {
        match self.layers {
            Some(layers) => layers,
            None => CollisionLayers { groups: 0xffff_ffff, masks: 0xffff_ffff },
        }
    }

    /// The shape is the player's contact with the world.
    pub open spec fn is_contact(self) -> bool {
        is_player_spec(self.effective_layers())
    }

    /// The shape collides with nothing.
    pub open spec fn is_inert(self) -> bool {
        self.layers == Some(CollisionLayers { groups: 0, masks: 0 })
    }

    /// The layers that the shape counts as having.
    pub fn layers_or_default(&self) -> (r: CollisionLayers)
        ensures
            r == self.effective_layers(),
    {
        match self.layers {
            Some(layers) => layers,
            None => CollisionLayers::default(),
        }
    }

    /// Whether the shape is the player's contact with the world.
    pub fn touches_world_as_player(&self) -> (r: bool)
        ensures
            r == self.is_contact(),
    {
        is_player(self.layers_or_default())
    }

    /// Whether the shape collides with nothing.
    pub fn collides_with_nothing(&self) -> (r: bool)
        ensures
            r == self.is_inert(),
    {
        match self.layers {
            Some(layers) => layers.groups == 0 && layers.masks == 0,
            None => false,
        }
    }
}

/// Why a query for the one item of its kind failed.
#[derive(Clone, Copy, Debug, PartialEq, Eq)]
pub enum QueryError {
    /// There is none.
    Missing,
    /// There are two or more.
    Ambiguous,
}

/// How the player's body is put together.
#[derive(Clone, Copy, Debug, PartialEq, Eq)]
pub enum PlayerBody {
    /// One collider on the body itself, which is the contact shape.
    Single(CollisionShape),
    /// Three parts: the tip of the pogo stick, which is the contact shape,
    /// and a trunk and a head that collide with nothing.
    Composite,
}

/// The starting world.
#[derive(Debug, PartialEq)]
pub struct Scene {
    /// Where the one camera starts.
    pub camera: Position<i32>,
    pub bodies: Vec<Body>,
    pub shapes: Vec<Shape>,
    /// Downward acceleration, in hundredths.
    pub gravity: i32,
}

impl Scene {
    /// Body `p` is the player, and no other body is.
    pub open spec fn sole_player(self, p: int) -> bool {
        &&& 0 <= p < self.bodies@.len()
        &&& self.bodies@[p].player
        &&& forall|j: int| 0 <= j < self.bodies@.len() && (#[trigger] self.bodies@[j]).player ==> j == p
    }

    /// Shape `c` is the contact shape, and no other shape is.
    pub open spec fn sole_contact(self, c: int) -> bool {
        &&& 0 <= c < self.shapes@.len()
        &&& self.shapes@[c].is_contact()
        &&& forall|j: int|
            0 <= j < self.shapes@.len() && (#[trigger] self.shapes@[j]).is_contact() ==> j == c
    }

    /// No body is the player.
    pub open spec fn no_player(self) -> bool {
        forall|j: int| 0 <= j < self.bodies@.len() ==> !(#[trigger] self.bodies@[j]).player
    }

    /// Two different bodies are the player.
    pub open spec fn two_players(self) -> bool {
        exists|j: int, k: int|
            0 <= j < k < self.bodies@.len() && (#[trigger] self.bodies@[j]).player && (
            #[trigger] self.bodies@[k]).player
    }

    /// No shape is a contact shape.
    pub open spec fn no_contact(self) -> bool {
        forall|j: int| 0 <= j < self.shapes@.len() ==> !(#[trigger] self.shapes@[j]).is_contact()
    }

    /// Two different shapes are contact shapes.
    pub open spec fn two_contacts(self) -> bool {
        exists|j: int, k: int|
            0 <= j < k < self.shapes@.len() && (#[trigger] self.shapes@[j]).is_contact() && (
            #[trigger] self.shapes@[k]).is_contact()
    }

    /// What a body must satisfy on its own.
    pub open spec fn body_ok(body: Body) -> bool {
        &&& body.has_velocity ==> body.kind == RigidBody::Dynamic
        &&& body.player ==> body.kind == RigidBody::Dynamic && body.rotation_locked
            && body.has_velocity
    }

    /// What a shape must satisfy, given the bodies.
    pub open spec fn shape_ok(self, shape: Shape) -> bool {
        &&& shape.owner < self.bodies@.len()
        &&& shape.collider.wf()
        &&& shape.is_contact() ==> self.bodies@[shape.owner as int].player
        &&& shape.pogo_stick ==> shape.is_contact()
        &&& self.bodies@[shape.owner as int].player && !shape.is_contact() ==> shape.is_inert()
    }

    /// The scene can be played:
    /// - there is exactly one player; it is dynamic, carries a velocity and
    ///   is turned by steering alone;
    /// - only dynamic bodies carry a velocity;
    /// - every shape has a body and positive lengths;
    /// - there is exactly one contact shape, and it belongs to the player;
    /// - the tip of the pogo stick, where there is one, is the contact shape;
    /// - the player's other shapes collide with nothing;
    /// - gravity does not point upward.
    pub open spec fn wf(self) -> bool {
        &&& exists|p: int| self.sole_player(p)
        &&& exists|c: int| self.sole_contact(c)
        &&& forall|i: int| 0 <= i < self.bodies@.len() ==> Self::body_ok(#[trigger] self.bodies@[i])
        &&& forall|i: int| 0 <= i < self.shapes@.len() ==> self.shape_ok(#[trigger] self.shapes@[i])
        &&& self.gravity >= 0
    }

    /// Finds the one body that is the player.
    pub fn player(&self) -> (r: Result<usize, QueryError>)
        ensures
            r matches Ok(p) ==> self.sole_player(p as int),
            r is Ok <==> exists|p: int| self.sole_player(p),
            r == Err::<usize, QueryError>(QueryError::Missing) <==> self.no_player(),
            r == Err::<usize, QueryError>(QueryError::Ambiguous) <==> self.two_players(),
    {
        let mut found: Option<usize> = None;
        let mut i: usize = 0;
        while i < self.bodies.len()
            invariant
                i <= self.bodies@.len(),
                match found {
                    Some(p) => p < i && self.bodies@[p as int].player && forall|j: int|
                        0 <= j < i && (#[trigger] self.bodies@[j]).player ==> j == p,
                    None => forall|j: int| 0 <= j < i ==> !(#[trigger] self.bodies@[j]).player,
                },
            decreases self.bodies@.len() - i,
        {
            if self.bodies[i].player {
                match found {
                    Some(_) => {
                        return Err(QueryError::Ambiguous);
                    },
                    None => {
                        found = Some(i);
                    },
                }
            }
            i += 1;
        }
        match found {
            Some(p) => {
                assert(self.sole_player(p as int));
                Ok(p)
            },
            None => Err(QueryError::Missing),
        }
    }

    /// Finds the one shape that is the player's contact with the world.
    pub fn contact(&self) -> (r: Result<usize, QueryError>)
        ensures
            r matches Ok(c) ==> self.sole_contact(c as int),
            r is Ok <==> exists|c: int| self.sole_contact(c),
            r == Err::<usize, QueryError>(QueryError::Missing) <==> self.no_contact(),
            r == Err::<usize, QueryError>(QueryError::Ambiguous) <==> self.two_contacts(),
    {
        let mut found: Option<usize> = None;
        let mut i: usize = 0;
        while i < self.shapes.len()
            invariant
                i <= self.shapes@.len(),
                match found {
                    Some(c) => c < i && self.shapes@[c as int].is_contact() && forall|j: int|
                        0 <= j < i && (#[trigger] self.shapes@[j]).is_contact() ==> j == c,
                    None => forall|j: int|
                        0 <= j < i ==> !(#[trigger] self.shapes@[j]).is_contact(),
                },
            decreases self.shapes@.len() - i,
        {
            if self.shapes[i].touches_world_as_player() {
                match found {
                    Some(_) => {
                        return Err(QueryError::Ambiguous);
                    },
                    None => {
                        found = Some(i);
                    },
                }
            }
            i += 1;
        }
        match found {
            Some(c) => {
                assert(self.sole_contact(c as int));
                Ok(c)
            },
            None => Err(QueryError::Missing),
        }
    }

    /// Checks one body.
    pub fn check_body(body: &Body) -> (r: bool)
        ensures
            r == Self::body_ok(*body),
    {
        let dynamic = match body.kind {
            RigidBody::Dynamic => true,
            RigidBody::Static => false,
        };
        (!body.has_velocity || dynamic) && (!body.player || (dynamic && body.rotation_locked
            && body.has_velocity))
    }

    /// Checks one shape against the bodies.
    pub fn check_shape(&self, shape: &Shape) -> (r: bool)
        ensures
            r == self.shape_ok(*shape),
    {
        if shape.owner >= self.bodies.len() || !shape.collider.is_valid() {
            return false;
        }
        let owned_by_player = self.bodies[shape.owner].player;
        let contact = shape.touches_world_as_player();
        (!contact || owned_by_player) && (!shape.pogo_stick || contact) && (!owned_by_player
            || contact || shape.collides_with_nothing())
    }

    /// Checks that the scene can be played.
    pub fn is_valid(&self) -> (r: bool)
        ensures
            r == self.wf(),
    {
        if self.gravity < 0 {
            return false;
        }
        if self.player().is_err() || self.contact().is_err() {
            return false;
        }
        let mut i: usize = 0;
        while i < self.bodies.len()
            invariant
                i <= self.bodies@.len(),
                forall|j: int| 0 <= j < i ==> Self::body_ok(#[trigger] self.bodies@[j]),
            decreases self.bodies@.len() - i,
        {
            if !Self::check_body(&self.bodies[i]) {
                return false;
            }
            i += 1;
        }
        let mut k: usize = 0;
        while k < self.shapes.len()
            invariant
                k <= self.shapes@.len(),
                forall|j: int| 0 <= j < k ==> self.shape_ok(#[trigger] self.shapes@[j]),
            decreases self.shapes@.len() - k,
        {
            if !self.check_shape(&self.shapes[k]) {
                return false;
            }
            k += 1;
        }
        true
    }
}

/// The bodies that every starting world has: an obstacle that is there
/// for the physics alone, the floor, and the player.
pub open spec fn starting_bodies() -> Seq<Body> {
    seq![
        Body {
            kind: RigidBody::Dynamic,
            x: 1_000,
            y: 0,
            player: false,
            rotation_locked: false,
            has_velocity: false,
        },
        Body {
            kind: RigidBody::Static,
            x: 0,
            y: -20_000i32,
            player: false,
            rotation_locked: false,
            has_velocity: false,
        },
        Body {
            kind: RigidBody::Dynamic,
            x: -40_000i32,
            y: 0,
            player: true,
            rotation_locked: true,
            has_velocity: true,
        },
    ]
}

/// The shapes of the obstacle and of the floor: two boxes without layers of
/// their own, the floor wide and flat.
pub open spec fn scenery_shapes() -> Seq<Shape> {
    seq![
        Shape {
            owner: 0,
            placement: Placement::OnBody,
            collider: CollisionShape::Cuboid {
                half_width: 1_000,
                half_height: 5_000,
                border_radius: None,
            },
            layers: None,
            pogo_stick: false,
        },
        Shape {
            owner: 1,
            placement: Placement::OnBody,
            collider: CollisionShape::Cuboid {
                half_width: 1_000_000,
                half_height: 10_000,
                border_radius: None,
            },
            layers: None,
            pogo_stick: false,
        },
    ]
}

/// The layers of the contact shape: member of `Player`, colliding with
/// `World`.
pub open spec fn contact_layers() -> CollisionLayers {
    CollisionLayers { groups: Layer::Player.bits(), masks: Layer::World.bits() }
}

/// The shapes of the player's body.
pub open spec fn player_shapes(body: PlayerBody) -> Seq<Shape> {
    match body {
        PlayerBody::Single(collider) => seq![
            Shape {
                owner: 2,
                placement: Placement::OnBody,
                collider,
                layers: Some(contact_layers()),
                pogo_stick: false,
            },
        ],
        PlayerBody::Composite => seq![
            Shape {
                owner: 2,
                placement: Placement::Part { x: 1_200, y: -8_500i32 },
                collider: CollisionShape::Sphere { radius: 1_000 },
                layers: Some(contact_layers()),
                pogo_stick: true,
            },
            Shape {
                owner: 2,
                placement: Placement::Part { x: -500i32, y: 0 },
                collider: CollisionShape::Capsule { half_segment: 6_000, radius: 3_500 },
                layers: Some(CollisionLayers { groups: 0, masks: 0 }),
                pogo_stick: false,
            },
            Shape {
                owner: 2,
                placement: Placement::Part { x: -1_000i32, y: 5_500 },
                collider: CollisionShape::Sphere { radius: 3_500 },
                layers: Some(CollisionLayers { groups: 0, masks: 0 }),
                pogo_stick: false,
            },
        ],
    }
}

impl PlayerBody {
    /// The colliders of the body have positive lengths.
    pub open spec fn wf(self) -> bool {
        match self {
            PlayerBody::Single(collider) => collider.wf(),
            PlayerBody::Composite => true,
        }
    }
}

/// Builds the starting world: the camera at the origin, the obstacle, the
/// floor, and the player with the body asked for.
///
/// The world can be played whenever the body's own collider has positive
/// lengths, which the composite body always has.
pub fn spawn(body: PlayerBody) -> (scene: Scene)
    ensures
        scene.camera == (Position::<i32> { x: 0, y: 0, z: FIXED_DEPTH }),
        scene.gravity == GRAVITY,
        scene.bodies@ == starting_bodies(),
        scene.shapes@ == scenery_shapes() + player_shapes(body),
        scene.wf() == body.wf(),
        scene.sole_player(2),
        scene.sole_contact(2),
{
    let mut bodies: Vec<Body> = Vec::new();
    let mut shapes: Vec<Shape> = Vec::new();
    let unlayered: Option<CollisionLayers> = None;

    // Obstacle
    bodies.push(
        Body {
            kind: RigidBody::Dynamic,
            x: whole(10),
            y: 0,
            player: false,
            rotation_locked: false,
            has_velocity: false,
        },
    );
    shapes.push(
        Shape {
            owner: 0,
            placement: Placement::OnBody,
            collider: CollisionShape::Cuboid {
                half_width: whole(10),
                half_height: whole(50),
                border_radius: None,
            },
            layers: unlayered,
            pogo_stick: false,
        },
    );

    // Floor
    bodies.push(
        Body {
            kind: RigidBody::Static,
            x: 0,
            y: whole(-200),
            player: false,
            rotation_locked: false,
            has_velocity: false,
        },
    );
    shapes.push(
        Shape {
            owner: 1,
            placement: Placement::OnBody,
            collider: CollisionShape::Cuboid {
                half_width: whole(10_000),
                half_height: whole(100),
                border_radius: None,
            },
            layers: unlayered,
            pogo_stick: false,
        },
    );

    // Player
    bodies.push(
        Body {
            kind: RigidBody::Dynamic,
            x: whole(-400),
            y: 0,
            player: true,
            rotation_locked: true,
            has_velocity: true,
        },
    );
    match body {
        PlayerBody::Single(collider) => {
            shapes.push(
                Shape {
                    owner: 2,
                    placement: Placement::OnBody,
                    collider,
                    layers: Some(CollisionLayers::new(Layer::Player, Layer::World)),
                    pogo_stick: false,
                },
            );
        },
        PlayerBody::Composite => {
            // Pogo stick
            shapes.push(
                Shape {
                    owner: 2,
                    placement: Placement::Part { x: whole(12), y: whole(-85) },
                    collider: CollisionShape::Sphere { radius: whole(10) },
                    layers: Some(CollisionLayers::new(Layer::Player, Layer::World)),
                    pogo_stick: true,
                },
            );
            // Trunk
            shapes.push(
                Shape {
                    owner: 2,
                    placement: Placement::Part { x: whole(-5), y: 0 },
                    collider: CollisionShape::Capsule {
                        half_segment: whole(60),
                        radius: whole(35),
                    },
                    layers: Some(CollisionLayers::none()),
                    pogo_stick: false,
                },
            );
            // Head
            shapes.push(
                Shape {
                    owner: 2,
                    placement: Placement::Part { x: whole(-10), y: whole(55) },
                    collider: CollisionShape::Sphere { radius: whole(35) },
                    layers: Some(CollisionLayers::none()),
                    pogo_stick: false,
                },
            );
        },
    }
    let scene = Scene {
        camera: Position { x: 0, y: 0, z: FIXED_DEPTH },
        bodies,
        shapes,
        gravity: GRAVITY,
    };
    proof {
        assert(scene.bodies@ =~= starting_bodies());
        assert(scene.shapes@ =~= scenery_shapes() + player_shapes(body));
        lemma_starting_world(scene, body);
    }
    scene
}

/// A world made of the starting bodies and shapes has body 2 as its one
/// player and shape 2 as its one contact shape, and can be played exactly
/// when the player's own collider has positive lengths.
pub proof fn lemma_starting_world(scene: Scene, body: PlayerBody)
    requires
        scene.bodies@ == starting_bodies(),
        scene.shapes@ == scenery_shapes() + player_shapes(body),
        scene.gravity == GRAVITY,
    ensures
        scene.sole_player(2),
        scene.sole_contact(2),
        scene.wf() == body.wf(),
{
    lemma_layer_bits();
    let all = CollisionLayers { groups: 0xffff_ffff, masks: 0xffff_ffff };
    let nothing = CollisionLayers { groups: 0, masks: 0 };
    assert(all.has_group(Layer::World)) by {
        assert(0xffff_ffffu32 & 1u32 != 0) by (bit_vector);
    }
    assert(!nothing.has_group(Layer::Player)) by {
        assert(0u32 & 2u32 == 0) by (bit_vector);
    }
    assert(is_player_spec(contact_layers()));
    assert(!is_player_spec(all));
    assert(!is_player_spec(nothing));
    let shapes = scene.shapes@;
    let bodies = scene.bodies@;
    assert(bodies.len() == 3);
    assert(shapes[0] == scenery_shapes()[0]);
    assert(shapes[1] == scenery_shapes()[1]);
    assert(shapes[2] == player_shapes(body)[0]);
    assert(!shapes[0].is_contact());
    assert(!shapes[1].is_contact());
    assert(shapes[2].is_contact());
    match body {
        PlayerBody::Single(collider) => {
            assert(shapes.len() == 3);
        },
        PlayerBody::Composite => {
            assert(shapes.len() == 5);
            assert(shapes[3] == player_shapes(body)[1]);
            assert(shapes[4] == player_shapes(body)[2]);
            assert(!shapes[3].is_contact());
            assert(!shapes[4].is_contact());
            assert(shapes[3].is_inert());
            assert(shapes[4].is_inert());
        },
    }
    assert(scene.sole_player(2));
    assert(scene.sole_contact(2));
    if body.wf() {
        assert forall|i: int| 0 <= i < shapes.len() implies scene.shape_ok(
            #[trigger] shapes[i],
        ) by {
            if i == 0 {
            } else if i == 1 {
            } else if i == 2 {
            } else if i == 3 {
            } else {
            }
        }
        assert(scene.wf());
    } else {
        assert(!scene.shape_ok(shapes[2]));
    }
}

/// In a world that can be played, a shape of the player other than the
/// contact shape collides with no shape at all, whatever that shape's
/// layers: the contact shape is the player's only surface.
pub proof fn lemma_player_parts_are_inert(scene: Scene, part: int, other: CollisionLayers)
    requires
        scene.wf(),
        0 <= part < scene.shapes@.len(),
        scene.bodies@[scene.shapes@[part].owner as int].player,
        !scene.shapes@[part].is_contact(),
    ensures
        !scene.shapes@[part].effective_layers().interacts(other),
        !other.interacts(scene.shapes@[part].effective_layers()),
{
    assert(scene.shape_ok(scene.shapes@[part]));
    lemma_inert(scene.shapes@[part].effective_layers());
}

/// In a world that can be played, both queries succeed, and the contact
/// shape they find hangs on the player they find.
pub proof fn lemma_playable_world_has_player_and_contact(scene: Scene) -> (found: (int, int))
    requires
        scene.wf(),
    ensures
        scene.sole_player(found.0),
        scene.sole_contact(found.1),
        scene.shapes@[found.1].owner == found.0,
        scene.bodies@[found.0].kind == RigidBody::Dynamic,
        !scene.no_player() && !scene.two_players(),
        !scene.no_contact() && !scene.two_contacts(),
{
    let p = choose|p: int| scene.sole_player(p);
    let c = choose|c: int| scene.sole_contact(c);
    assert(scene.shape_ok(scene.shapes@[c]));
    assert(Scene::body_ok(scene.bodies@[p]));
    (p, c)
}

} // verus!
