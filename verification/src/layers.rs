//! Collision layers: which groups a shape belongs to, which groups it
//! collides with, and the filter that tells the player's contact shape from
//! scenery.

use vstd::prelude::*;

verus! {

/// A collision group. Each layer owns one bit of a 32-bit mask.
#[derive(Clone, Copy, Debug, PartialEq, Eq)]
pub enum Layer {
    /// Scenery: the floor and everything else that is not the player.
    World,
    /// The player's own shapes.
    Player,
}

impl Layer {
    /// The bit that stands for this layer.
    pub open spec fn bits(self) -> u32 {
        match self {
            Layer::World => 1,
            Layer::Player => 2,
        }
    }

    /// The bit that stands for this layer.
    pub fn to_bits(self) -> (r: u32)
        ensures
            r == self.bits(),
    {
        match self {
            Layer::World => 1,
            Layer::Player => 2,
        }
    }

    /// The bits of all layers together.
    pub fn all_bits() -> (r: u32)
        ensures
            r == 3,
            r == Layer::World.bits() | Layer::Player.bits(),
    {
        assert(1u32 | 2u32 == 3u32) by (bit_vector);
        3
    }
}

/// The layers of one collision shape: the groups it is a member of and the
/// groups it interacts with, each a set of bits.
#[derive(Clone, Copy, Debug, PartialEq, Eq)]
pub struct CollisionLayers {
    /// Bits of the groups the shape belongs to.
    pub groups: u32,
    /// Bits of the groups the shape collides with.
    pub masks: u32,
}

impl CollisionLayers {
    /// Whether `layer` is among the groups.
    pub open spec fn has_group(self, layer: Layer) -> bool {
        self.groups & layer.bits() != 0
    }

    /// Whether `layer` is among the masks.
    pub open spec fn has_mask(self, layer: Layer) -> bool {
        self.masks & layer.bits() != 0
    }

    /// Whether two shapes with these layers can collide: some group of each
    /// is in the masks of the other.
    pub open spec fn interacts(self, other: CollisionLayers) -> bool {
        (self.groups & other.masks) != 0 && (other.groups & self.masks) != 0
    }

    /// Layers straight from their bits.
    pub fn from_bits(groups: u32, masks: u32) -> (r: CollisionLayers)
        ensures
            r.groups == groups,
            r.masks == masks,
    {
        CollisionLayers { groups, masks }
    }

    /// Member of one group, interacting with one group.
    pub fn new(group: Layer, mask: Layer) -> (r: CollisionLayers)
        ensures
            r.groups == group.bits(),
            r.masks == mask.bits(),
            forall|l: Layer| r.has_group(l) <==> l == group,
            forall|l: Layer| r.has_mask(l) <==> l == mask,
    {
        proof {
            lemma_layer_bits();
        }
        CollisionLayers { groups: group.to_bits(), masks: mask.to_bits() }
    }

    /// Member of nothing, interacting with nothing.
    pub fn none() -> (r: CollisionLayers)
        ensures
            r.groups == 0,
            r.masks == 0,
            forall|l: Layer| !r.has_group(l) && !r.has_mask(l),
            forall|other: CollisionLayers| !r.interacts(other) && !other.interacts(r),
    {
        let r = CollisionLayers { groups: 0, masks: 0 };
        proof {
            lemma_inert(r);
            assert forall|l: Layer| !r.has_group(l) && !r.has_mask(l) by {
                let b = l.bits();
                assert(0u32 & b == 0) by (bit_vector);
            }
        }
        r
    }

    /// Whether `layer` is among the groups.
    pub fn contains_group(self, layer: Layer) -> (r: bool)
        ensures
            r == self.has_group(layer),
    {
        (self.groups & layer.to_bits()) != 0
    }

    /// Whether `layer` is among the masks.
    pub fn contains_mask(self, layer: Layer) -> (r: bool)
        ensures
            r == self.has_mask(layer),
    {
        (self.masks & layer.to_bits()) != 0
    }

    /// Whether a shape with these layers and one with `other` can collide.
    pub fn interacts_with(self, other: CollisionLayers) -> (r: bool)
        ensures
            r == self.interacts(other),
    {
        (self.groups & other.masks) != 0 && (other.groups & self.masks) != 0
    }
}

impl Default for CollisionLayers {
    /// Every bit set on both sides: what a shape without layers of its own
    /// counts as. It is in every group and collides with every group.
    fn default() -> (r: CollisionLayers)
        ensures
            r.groups == 0xffff_ffffu32,
            r.masks == 0xffff_ffffu32,
            forall|l: Layer| r.has_group(l) && r.has_mask(l),
    {
        proof {
            assert(0xffff_ffffu32 & 1u32 != 0) by (bit_vector);
            assert(0xffff_ffffu32 & 2u32 != 0) by (bit_vector);
        }
        CollisionLayers { groups: 0xffff_ffff, masks: 0xffff_ffff }
    }
}

/// A shape is the player's when it is in group `Player` and not in group
/// `World`.
pub open spec fn is_player_spec(layers: CollisionLayers) -> bool {
    layers.has_group(Layer::Player) && !layers.has_group(Layer::World)
}

/// Tells the player's contact shape from scenery.
#[verifier::when_used_as_spec(is_player_spec)]
pub fn is_player(layers: CollisionLayers) -> (r: bool)
    ensures
        r == is_player_spec(layers),
{
    layers.contains_group(Layer::Player) && !layers.contains_group(Layer::World)
}

/// The two layers own different bits, and each bit tests only itself.
pub proof fn lemma_layer_bits()
    ensures
        forall|a: Layer, b: Layer| (#[trigger] a.bits() & #[trigger] b.bits() != 0) <==> a == b,
{
    assert(1u32 & 1u32 != 0) by (bit_vector);
    assert(2u32 & 2u32 != 0) by (bit_vector);
    assert(1u32 & 2u32 == 0) by (bit_vector);
    assert(2u32 & 1u32 == 0) by (bit_vector);
}

/// Layers without any group, or without any mask, interact with nothing.
pub proof fn lemma_inert(layers: CollisionLayers)
    requires
        layers.groups == 0 || layers.masks == 0,
    ensures
        forall|other: CollisionLayers| !layers.interacts(other) && !other.interacts(layers),
{
    assert forall|other: CollisionLayers| !layers.interacts(other) && !other.interacts(
        layers,
    ) by {
        let g = other.groups;
        let m = other.masks;
        assert(0u32 & m == 0) by (bit_vector);
        assert(g & 0u32 == 0) by (bit_vector);
    }
}

} // verus!
