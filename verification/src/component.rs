//! The clipmap component, the choice of the active clipmap, and the system
//! that loads a clipmap's meshes and textures exactly once.

use vstd::prelude::*;
use crate::placement::block_dim;
use crate::units::{Ratio, RatioPair};

verus! {

/// Key of a mesh in the asset store. The store owns the mesh.
#[derive(Clone, Copy, Debug, PartialEq, Eq, Structural)]
pub struct MeshHandle {
    pub id: u32,
}

/// Key of a texture in the asset store. The store owns the texture.
#[derive(Clone, Copy, Debug, PartialEq, Eq, Structural)]
pub struct TextureHandle {
    pub id: u32,
}

/// Identifier of an entity of the host engine.
#[derive(Clone, Copy, Debug, PartialEq, Eq, Structural)]
pub struct Entity {
    pub id: u32,
}

/// A clipmap size is one less than a power of two: `(size + 1) & size == 0`.
pub open spec fn valid_size(size: u32) -> bool {
    size < u32::MAX && ((size + 1) as u32) & size == 0
}

/// Width of the blend region between two rings, a tenth of the size.
pub open spec fn transition_width(size: u32) -> Ratio {
    Ratio { num: size as i64, den: 10 }
}

/// Where blending starts: `(size - 1) / 2 - transition_width - 1`, written
/// over the common denominator ten.
pub open spec fn alpha_offset(size: u32) -> Ratio {
    Ratio { num: (5 * (size - 1) - size - 10) as i64, den: 10 }
}

/// The reciprocal of the transition width, `10 / size`.
pub open spec fn one_over_width(size: u32) -> Ratio {
    Ratio { num: 10, den: size as i64 }
}

/// Tells whether `size` is one less than a power of two.
pub fn is_valid_size(size: u32) -> (ok: bool)
    ensures
        ok == valid_size(size),
{
    size < u32::MAX && (size + 1) & size == 0
}

/// For every valid size from three up, the transition width is positive and
/// its reciprocal is finite; the reciprocal times the width is one.
pub proof fn lemma_blend_parameters(size: u32)
    requires
        valid_size(size),
        size >= 3,
    ensures
        transition_width(size).is_positive(),
        one_over_width(size).is_finite(),
        one_over_width(size).is_positive(),
        one_over_width(size).num * transition_width(size).num == one_over_width(size).den
            * transition_width(size).den,
{
}

/// A valid size from three up is one less than a multiple of four, so four
/// blocks per side account for all of its vertices but one.
pub proof fn lemma_valid_size_blocks(size: u32)
    requires
        valid_size(size),
        size >= 3,
    ensures
        4 * block_dim(size) == size + 1,
        block_dim(size) >= 1,
{
    assert((size + 1) as u32 % 4 == 0) by (bit_vector)
        requires
            size < u32::MAX,
            ((size + 1) as u32) & size == 0,
            size >= 3,
    ;
}

/// Runtime state of one terrain clipmap.
#[derive(Clone, Copy, Debug, PartialEq, Eq, Structural)]
pub struct Clipmap {
    /// Set once all meshes and textures have loaded; never cleared.
    pub initialized: bool,
    pub block_mesh: Option<MeshHandle>,
    pub ring_fixup_mesh: Option<MeshHandle>,
    pub l_shape_mesh: Option<MeshHandle>,
    pub elevation: Option<TextureHandle>,
    pub normal: Option<TextureHandle>,
    pub z_color: Option<TextureHandle>,
    /// Vertices per side of the clipmap grid.
    pub size: u32,
    /// Start of the blend region, the same on both axes.
    pub alpha_offset: RatioPair,
    /// Reciprocal width of the blend region, the same on both axes.
    pub one_over_width: RatioPair,
}

/// The handles that the asset pipeline gave out for one clipmap.
#[derive(Clone, Copy, Debug, PartialEq, Eq, Structural)]
pub struct ClipmapAssets {
    pub block_mesh: MeshHandle,
    pub ring_fixup_mesh: MeshHandle,
    pub l_shape_mesh: MeshHandle,
    pub elevation: TextureHandle,
    pub normal: TextureHandle,
    pub z_color: TextureHandle,
}

impl Clipmap {
    /// The clipmap as it is right after construction with `size`.
    pub open spec fn fresh(size: u32) -> Clipmap {
        Clipmap {
            initialized: false,
            block_mesh: None,
            ring_fixup_mesh: None,
            l_shape_mesh: None,
            elevation: None,
            normal: None,
            z_color: None,
            size,
            alpha_offset: RatioPair { x: alpha_offset(size), y: alpha_offset(size) },
            one_over_width: RatioPair { x: one_over_width(size), y: one_over_width(size) },
        }
    }

    /// The blend parameters are the ones derived from the size.
    pub open spec fn wf(self) -> bool {
        &&& valid_size(self.size)
        &&& self.alpha_offset == (RatioPair {
            x: alpha_offset(self.size),
            y: alpha_offset(self.size),
        })
        &&& self.one_over_width == (RatioPair {
            x: one_over_width(self.size),
            y: one_over_width(self.size),
        })
    }

    /// All six handles are set.
    pub open spec fn has_assets(self) -> bool {
        &&& self.block_mesh.is_some()
        &&& self.ring_fixup_mesh.is_some()
        &&& self.l_shape_mesh.is_some()
        &&& self.elevation.is_some()
        &&& self.normal.is_some()
        &&& self.z_color.is_some()
    }

    /// The six handles are exactly `assets`.
    pub open spec fn holds(self, assets: ClipmapAssets) -> bool {
        &&& self.block_mesh == Some(assets.block_mesh)
        &&& self.ring_fixup_mesh == Some(assets.ring_fixup_mesh)
        &&& self.l_shape_mesh == Some(assets.l_shape_mesh)
        &&& self.elevation == Some(assets.elevation)
        &&& self.normal == Some(assets.normal)
        &&& self.z_color == Some(assets.z_color)
    }

    /// A clipmap that is ready has its handles.
    pub open spec fn ready_with_assets(self) -> bool {
        self.initialized ==> self.has_assets()
    }

    /// Tells whether the six handles are exactly `assets`.
    pub fn holds_assets(&self, assets: &ClipmapAssets) -> (ok: bool)
        ensures
            ok == self.holds(*assets),
    {
        let block = match self.block_mesh {
            Some(handle) => handle.id == assets.block_mesh.id,
            None => false,
        };
        let fixup = match self.ring_fixup_mesh {
            Some(handle) => handle.id == assets.ring_fixup_mesh.id,
            None => false,
        };
        let l_shape = match self.l_shape_mesh {
            Some(handle) => handle.id == assets.l_shape_mesh.id,
            None => false,
        };
        let elevation = match self.elevation {
            Some(handle) => handle.id == assets.elevation.id,
            None => false,
        };
        let normal = match self.normal {
            Some(handle) => handle.id == assets.normal.id,
            None => false,
        };
        let z_color = match self.z_color {
            Some(handle) => handle.id == assets.z_color.id,
            None => false,
        };
        block && fixup && l_shape && elevation && normal && z_color
    }

    /// Creates a clipmap of `size` vertices per side with no asset attached.
    /// A size that is not one less than a power of two is a configuration
    /// mistake and not accepted.
    pub fn new(size: u32) -> (clipmap: Clipmap)
        requires
            valid_size(size),
        ensures
            clipmap == Clipmap::fresh(size),
            clipmap.wf(),
            size >= 3 ==> transition_width(size).is_positive() && clipmap.one_over_width.x.is_finite()
                && clipmap.one_over_width.y.is_finite(),
    {
        let wide: i64 = size as i64;
        let offset = Ratio { num: 5 * (wide - 1) - wide - 10, den: 10 };
        let reciprocal = Ratio { num: 10, den: wide };
        Clipmap {
            initialized: false,
            block_mesh: None,
            ring_fixup_mesh: None,
            l_shape_mesh: None,
            elevation: None,
            normal: None,
            z_color: None,
            size,
            alpha_offset: RatioPair { x: offset, y: offset },
            one_over_width: RatioPair { x: reciprocal, y: reciprocal },
        }
    }

    /// The width of the blend region, a tenth of the size.
    pub fn transition_width(&self) -> (width: Ratio)
        ensures
            width == transition_width(self.size),
    {
        Ratio { num: self.size as i64, den: 10 }
    }

    /// Vertices per side of one block, a quarter of `size + 1`.
    pub fn block_dim(&self) -> (n: u32)
        ensures
            n == block_dim(self.size),
    {
        ((self.size as u64 + 1) / 4) as u32
    }

    /// Records the handles that the asset pipeline gave out for this clipmap.
    pub fn attach(&mut self, assets: ClipmapAssets)
        ensures
            final(self).holds(assets),
            *final(self) == (Clipmap {
                block_mesh: Some(assets.block_mesh),
                ring_fixup_mesh: Some(assets.ring_fixup_mesh),
                l_shape_mesh: Some(assets.l_shape_mesh),
                elevation: Some(assets.elevation),
                normal: Some(assets.normal),
                z_color: Some(assets.z_color),
                ..*old(self)
            }),
    {
        self.block_mesh = Some(assets.block_mesh);
        self.ring_fixup_mesh = Some(assets.ring_fixup_mesh);
        self.l_shape_mesh = Some(assets.l_shape_mesh);
        self.elevation = Some(assets.elevation);
        self.normal = Some(assets.normal);
        self.z_color = Some(assets.z_color);
    }
}

impl Default for Clipmap {
    /// A clipmap of fifteen vertices per side.
    fn default() -> (clipmap: Clipmap)
        ensures
            clipmap == Clipmap::fresh(15),
    {
        assert(((15u32 + 1) as u32) & 15u32 == 0) by (bit_vector);
        Clipmap::new(15)
    }
}

/// Names the entity whose clipmap is to be rendered, if one was chosen.
#[derive(Clone, Copy, Debug, PartialEq, Eq, Structural)]
pub struct ActiveClipmap {
    pub entity: Option<Entity>,
}

impl Default for ActiveClipmap {
    fn default() -> (active: ActiveClipmap)
        ensures
            active.entity.is_none(),
    {
        ActiveClipmap { entity: None }
    }
}

/// Scene description of the active clipmap: the position, in the list of
/// entities that a scene creates, of the one to make active.
#[derive(Clone, Copy, Debug, PartialEq, Eq, Structural)]
pub struct ActiveClipmapPrefab(pub usize);

impl ActiveClipmapPrefab {
    /// Makes the entity at this prefab's position the active clipmap.
    pub fn add_to_entity(&self, active: &mut ActiveClipmap, entities: &Vec<Entity>)
        requires
            self.0 < entities@.len(),
        ensures
            final(active).entity == Some(entities@[self.0 as int]),
    {
        active.entity = Some(entities[self.0]);
    }
}

/// What the host engine knows of one entity that matters for the choice of
/// the clipmap to render.
#[derive(Clone, Copy, Debug, PartialEq, Eq, Structural)]
pub struct Candidate {
    pub entity: Entity,
    pub has_clipmap: bool,
    pub has_transform: bool,
}

impl Candidate {
    /// The entity can be rendered: it has a clipmap and a transform.
    pub open spec fn renderable(self) -> bool {
        self.has_clipmap && self.has_transform
    }
}

/// Position of the first renderable candidate that is `wanted`, if `wanted`
/// names an entity, or of the first renderable candidate at all.
pub open spec fn first_renderable(world: Seq<Candidate>, wanted: Option<Entity>) -> Option<int>
    decreases world.len(),
{
    if world.len() == 0 {
        None
    } else {
        match first_renderable(world.drop_last(), wanted) {
            Some(k) => Some(k),
            None => if world.last().renderable() && (wanted.is_none() || wanted == Some(
                world.last().entity,
            )) {
                Some(world.len() - 1)
            } else {
                None
            },
        }
    }
}

/// The clipmap to render: the active entity if it is renderable, else the
/// first renderable entity in the order of `world`.
pub open spec fn chosen_clipmap(world: Seq<Candidate>, active: Option<Entity>) -> Option<int> {
    match first_renderable(world, active) {
        Some(k) => Some(k),
        None => first_renderable(world, None),
    }
}

fn find_renderable(world: &Vec<Candidate>, wanted: Option<Entity>) -> (found: Option<usize>)
    ensures
        match found {
            Some(k) => first_renderable(world@, wanted) == Some(k as int),
            None => first_renderable(world@, wanted).is_none(),
        },
{
    let mut k: usize = 0;
    while k < world.len()
        invariant
            k <= world@.len(),
            first_renderable(world@.take(k as int), wanted).is_none(),
        decreases world@.len() - k,
    {
        let candidate = world[k];
        let wanted_here = match wanted {
            Some(entity) => entity.id == candidate.entity.id,
            None => true,
        };
        proof {
            assert(world@.take(k + 1).drop_last() =~= world@.take(k as int));
            assert(world@.take(k + 1).last() == candidate);
        }
        if candidate.has_clipmap && candidate.has_transform && wanted_here {
            proof {
                lemma_first_renderable_extends(world@, wanted, k + 1);
            }
            return Some(k);
        }
        k = k + 1;
    }
    proof {
        assert(world@.take(k as int) =~= world@);
    }
    None
}

/// A match among the first `k` candidates stays the match for the whole list.
proof fn lemma_first_renderable_extends(world: Seq<Candidate>, wanted: Option<Entity>, k: int)
    requires
        0 <= k <= world.len(),
        first_renderable(world.take(k), wanted).is_some(),
    ensures
        first_renderable(world, wanted) == first_renderable(world.take(k), wanted),
    decreases world.len() - k,
{
    if k < world.len() {
        assert(world.take(k + 1).drop_last() =~= world.take(k));
        lemma_first_renderable_extends(world, wanted, k + 1);
    } else {
        assert(world.take(k) =~= world);
    }
}

/// What `first_renderable` finds is renderable, is the wanted entity where
/// one is wanted, and has no such candidate before it; it finds nothing only
/// where there is no such candidate.
pub proof fn lemma_first_renderable(world: Seq<Candidate>, wanted: Option<Entity>)
    ensures
        match first_renderable(world, wanted) {
            Some(k) => {
                &&& 0 <= k < world.len()
                &&& world[k].renderable()
                &&& wanted.is_none() || wanted == Some(world[k].entity)
                &&& forall|q: int|
                    0 <= q < k ==> !(#[trigger] world[q].renderable() && (wanted.is_none()
                        || wanted == Some(world[q].entity)))
            },
            None => forall|q: int|
                0 <= q < world.len() ==> !(#[trigger] world[q].renderable() && (wanted.is_none()
                    || wanted == Some(world[q].entity))),
        },
    decreases world.len(),
{
    if world.len() > 0 {
        let front = world.drop_last();
        lemma_first_renderable(front, wanted);
        assert forall|q: int| 0 <= q < front.len() implies front[q] == world[q] by {}
    }
}

/// Chooses the clipmap to render this frame and returns its position in
/// `world`: the active entity if it has both a clipmap and a transform, else
/// the first entity of `world` that has both, else none.
pub fn get_clipmap(active: &ActiveClipmap, world: &Vec<Candidate>) -> (chosen: Option<usize>)
    ensures
        match chosen {
            Some(k) => chosen_clipmap(world@, active.entity) == Some(k as int),
            None => chosen_clipmap(world@, active.entity).is_none(),
        },
{
    let direct = match active.entity {
        Some(entity) => find_renderable(world, Some(entity)),
        None => find_renderable(world, None),
    };
    match direct {
        Some(k) => Some(k),
        None => find_renderable(world, None),
    }
}

} // verus!
