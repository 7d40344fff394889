//! The clipmap render pass as a list of commands for the host renderer.
//!
//! The pass decides what is bound, set and drawn, and in which order; the
//! host carries the commands out. Rings are drawn from the outermost to the
//! innermost, and every mesh is bound once per ring, before all draws that
//! use it.

use vstd::prelude::*;
use vstd::arithmetic::power2::pow2;
use crate::component::{Clipmap, MeshHandle, TextureHandle};
use crate::loading::TextureKind;
use crate::placement::{
    block_offset, texture_offset, trim_offset, trim_units, world_offset, TrimOrientation,
    BLOCKS_PER_RING,
};
use crate::units::{Point, RatioPair};

verus! {

/// Vertical exaggeration of the sampled elevation.
pub const Z_SCALE_FACTOR: u32 = 255;

/// Scale of the elevation on the colour ramp.
pub const Z_TEX_SCALE_FACTOR: u32 = 100;

/// Ring levels are numbered from 0, the finest; level `l` is drawn at scale
/// `2^l`, which has to fit 32 bits.
pub const MAX_LEVELS: u32 = 32;

/// The three meshes of a clipmap.
#[derive(Clone, Copy, Debug, PartialEq, Eq, Structural)]
pub enum MeshKind {
    Block,
    RingFixup,
    LShape,
}

/// One instruction to the host renderer.
#[derive(Clone, Copy, Debug, PartialEq, Eq, Structural)]
pub enum Command {
    /// Bind a texture and its sampler to the slot of `kind`.
    BindTexture { kind: TextureKind, texture: TextureHandle },
    /// Set the uniform `size`.
    SetSize { size: u32 },
    /// Set the uniform `z_scale_factor`.
    SetZScaleFactor { factor: u32 },
    /// Set the uniform `z_tex_scale_factor`.
    SetZTexScaleFactor { factor: u32 },
    /// Set the uniform `alpha_offset`.
    SetAlphaOffset { alpha: RatioPair },
    /// Set the uniform `one_over_width`.
    SetOneOverWidth { reciprocal: RatioPair },
    /// Set the uniform `color_overwrite` to the tint that marks `mesh`.
    SetColorOverwrite { mesh: MeshKind },
    /// Bind the vertex attributes of a mesh.
    BindMesh { mesh: MeshKind, handle: MeshHandle },
    /// Set the uniform `scale_factor` to the grid spacing `scale` on both
    /// axes and the world offset `offset` (half units).
    SetScaleFactor { scale: u32, offset: Point },
    /// Set the uniform `fine_block_orig` to the size of one texel,
    /// `1 / texture_size` on both axes, and the texture origin `origin`
    /// (half units).
    SetFineBlockOrig { texture_size: u32, origin: Point },
    /// Draw the bound mesh once.
    Draw { mesh: MeshKind },
    /// Clear the state of the pass.
    Clear,
}

/// One ring to draw.
#[derive(Clone, Copy, Debug, PartialEq, Eq, Structural)]
pub struct Layer {
    /// Ring level, 0 for the finest.
    pub level: u32,
    pub trim: TrimOrientation,
    /// Draw the L-shaped trim after the fix-up.
    pub l_trim: bool,
}

/// What the asset store could resolve of a clipmap's handles in this frame.
#[derive(Clone, Copy, Debug, PartialEq, Eq, Structural)]
pub struct Resolved {
    pub block_mesh: bool,
    pub ring_fixup_mesh: bool,
    pub l_shape_mesh: bool,
    /// Width in texels of the elevation texture, if it resolved.
    pub elevation: Option<u32>,
    pub normal: bool,
    pub z_color: bool,
}

/// Some ring of `layers` draws the L-shaped trim.
pub open spec fn needs_l_shape(layers: Seq<Layer>) -> bool {
    exists|k: int| 0 <= k < layers.len() && (#[trigger] layers[k]).l_trim
}

/// The clipmap can be drawn with the rings `layers`: it is ready, and each
/// handle that the draw requires is set and resolves. The block mesh, the
/// fix-up mesh and the three textures are always required, the L-shaped trim
/// mesh only where some ring draws it.
pub open spec fn drawable(layers: Seq<Layer>, clipmap: Clipmap, resolved: Resolved) -> bool {
    &&& clipmap.initialized
    &&& clipmap.block_mesh.is_some() && resolved.block_mesh
    &&& clipmap.ring_fixup_mesh.is_some() && resolved.ring_fixup_mesh
    &&& needs_l_shape(layers) ==> clipmap.l_shape_mesh.is_some() && resolved.l_shape_mesh
    &&& clipmap.elevation.is_some() && resolved.elevation.is_some()
    &&& clipmap.normal.is_some() && resolved.normal
    &&& clipmap.z_color.is_some() && resolved.z_color
}

/// Grid spacing of ring `level`: `2^level`.
pub open spec fn ring_scale(level: u32) -> u32 {
    pow2(level as nat) as u32
}

/// The draw of block `id`: its two uniforms, then the draw.
pub open spec fn block_commands(size: u32, texture_size: u32, layer: Layer, id: int) -> Seq<
    Command,
> {
    seq![
        Command::SetScaleFactor {
            scale: ring_scale(layer.level),
            offset: Point {
                x: world_offset(size, id, layer.trim).0 as i64,
                y: world_offset(size, id, layer.trim).1 as i64,
            },
        },
        Command::SetFineBlockOrig {
            texture_size,
            origin: Point {
                x: texture_offset(size, texture_size, id, layer.trim).0 as i64,
                y: texture_offset(size, texture_size, id, layer.trim).1 as i64,
            },
        },
        Command::Draw { mesh: MeshKind::Block },
    ]
}

/// The draws of blocks `0` to `count - 1`, in this order.
pub open spec fn blocks_commands(size: u32, texture_size: u32, layer: Layer, count: int) -> Seq<
    Command,
>
    decreases count,
{
    if count <= 0 {
        Seq::empty()
    } else {
        blocks_commands(size, texture_size, layer, count - 1) + block_commands(
            size,
            texture_size,
            layer,
            count - 1,
        )
    }
}

/// The draw of the fix-up or of the L-shaped trim: the mesh moves by the
/// ring's trim shift only and samples from the texture's origin.
pub open spec fn trim_commands(texture_size: u32, layer: Layer, mesh: MeshKind) -> Seq<Command> {
    seq![
        Command::SetScaleFactor {
            scale: ring_scale(layer.level),
            offset: Point {
                x: (2 * trim_units(layer.trim).0) as i64,
                y: (2 * trim_units(layer.trim).1) as i64,
            },
        },
        Command::SetFineBlockOrig { texture_size, origin: Point { x: 0, y: 0 } },
        Command::Draw { mesh },
    ]
}

/// Everything drawn for one ring: the twelve blocks under one binding of the
/// block mesh, the fix-up under one binding of its mesh, and the L-shaped
/// trim where the layer asks for it.
pub open spec fn layer_commands(
    clipmap: Clipmap,
    texture_size: u32,
    layer: Layer,
) -> Seq<Command> {
    seq![
        Command::SetColorOverwrite { mesh: MeshKind::Block },
        Command::BindMesh { mesh: MeshKind::Block, handle: clipmap.block_mesh.unwrap() },
    ] + blocks_commands(clipmap.size, texture_size, layer, 12) + seq![
        Command::SetColorOverwrite { mesh: MeshKind::RingFixup },
        Command::BindMesh { mesh: MeshKind::RingFixup, handle: clipmap.ring_fixup_mesh.unwrap() },
    ] + trim_commands(texture_size, layer, MeshKind::RingFixup) + (if layer.l_trim {
        seq![
            Command::SetColorOverwrite { mesh: MeshKind::LShape },
            Command::BindMesh { mesh: MeshKind::LShape, handle: clipmap.l_shape_mesh.unwrap() },
        ] + trim_commands(texture_size, layer, MeshKind::LShape)
    } else {
        Seq::empty()
    })
}

/// The rings `layers`, drawn one after the other in the order given.
pub open spec fn layers_commands(
    clipmap: Clipmap,
    texture_size: u32,
    layers: Seq<Layer>,
) -> Seq<Command>
    decreases layers.len(),
{
    if layers.len() == 0 {
        Seq::empty()
    } else {
        layers_commands(clipmap, texture_size, layers.drop_last()) + layer_commands(
            clipmap,
            texture_size,
            layers.last(),
        )
    }
}

/// The textures and the uniforms that hold for the whole pass.
pub open spec fn pass_commands(clipmap: Clipmap) -> Seq<Command> {
    seq![
        Command::BindTexture { kind: TextureKind::Elevation, texture: clipmap.elevation.unwrap() },
        Command::BindTexture { kind: TextureKind::Normal, texture: clipmap.normal.unwrap() },
        Command::BindTexture { kind: TextureKind::ZColor, texture: clipmap.z_color.unwrap() },
        Command::SetSize { size: clipmap.size },
        Command::SetZScaleFactor { factor: Z_SCALE_FACTOR },
        Command::SetZTexScaleFactor { factor: Z_TEX_SCALE_FACTOR },
        Command::SetAlphaOffset { alpha: clipmap.alpha_offset },
        Command::SetOneOverWidth { reciprocal: clipmap.one_over_width },
    ]
}

/// The commands of one frame. Without a clipmap nothing is done. A clipmap
/// that cannot be drawn has the pass state cleared and nothing else. One that
/// can has its textures bound, the uniforms of the pass set, its rings drawn
/// and the pass state cleared.
pub open spec fn frame_commands(
    layers: Seq<Layer>,
    clipmap: Option<Clipmap>,
    resolved: Resolved,
) -> Seq<Command> {
    match clipmap {
        None => Seq::empty(),
        Some(c) => if drawable(layers, c, resolved) {
            pass_commands(c) + layers_commands(c, resolved.elevation.unwrap(), layers)
                + seq![Command::Clear]
        } else {
            seq![Command::Clear]
        },
    }
}

/// What the host does next while it carries out the commands of a frame.
#[derive(Clone, Copy, Debug, PartialEq, Eq, Structural)]
pub enum Next {
    /// Carry out this command.
    Run(Command),
    /// The last command could not be carried out: clear the state of the pass
    /// and stop, leaving the rest of the frame undrawn.
    Abort,
    /// Every command has been carried out.
    Done,
}

/// What follows once the commands before position `at` have been carried
/// out, where `ok` tells whether the last of them succeeded. A command fails
/// where a mesh lacks the vertex attributes to bind or an asset has left the
/// store.
pub open spec fn next_step(commands: Seq<Command>, at: int, ok: bool) -> Next {
    if !ok {
        Next::Abort
    } else if 0 <= at < commands.len() {
        Next::Run(commands[at])
    } else {
        Next::Done
    }
}

/// What the host has carried out in the end when it follows `next_step`:
/// all of `commands` if none fails, else the commands up to the first one
/// that fails and then the clearing of the pass state.
pub open spec fn carried_out(commands: Seq<Command>, first_failure: Option<int>) -> Seq<Command> {
    match first_failure {
        None => commands,
        Some(k) => commands.take(k + 1).push(Command::Clear),
    }
}

/// Following `next_step` carries out `carried_out`: each command up to the
/// first failure is run in its turn, the step after a failure aborts, and
/// without a failure the list is run to its end.
pub proof fn lemma_next_step_carries_out(
    commands: Seq<Command>,
    first_failure: Option<int>,
    at: int,
)
    requires
        0 <= at <= commands.len(),
        match first_failure {
            Some(k) => 0 <= k < commands.len() && at <= k + 1,
            None => true,
        },
    ensures
        match first_failure {
            Some(k) => {
                &&& at <= k ==> next_step(commands, at, true) == Next::Run(
                    carried_out(commands, first_failure)[at],
                )
                &&& next_step(commands, k + 1, false) == Next::Abort
                &&& carried_out(commands, first_failure).len() == k + 2
                &&& carried_out(commands, first_failure).last() == Command::Clear
            },
            None => {
                &&& at < commands.len() ==> next_step(commands, at, true) == Next::Run(
                    carried_out(commands, first_failure)[at],
                )
                &&& next_step(commands, commands.len() as int, true) == Next::Done
            },
        },
{
}

/// Tells the host what to do next: `at` commands have been carried out, and
/// `ok` tells whether the last of them succeeded.
pub fn proceed(commands: &Vec<Command>, at: usize, ok: bool) -> (next: Next)
    ensures
        next == next_step(commands@, at as int, ok),
{
    if !ok {
        Next::Abort
    } else if at < commands.len() {
        Next::Run(commands[at])
    } else {
        Next::Done
    }
}

/// The command draws a mesh.
pub open spec fn is_draw(command: Command) -> bool {
    command is Draw
}

/// The command sets a uniform or binds a texture or a mesh.
pub open spec fn touches_state(command: Command) -> bool {
    !(command is Draw) && !(command is Clear)
}

/// The clipmap render pass: the rings it draws, outermost first.
#[derive(Debug)]
pub struct DrawClipmap {
    pub layers: Vec<Layer>,
}

/// The levels of `layers` are below `MAX_LEVELS` and strictly fall: coarser
/// rings come first, so that finer ones are drawn over them, and no ring is
/// drawn twice.
pub open spec fn layers_ordered(layers: Seq<Layer>) -> bool {
    &&& forall|k: int| 0 <= k < layers.len() ==> (#[trigger] layers[k]).level < MAX_LEVELS
    &&& forall|a: int, b: int|
        0 <= a < b < layers.len() ==> (#[trigger] layers[a]).level > (#[trigger] layers[b]).level
}

fn scale_of(level: u32) -> (scale: u32)
    requires
        level < MAX_LEVELS,
    ensures
        scale == ring_scale(level),
        scale == pow2(level as nat),
{
    proof {
        vstd::bits::lemma_u32_pow2_no_overflow(level as nat);
        vstd::bits::lemma_u32_shl_is_mul(1, level);
    }
    1u32 << level
}

impl DrawClipmap {
    /// The rings are in drawing order.
    pub open spec fn wf(&self) -> bool {
        layers_ordered(self.layers@)
    }

    /// A pass that draws the finest ring only, trimmed to the north-east.
    pub fn new() -> (pass: DrawClipmap)
        ensures
            pass.wf(),
            pass.layers@ == seq![
                Layer { level: 0, trim: TrimOrientation::NorthEast, l_trim: false },
            ],
    {
        let mut layers: Vec<Layer> = Vec::new();
        layers.push(Layer { level: 0, trim: TrimOrientation::NorthEast, l_trim: false });
        DrawClipmap { layers }
    }

    /// A pass that draws the given rings, which may be any part of the
    /// pyramid. The rings must come outermost first: with levels that do not
    /// strictly fall, or a level of `MAX_LEVELS` or more, there is no pass.
    pub fn with_layers(layers: Vec<Layer>) -> (pass: Option<DrawClipmap>)
        ensures
            pass.is_some() == layers_ordered(layers@),
            match pass {
                Some(p) => p.layers@ == layers@ && p.wf(),
                None => true,
            },
    {
        let pass = DrawClipmap { layers };
        if pass.is_wf() {
            Some(pass)
        } else {
            None
        }
    }

    /// Tells whether the rings of this pass are in drawing order.
    pub fn is_wf(&self) -> (ok: bool)
        ensures
            ok == self.wf(),
    {
        let layers = &self.layers;
        let mut k: usize = 0;
        while k < layers.len()
            invariant
                layers@ == self.layers@,
                k <= layers@.len(),
                layers_ordered(layers@.take(k as int)),
            decreases layers@.len() - k,
        {
            let layer = layers[k];
            if layer.level >= MAX_LEVELS {
                return false;
            }
            if k > 0 && layers[k - 1].level <= layer.level {
                return false;
            }
            proof {
                let shorter = layers@.take(k as int);
                let longer = layers@.take(k + 1);
                assert forall|a: int, b: int| 0 <= a < b < longer.len() implies (
                #[trigger] longer[a]).level > (#[trigger] longer[b]).level by {
                    if b < k {
                        assert(shorter[a].level > shorter[b].level);
                    } else if a < k - 1 {
                        assert(shorter[a].level > shorter[k - 1].level);
                    }
                }
                assert forall|q: int| 0 <= q < longer.len() implies (#[trigger] longer[q]).level
                    < MAX_LEVELS by {
                    if q < k {
                        assert(shorter[q].level < MAX_LEVELS);
                    }
                }
            }
            k = k + 1;
        }
        proof {
            assert(layers@.take(k as int) =~= layers@);
        }
        true
    }

    /// Appends the draw of block `id` of a ring to `out`.
    pub fn draw_block(
        &self,
        out: &mut Vec<Command>,
        size: u32,
        texture_size: u32,
        layer: Layer,
        id: u32,
    )
        requires
            layer.level < MAX_LEVELS,
            id < BLOCKS_PER_RING,
        ensures
            final(out)@ == old(out)@ + block_commands(size, texture_size, layer, id as int),
    {
        let scale = scale_of(layer.level);
        let placement = block_offset(size, texture_size, id, layer.trim);
        out.push(Command::SetScaleFactor { scale, offset: placement.world });
        out.push(Command::SetFineBlockOrig { texture_size, origin: placement.texture });
        out.push(Command::Draw { mesh: MeshKind::Block });
        assert(out@ =~= old(out)@ + block_commands(size, texture_size, layer, id as int));
    }

    fn draw_trim(&self, out: &mut Vec<Command>, texture_size: u32, layer: Layer, mesh: MeshKind)
        requires
            layer.level < MAX_LEVELS,
        ensures
            final(out)@ == old(out)@ + trim_commands(texture_size, layer, mesh),
    {
        let scale = scale_of(layer.level);
        let shift = trim_offset(layer.trim);
        out.push(
            Command::SetScaleFactor { scale, offset: Point { x: 2 * shift.0, y: 2 * shift.1 } },
        );
        out.push(Command::SetFineBlockOrig { texture_size, origin: Point { x: 0, y: 0 } });
        out.push(Command::Draw { mesh });
        assert(out@ =~= old(out)@ + trim_commands(texture_size, layer, mesh));
    }

    /// Appends the draw of the L-shaped trim of a ring to `out`.
    pub fn draw_l(&self, out: &mut Vec<Command>, texture_size: u32, layer: Layer)
        requires
            layer.level < MAX_LEVELS,
        ensures
            final(out)@ == old(out)@ + trim_commands(texture_size, layer, MeshKind::LShape),
    {
        self.draw_trim(out, texture_size, layer, MeshKind::LShape);
    }

    /// Appends the draw of the ring fix-up of a ring to `out`.
    pub fn draw_fixup(&self, out: &mut Vec<Command>, texture_size: u32, layer: Layer)
        requires
            layer.level < MAX_LEVELS,
        ensures
            final(out)@ == old(out)@ + trim_commands(texture_size, layer, MeshKind::RingFixup),
    {
        self.draw_trim(out, texture_size, layer, MeshKind::RingFixup);
    }

    /// Appends everything drawn for one ring to `out`. Only a clipmap that is
    /// ready, with its meshes attached, is drawn.
    pub fn draw_layer(
        &self,
        out: &mut Vec<Command>,
        clipmap: &Clipmap,
        texture_size: u32,
        layer: Layer,
    )
        requires
            layer.level < MAX_LEVELS,
            clipmap.initialized,
            clipmap.block_mesh.is_some(),
            clipmap.ring_fixup_mesh.is_some(),
            layer.l_trim ==> clipmap.l_shape_mesh.is_some(),
        ensures
            final(out)@ == old(out)@ + layer_commands(*clipmap, texture_size, layer),
    {
        let ghost before = out@;
        let ghost head = seq![
            Command::SetColorOverwrite { mesh: MeshKind::Block },
            Command::BindMesh { mesh: MeshKind::Block, handle: clipmap.block_mesh.unwrap() },
        ];
        out.push(Command::SetColorOverwrite { mesh: MeshKind::Block });
        out.push(Command::BindMesh { mesh: MeshKind::Block, handle: clipmap.block_mesh.unwrap() });
        assert(out@ =~= before + head);
        let mut id: u32 = 0;
        while id < BLOCKS_PER_RING
            invariant
                id <= BLOCKS_PER_RING,
                layer.level < MAX_LEVELS,
                out@ == before + head + blocks_commands(
                    clipmap.size,
                    texture_size,
                    layer,
                    id as int,
                ),
            decreases BLOCKS_PER_RING - id,
        {
            self.draw_block(out, clipmap.size, texture_size, layer, id);
            assert(out@ =~= before + head + blocks_commands(
                clipmap.size,
                texture_size,
                layer,
                id + 1,
            ));
            id = id + 1;
        }
        let ghost blocks = out@;
        let ghost fixup_head = seq![
            Command::SetColorOverwrite { mesh: MeshKind::RingFixup },
            Command::BindMesh {
                mesh: MeshKind::RingFixup,
                handle: clipmap.ring_fixup_mesh.unwrap(),
            },
        ];
        out.push(Command::SetColorOverwrite { mesh: MeshKind::RingFixup });
        out.push(
            Command::BindMesh {
                mesh: MeshKind::RingFixup,
                handle: clipmap.ring_fixup_mesh.unwrap(),
            },
        );
        assert(out@ =~= blocks + fixup_head);
        self.draw_fixup(out, texture_size, layer);
        let ghost fixed = out@;
        if layer.l_trim {
            let ghost l_head = seq![
                Command::SetColorOverwrite { mesh: MeshKind::LShape },
                Command::BindMesh { mesh: MeshKind::LShape, handle: clipmap.l_shape_mesh.unwrap() },
            ];
            out.push(Command::SetColorOverwrite { mesh: MeshKind::LShape });
            out.push(
                Command::BindMesh { mesh: MeshKind::LShape, handle: clipmap.l_shape_mesh.unwrap() },
            );
            assert(out@ =~= fixed + l_head);
            self.draw_l(out, texture_size, layer);
            assert(out@ =~= before + layer_commands(*clipmap, texture_size, layer));
        } else {
            assert(out@ =~= before + layer_commands(*clipmap, texture_size, layer));
        }
    }

    /// Tells whether some ring of this pass draws the L-shaped trim.
    pub fn draws_l_shape(&self) -> (needed: bool)
        ensures
            needed == needs_l_shape(self.layers@),
    {
        let mut k: usize = 0;
        while k < self.layers.len()
            invariant
                k <= self.layers@.len(),
                forall|q: int| 0 <= q < k ==> !(#[trigger] self.layers@[q]).l_trim,
            decreases self.layers@.len() - k,
        {
            if self.layers[k].l_trim {
                return true;
            }
            k = k + 1;
        }
        false
    }

    /// Tells whether `clipmap` can be drawn by this pass with what the asset
    /// store resolved.
    pub fn can_draw(&self, clipmap: &Clipmap, resolved: &Resolved) -> (ok: bool)
        ensures
            ok == drawable(self.layers@, *clipmap, *resolved),
    {
        let l_shape = !self.draws_l_shape() || (clipmap.l_shape_mesh.is_some()
            && resolved.l_shape_mesh);
        clipmap.initialized && clipmap.block_mesh.is_some() && resolved.block_mesh
            && clipmap.ring_fixup_mesh.is_some() && resolved.ring_fixup_mesh && l_shape
            && clipmap.elevation.is_some() && resolved.elevation.is_some()
            && clipmap.normal.is_some() && resolved.normal && clipmap.z_color.is_some()
            && resolved.z_color
    }

    /// Lists the commands of one frame for the chosen clipmap, if there is
    /// one.
    ///
    /// A clipmap that is not ready, or one of whose required handles is unset
    /// or no longer resolves, is not drawn: the pass state is cleared and
    /// that is all.
    pub fn apply(&self, clipmap: Option<&Clipmap>, resolved: &Resolved) -> (commands: Vec<Command>)
        requires
            self.wf(),
        ensures
            commands@ == frame_commands(
                self.layers@,
                match clipmap {
                    Some(c) => Some(*c),
                    None => None,
                },
                *resolved,
            ),
    {
        let mut commands: Vec<Command> = Vec::new();
        let clipmap = match clipmap {
            Some(c) => c,
            None => {
                return commands;
            },
        };
        if !self.can_draw(clipmap, resolved) {
            commands.push(Command::Clear);
            assert(commands@ =~= seq![Command::Clear]);
            return commands;
        }
        let texture_size = resolved.elevation.unwrap();
        commands.push(
            Command::BindTexture {
                kind: TextureKind::Elevation,
                texture: clipmap.elevation.unwrap(),
            },
        );
        commands.push(
            Command::BindTexture { kind: TextureKind::Normal, texture: clipmap.normal.unwrap() },
        );
        commands.push(
            Command::BindTexture { kind: TextureKind::ZColor, texture: clipmap.z_color.unwrap() },
        );
        commands.push(Command::SetSize { size: clipmap.size });
        commands.push(Command::SetZScaleFactor { factor: Z_SCALE_FACTOR });
        commands.push(Command::SetZTexScaleFactor { factor: Z_TEX_SCALE_FACTOR });
        commands.push(Command::SetAlphaOffset { alpha: clipmap.alpha_offset });
        commands.push(Command::SetOneOverWidth { reciprocal: clipmap.one_over_width });
        assert(commands@ =~= pass_commands(*clipmap));
        let mut k: usize = 0;
        while k < self.layers.len()
            invariant
                k <= self.layers@.len(),
                self.wf(),
                clipmap.initialized,
                clipmap.block_mesh.is_some(),
                clipmap.ring_fixup_mesh.is_some(),
                needs_l_shape(self.layers@) ==> clipmap.l_shape_mesh.is_some(),
                commands@ == pass_commands(*clipmap) + layers_commands(
                    *clipmap,
                    texture_size,
                    self.layers@.take(k as int),
                ),
            decreases self.layers@.len() - k,
        {
            let layer = self.layers[k];
            proof {
                assert(self.layers@[k as int].level < MAX_LEVELS);
                assert(self.layers@.take(k + 1).drop_last() =~= self.layers@.take(k as int));
                assert(self.layers@.take(k + 1).last() == layer);
            }
            self.draw_layer(&mut commands, clipmap, texture_size, layer);
            assert(commands@ =~= pass_commands(*clipmap) + layers_commands(
                *clipmap,
                texture_size,
                self.layers@.take(k + 1),
            ));
            k = k + 1;
        }
        proof {
            assert(self.layers@.take(k as int) =~= self.layers@);
        }
        commands.push(Command::Clear);
        commands
    }
}

impl Default for DrawClipmap {
    /// The pass that `DrawClipmap::new` makes.
    fn default() -> (pass: DrawClipmap)
        ensures
            pass.wf(),
            pass.layers@ == seq![
                Layer { level: 0, trim: TrimOrientation::NorthEast, l_trim: false },
            ],
    {
        DrawClipmap::new()
    }
}

/// Each ring is drawn at twice the grid spacing of the next finer one.
pub proof fn lemma_scale_doubles(level: u32)
    requires
        level + 1 < MAX_LEVELS,
    ensures
        ring_scale(0) == 1,
        ring_scale((level + 1) as u32) == 2 * ring_scale(level),
{
    vstd::arithmetic::power2::lemma2_to64();
    vstd::arithmetic::power2::lemma_pow2_unfold((level + 1) as nat);
    vstd::bits::lemma_u32_pow2_no_overflow(level as nat);
    vstd::bits::lemma_u32_pow2_no_overflow((level + 1) as nat);
}

/// In a pass whose rings are in drawing order, a ring drawn earlier is
/// coarser than every ring drawn after it.
pub proof fn lemma_outermost_first(layers: Seq<Layer>, earlier: int, later: int)
    requires
        layers_ordered(layers),
        0 <= earlier < later < layers.len(),
    ensures
        ring_scale(layers[earlier].level) > ring_scale(layers[later].level),
{
    vstd::arithmetic::power2::lemma_pow2_strictly_increases(
        layers[later].level as nat,
        layers[earlier].level as nat,
    );
    vstd::bits::lemma_u32_pow2_no_overflow(layers[later].level as nat);
    vstd::bits::lemma_u32_pow2_no_overflow(layers[earlier].level as nat);
}

/// How many commands of `commands` are `wanted`.
pub open spec fn count(commands: Seq<Command>, wanted: spec_fn(Command) -> bool) -> nat
    decreases commands.len(),
{
    if commands.len() == 0 {
        0
    } else {
        count(commands.drop_last(), wanted) + if wanted(commands.last()) { 1nat } else { 0nat }
    }
}

/// The draws of `mesh`.
pub open spec fn draws_of(mesh: MeshKind) -> spec_fn(Command) -> bool {
    |command: Command| command == Command::Draw { mesh }
}

/// The bindings of a mesh.
pub open spec fn mesh_bindings() -> spec_fn(Command) -> bool {
    |command: Command| command is BindMesh
}

proof fn lemma_count_concat(a: Seq<Command>, b: Seq<Command>, wanted: spec_fn(Command) -> bool)
    ensures
        count(a + b, wanted) == count(a, wanted) + count(b, wanted),
    decreases b.len(),
{
    if b.len() == 0 {
        assert(a + b =~= a);
    } else {
        assert((a + b).drop_last() =~= a + b.drop_last());
        assert((a + b).last() == b.last());
        lemma_count_concat(a, b.drop_last(), wanted);
    }
}

proof fn lemma_count_two(a: Command, b: Command, wanted: spec_fn(Command) -> bool)
    ensures
        count(seq![a, b], wanted) == (if wanted(a) { 1nat } else { 0nat }) + (if wanted(b) {
            1nat
        } else {
            0nat
        }),
{
    let s = seq![a, b];
    assert(s.drop_last() =~= seq![a]);
    assert(seq![a].drop_last() =~= Seq::<Command>::empty());
    assert(count(seq![a], wanted) == count(Seq::<Command>::empty(), wanted) + if wanted(a) {
        1nat
    } else {
        0nat
    });
}

proof fn lemma_count_three(a: Command, b: Command, c: Command, wanted: spec_fn(Command) -> bool)
    ensures
        count(seq![a, b, c], wanted) == (if wanted(a) { 1nat } else { 0nat }) + (if wanted(b) {
            1nat
        } else {
            0nat
        }) + (if wanted(c) { 1nat } else { 0nat }),
{
    let s = seq![a, b, c];
    assert(s.drop_last() =~= seq![a, b]);
    lemma_count_two(a, b, wanted);
}

proof fn lemma_count_blocks(
    size: u32,
    texture_size: u32,
    layer: Layer,
    blocks: int,
    wanted: spec_fn(Command) -> bool,
)
    requires
        0 <= blocks,
        forall|scale: u32, offset: Point| !wanted(Command::SetScaleFactor { scale, offset }),
        forall|texture_size: u32, origin: Point|
            !wanted(Command::SetFineBlockOrig { texture_size, origin }),
    ensures
        count(blocks_commands(size, texture_size, layer, blocks), wanted) == if wanted(
            Command::Draw { mesh: MeshKind::Block },
        ) {
            blocks
        } else {
            0
        },
    decreases blocks,
{
    if blocks > 0 {
        lemma_count_blocks(size, texture_size, layer, blocks - 1, wanted);
        let one = block_commands(size, texture_size, layer, blocks - 1);
        lemma_count_three(one[0], one[1], one[2], wanted);
        assert(one =~= seq![one[0], one[1], one[2]]);
        lemma_count_concat(
            blocks_commands(size, texture_size, layer, blocks - 1),
            one,
            wanted,
        );
    }
}

proof fn lemma_count_layer(
    clipmap: Clipmap,
    texture_size: u32,
    layer: Layer,
    wanted: spec_fn(Command) -> bool,
)
    requires
        forall|scale: u32, offset: Point| !wanted(Command::SetScaleFactor { scale, offset }),
        forall|texture_size: u32, origin: Point|
            !wanted(Command::SetFineBlockOrig { texture_size, origin }),
        forall|mesh: MeshKind| !wanted(Command::SetColorOverwrite { mesh }),
    ensures
        count(layer_commands(clipmap, texture_size, layer), wanted) == (if wanted(
            Command::BindMesh { mesh: MeshKind::Block, handle: clipmap.block_mesh.unwrap() },
        ) {
            1nat
        } else {
            0nat
        }) + (if wanted(Command::Draw { mesh: MeshKind::Block }) {
            12nat
        } else {
            0nat
        }) + (if wanted(
            Command::BindMesh {
                mesh: MeshKind::RingFixup,
                handle: clipmap.ring_fixup_mesh.unwrap(),
            },
        ) {
            1nat
        } else {
            0nat
        }) + (if wanted(Command::Draw { mesh: MeshKind::RingFixup }) {
            1nat
        } else {
            0nat
        }) + (if layer.l_trim && wanted(
            Command::BindMesh { mesh: MeshKind::LShape, handle: clipmap.l_shape_mesh.unwrap() },
        ) {
            1nat
        } else {
            0nat
        }) + (if layer.l_trim && wanted(Command::Draw { mesh: MeshKind::LShape }) {
            1nat
        } else {
            0nat
        }),
{
    let head = seq![
        Command::SetColorOverwrite { mesh: MeshKind::Block },
        Command::BindMesh { mesh: MeshKind::Block, handle: clipmap.block_mesh.unwrap() },
    ];
    let blocks = blocks_commands(clipmap.size, texture_size, layer, 12);
    let fixup_head = seq![
        Command::SetColorOverwrite { mesh: MeshKind::RingFixup },
        Command::BindMesh { mesh: MeshKind::RingFixup, handle: clipmap.ring_fixup_mesh.unwrap() },
    ];
    let fixup = trim_commands(texture_size, layer, MeshKind::RingFixup);
    let l_head = seq![
        Command::SetColorOverwrite { mesh: MeshKind::LShape },
        Command::BindMesh { mesh: MeshKind::LShape, handle: clipmap.l_shape_mesh.unwrap() },
    ];
    let l = trim_commands(texture_size, layer, MeshKind::LShape);
    let tail = if layer.l_trim { l_head + l } else { Seq::<Command>::empty() };
    lemma_count_two(head[0], head[1], wanted);
    assert(head =~= seq![head[0], head[1]]);
    lemma_count_blocks(clipmap.size, texture_size, layer, 12, wanted);
    lemma_count_two(fixup_head[0], fixup_head[1], wanted);
    assert(fixup_head =~= seq![fixup_head[0], fixup_head[1]]);
    lemma_count_three(fixup[0], fixup[1], fixup[2], wanted);
    assert(fixup =~= seq![fixup[0], fixup[1], fixup[2]]);
    lemma_count_two(l_head[0], l_head[1], wanted);
    assert(l_head =~= seq![l_head[0], l_head[1]]);
    lemma_count_three(l[0], l[1], l[2], wanted);
    assert(l =~= seq![l[0], l[1], l[2]]);
    lemma_count_concat(l_head, l, wanted);
    lemma_count_concat(head, blocks, wanted);
    lemma_count_concat(head + blocks, fixup_head, wanted);
    lemma_count_concat(head + blocks + fixup_head, fixup, wanted);
    lemma_count_concat(head + blocks + fixup_head + fixup, tail, wanted);
    assert(layer_commands(clipmap, texture_size, layer) == head + blocks + fixup_head + fixup
        + tail);
}

/// One ring takes exactly twelve draws of the block mesh, one draw of the
/// fix-up mesh and, where the layer asks for it, one draw of the L-shaped
/// trim. Each mesh is bound once for all of its draws.
pub proof fn lemma_layer_draw_calls(clipmap: Clipmap, texture_size: u32, layer: Layer)
    ensures
        count(layer_commands(clipmap, texture_size, layer), draws_of(MeshKind::Block)) == 12,
        count(layer_commands(clipmap, texture_size, layer), draws_of(MeshKind::RingFixup)) == 1,
        count(layer_commands(clipmap, texture_size, layer), draws_of(MeshKind::LShape)) == (if
            layer.l_trim {
            1nat
        } else {
            0nat
        }),
        count(layer_commands(clipmap, texture_size, layer), mesh_bindings()) == (if layer.l_trim {
            3nat
        } else {
            2nat
        }),
{
    lemma_count_layer(clipmap, texture_size, layer, draws_of(MeshKind::Block));
    lemma_count_layer(clipmap, texture_size, layer, draws_of(MeshKind::RingFixup));
    lemma_count_layer(clipmap, texture_size, layer, draws_of(MeshKind::LShape));
    lemma_count_layer(clipmap, texture_size, layer, mesh_bindings());
}

/// A clipmap that is not ready is not drawn and no uniform, texture or mesh
/// is touched for it: the frame is empty, or it clears the pass state and
/// nothing else.
pub proof fn lemma_not_ready_draws_nothing(
    layers: Seq<Layer>,
    clipmap: Option<Clipmap>,
    resolved: Resolved,
    k: int,
)
    requires
        clipmap.is_none() || !clipmap.unwrap().initialized,
        0 <= k < frame_commands(layers, clipmap, resolved).len(),
    ensures
        !is_draw(frame_commands(layers, clipmap, resolved)[k]),
        !touches_state(frame_commands(layers, clipmap, resolved)[k]),
        frame_commands(layers, clipmap, resolved).len() <= 1,
{
}

} // verus!
