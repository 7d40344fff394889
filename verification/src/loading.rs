//! Loading of a clipmap's meshes and textures: requested once, polled every
//! frame, finished once.
//!
//! A clipmap is `Uninitialized` until its assets are requested and their
//! handles attached, `Loading` while that load is in flight and `Ready` from
//! the frame on in which the load's token reports completion. One token
//! serves the whole process, so at most one load is in flight at a time. The
//! system remembers the handles that the load in flight was given: a clipmap
//! that becomes active while another's load is in flight waits for the token
//! and is not made ready by that load.

use vstd::prelude::*;
use amethyst_assets::ProgressCounter;
use crate::component::{Clipmap, ClipmapAssets};
use crate::placement::block_dim;
use crate::progress::{new_progress, poll_progress, Completion};
use crate::topology::{
    block_vertices, generate_block, generate_l_shape, generate_ring_fixup, l_shape_vertices,
    ring_fixup_vertices,
};
use crate::triangles::{
    block_triangles, generate_block_triangles, generate_l_shape_triangles,
    generate_ring_fixup_triangles, l_shape_triangles, ring_fixup_triangles,
};
use crate::units::Point;

verus! {

/// The three textures of a clipmap.
#[derive(Clone, Copy, Debug, PartialEq, Eq, Structural)]
pub enum TextureKind {
    Elevation,
    Normal,
    ZColor,
}

/// How a sampler treats coordinates outside the texture.
#[derive(Clone, Copy, Debug, PartialEq, Eq, Structural)]
pub enum WrapMode {
    Tile,
    Clamp,
}

/// How a sampler filters between texels.
#[derive(Clone, Copy, Debug, PartialEq, Eq, Structural)]
pub enum FilterMethod {
    Scale,
}

/// Memory layout of one texel.
#[derive(Clone, Copy, Debug, PartialEq, Eq, Structural)]
pub enum SurfaceLayout {
    R8G8B8A8,
}

/// How the stored channel values are read.
#[derive(Clone, Copy, Debug, PartialEq, Eq, Structural)]
pub enum ColorSpace {
    /// Perceptual: values are decoded from sRGB when sampled.
    Srgb,
    /// Linear: values are taken as they are, normalised to `[0, 1]`.
    Unorm,
}

/// Format of a texture to load.
#[derive(Clone, Copy, Debug, PartialEq, Eq, Structural)]
pub struct TextureMetadata {
    pub filter: FilterMethod,
    pub wrap: WrapMode,
    pub mip_levels: u8,
    pub dynamic: bool,
    pub surface: SurfaceLayout,
    pub color_space: ColorSpace,
}

/// The format in which each texture of a clipmap is loaded: the elevation map
/// tiled, updatable and perceptual; the normal map linear; the colour ramp
/// perceptual.
pub open spec fn texture_metadata(kind: TextureKind) -> TextureMetadata {
    TextureMetadata {
        filter: FilterMethod::Scale,
        wrap: if kind == TextureKind::Elevation { WrapMode::Tile } else { WrapMode::Clamp },
        mip_levels: 1,
        dynamic: kind == TextureKind::Elevation,
        surface: SurfaceLayout::R8G8B8A8,
        color_space: if kind == TextureKind::Normal { ColorSpace::Unorm } else { ColorSpace::Srgb },
    }
}

/// A mesh to upload: its vertices and its triangles, three positions in the
/// vertex list per triangle.
#[derive(Debug)]
pub struct MeshData {
    pub vertices: Vec<Point>,
    pub triangles: Vec<usize>,
}

/// Everything the asset pipeline is asked for when a clipmap starts loading.
#[derive(Debug)]
pub struct LoadRequest {
    pub block: MeshData,
    pub ring_fixup: MeshData,
    pub l_shape: MeshData,
    pub elevation: TextureMetadata,
    pub normal: TextureMetadata,
    pub z_color: TextureMetadata,
}

impl LoadRequest {
    /// The request is the one for a clipmap of `size` vertices per side.
    pub open spec fn is_for(self, size: u32) -> bool {
        &&& self.block.vertices@ == block_vertices(block_dim(size))
        &&& self.block.triangles@ == block_triangles(block_dim(size))
        &&& self.ring_fixup.vertices@ == ring_fixup_vertices(block_dim(size))
        &&& self.ring_fixup.triangles@ == ring_fixup_triangles(block_dim(size))
        &&& self.l_shape.vertices@ == l_shape_vertices(block_dim(size))
        &&& self.l_shape.triangles@ == l_shape_triangles(block_dim(size))
        &&& self.elevation == texture_metadata(TextureKind::Elevation)
        &&& self.normal == texture_metadata(TextureKind::Normal)
        &&& self.z_color == texture_metadata(TextureKind::ZColor)
    }
}

/// The format in which texture `kind` of a clipmap is loaded.
pub fn metadata_for(kind: TextureKind) -> (metadata: TextureMetadata)
    ensures
        metadata == texture_metadata(kind),
{
    match kind {
        TextureKind::Elevation => TextureMetadata {
            filter: FilterMethod::Scale,
            wrap: WrapMode::Tile,
            mip_levels: 1,
            dynamic: true,
            surface: SurfaceLayout::R8G8B8A8,
            color_space: ColorSpace::Srgb,
        },
        TextureKind::Normal => TextureMetadata {
            filter: FilterMethod::Scale,
            wrap: WrapMode::Clamp,
            mip_levels: 1,
            dynamic: false,
            surface: SurfaceLayout::R8G8B8A8,
            color_space: ColorSpace::Unorm,
        },
        TextureKind::ZColor => TextureMetadata {
            filter: FilterMethod::Scale,
            wrap: WrapMode::Clamp,
            mip_levels: 1,
            dynamic: false,
            surface: SurfaceLayout::R8G8B8A8,
            color_space: ColorSpace::Srgb,
        },
    }
}

/// Path, below the asset directory, of texture `kind`.
pub fn texture_path(kind: TextureKind) -> (path: &'static str)
    ensures
        path@ == (match kind {
            TextureKind::Elevation => "texture/elevation.png"@,
            TextureKind::Normal => "texture/normal.png"@,
            TextureKind::ZColor => "texture/z_color.png"@,
        }),
{
    match kind {
        TextureKind::Elevation => "texture/elevation.png",
        TextureKind::Normal => "texture/normal.png",
        TextureKind::ZColor => "texture/z_color.png",
    }
}

/// Where a clipmap stands on its way to being drawable.
#[derive(Clone, Copy, Debug, PartialEq, Eq, Structural)]
pub enum LoadState {
    /// Not ready, and no load of its own is in flight.
    Uninitialized,
    /// Not ready; the load in flight is the one for this clipmap's handles.
    Loading,
    /// All of its assets have loaded.
    Ready,
}

/// What the loading system goes by for one clipmap.
#[derive(Clone, Copy, Debug, PartialEq, Eq, Structural)]
pub struct Progress {
    /// A load is in flight, for this clipmap or for another.
    pub in_flight: bool,
    /// The load in flight is the one that this clipmap's handles came from.
    pub own: bool,
    /// The clipmap is ready.
    pub initialized: bool,
}

/// The state of a clipmap.
pub open spec fn load_state(progress: Progress) -> LoadState {
    if progress.initialized {
        LoadState::Ready
    } else if progress.in_flight && progress.own {
        LoadState::Loading
    } else {
        LoadState::Uninitialized
    }
}

/// Outcome of one frame of the loading system.
#[derive(Clone, Copy, Debug, PartialEq, Eq, Structural)]
pub struct Step {
    /// A load is in flight after this frame.
    pub in_flight: bool,
    /// The clipmap is ready after this frame.
    pub initialized: bool,
    /// This frame requests the clipmap's assets.
    pub start_load: bool,
}

/// One frame of the loading system. `polled` is what the progress token
/// reported; it counts only while a load is in flight.
///
/// A load in flight that reports completion frees the token, and makes the
/// clipmap ready if the load was its own. Any other report leaves everything
/// as it was: a failed load is not retried. A clipmap that is not ready has
/// its assets requested in a frame that finds no load in flight, its own or
/// another's.
pub open spec fn step(progress: Progress, polled: Completion) -> Step {
    let done = progress.in_flight && polled == Completion::Complete;
    let start = !progress.in_flight && !progress.initialized;
    Step {
        in_flight: (progress.in_flight && !done) || start,
        initialized: progress.initialized || (done && progress.own),
        start_load: start,
    }
}

/// What the system goes by after a frame, when the host attaches the handles
/// of every request before the next frame: a load that was started is the
/// clipmap's own, and so is a load that stays in flight if it was before.
pub open spec fn after_frame(progress: Progress, polled: Completion) -> Progress {
    let outcome = step(progress, polled);
    Progress {
        in_flight: outcome.in_flight,
        own: outcome.start_load || (progress.own && outcome.in_flight),
        initialized: outcome.initialized,
    }
}

/// What the system goes by after a run of frames with the given reports, one
/// per frame.
pub open spec fn run_frames(progress: Progress, polls: Seq<Completion>) -> Progress
    decreases polls.len(),
{
    if polls.len() == 0 {
        progress
    } else {
        after_frame(run_frames(progress, polls.drop_last()), polls.last())
    }
}

/// A clipmap that nothing has been done for yet.
pub open spec fn untouched() -> Progress {
    Progress { in_flight: false, own: false, initialized: false }
}

/// Decides one frame of the loading system from what it goes by and the
/// report of the progress token.
pub fn advance(progress: Progress, polled: Completion) -> (next: Step)
    ensures
        next == step(progress, polled),
{
    let done = progress.in_flight && matches!(polled, Completion::Complete);
    let start = !progress.in_flight && !progress.initialized;
    Step {
        in_flight: (progress.in_flight && !done) || start,
        initialized: progress.initialized || (done && progress.own),
        start_load: start,
    }
}

/// The meshes of a clipmap of `size` vertices per side can be built: a block
/// has at least one vertex, and the positions in the vertex lists fit the
/// machine's word.
pub open spec fn loadable(size: u32) -> bool {
    &&& block_dim(size) >= 1
    &&& block_dim(size) * block_dim(size) <= usize::MAX
    &&& 12 * block_dim(size) <= usize::MAX
}

/// Tells whether the meshes of a clipmap of `size` vertices per side can be
/// built.
pub fn is_loadable(size: u32) -> (ok: bool)
    ensures
        ok == loadable(size),
{
    let n: u64 = (size as u64 + 1) / 4;
    assert(n * n <= 0x1_0000_0000_0000_0000) by (nonlinear_arith)
        requires
            n <= 0x1_0000_0000,
    ;
    n >= 1 && (n as u128) * (n as u128) <= usize::MAX as u128 && 12 * (n as u128)
        <= usize::MAX as u128
}

/// Builds the asset request for a clipmap of `size` vertices per side.
pub fn load_request(size: u32) -> (request: LoadRequest)
    requires
        loadable(size),
    ensures
        request.is_for(size),
{
    let n: u32 = ((size as u64 + 1) / 4) as u32;
    LoadRequest {
        block: MeshData { vertices: generate_block(n), triangles: generate_block_triangles(n) },
        ring_fixup: MeshData {
            vertices: generate_ring_fixup(n),
            triangles: generate_ring_fixup_triangles(n),
        },
        l_shape: MeshData {
            vertices: generate_l_shape(n),
            triangles: generate_l_shape_triangles(n),
        },
        elevation: metadata_for(TextureKind::Elevation),
        normal: metadata_for(TextureKind::Normal),
        z_color: metadata_for(TextureKind::ZColor),
    }
}

/// What one frame of the loading system did.
#[derive(Debug)]
pub struct Frame {
    /// The report of the progress token, if a load was in flight.
    pub polled: Option<Completion>,
    /// The assets to request, if the clipmap starts loading in this frame.
    pub request: Option<LoadRequest>,
}

impl Frame {
    /// The report that the frame went by. Without a load in flight there is
    /// none and the frame does not depend on it.
    pub open spec fn report(self) -> Completion {
        match self.polled {
            Some(status) => status,
            None => Completion::Loading,
        }
    }
}

/// Loads the active clipmap's assets.
pub struct ClipmapSystem {
    /// The token of the load in flight, if there is one.
    pub progress: Option<ProgressCounter>,
    /// The handles that the load in flight was given, once they are attached.
    pub target: Option<ClipmapAssets>,
}

impl ClipmapSystem {
    /// A load is in flight.
    pub open spec fn in_flight(&self) -> bool {
        self.progress.is_some()
    }

    /// The load in flight is the one for `clipmap`: the handles that it was
    /// given are the handles of `clipmap`.
    pub open spec fn loads(&self, clipmap: Clipmap) -> bool {
        self.in_flight() && match self.target {
            Some(assets) => clipmap.holds(assets),
            None => false,
        }
    }

    /// What the system goes by for `clipmap`.
    pub open spec fn progress_of(&self, clipmap: Clipmap) -> Progress {
        Progress {
            in_flight: self.in_flight(),
            own: self.loads(clipmap),
            initialized: clipmap.initialized,
        }
    }

    /// A system with no load in flight.
    pub fn new() -> (system: ClipmapSystem)
        ensures
            !system.in_flight(),
            system.target.is_none(),
    {
        ClipmapSystem { progress: None, target: None }
    }

    /// Tells whether the load in flight is the one for `clipmap`.
    pub fn is_loading(&self, clipmap: &Clipmap) -> (own: bool)
        ensures
            own == self.loads(*clipmap),
    {
        self.progress.is_some() && match &self.target {
            Some(assets) => clipmap.holds_assets(assets),
            None => false,
        }
    }

    /// The state of `clipmap` as this system sees it.
    pub fn state(&self, clipmap: &Clipmap) -> (state: LoadState)
        ensures
            state == load_state(self.progress_of(*clipmap)),
    {
        if clipmap.initialized {
            LoadState::Ready
        } else if self.is_loading(clipmap) {
            LoadState::Loading
        } else {
            LoadState::Uninitialized
        }
    }

    /// Records the handles that the asset pipeline gave out for the request
    /// of `clipmap`: in the clipmap, and, while a load is in flight, as the
    /// handles that this load is for.
    pub fn attach(&mut self, clipmap: &mut Clipmap, assets: ClipmapAssets)
        ensures
            final(clipmap).holds(assets),
            final(clipmap).initialized == old(clipmap).initialized,
            final(clipmap).size == old(clipmap).size,
            final(clipmap).alpha_offset == old(clipmap).alpha_offset,
            final(clipmap).one_over_width == old(clipmap).one_over_width,
            final(self).progress == old(self).progress,
            final(self).target == (if old(self).in_flight() {
                Some(assets)
            } else {
                None
            }),
            final(self).loads(*final(clipmap)) == old(self).in_flight(),
    {
        clipmap.attach(assets);
        if self.progress.is_some() {
            self.target = Some(assets);
        } else {
            self.target = None;
        }
    }

    /// Runs one frame for the active clipmap: polls the token of the load in
    /// flight, frees it when the load has completed, marks the clipmap ready
    /// when that load was its own, and hands out the asset request when the
    /// clipmap has to start loading. The caller submits the request under
    /// the new token in `progress` and attaches the handles it gets with
    /// `attach`.
    ///
    /// The token is polled exactly when a load is in flight, and the frame is
    /// `step` of what the system went by before it for what the token
    /// reported. A load that stays in flight keeps its token. A clipmap that
    /// is about to start loading must be one whose meshes can be built.
    pub fn run(&mut self, clipmap: &mut Clipmap) -> (frame: Frame)
        requires
            !old(self).in_flight() && !old(clipmap).initialized ==> loadable(old(clipmap).size),
        ensures
            frame.polled.is_some() == old(self).in_flight(),
            final(self).in_flight() == step(
                old(self).progress_of(*old(clipmap)),
                frame.report(),
            ).in_flight,
            final(clipmap).initialized == step(
                old(self).progress_of(*old(clipmap)),
                frame.report(),
            ).initialized,
            frame.request.is_some() == step(
                old(self).progress_of(*old(clipmap)),
                frame.report(),
            ).start_load,
            old(self).in_flight() && final(self).in_flight() ==> final(self).progress == old(
                self,
            ).progress && final(self).target == old(self).target,
            !(old(self).in_flight() && final(self).in_flight()) ==> final(self).target.is_none(),
            final(clipmap).initialized ==> old(clipmap).initialized || (old(self).in_flight()
                && frame.report() == Completion::Complete && old(clipmap).has_assets()),
            old(clipmap).ready_with_assets() ==> final(clipmap).ready_with_assets(),
            *final(clipmap) == (Clipmap { initialized: final(clipmap).initialized, ..*old(clipmap) }),
            match frame.request {
                Some(r) => r.is_for(old(clipmap).size),
                None => true,
            },
    {
        let progress = Progress {
            in_flight: self.progress.is_some(),
            own: self.is_loading(clipmap),
            initialized: clipmap.initialized,
        };
        let polled = match &self.progress {
            Some(token) => Some(poll_progress(token)),
            None => None,
        };
        let report = match polled {
            Some(status) => status,
            None => Completion::Loading,
        };
        let next = advance(progress, report);
        clipmap.initialized = next.initialized;
        if next.start_load {
            self.progress = Some(new_progress());
            self.target = None;
            Frame { polled, request: Some(load_request(clipmap.size)) }
        } else {
            if !next.in_flight {
                self.progress = None;
                self.target = None;
            }
            Frame { polled, request: None }
        }
    }
}

impl Default for ClipmapSystem {
    fn default() -> (system: ClipmapSystem)
        ensures
            !system.in_flight(),
            system.target.is_none(),
    {
        ClipmapSystem::new()
    }
}

/// Position of a state on the way from `Uninitialized` over `Loading` to
/// `Ready`.
pub open spec fn progress_rank(state: LoadState) -> int {
    match state {
        LoadState::Uninitialized => 0,
        LoadState::Loading => 1,
        LoadState::Ready => 2,
    }
}

/// A clipmap becomes ready only in a frame in which its own load reports
/// completion, and a frame requests assets only for a clipmap that is not
/// ready while no load at all is in flight.
pub proof fn lemma_ready_only_by_own_load(progress: Progress, polled: Completion)
    ensures
        step(progress, polled).initialized ==> progress.initialized || (progress.in_flight
            && progress.own && polled == Completion::Complete),
        progress.initialized ==> step(progress, polled).initialized,
        step(progress, polled).start_load == (!progress.in_flight && !progress.initialized),
        progress.in_flight && polled != Completion::Complete ==> step(progress, polled) == (Step {
            in_flight: true,
            initialized: progress.initialized,
            start_load: false,
        }),
{
}

/// A frame never takes a clipmap back: with a host that attaches the handles
/// of every request, its state stays or moves on towards `Ready`, and a
/// clipmap that finds no load in flight starts loading.
pub proof fn lemma_state_only_advances(progress: Progress, polled: Completion)
    ensures
        progress_rank(load_state(after_frame(progress, polled))) >= progress_rank(
            load_state(progress),
        ),
        !progress.initialized && !progress.in_flight ==> load_state(after_frame(progress, polled))
            == LoadState::Loading,
{
}

/// The load of another clipmap that completes while this one is active does
/// not make this one ready: the frame frees the token and changes nothing
/// else, and the next frame requests this clipmap's own assets.
pub proof fn lemma_stale_completion(progress: Progress, next: Completion)
    requires
        progress.in_flight,
        !progress.own,
        !progress.initialized,
    ensures
        step(progress, Completion::Complete) == (Step {
            in_flight: false,
            initialized: false,
            start_load: false,
        }),
        step(after_frame(progress, Completion::Complete), next).start_load,
        after_frame(after_frame(progress, Completion::Complete), next) == (Progress {
            in_flight: true,
            own: true,
            initialized: false,
        }),
{
}

/// Once a clipmap is ready it stays ready, whatever the token reports, and
/// its assets are never requested again.
pub proof fn lemma_ready_is_final(progress: Progress, polls: Seq<Completion>, next: Completion)
    requires
        progress.initialized,
    ensures
        run_frames(progress, polls).initialized,
        !step(run_frames(progress, polls), next).start_load,
    decreases polls.len(),
{
    if polls.len() > 0 {
        lemma_ready_is_final(progress, polls.drop_last(), polls.last());
    }
}

/// While the token never reports completion, the clipmap never becomes
/// ready: the first frame requests its assets, and from then on its load
/// stays in flight and nothing is requested again.
pub proof fn lemma_waiting(polls: Seq<Completion>, next: Completion)
    requires
        polls.len() > 0,
        forall|k: int| 1 <= k < polls.len() ==> polls[k] != Completion::Complete,
    ensures
        run_frames(untouched(), polls) == (Progress {
            in_flight: true,
            own: true,
            initialized: false,
        }),
        step(untouched(), polls[0]).start_load,
        !step(run_frames(untouched(), polls), next).start_load,
    decreases polls.len(),
{
    let front = polls.drop_last();
    if polls.len() > 1 {
        assert forall|k: int| 1 <= k < front.len() implies front[k] != Completion::Complete by {
            assert(front[k] == polls[k]);
        }
        assert(front[0] == polls[0]);
        lemma_waiting(front, polls.last());
        assert(polls.last() == polls[polls.len() - 1]);
    } else {
        assert(run_frames(untouched(), front) == untouched());
        assert(polls.last() == polls[0]);
    }
}

/// A fresh clipmap whose load completes becomes ready in the frame that sees
/// the completion: the first frame requests the assets, every frame up to
/// the completion waits, and no later frame changes anything or requests the
/// assets again.
pub proof fn lemma_load_completes_once(
    waiting: Seq<Completion>,
    later: Seq<Completion>,
    next: Completion,
)
    requires
        waiting.len() > 0,
        forall|k: int| 1 <= k < waiting.len() ==> waiting[k] != Completion::Complete,
    ensures
        !run_frames(untouched(), waiting).initialized,
        run_frames(untouched(), waiting.push(Completion::Complete)) == (Progress {
            in_flight: false,
            own: false,
            initialized: true,
        }),
        run_frames(untouched(), waiting.push(Completion::Complete) + later) == (Progress {
            in_flight: false,
            own: false,
            initialized: true,
        }),
        !step(
            run_frames(untouched(), waiting.push(Completion::Complete) + later),
            next,
        ).start_load,
{
    lemma_waiting(waiting, next);
    let done = waiting.push(Completion::Complete);
    assert(done.drop_last() =~= waiting);
    assert(done.last() == Completion::Complete);
    lemma_run_frames_append(untouched(), done, later);
    lemma_settled(later);
}

/// A clipmap that is ready while no load is in flight is left as it is.
pub proof fn lemma_settled(polls: Seq<Completion>)
    ensures
        run_frames(Progress { in_flight: false, own: false, initialized: true }, polls) == (Progress {
            in_flight: false,
            own: false,
            initialized: true,
        }),
    decreases polls.len(),
{
    if polls.len() > 0 {
        lemma_settled(polls.drop_last());
    }
}

/// A load that keeps failing never makes the clipmap ready, and stays in
/// flight.
pub proof fn lemma_persistent_failure(frames: nat)
    ensures
        !run_frames(untouched(), Seq::new(frames, |k: int| Completion::Failed)).initialized,
        frames > 0 ==> run_frames(
            untouched(),
            Seq::new(frames, |k: int| Completion::Failed),
        ).in_flight,
{
    if frames > 0 {
        lemma_waiting(Seq::new(frames, |k: int| Completion::Failed), Completion::Failed);
    } else {
        assert(run_frames(untouched(), Seq::new(frames, |k: int| Completion::Failed))
            == untouched());
    }
}

/// Running two runs of frames one after the other is running their
/// concatenation.
pub proof fn lemma_run_frames_append(
    progress: Progress,
    first: Seq<Completion>,
    second: Seq<Completion>,
)
    ensures
        run_frames(progress, first + second) == run_frames(run_frames(progress, first), second),
    decreases second.len(),
{
    if second.len() == 0 {
        assert(first + second =~= first);
    } else {
        assert((first + second).drop_last() =~= first + second.drop_last());
        assert((first + second).last() == second.last());
        lemma_run_frames_append(progress, first, second.drop_last());
    }
}

} // verus!
