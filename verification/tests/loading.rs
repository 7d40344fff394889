use amethyst_assets::{Progress as TrackedProgress, Tracker};
use clipmap::component::{Clipmap, ClipmapAssets, MeshHandle, TextureHandle};
use clipmap::loading::{
    advance, is_loadable, load_request, metadata_for, texture_path, ClipmapSystem, ColorSpace,
    FilterMethod, LoadState, Progress, Step, SurfaceLayout, TextureKind, WrapMode,
};
use clipmap::progress::Completion;
use clipmap::topology::{generate_block, generate_l_shape, generate_ring_fixup};
use clipmap::triangles::{
    generate_block_triangles, generate_l_shape_triangles, generate_ring_fixup_triangles,
};

const REPORTS: [Completion; 3] = [Completion::Complete, Completion::Failed, Completion::Loading];

fn assets(first: u32) -> ClipmapAssets {
    ClipmapAssets {
        block_mesh: MeshHandle { id: first },
        ring_fixup_mesh: MeshHandle { id: first + 1 },
        l_shape_mesh: MeshHandle { id: first + 2 },
        elevation: TextureHandle { id: first + 3 },
        normal: TextureHandle { id: first + 4 },
        z_color: TextureHandle { id: first + 5 },
    }
}

fn track_one(system: &mut ClipmapSystem) -> Box<dyn Tracker> {
    let mut progress = system.progress.as_mut().expect("a load is in flight");
    progress.add_assets(1);
    Box::new(progress.create_tracker())
}

/// Starts the load of `clipmap` as a host does: runs a frame, submits the six
/// assets under the new token and attaches their handles.
fn start_load(
    system: &mut ClipmapSystem,
    clipmap: &mut Clipmap,
    first: u32,
) -> Vec<Box<dyn Tracker>> {
    let frame = system.run(clipmap);
    assert!(frame.request.is_some());
    let trackers = (0..6).map(|_| track_one(system)).collect();
    system.attach(clipmap, assets(first));
    trackers
}

fn state(in_flight: bool, own: bool, initialized: bool) -> Progress {
    Progress { in_flight, own, initialized }
}

#[test]
fn fresh_clipmap_starts_loading_in_the_first_frame() {
    let mut system = ClipmapSystem::new();
    let mut clipmap = Clipmap::new(15);
    assert_eq!(system.state(&clipmap), LoadState::Uninitialized);
    let frame = system.run(&mut clipmap);
    assert_eq!(frame.polled, None);
    let request = frame.request.expect("the first frame requests the assets");
    assert_eq!(request.block.vertices, generate_block(4));
    assert_eq!(request.block.triangles, generate_block_triangles(4));
    assert_eq!(request.ring_fixup.vertices, generate_ring_fixup(4));
    assert_eq!(request.ring_fixup.triangles, generate_ring_fixup_triangles(4));
    assert_eq!(request.l_shape.vertices, generate_l_shape(4));
    assert_eq!(request.l_shape.triangles, generate_l_shape_triangles(4));
    assert_eq!(request.elevation, metadata_for(TextureKind::Elevation));
    assert_eq!(request.normal, metadata_for(TextureKind::Normal));
    assert_eq!(request.z_color, metadata_for(TextureKind::ZColor));
    assert!(system.progress.is_some());
    assert_eq!(system.target, None);
    assert!(!clipmap.initialized);
    // no handle yet: the load is not known to be this clipmap's
    assert!(!system.is_loading(&clipmap));
    assert_eq!(system.state(&clipmap), LoadState::Uninitialized);
    system.attach(&mut clipmap, assets(1));
    assert_eq!(system.target, Some(assets(1)));
    assert_eq!(clipmap.block_mesh, Some(MeshHandle { id: 1 }));
    assert_eq!(clipmap.z_color, Some(TextureHandle { id: 6 }));
    assert!(system.is_loading(&clipmap));
    assert_eq!(system.state(&clipmap), LoadState::Loading);
}

#[test]
fn completed_load_makes_the_clipmap_ready_exactly_once() {
    let mut system = ClipmapSystem::new();
    let mut clipmap = Clipmap::new(15);
    let trackers = start_load(&mut system, &mut clipmap, 1);

    // still loading: nothing changes, nothing is requested again
    for _ in 0..3 {
        let frame = system.run(&mut clipmap);
        assert_eq!(frame.polled, Some(Completion::Loading));
        assert!(frame.request.is_none());
        assert!(!clipmap.initialized);
        assert_eq!(system.target, Some(assets(1)));
        assert_eq!(system.state(&clipmap), LoadState::Loading);
    }

    for tracker in trackers {
        tracker.success();
    }
    let frame = system.run(&mut clipmap);
    assert_eq!(frame.polled, Some(Completion::Complete));
    assert!(frame.request.is_none());
    assert!(clipmap.initialized);
    assert!(system.progress.is_none());
    assert_eq!(system.target, None);
    assert_eq!(system.state(&clipmap), LoadState::Ready);

    // polled many extra times: ready stays ready, nothing is issued
    for _ in 0..50 {
        let frame = system.run(&mut clipmap);
        assert_eq!(frame.polled, None);
        assert!(frame.request.is_none());
        assert!(clipmap.initialized);
        assert!(system.progress.is_none());
    }
}

#[test]
fn persistent_failure_never_makes_the_clipmap_ready() {
    let mut system = ClipmapSystem::new();
    let mut clipmap = Clipmap::new(15);
    let mut trackers = start_load(&mut system, &mut clipmap, 1);
    let failing = trackers.pop().unwrap();
    failing.fail(1, "Texture", String::from("texture/elevation.png"), std::fmt::Error.into());
    for tracker in trackers {
        tracker.success();
    }
    let before = clipmap;
    for _ in 0..50 {
        let frame = system.run(&mut clipmap);
        assert_eq!(frame.polled, Some(Completion::Failed));
        assert!(frame.request.is_none());
        assert!(!clipmap.initialized);
        assert!(system.progress.is_some());
        assert_eq!(system.target, Some(assets(1)));
        assert_eq!(clipmap, before);
        assert_eq!(system.state(&clipmap), LoadState::Loading);
    }
}

#[test]
fn a_pending_load_keeps_reporting_through_its_own_token() {
    // a fresh token would report completion at once: the failure must stay seen
    let mut system = ClipmapSystem::new();
    let mut clipmap = Clipmap::new(15);
    let mut trackers = start_load(&mut system, &mut clipmap, 1);
    assert_eq!(system.run(&mut clipmap).polled, Some(Completion::Loading));
    trackers.pop().unwrap().fail(7, "Mesh", String::from("block"), std::fmt::Error.into());
    assert_eq!(system.run(&mut clipmap).polled, Some(Completion::Failed));
    assert_eq!(system.progress.as_ref().unwrap().num_assets(), 6);
    assert_eq!(system.progress.as_ref().unwrap().num_failed(), 1);
    assert_eq!(system.run(&mut clipmap).polled, Some(Completion::Failed));
}

#[test]
fn another_clipmaps_load_does_not_make_this_one_ready() {
    let mut system = ClipmapSystem::new();
    let mut first = Clipmap::new(15);
    let trackers = start_load(&mut system, &mut first, 1);

    // the active clipmap changes while the load is in flight
    let mut second = Clipmap::new(31);
    assert_eq!(system.state(&second), LoadState::Uninitialized);
    let frame = system.run(&mut second);
    assert_eq!(frame.polled, Some(Completion::Loading));
    assert!(frame.request.is_none());
    assert_eq!(second, Clipmap::new(31));

    for tracker in trackers {
        tracker.success();
    }
    // the stale load completes: the token is freed, the second clipmap stays as it was
    let frame = system.run(&mut second);
    assert_eq!(frame.polled, Some(Completion::Complete));
    assert!(frame.request.is_none());
    assert!(!second.initialized);
    assert_eq!(second, Clipmap::new(31));
    assert!(system.progress.is_none());
    assert_eq!(system.target, None);

    // the next frame requests the second clipmap's own assets
    let trackers = start_load(&mut system, &mut second, 11);
    assert_eq!(system.state(&second), LoadState::Loading);
    assert_eq!(system.state(&first), LoadState::Uninitialized);
    for tracker in trackers {
        tracker.success();
    }
    system.run(&mut second);
    assert!(second.initialized);
    assert_eq!(second.block_mesh, Some(MeshHandle { id: 11 }));
    assert!(!first.initialized);
}

#[test]
fn handles_of_an_earlier_load_do_not_claim_a_later_one() {
    let mut system = ClipmapSystem::new();
    let mut orphan = Clipmap::new(15);
    orphan.attach(assets(1));
    let mut other = Clipmap::new(15);
    let trackers = start_load(&mut system, &mut other, 11);
    for tracker in trackers {
        tracker.success();
    }
    assert!(!system.is_loading(&orphan));
    let frame = system.run(&mut orphan);
    assert_eq!(frame.polled, Some(Completion::Complete));
    assert!(!orphan.initialized);
    assert!(frame.request.is_none());
    // with the token free again, the orphan loads anew
    assert!(system.run(&mut orphan).request.is_some());
}

#[test]
fn run_changes_nothing_of_the_clipmap_but_its_readiness() {
    let mut system = ClipmapSystem::new();
    let mut clipmap = Clipmap::new(63);
    let before = clipmap;
    system.run(&mut clipmap);
    assert_eq!(clipmap, before);
    system.attach(&mut clipmap, assets(1));
    let attached = clipmap;
    system.run(&mut clipmap);
    assert_eq!(clipmap, Clipmap { initialized: true, ..attached });
}

#[test]
fn a_load_without_attached_handles_makes_nothing_ready() {
    // a token that tracks nothing reports completion, but no handle was attached
    let mut system = ClipmapSystem::new();
    let mut clipmap = Clipmap::new(15);
    system.run(&mut clipmap);
    let frame = system.run(&mut clipmap);
    assert_eq!(frame.polled, Some(Completion::Complete));
    assert!(!clipmap.initialized);
    assert!(system.progress.is_none());
    assert!(system.run(&mut clipmap).request.is_some());
}

#[test]
fn attach_without_a_load_in_flight_claims_nothing() {
    let mut system = ClipmapSystem::new();
    let mut clipmap = Clipmap::new(15);
    system.attach(&mut clipmap, assets(1));
    assert_eq!(clipmap.block_mesh, Some(MeshHandle { id: 1 }));
    assert_eq!(system.target, None);
    assert!(!system.is_loading(&clipmap));
    assert_eq!(system.state(&clipmap), LoadState::Uninitialized);
}

#[test]
fn ready_clipmap_is_never_loaded() {
    let mut system = ClipmapSystem::default();
    let mut clipmap = Clipmap::new(15);
    clipmap.attach(assets(1));
    clipmap.initialized = true;
    for _ in 0..5 {
        let frame = system.run(&mut clipmap);
        assert_eq!(frame.polled, None);
        assert!(frame.request.is_none());
        assert!(system.progress.is_none());
        assert!(clipmap.initialized);
    }
}

#[test]
fn ready_clipmap_without_blocks_is_left_alone() {
    let mut system = ClipmapSystem::new();
    let mut clipmap = Clipmap::new(1);
    clipmap.initialized = true;
    let frame = system.run(&mut clipmap);
    assert!(frame.request.is_none());
    assert!(clipmap.initialized);
}

#[test]
fn advance_follows_the_transition_table() {
    let idle = |initialized| Step { in_flight: false, initialized, start_load: false };
    let waiting = |initialized| Step { in_flight: true, initialized, start_load: false };
    for report in REPORTS {
        for own in [false, true] {
            // no load in flight: the report does not count
            assert_eq!(
                advance(state(false, own, false), report),
                Step { in_flight: true, initialized: false, start_load: true }
            );
            assert_eq!(advance(state(false, own, true), report), idle(true));
        }
    }
    // its own load completes
    assert_eq!(advance(state(true, true, false), Completion::Complete), idle(true));
    // another's load completes
    assert_eq!(advance(state(true, false, false), Completion::Complete), idle(false));
    assert_eq!(advance(state(true, false, true), Completion::Complete), idle(true));
    assert_eq!(advance(state(true, true, true), Completion::Complete), idle(true));
    for report in [Completion::Failed, Completion::Loading] {
        for own in [false, true] {
            assert_eq!(advance(state(true, own, false), report), waiting(false));
            assert_eq!(advance(state(true, own, true), report), waiting(true));
        }
    }
}

#[test]
fn simulated_failure_keeps_loading_for_ever() {
    let first = advance(state(false, false, false), Completion::Failed);
    assert!(first.start_load);
    let mut now = state(first.in_flight, true, first.initialized);
    for _ in 0..1000 {
        let next = advance(now, Completion::Failed);
        assert_eq!(next, Step { in_flight: true, initialized: false, start_load: false });
        now = state(next.in_flight, true, next.initialized);
    }
}

#[test]
fn simulated_completion_is_idempotent() {
    let first = advance(state(false, false, false), Completion::Loading);
    let second = advance(state(first.in_flight, true, first.initialized), Completion::Loading);
    let third = advance(state(second.in_flight, true, second.initialized), Completion::Complete);
    let ready = Step { in_flight: false, initialized: true, start_load: false };
    assert_eq!(third, ready);
    for round in 0..300 {
        assert_eq!(advance(state(false, false, true), REPORTS[round % 3]), ready);
    }
}

#[test]
fn load_request_for_size_255_has_blocks_of_64() {
    let request = load_request(255);
    assert_eq!(request.block.vertices.len(), 64 * 64);
    assert_eq!(request.block.triangles.len(), 6 * 63 * 63);
    assert_eq!(request.ring_fixup.vertices.len(), 4 * 3 * 64);
    assert_eq!(request.ring_fixup.triangles.len(), 4 * 6 * 2 * 63);
    assert_eq!(request.l_shape.vertices.len(), 2 * 64);
    assert_eq!(request.l_shape.triangles.len(), 6 * 63);
    assert!(is_loadable(255));
    assert!(is_loadable(3));
    assert!(!is_loadable(0));
    assert!(!is_loadable(1));
    assert!(!is_loadable(2));
}

#[test]
fn the_three_textures_have_their_formats() {
    let elevation = metadata_for(TextureKind::Elevation);
    assert_eq!(elevation.filter, FilterMethod::Scale);
    assert_eq!(elevation.wrap, WrapMode::Tile);
    assert_eq!(elevation.mip_levels, 1);
    assert!(elevation.dynamic);
    assert_eq!(elevation.surface, SurfaceLayout::R8G8B8A8);
    assert_eq!(elevation.color_space, ColorSpace::Srgb);

    let normal = metadata_for(TextureKind::Normal);
    assert_eq!(normal.wrap, WrapMode::Clamp);
    assert_eq!(normal.mip_levels, 1);
    assert!(!normal.dynamic);
    assert_eq!(normal.surface, SurfaceLayout::R8G8B8A8);
    assert_eq!(normal.color_space, ColorSpace::Unorm);

    let z_color = metadata_for(TextureKind::ZColor);
    assert_eq!(z_color.wrap, WrapMode::Clamp);
    assert!(!z_color.dynamic);
    assert_eq!(z_color.color_space, ColorSpace::Srgb);

    assert_eq!(texture_path(TextureKind::Elevation), "texture/elevation.png");
    assert_eq!(texture_path(TextureKind::Normal), "texture/normal.png");
    assert_eq!(texture_path(TextureKind::ZColor), "texture/z_color.png");
}
