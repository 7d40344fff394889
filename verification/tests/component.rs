use clipmap::component::{
    get_clipmap, is_valid_size, ActiveClipmap, ActiveClipmapPrefab, Candidate, Clipmap,
    ClipmapAssets, Entity, MeshHandle, TextureHandle,
};
use clipmap::units::Ratio;

fn value(ratio: Ratio) -> f32 {
    ratio.num as f32 / ratio.den as f32
}

fn candidate(id: u32, has_clipmap: bool, has_transform: bool) -> Candidate {
    Candidate { entity: Entity { id }, has_clipmap, has_transform }
}

#[test]
fn sizes_one_less_than_a_power_of_two_are_valid() {
    for k in 0..32u32 {
        let size = ((1u64 << k) - 1) as u32;
        assert!(is_valid_size(size), "2^{} - 1", k);
    }
    for size in [2u32, 4, 5, 6, 8, 14, 16, 100, 254, 256, u32::MAX - 1, u32::MAX] {
        assert!(!is_valid_size(size), "{}", size);
    }
}

#[test]
fn default_clipmap_has_size_15_and_its_blend_parameters() {
    let clipmap = Clipmap::default();
    assert_eq!(clipmap.size, 15);
    assert_eq!(value(clipmap.transition_width()), 1.5);
    assert_eq!(value(clipmap.alpha_offset.x), 4.5);
    assert_eq!(value(clipmap.alpha_offset.y), 4.5);
    assert!((value(clipmap.one_over_width.x) - 0.667).abs() < 0.001);
    assert_eq!(clipmap.one_over_width.x, clipmap.one_over_width.y);
    assert_eq!(clipmap.alpha_offset.x, Ratio { num: 45, den: 10 });
    assert_eq!(clipmap.one_over_width.x, Ratio { num: 10, den: 15 });
    assert_eq!(clipmap, Clipmap::new(15));
}

#[test]
fn new_clipmap_has_nothing_attached() {
    let clipmap = Clipmap::new(255);
    assert!(!clipmap.initialized);
    assert_eq!(clipmap.block_mesh, None);
    assert_eq!(clipmap.ring_fixup_mesh, None);
    assert_eq!(clipmap.l_shape_mesh, None);
    assert_eq!(clipmap.elevation, None);
    assert_eq!(clipmap.normal, None);
    assert_eq!(clipmap.z_color, None);
    assert_eq!(clipmap.size, 255);
    assert_eq!(clipmap.block_dim(), 64);
    // (254 / 2) - 25.5 - 1
    assert_eq!(value(clipmap.alpha_offset.x), 100.5);
}

#[test]
fn transition_width_is_positive_and_its_reciprocal_finite() {
    for k in 2..32u32 {
        let size = ((1u64 << k) - 1) as u32;
        let clipmap = Clipmap::new(size);
        let width = clipmap.transition_width();
        assert!(width.num > 0 && width.den > 0);
        assert!(value(width) > 0.0);
        assert_ne!(clipmap.one_over_width.x.den, 0);
        assert!(value(clipmap.one_over_width.x).is_finite());
        assert!((value(clipmap.one_over_width.x) * value(width) - 1.0).abs() < 1e-6);
    }
}

#[test]
fn size_zero_has_no_finite_reciprocal_width() {
    let clipmap = Clipmap::new(0);
    assert_eq!(clipmap.one_over_width.x.den, 0);
    assert!(!value(clipmap.one_over_width.x).is_finite());
}

#[test]
fn attach_sets_all_six_handles_and_nothing_else() {
    let mut clipmap = Clipmap::new(31);
    let before = clipmap;
    clipmap.attach(ClipmapAssets {
        block_mesh: MeshHandle { id: 1 },
        ring_fixup_mesh: MeshHandle { id: 2 },
        l_shape_mesh: MeshHandle { id: 3 },
        elevation: TextureHandle { id: 4 },
        normal: TextureHandle { id: 5 },
        z_color: TextureHandle { id: 6 },
    });
    assert_eq!(clipmap.block_mesh, Some(MeshHandle { id: 1 }));
    assert_eq!(clipmap.ring_fixup_mesh, Some(MeshHandle { id: 2 }));
    assert_eq!(clipmap.l_shape_mesh, Some(MeshHandle { id: 3 }));
    assert_eq!(clipmap.elevation, Some(TextureHandle { id: 4 }));
    assert_eq!(clipmap.normal, Some(TextureHandle { id: 5 }));
    assert_eq!(clipmap.z_color, Some(TextureHandle { id: 6 }));
    assert!(!clipmap.initialized);
    assert_eq!(clipmap.size, before.size);
    assert_eq!(clipmap.alpha_offset, before.alpha_offset);
    assert_eq!(clipmap.one_over_width, before.one_over_width);
}

#[test]
fn active_entity_is_chosen_when_renderable() {
    let world = vec![candidate(7, true, true), candidate(9, true, true)];
    let active = ActiveClipmap { entity: Some(Entity { id: 9 }) };
    assert_eq!(get_clipmap(&active, &world), Some(1));
}

#[test]
fn first_renderable_entity_is_the_fallback() {
    let world = vec![
        candidate(1, true, false),
        candidate(2, false, true),
        candidate(3, true, true),
        candidate(4, true, true),
    ];
    assert_eq!(get_clipmap(&ActiveClipmap::default(), &world), Some(2));
    // the active entity lacks a transform
    let active = ActiveClipmap { entity: Some(Entity { id: 1 }) };
    assert_eq!(get_clipmap(&active, &world), Some(2));
    // the active entity is unknown
    let active = ActiveClipmap { entity: Some(Entity { id: 99 }) };
    assert_eq!(get_clipmap(&active, &world), Some(2));
}

#[test]
fn nothing_renderable_means_no_clipmap() {
    let world = vec![candidate(1, true, false), candidate(2, false, true)];
    let active = ActiveClipmap { entity: Some(Entity { id: 1 }) };
    assert_eq!(get_clipmap(&active, &world), None);
    assert_eq!(get_clipmap(&ActiveClipmap::default(), &Vec::new()), None);
}

#[test]
fn prefab_makes_the_indexed_entity_active() {
    let entities = vec![Entity { id: 10 }, Entity { id: 11 }, Entity { id: 12 }];
    let mut active = ActiveClipmap::default();
    assert_eq!(active.entity, None);
    ActiveClipmapPrefab(2).add_to_entity(&mut active, &entities);
    assert_eq!(active.entity, Some(Entity { id: 12 }));
}
