use clipmap::lights::{fragment_args, light_buffer, FragmentArgs, LightEntry, LightKind};

fn light(kind: LightKind, has_transform: bool) -> LightEntry {
    LightEntry { kind, has_transform }
}

#[test]
fn no_lights_no_counts() {
    assert_eq!(
        fragment_args(&Vec::new()),
        FragmentArgs { point_light_count: 0, directional_light_count: 0, spot_light_count: 0 }
    );
}

#[test]
fn placed_lights_need_a_transform() {
    assert_eq!(light_buffer(light(LightKind::Point, true)), Some(LightKind::Point));
    assert_eq!(light_buffer(light(LightKind::Point, false)), None);
    assert_eq!(light_buffer(light(LightKind::Spot, true)), Some(LightKind::Spot));
    assert_eq!(light_buffer(light(LightKind::Spot, false)), None);
    assert_eq!(light_buffer(light(LightKind::Directional, true)), Some(LightKind::Directional));
    assert_eq!(light_buffer(light(LightKind::Directional, false)), Some(LightKind::Directional));
}

#[test]
fn lights_are_counted_per_buffer() {
    let lights = vec![
        light(LightKind::Point, true),
        light(LightKind::Point, false),
        light(LightKind::Directional, false),
        light(LightKind::Spot, true),
        light(LightKind::Directional, true),
        light(LightKind::Point, true),
        light(LightKind::Spot, false),
        light(LightKind::Directional, false),
    ];
    assert_eq!(
        fragment_args(&lights),
        FragmentArgs { point_light_count: 2, directional_light_count: 3, spot_light_count: 1 }
    );
}
