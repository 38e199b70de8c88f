use ears::context::AudioContext;
use ears::context::V3;
use ears::listener::{
    get_orientation, get_position, get_velocity, get_volume, set_orientation, set_position,
    set_velocity, set_volume,
};

fn v3(x: f32, y: f32, z: f32) -> V3 {
    V3 { x: x.to_bits(), y: y.to_bits(), z: z.to_bits() }
}

#[test]
pub fn listener_set_volume() {
    let mut ctx = AudioContext::new();
    set_volume(&mut ctx, 0.77f32.to_bits());
    assert_eq!(f32::from_bits(get_volume(&ctx)), 0.77f32);
}

#[test]
pub fn listener_set_position() {
    let mut ctx = AudioContext::new();
    set_position(&mut ctx, v3(50f32, 150f32, 234f32));
    let res = get_position(&ctx);
    assert_eq!(
        (f32::from_bits(res.x), f32::from_bits(res.y), f32::from_bits(res.z)),
        (50f32, 150f32, 234f32)
    );
}

#[test]
pub fn listener_set_orientation() {
    let mut ctx = AudioContext::new();
    set_orientation(&mut ctx, v3(50., 150., 234.), v3(277., 125., 71.));
    let (s1, s2) = get_orientation(&ctx);
    assert_eq!(s1, v3(50f32, 150f32, 234f32));
    assert_eq!(s2, v3(277f32, 125f32, 71f32));
}

#[test]
fn listener_set_velocity_round_trip() {
    let mut ctx = AudioContext::new();
    set_velocity(&mut ctx, v3(1.5, -2.5, 3.0));
    assert_eq!(get_velocity(&ctx), v3(1.5, -2.5, 3.0));
}

#[test]
fn listener_defaults_on_fresh_context() {
    let ctx = AudioContext::new();
    assert_eq!(f32::from_bits(get_volume(&ctx)), 1.0f32);
    assert_eq!(get_position(&ctx), v3(0.0, 0.0, 0.0));
    assert_eq!(get_velocity(&ctx), v3(0.0, 0.0, 0.0));
    let (at, up) = get_orientation(&ctx);
    assert_eq!(at, v3(0.0, 0.0, -1.0));
    assert_eq!(up, v3(0.0, 1.0, 0.0));
}

#[test]
fn listener_absent_context_returns_zero_values() {
    let mut ctx = AudioContext::absent();
    set_volume(&mut ctx, 0.9f32.to_bits());
    set_position(&mut ctx, v3(4.0, 5.0, 6.0));
    set_orientation(&mut ctx, v3(1.0, 0.0, 0.0), v3(0.0, 0.0, 1.0));
    set_velocity(&mut ctx, v3(7.0, 8.0, 9.0));
    assert_eq!(get_volume(&ctx), 0u32);
    assert_eq!(get_position(&ctx), V3 { x: 0, y: 0, z: 0 });
    assert_eq!(get_velocity(&ctx), V3 { x: 0, y: 0, z: 0 });
    assert_eq!(
        get_orientation(&ctx),
        (V3 { x: 0, y: 0, z: 0 }, V3 { x: 0, y: 0, z: 0 })
    );
}
