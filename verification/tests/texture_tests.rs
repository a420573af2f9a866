use solarsim::texture::gas_color;
use solarsim::texture::ice_color;
use solarsim::texture::make_texture_data;
use solarsim::texture::ring_color;
use solarsim::texture::rock_color;
use solarsim::texture::sun_color;
use solarsim::texture::Rgba;
use solarsim::texture::SurfaceKind;

#[test]
fn buffers_are_always_width_height_rgba() {
    for kind in [
        SurfaceKind::Sun,
        SurfaceKind::Rock,
        SurfaceKind::Gas,
        SurfaceKind::Ice,
        SurfaceKind::Ring,
        SurfaceKind::Unknown,
    ] {
        let data = make_texture_data(kind, 16, 8);
        assert_eq!(data.len(), 16 * 8 * 4);
    }
}

#[test]
fn deterministic_kinds_synthesize_identical_buffers() {
    for kind in [SurfaceKind::Gas, SurfaceKind::Ice, SurfaceKind::Ring] {
        let a = make_texture_data(kind, 64, 64);
        let b = make_texture_data(kind, 64, 64);
        assert_eq!(a, b);
    }
}

#[test]
fn unknown_kind_paints_opaque_white() {
    let data = make_texture_data(SurfaceKind::Unknown, 4, 4);
    assert!(data.iter().all(|&b| b == 255));
}

#[test]
fn every_kind_but_ring_is_opaque() {
    for kind in [SurfaceKind::Sun, SurfaceKind::Rock, SurfaceKind::Gas, SurfaceKind::Ice] {
        let data = make_texture_data(kind, 8, 8);
        for p in 0..64 {
            assert_eq!(data[4 * p + 3], 255);
        }
    }
}

#[test]
fn sun_is_brightest_at_the_center() {
    // With no jitter the center pixel is the full warm palette.
    let c = sun_color(500_000, 500_000, 0);
    assert_eq!(c, Rgba { r: 255, g: 180, b: 60, a: 255 });
    // Jitter can only brighten, and red saturates.
    let j = sun_color(500_000, 500_000, 100_000);
    assert_eq!(j.r, 255);
    assert_eq!(j.g, 198);
    assert_eq!(j.b, 66);
    // A corner is far outside the falloff: only jitter is left, none here.
    let corner = sun_color(0, 0, 0);
    assert_eq!(corner, Rgba { r: 0, g: 0, b: 0, a: 255 });
}

#[test]
fn rock_ramps_from_its_base_palette() {
    let c = rock_color(0, 0, 0);
    assert_eq!(c, Rgba { r: 90, g: 70, b: 60, a: 255 });
    let d = rock_color(1_000_000, 1_000_000, 0);
    assert_eq!(d, Rgba { r: 190, g: 150, b: 100, a: 255 });
}

#[test]
fn gas_bands_follow_the_sine() {
    // At v = 0 the sine vanishes and the band weight is 0.6.
    let c = gas_color(0, 0);
    assert_eq!(c, Rgba { r: 160, g: 198, b: 164, a: 255 });
}

#[test]
fn ice_mixes_its_blue_white_palette() {
    // At the origin the cosine-sine product vanishes: weight one half.
    let c = ice_color(0, 0);
    assert_eq!(c, Rgba { r: 155, g: 155, b: 127, a: 255 });
}

#[test]
fn ring_fades_away_from_the_mid_line() {
    // On the mid line the ring is at full strength.
    let mid = ring_color(0, 500_000);
    assert_eq!(mid, Rgba { r: 180, g: 180, b: 160, a: 200 });
    // At the edge it has faded out entirely.
    let edge = ring_color(0, 0);
    assert_eq!(edge.a, 0);
    let other_edge = ring_color(0, 1_000_000);
    assert_eq!(other_edge.a, 0);
}

#[test]
fn sun_jitter_stays_within_its_band() {
    // Away from the center the sun pixel is pure jitter; over many pixels
    // the red channel must stay below the jitter ceiling (0.2 of 255).
    let data = make_texture_data(SurfaceKind::Sun, 64, 64);
    let corner = 0;
    let r = data[4 * corner];
    assert!(r <= 51);
}
