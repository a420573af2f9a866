use solarsim::fixed::clamp_fx;
use solarsim::fixed::fx_div;
use solarsim::fixed::fx_mul;
use solarsim::fixed::isqrt_u128;
use solarsim::texture::make_texture_data;
use solarsim::texture::SurfaceKind;
use solarsim::trig::cos_fx;
use solarsim::trig::sin_fx;
use solarsim::vec3::length;
use solarsim::vec3::normalize;
use solarsim::vec3::Vec3Fx;

#[test]
fn products_scale_and_truncate_toward_zero() {
    assert_eq!(fx_mul(1_500_000, 2_000_000), 3_000_000);
    assert_eq!(fx_mul(1_500_000, -2_000_000), -3_000_000);
    // Tiny magnitudes truncate toward zero from either side.
    assert_eq!(fx_mul(1, 1), 0);
    assert_eq!(fx_mul(-1, 1), 0);
    assert_eq!(fx_mul(999_999, 1), 0);
}

#[test]
fn quotients_rescale() {
    assert_eq!(fx_div(3_000_000, 2_000_000), 1_500_000);
    assert_eq!(fx_div(-3_000_000, 2_000_000), -1_500_000);
    assert_eq!(fx_div(1_000_000, 3_000_000), 333_333);
}

#[test]
fn clamp_holds_the_interval() {
    assert_eq!(clamp_fx(5, 0, 10), 5);
    assert_eq!(clamp_fx(-5, 0, 10), 0);
    assert_eq!(clamp_fx(15, 0, 10), 10);
}

#[test]
fn integer_square_roots_are_floors() {
    assert_eq!(isqrt_u128(0), 0);
    assert_eq!(isqrt_u128(1), 1);
    assert_eq!(isqrt_u128(15), 3);
    assert_eq!(isqrt_u128(16), 4);
    assert_eq!(isqrt_u128(1_000_000_000_000_000_000), 1_000_000_000);
    assert_eq!(isqrt_u128(u128::MAX), u64::MAX);
}

#[test]
fn lengths_and_unit_vectors() {
    let v = Vec3Fx { x: 3_000_000, y: 4_000_000, z: 0 };
    assert_eq!(length(v), 5_000_000);
    let n = normalize(v);
    assert_eq!(n, Vec3Fx { x: 600_000, y: 800_000, z: 0 });
}

#[test]
fn trig_is_periodic_in_full_turns() {
    let tau: i64 = 6_283_185;
    for ang in [0i64, 1_000_000, 2_500_000, 5_000_000] {
        assert_eq!(sin_fx(ang), sin_fx(ang + tau));
        assert_eq!(cos_fx(ang), cos_fx(ang + tau));
        assert_eq!(sin_fx(ang - tau), sin_fx(ang));
    }
}

#[test]
fn one_texel_textures_work() {
    for kind in [SurfaceKind::Gas, SurfaceKind::Sun, SurfaceKind::Ring] {
        let data = make_texture_data(kind, 1, 1);
        assert_eq!(data.len(), 4);
    }
}
