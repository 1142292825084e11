use colstodian::blend::LinearBlender;
use colstodian::color_alpha::srgba;
use colstodian::color_alpha::srgba_u8;
use colstodian::color_alpha::linear_srgba;
use colstodian::color_alpha::ColorAlpha;
use colstodian::dynamic::DowncastError;
use colstodian::dynamic::DynamicColorAlpha;
use colstodian::tags::DynamicAlphaState;
use colstodian::tags::DynamicColorSpace;
use colstodian::tags::DynamicState;
use colstodian::tags::EncodedSrgb;
use colstodian::tags::LinearSrgb;
use colstodian::tags::Premultiplied;
use colstodian::tags::Separate;

fn b(x: f32) -> u32 {
    x.to_bits()
}

fn f(x: u32) -> f32 {
    f32::from_bits(x)
}

fn raw4(c: [f32; 4]) -> [u32; 4] {
    [b(c[0]), b(c[1]), b(c[2]), b(c[3])]
}

fn assert_close(actual: u32, expected: f32, tol: f32) {
    let a = f(actual);
    assert!(
        (a - expected).abs() <= tol,
        "expected about {expected}, got {a}"
    );
}

fn srgb_eotf(x: f32) -> f32 {
    if x <= 0.04045 {
        x / 12.92
    } else {
        ((x + 0.055) / 1.055).powf(2.4)
    }
}

#[test]
fn round_trip_identity_typed() {
    let raw = raw4([0.25, 0.5, 0.75, 0.4]);
    let es: ColorAlpha<EncodedSrgb, Separate> = ColorAlpha::from_raw(raw);
    assert_eq!(es.convert::<EncodedSrgb, Separate>().raw, raw);
    let ep: ColorAlpha<EncodedSrgb, Premultiplied> = ColorAlpha::from_raw(raw);
    assert_eq!(ep.convert::<EncodedSrgb, Premultiplied>().raw, raw);
    let ls: ColorAlpha<LinearSrgb, Separate> = ColorAlpha::from_raw(raw);
    assert_eq!(ls.convert::<LinearSrgb, Separate>().raw, raw);
    let lp: ColorAlpha<LinearSrgb, Premultiplied> = ColorAlpha::from_raw(raw);
    assert_eq!(lp.convert::<LinearSrgb, Premultiplied>().raw, raw);
}

#[test]
fn round_trip_identity_dynamic() {
    let raw = raw4([0.1, 0.2, 0.3, 0.9]);
    for space in [DynamicColorSpace::EncodedSrgb, DynamicColorSpace::LinearSrgb] {
        for state in [DynamicAlphaState::Separate, DynamicAlphaState::Premultiplied] {
            let c = DynamicColorAlpha::new(raw, space, state);
            let d = c.convert(space, state);
            assert_eq!(d.raw, raw);
            assert_eq!(d.space, space);
            assert_eq!(d.alpha_state, state);
        }
    }
}

#[test]
fn alpha_round_trip() {
    let c: ColorAlpha<LinearSrgb, Separate> = linear_srgba(b(0.2), b(0.4), b(0.8), b(0.5));
    let back = c.premultiply().separate();
    assert_close(back.raw[0], 0.2, 1e-6);
    assert_close(back.raw[1], 0.4, 1e-6);
    assert_close(back.raw[2], 0.8, 1e-6);
    assert_eq!(back.raw[3], b(0.5));
}

#[test]
fn premultiply_exact() {
    let c: ColorAlpha<LinearSrgb, Separate> = linear_srgba(b(0.2), b(0.4), b(0.8), b(0.3));
    let p = c.premultiply();
    assert_eq!(p.raw[0], b(0.2f32 * 0.3f32));
    assert_eq!(p.raw[1], b(0.4f32 * 0.3f32));
    assert_eq!(p.raw[2], b(0.8f32 * 0.3f32));
    assert_eq!(p.raw[3], b(0.3));
}

#[test]
fn separate_exact() {
    let c: ColorAlpha<LinearSrgb, Premultiplied> = linear_srgba(b(0.1), b(0.2), b(0.4), b(0.5));
    let s = c.separate();
    assert_eq!(s.raw[0], b(0.1f32 / 0.5f32));
    assert_eq!(s.raw[1], b(0.2f32 / 0.5f32));
    assert_eq!(s.raw[2], b(0.4f32 / 0.5f32));
    assert_eq!(s.raw[3], b(0.5));
}

#[test]
fn zero_alpha_separate_leaves_color() {
    let c: ColorAlpha<LinearSrgb, Premultiplied> = linear_srgba(b(0.1), b(0.2), b(0.4), b(0.0));
    let s = c.separate();
    assert_eq!(s.raw, [b(0.1), b(0.2), b(0.4), b(0.0)]);
    let n: ColorAlpha<LinearSrgb, Premultiplied> = linear_srgba(b(0.1), b(0.2), b(0.4), b(-0.0));
    let t = n.separate();
    assert_eq!(&t.raw[..3], &[b(0.1), b(0.2), b(0.4)]);
}

#[test]
fn zero_alpha_separate_dynamic() {
    let c = DynamicColorAlpha::new(
        raw4([0.3, 0.6, 0.9, 0.0]),
        DynamicColorSpace::LinearSrgb,
        DynamicAlphaState::Premultiplied,
    );
    let s = c.convert_alpha_state(DynamicAlphaState::Separate);
    assert_eq!(s.raw, raw4([0.3, 0.6, 0.9, 0.0]));
    assert_eq!(s.alpha_state, DynamicAlphaState::Separate);
}

#[test]
fn u8_round_trip() {
    for i in 0..=255u8 {
        let c: ColorAlpha<EncodedSrgb, Separate> = ColorAlpha::from_u8([i, i, i, i]);
        assert_eq!(c.to_u8(), [i, i, i, i]);
    }
}

#[test]
fn u8_codec_values() {
    let c: ColorAlpha<EncodedSrgb, Separate> = ColorAlpha::from_u8([255, 0, 128, 51]);
    assert_eq!(c.raw[0], b(1.0));
    assert_eq!(c.raw[1], b(0.0));
    assert_eq!(c.raw[2], b(128.0 / 255.0));
    assert_eq!(c.raw[3], b(51.0 / 255.0));
    let e: ColorAlpha<EncodedSrgb, Separate> =
        ColorAlpha::from_raw(raw4([0.5, 0.0, 1.0, 2.0]));
    assert_eq!(e.to_u8(), [128, 0, 255, 255]);
}

#[test]
fn downcast_matching_tags() {
    let raw = raw4([0.2, 0.4, 0.6, 0.8]);
    let d = DynamicColorAlpha::new(
        raw,
        DynamicColorSpace::EncodedSrgb,
        DynamicAlphaState::Separate,
    );
    let c: ColorAlpha<EncodedSrgb, Separate> = d.downcast().unwrap();
    assert_eq!(c.raw, raw);
}

#[test]
fn downcast_mismatched_space() {
    let d = DynamicColorAlpha::new(
        raw4([0.2, 0.4, 0.6, 0.8]),
        DynamicColorSpace::EncodedSrgb,
        DynamicAlphaState::Separate,
    );
    let r = d.downcast::<LinearSrgb, Separate>();
    assert_eq!(
        r.err().unwrap(),
        DowncastError::MismatchedSpace(
            DynamicColorSpace::EncodedSrgb,
            DynamicColorSpace::LinearSrgb
        )
    );
}

#[test]
fn downcast_mismatched_alpha_state() {
    let d = DynamicColorAlpha::new(
        raw4([0.2, 0.4, 0.6, 0.8]),
        DynamicColorSpace::EncodedSrgb,
        DynamicAlphaState::Separate,
    );
    let r = d.downcast::<EncodedSrgb, Premultiplied>();
    assert_eq!(
        r.err().unwrap(),
        DowncastError::MismatchedAlphaState(
            DynamicAlphaState::Separate,
            DynamicAlphaState::Premultiplied
        )
    );
}

#[test]
fn downcast_unchecked_keeps_raw() {
    let raw = raw4([0.2, 0.4, 0.6, 0.8]);
    let d = DynamicColorAlpha::new(
        raw,
        DynamicColorSpace::EncodedSrgb,
        DynamicAlphaState::Separate,
    );
    let c: ColorAlpha<LinearSrgb, Premultiplied> = d.downcast_unchecked();
    assert_eq!(c.raw, raw);
}

#[test]
fn upcast_then_downcast() {
    let c: ColorAlpha<LinearSrgb, Premultiplied> = linear_srgba(b(0.1), b(0.2), b(0.3), b(0.4));
    let d = c.dynamic();
    assert_eq!(d.space, DynamicColorSpace::LinearSrgb);
    assert_eq!(d.alpha_state, DynamicAlphaState::Premultiplied);
    let back: ColorAlpha<LinearSrgb, Premultiplied> = d.downcast().unwrap();
    assert_eq!(back.raw, c.raw);
}

#[test]
fn blend_boundaries() {
    let a: ColorAlpha<LinearSrgb, Separate> = linear_srgba(b(0.1), b(0.2), b(0.3), b(0.4));
    let c: ColorAlpha<LinearSrgb, Separate> = linear_srgba(b(0.9), b(0.8), b(0.7), b(0.6));
    let z = a.blend::<LinearBlender>(c, b(0.0));
    assert_eq!(z.raw, a.raw);
    let o = a.blend::<LinearBlender>(c, b(1.0));
    assert_eq!(&o.raw[..3], &c.raw[..3]);
    assert_eq!(o.raw[3], a.raw[3]);
}

#[test]
fn blend_midpoint() {
    let a: ColorAlpha<LinearSrgb, Separate> = linear_srgba(b(0.25), b(0.0), b(1.0), b(0.4));
    let c: ColorAlpha<LinearSrgb, Separate> = linear_srgba(b(0.75), b(1.0), b(0.0), b(0.6));
    let m = a.blend::<LinearBlender>(c, b(0.5));
    assert_close(m.raw[0], 0.5, 1e-6);
    assert_close(m.raw[1], 0.5, 1e-6);
    assert_close(m.raw[2], 0.5, 1e-6);
    assert_eq!(m.raw[3], b(0.4));
}

#[test]
fn blend_alpha_blends_alpha() {
    let a: ColorAlpha<LinearSrgb, Separate> = linear_srgba(b(0.1), b(0.2), b(0.3), b(0.4));
    let c: ColorAlpha<LinearSrgb, Separate> = linear_srgba(b(0.9), b(0.8), b(0.7), b(0.6));
    let o = a.blend_alpha::<LinearBlender>(c, b(1.0));
    assert_eq!(o.raw, c.raw);
}

#[test]
fn end_to_end_srgb_to_linear_premultiplied() {
    let c: ColorAlpha<EncodedSrgb, Separate> = srgba(b(1.0), b(0.0), b(0.0), b(0.5));
    let out = c.convert::<LinearSrgb, Premultiplied>();
    assert_close(out.raw[0], srgb_eotf(1.0) * 0.5, 1e-6);
    assert_close(out.raw[1], 0.0, 1e-6);
    assert_close(out.raw[2], 0.0, 1e-6);
    assert_eq!(out.raw[3], b(0.5));
}

#[test]
fn convert_applies_srgb_eotf() {
    let c: ColorAlpha<EncodedSrgb, Separate> = srgba(b(0.5), b(0.5), b(0.5), b(1.0));
    let out = c.convert::<LinearSrgb, Separate>();
    assert_close(out.raw[0], srgb_eotf(0.5), 1e-5);
    assert_close(out.raw[1], srgb_eotf(0.5), 1e-5);
    assert_close(out.raw[2], srgb_eotf(0.5), 1e-5);
    assert_eq!(out.raw[3], b(1.0));
}

#[test]
fn convert_encodes_srgb_oetf() {
    let lin = srgb_eotf(0.5);
    let c: ColorAlpha<LinearSrgb, Separate> = linear_srgba(b(lin), b(lin), b(lin), b(1.0));
    let out = c.convert::<EncodedSrgb, Separate>();
    assert_close(out.raw[0], 0.5, 1e-5);
    assert_close(out.raw[1], 0.5, 1e-5);
    assert_close(out.raw[2], 0.5, 1e-5);
}

#[test]
fn dynamic_convert_matches_typed() {
    let raw = raw4([0.7, 0.3, 0.1, 0.5]);
    let typed: ColorAlpha<EncodedSrgb, Separate> = ColorAlpha::from_raw(raw);
    let t = typed.convert::<LinearSrgb, Premultiplied>();
    let d = DynamicColorAlpha::new(
        raw,
        DynamicColorSpace::EncodedSrgb,
        DynamicAlphaState::Separate,
    )
    .convert(DynamicColorSpace::LinearSrgb, DynamicAlphaState::Premultiplied);
    assert_eq!(d.raw, t.raw);
    assert_eq!(d.space, DynamicColorSpace::LinearSrgb);
    assert_eq!(d.alpha_state, DynamicAlphaState::Premultiplied);
}

#[test]
fn downcast_convert_matches_convert() {
    let raw = raw4([0.7, 0.3, 0.1, 0.5]);
    let d = DynamicColorAlpha::new(
        raw,
        DynamicColorSpace::EncodedSrgb,
        DynamicAlphaState::Separate,
    );
    let c: ColorAlpha<LinearSrgb, Premultiplied> = d.downcast_convert();
    let typed: ColorAlpha<EncodedSrgb, Separate> = ColorAlpha::from_raw(raw);
    assert_eq!(c.raw, typed.convert::<LinearSrgb, Premultiplied>().raw);
}

#[test]
fn linearize_and_decode_agree() {
    let c: ColorAlpha<EncodedSrgb, Separate> = srgba(b(0.5), b(0.25), b(0.75), b(0.9));
    let l = c.linearize();
    let d = c.decode();
    assert_eq!(l.raw, d.raw);
    assert_close(l.raw[0], srgb_eotf(0.5), 1e-5);
    assert_close(l.raw[1], srgb_eotf(0.25), 1e-5);
    assert_close(l.raw[2], srgb_eotf(0.75), 1e-5);
    assert_eq!(l.raw[3], b(0.9));
}

#[test]
fn saturate_clamps() {
    let c: ColorAlpha<LinearSrgb, Separate> = linear_srgba(b(1.5), b(-0.25), b(0.5), b(2.0));
    let s = c.saturate();
    assert_eq!(s.raw, raw4([1.0, 0.0, 0.5, 1.0]));
}

#[test]
fn min_max_element() {
    let c: ColorAlpha<LinearSrgb, Separate> = linear_srgba(b(0.3), b(0.9), b(0.1), b(0.5));
    assert_eq!(c.max_element(), b(0.9));
    assert_eq!(c.min_element(), b(0.1));
}

#[test]
fn casts_keep_raw() {
    let raw = raw4([0.1, 0.2, 0.3, 0.4]);
    let c: ColorAlpha<EncodedSrgb, Separate> = ColorAlpha::from_raw(raw);
    assert_eq!(c.cast_space::<LinearSrgb>().raw, raw);
    assert_eq!(c.cast_alpha_state::<Premultiplied>().raw, raw);
    assert_eq!(c.cast::<LinearSrgb, Premultiplied>().raw, raw);
}

#[test]
fn convert_to_queries() {
    let raw = raw4([0.7, 0.3, 0.1, 0.5]);
    let c: ColorAlpha<EncodedSrgb, Separate> = ColorAlpha::from_raw(raw);
    let by_pair = c.convert::<LinearSrgb, Premultiplied>();
    let by_color = c.convert_to::<ColorAlpha<LinearSrgb, Premultiplied>>();
    assert_eq!(by_color.raw, by_pair.raw);
    let by_space = c.convert_to::<LinearSrgb>();
    assert_eq!(by_space.raw, c.convert::<LinearSrgb, Separate>().raw);
    let by_state = c.convert_to::<Premultiplied>();
    assert_eq!(by_state.raw, c.convert::<EncodedSrgb, Premultiplied>().raw);
}

#[test]
fn into_color_premultiplies_nonlinear() {
    let c: ColorAlpha<EncodedSrgb, Separate> = srgba(b(0.4), b(0.8), b(0.6), b(0.5));
    let stripped = c.into_color();
    assert_eq!(
        stripped.raw,
        [b(0.4f32 * 0.5f32), b(0.8f32 * 0.5f32), b(0.6f32 * 0.5f32)]
    );
    let l: ColorAlpha<LinearSrgb, Separate> = linear_srgba(b(0.4), b(0.8), b(0.6), b(0.5));
    assert_eq!(l.into_color().raw, [b(0.4), b(0.8), b(0.6)]);
    assert_eq!(c.into_color_no_premultiply().raw, [b(0.4), b(0.8), b(0.6)]);
}

#[test]
fn dynamic_into_color() {
    let d = DynamicColorAlpha::new(
        raw4([0.4, 0.8, 0.6, 0.5]),
        DynamicColorSpace::LinearSrgb,
        DynamicAlphaState::Separate,
    );
    let c = d.into_color();
    assert_eq!(
        c.raw,
        [b(0.4f32 * 0.5f32), b(0.8f32 * 0.5f32), b(0.6f32 * 0.5f32)]
    );
    assert_eq!(c.space, DynamicColorSpace::LinearSrgb);
    assert_eq!(c.state, DynamicState::Display);
    let n = d.into_color_no_premultiply();
    assert_eq!(n.raw, [b(0.4), b(0.8), b(0.6)]);
}

#[test]
fn constructors() {
    let c: ColorAlpha<EncodedSrgb, Separate> = srgba(b(0.1), b(0.2), b(0.3), b(0.4));
    assert_eq!(c.raw, raw4([0.1, 0.2, 0.3, 0.4]));
    let u: ColorAlpha<EncodedSrgb, Separate> = srgba_u8(255, 0, 128, 51);
    assert_eq!(u.raw[0], b(1.0));
    assert_eq!(u.raw[3], b(51.0 / 255.0));
    let n: ColorAlpha<LinearSrgb, Premultiplied> =
        ColorAlpha::new(b(0.5), b(0.6), b(0.7), b(0.8));
    assert_eq!(n.raw, raw4([0.5, 0.6, 0.7, 0.8]));
}

#[test]
fn equality_compares_raw() {
    let a: ColorAlpha<EncodedSrgb, Separate> = srgba(b(0.1), b(0.2), b(0.3), b(0.4));
    let c: ColorAlpha<EncodedSrgb, Separate> = srgba(b(0.1), b(0.2), b(0.3), b(0.4));
    let d: ColorAlpha<EncodedSrgb, Separate> = srgba(b(0.1), b(0.2), b(0.3), b(0.5));
    assert!(a == c);
    assert!(a != d);
    let da = a.dynamic();
    let dc = c.dynamic();
    assert!(da == dc);
    assert!(da != d.dynamic());
    assert!(da.into_color() == dc.into_color());
}

#[test]
fn convert_matches_kolor_reference() {
    let conv =
        kolor::ColorConversion::new(kolor::spaces::ENCODED_SRGB, kolor::spaces::LINEAR_SRGB);
    let v = conv.convert(glam::Vec3::new(0.7, 0.3, 0.1));
    let c: ColorAlpha<EncodedSrgb, Separate> = srgba(b(0.7), b(0.3), b(0.1), b(1.0));
    let out = c.convert::<LinearSrgb, Separate>();
    assert_eq!(out.raw[0], v.x.to_bits());
    assert_eq!(out.raw[1], v.y.to_bits());
    assert_eq!(out.raw[2], v.z.to_bits());
}

#[test]
fn layout_adds_no_size() {
    assert_eq!(
        std::mem::size_of::<ColorAlpha<EncodedSrgb, Separate>>(),
        std::mem::size_of::<[u32; 4]>()
    );
    assert_eq!(std::mem::size_of::<EncodedSrgb>(), 0);
    assert_eq!(std::mem::size_of::<Separate>(), 0);
}

#[test]
fn color_constructors() {
    let c: colstodian::Color<LinearSrgb, colstodian::Display> =
        colstodian::Color::new(b(0.1), b(0.2), b(0.3));
    assert_eq!(c.raw, [b(0.1), b(0.2), b(0.3)]);
    let d = colstodian::DynamicColor::new(
        [b(0.1), b(0.2), b(0.3)],
        DynamicColorSpace::LinearSrgb,
        DynamicState::Display,
    );
    assert_eq!(d.raw, c.raw);
    assert_eq!(d.state, DynamicState::Display);
}
