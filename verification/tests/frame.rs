use blend::{
    ContentKind, FrameBlendState, Scale, Uniform, UniformName, UniformValue,
    DEFAULT_REFERENCE_LUMINANCE, PQ_PEAK_NITS,
};

const LUMINANCES: (f64, f64, f64) = (203., 1000., 400.);

fn hdr() -> FrameBlendState<f64> {
    let mut state = FrameBlendState::default();
    state.set(Some(LUMINANCES));
    state
}

fn evaluate(value: UniformValue<f64>) -> f32 {
    match value {
        UniformValue::Flag(on) => {
            if on {
                1.
            } else {
                0.
            }
        }
        UniformValue::Scale(Scale::Zero) => 0.,
        UniformValue::Scale(Scale::Fraction { nits, peak_nits }) => {
            (nits / f64::from(peak_nits)) as f32
        }
    }
}

fn evaluated(uniforms: &[Uniform<f64>]) -> Vec<(&'static str, f32)> {
    uniforms.iter().map(|u| (u.name.as_str(), evaluate(u.value))).collect()
}

#[test]
fn constants() {
    assert_eq!(DEFAULT_REFERENCE_LUMINANCE, 203);
    assert_eq!(PQ_PEAK_NITS, 10000);
    assert_eq!(Scale::pq(203.), Scale::Fraction { nits: 203., peak_nits: 10000 });
}

#[test]
fn frames_start_as_sdr() {
    let state = FrameBlendState::<f64>::default();
    assert_eq!(state.values(), (false, Scale::Zero, Scale::Zero, Scale::Zero));
}

#[test]
fn init_leaves_a_state_alone() {
    let mut slot = None;
    FrameBlendState::init(&mut slot);
    assert_eq!(slot, Some(FrameBlendState::default()));
    slot = Some(hdr());
    FrameBlendState::init(&mut slot);
    assert_eq!(slot, Some(hdr()));
}

#[test]
fn set_replaces_the_state() {
    let mut state = hdr();
    assert_eq!(
        state.values(),
        (true, Scale::pq(203.), Scale::pq(1000.), Scale::pq(400.))
    );
    state.set(Some((1., 2., 3.)));
    assert_eq!(state.values(), (true, Scale::pq(1.), Scale::pq(2.), Scale::pq(3.)));
    state.set(None);
    assert_eq!(state, FrameBlendState::default());
    assert_eq!(state.clone(), state);
}

#[test]
fn hdr_frame_uniforms() {
    let state = hdr();
    let sdr = [
        ("niri_hdr_pq", 1.),
        ("niri_ref_lum_scale", 0.0203),
        ("niri_max_nit_scale", 0.1),
        ("niri_sdr_lum_scale", 0.04),
        ("niri_content_hdr", 0.),
        ("niri_content_peak", 0.),
        ("niri_linear", 0.),
        ("niri_linear_scale", 0.),
        ("niri_hdr_to_sdr", 0.),
    ];
    assert_eq!(evaluated(&state.uniforms()), sdr);
    assert_eq!(state.uniforms_for_content(ContentKind::Sdr), state.uniforms());

    let mut pq = sdr;
    pq[4].1 = 1.;
    pq[5].1 = 0.065;
    assert_eq!(
        evaluated(&state.uniforms_for_content(ContentKind::Hdr { peak_nits: 650. })),
        pq
    );

    let mut linear = sdr;
    linear[5].1 = 0.08;
    linear[6].1 = 1.;
    linear[7].1 = 0.01;
    assert_eq!(
        evaluated(&state.uniforms_for_content(ContentKind::Linear {
            reference_nits: 100.,
            peak_nits: 800.,
        })),
        linear
    );

    let mut passthrough = sdr;
    passthrough[0].1 = 0.;
    assert_eq!(evaluated(&state.uniforms_for_content(ContentKind::Passthrough)), passthrough);
}

#[test]
fn sdr_frames_encode_nothing() {
    let state = FrameBlendState::<f64>::default();
    for kind in [
        ContentKind::Sdr,
        ContentKind::Hdr { peak_nits: 1000. },
        ContentKind::Linear { reference_nits: 80., peak_nits: 1000. },
        ContentKind::Passthrough,
    ] {
        let uniforms = evaluated(&state.uniforms_for_content(kind));
        for i in 0..4 {
            assert_eq!(uniforms[i].1, 0.);
        }
    }
    let linear = state.uniforms_for_content(ContentKind::Linear {
        reference_nits: 80.,
        peak_nits: 1000.,
    });
    assert_eq!(linear[6].value, UniformValue::Flag(true));
    assert_eq!(linear[7], Uniform::scale(UniformName::LinearScale, Scale::pq(80.)));
}

#[test]
fn draws_of_a_frame_share_its_scales() {
    let state = hdr();
    let first = state.uniforms_for_content(ContentKind::Passthrough);
    let second = state.uniforms_for_content(ContentKind::Hdr { peak_nits: 1. });
    assert_eq!(first[1..4], second[1..4]);
}

#[test]
fn a_draw_sets_each_uniform_once() {
    let uniforms = hdr().uniforms();
    for i in 0..uniforms.len() {
        for j in 0..i {
            assert_ne!(uniforms[i].name.as_str(), uniforms[j].name.as_str());
        }
    }
    assert_eq!(uniforms[0], Uniform::flag(UniformName::HdrPq, true));
}
