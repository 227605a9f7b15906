use blend::{BlendSurfaceRenderElement, ContentKind, FrameBlendState, OverrideSwap};

const KINDS: [ContentKind<f64>; 4] = [
    ContentKind::Sdr,
    ContentKind::Hdr { peak_nits: 650. },
    ContentKind::Linear { reference_nits: 80., peak_nits: 1000. },
    ContentKind::Passthrough,
];

fn hdr() -> FrameBlendState<f64> {
    let mut state = FrameBlendState::default();
    state.set(Some((203., 1000., 400.)));
    state
}

#[test]
fn elements_hold_what_they_were_made_with() {
    for kind in KINDS {
        let element = BlendSurfaceRenderElement::with_kind("surface", kind);
        assert_eq!(*element.inner(), "surface");
        assert_eq!(element.content_kind(), kind);
        assert_eq!(element.into_inner(), "surface");
    }
}

#[test]
fn content_hdr_is_pq_or_linear() {
    let hdr = KINDS.map(|kind| BlendSurfaceRenderElement::with_kind((), kind).content_hdr());
    assert_eq!(hdr, [false, true, true, false]);
}

#[test]
fn linear_content_is_kept_off_planes() {
    let offers = KINDS
        .map(|kind| BlendSurfaceRenderElement::with_kind((), kind).offers_underlying_storage());
    assert_eq!(offers, [true, true, false, true]);
}

#[test]
fn only_high_range_content_in_hdr_frames_swaps() {
    let swaps = KINDS.map(|kind| BlendSurfaceRenderElement::with_kind((), kind).swaps_override(&hdr()));
    assert_eq!(swaps, [false, true, true, false]);
    let sdr = FrameBlendState::default();
    let swaps = KINDS.map(|kind| BlendSurfaceRenderElement::with_kind((), kind).swaps_override(&sdr));
    assert_eq!(swaps, [false; 4]);
}

#[test]
fn swap_installs_the_content_uniforms_and_saves_the_override() {
    let state = hdr();
    for kind in [KINDS[1], KINDS[2]] {
        let element = BlendSurfaceRenderElement::with_kind((), kind);
        let taken = Some((String::from("program"), vec![7]));
        assert_eq!(
            element.swap_override(&state, taken.clone()),
            OverrideSwap {
                install: Some((String::from("program"), state.uniforms_for_content(kind))),
                saved: taken,
            }
        );
    }
}

#[test]
fn swap_without_an_override_installs_nothing() {
    let element = BlendSurfaceRenderElement::with_kind((), KINDS[1]);
    let swap = element.swap_override(&hdr(), None::<(String, Vec<u8>)>);
    assert_eq!(swap, OverrideSwap::none());
}

/// A frame's override slot, drawn through as a renderer does.
fn draw(
    kind: ContentKind<f64>,
    state: &FrameBlendState<f64>,
    slot: &mut Option<(&'static str, Vec<f64>)>,
    inner_clears: bool,
) -> Option<(&'static str, usize)> {
    let element = BlendSurfaceRenderElement::with_kind((), kind);
    let swap = if element.swaps_override(state) {
        let swap = element.swap_override(state, slot.take());
        *slot = swap.install.map(|(program, uniforms)| (program, vec![0.; uniforms.len()]));
        OverrideSwap { install: None, saved: swap.saved }
    } else {
        OverrideSwap::<&'static str, Vec<f64>, f64>::none()
    };
    let drawn_with = slot.as_ref().map(|(program, uniforms)| (*program, uniforms.len()));
    if inner_clears {
        *slot = None;
    }
    if swap.saved.is_some() {
        *slot = swap.saved;
    }
    drawn_with
}

#[test]
fn draws_keep_the_override() {
    for kind in KINDS {
        for state in [hdr(), FrameBlendState::default()] {
            for before in [None, Some(("default", vec![0.0203]))] {
                let mut slot = before.clone();
                let drawn_with = draw(kind, &state, &mut slot, false);
                assert_eq!(slot, before);
                let swapped = state == hdr() && matches!(kind, ContentKind::Hdr { .. } | ContentKind::Linear { .. });
                let uniforms = if swapped { 9 } else { 1 };
                assert_eq!(drawn_with, before.as_ref().map(|_| ("default", uniforms)));
            }
        }
    }
    let before = Some(("default", vec![0.0203]));
    let mut slot = before.clone();
    draw(KINDS[1], &hdr(), &mut slot, true);
    assert_eq!(slot, before);
}
