//! Laws of render elements and of the override around their draws.
use vstd::prelude::*;

use crate::content::ContentKind;
use crate::element::{BlendSurfaceRenderElement, OverrideSwap};
use crate::frame::{FrameBlendState, Uniform};
use crate::renderer::{set_sdr_capture_blend, RendererUpdate};

verus! {

/// An element hands out what it was made with.
pub proof fn elements_hold_what_they_were_made_with<E, L: Copy>(
    inner: E,
    kind: ContentKind<L>,
    element: BlendSurfaceRenderElement<E, L>,
    borrowed: E,
    owned: E,
    read: ContentKind<L>,
)
    requires
        call_ensures(BlendSurfaceRenderElement::<E, L>::with_kind, (inner, kind), element),
        call_ensures(BlendSurfaceRenderElement::<E, L>::inner, (&element,), &borrowed),
        call_ensures(BlendSurfaceRenderElement::<E, L>::into_inner, (element,), owned),
        call_ensures(BlendSurfaceRenderElement::<E, L>::content_kind, (&element,), read),
    ensures
        borrowed == inner,
        owned == inner,
        read == kind,
{
}

/// An element is of HDR content exactly where its kind is PQ or linear, and is kept off planes
/// exactly where it is linear.
pub proof fn element_predicates<E, L: Copy>(
    element: BlendSurfaceRenderElement<E, L>,
    kind: ContentKind<L>,
    hdr: bool,
    offers: bool,
)
    requires
        call_ensures(BlendSurfaceRenderElement::<E, L>::content_kind, (&element,), kind),
        call_ensures(BlendSurfaceRenderElement::<E, L>::content_hdr, (&element,), hdr),
        call_ensures(
            BlendSurfaceRenderElement::<E, L>::offers_underlying_storage,
            (&element,),
            offers,
        ),
    ensures
        kind is Hdr ==> hdr && offers,
        kind is Linear ==> hdr && !offers,
        kind is Sdr ==> !hdr && offers,
        kind is Passthrough ==> !hdr && offers,
{
}

/// A draw swaps the override exactly where its frame is HDR and its content is PQ or linear.
pub proof fn swapping_draws<E, L: Copy>(
    element: BlendSurfaceRenderElement<E, L>,
    frame: FrameBlendState<L>,
    kind: ContentKind<L>,
    hdr: bool,
    swaps: bool,
)
    requires
        call_ensures(BlendSurfaceRenderElement::<E, L>::content_kind, (&element,), kind),
        call_ensures(BlendSurfaceRenderElement::<E, L>::content_hdr, (&element,), hdr),
        call_ensures(
            BlendSurfaceRenderElement::<E, L>::swaps_override,
            (&element, &frame),
            swaps,
        ),
    ensures
        swaps == (frame@ is Some && hdr),
        frame@ is None ==> !swaps,
        frame@ is Some && (kind is Hdr || kind is Linear) ==> swaps,
        kind is Sdr || kind is Passthrough ==> !swaps,
{
}

/// In a capture no draw swaps the override, whatever its content.
pub proof fn captures_keep_the_override<E, P, L: Copy>(
    element: BlendSurfaceRenderElement<E, L>,
    program: Option<P>,
    reference: L,
    update: RendererUpdate<P, L>,
    swaps: bool,
)
    ensures
        forall|state: &mut FrameBlendState<L>| #[trigger]
            call_ensures(set_sdr_capture_blend::<P, L>, (state, program, reference), update)
                && call_ensures(
                BlendSurfaceRenderElement::<E, L>::swaps_override,
                (&element, &*final(state)),
                swaps,
            ) ==> !swaps,
{
}

/// A swap saves the override that was taken, and installs a clone of its program with the uniforms
/// of the element's content in the frame. Where nothing was taken, nothing is installed.
pub proof fn swapped_overrides<E, P: Clone, U, L: Copy>(
    element: BlendSurfaceRenderElement<E, L>,
    frame: FrameBlendState<L>,
    kind: ContentKind<L>,
    taken: Option<(P, U)>,
    swap: OverrideSwap<P, U, L>,
    uniforms: [Uniform<L>; 9],
)
    requires
        call_ensures(BlendSurfaceRenderElement::<E, L>::content_kind, (&element,), kind),
        call_ensures(FrameBlendState::<L>::uniforms_for_content, (&frame, kind), uniforms),
        call_ensures(
            BlendSurfaceRenderElement::<E, L>::swaps_override,
            (&element, &frame),
            true,
        ),
        call_ensures(
            BlendSurfaceRenderElement::<E, L>::swap_override::<P, U>,
            (&element, &frame, taken),
            swap,
        ),
    ensures
        swap.saved == taken,
        taken is None ==> swap.install is None,
        taken is Some ==> swap.install is Some && cloned((taken->0).0, (swap.install->0).0)
            && (swap.install->0).1@ == uniforms@,
{
}

/// A draw that leaves the override alone installs nothing and saves nothing.
pub proof fn unswapped_overrides<P, U, L>(swap: OverrideSwap<P, U, L>)
    requires
        call_ensures(OverrideSwap::<P, U, L>::none, (), swap),
    ensures
        swap.install is None,
        swap.saved is None,
{
}

} // verus!
