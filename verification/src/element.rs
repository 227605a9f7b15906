//! Surface render elements that know how their content is encoded, and the texture program override
//! that they are drawn with.
use vstd::prelude::*;

use crate::content::ContentKind;
use crate::frame::{BlendLuminances, FrameBlendState, Uniform};

verus! {

/// A surface-tree render element that knows how its content is encoded.
#[derive(Debug)]
pub struct BlendSurfaceRenderElement<E, L> {
    inner: E,
    kind: ContentKind<L>,
}

/// What a draw does to the frame's texture program override.
#[derive(Debug, Clone, PartialEq)]
pub struct OverrideSwap<P, U, L> {
    /// The program and the uniforms to install before the draw.
    pub install: Option<(P, [Uniform<L>; 9])>,
    /// The override to put back after the draw.
    pub saved: Option<(P, U)>,
}

/// The texture program override of a frame.
pub enum OverrideSlot<P, U, L> {
    /// None.
    Empty,
    /// One that was there before a draw.
    Earlier { program: P, uniforms: U },
    /// The one that a draw installed.
    Content { program: P, uniforms: Seq<Uniform<L>> },
}

impl<P, U, L> OverrideSlot<P, U, L> {
    /// The slot with what a frame had before a draw.
    pub open spec fn earlier(taken: Option<(P, U)>) -> Self {
        match taken {
            Some((program, uniforms)) => OverrideSlot::Earlier { program, uniforms },
            None => OverrideSlot::Empty,
        }
    }
}

/// A draw swaps the override where the frame is HDR and the content is PQ or linear.
pub open spec fn swaps_override<L>(
    frame: Option<BlendLuminances<L>>,
    kind: ContentKind<L>,
) -> bool {
    frame is Some && kind.is_high_range()
}

/// The swap for a draw of `kind` in a frame whose override is `before`: the override is saved, and
/// its program is installed with the uniforms for the content. A frame without an override gets
/// none. Where the draw swaps nothing, nothing is installed or saved.
pub open spec fn is_override_swap<P: Clone, U, L>(
    swap: OverrideSwap<P, U, L>,
    frame: Option<BlendLuminances<L>>,
    kind: ContentKind<L>,
    before: Option<(P, U)>,
) -> bool {
    if swaps_override(frame, kind) {
        &&& swap.saved == before
        &&& match before {
            Some((current, _)) => {
                &&& swap.install matches Some((program, uniforms))
                &&& cloned(current, program)
                &&& uniforms@ =~= crate::frame::draw_uniforms(frame, kind)
            },
            None => swap.install is None,
        }
    } else {
        swap.install is None && swap.saved is None
    }
}

impl<P, U, L> OverrideSwap<P, U, L> {
    /// The override while the content is drawn.
    pub open spec fn during(&self, swaps: bool, before: Option<(P, U)>) -> OverrideSlot<P, U, L> {
        if swaps {
            match self.install {
                Some((program, uniforms)) => OverrideSlot::Content { program, uniforms: uniforms@ },
                None => OverrideSlot::Empty,
            }
        } else {
            OverrideSlot::earlier(before)
        }
    }

    /// The override after the draw, where drawing the content left `left`.
    pub open spec fn after(&self, left: OverrideSlot<P, U, L>) -> OverrideSlot<P, U, L> {
        if self.saved is Some {
            OverrideSlot::earlier(self.saved)
        } else {
            left
        }
    }

    /// The swap of a draw that leaves the override alone.
    pub fn none() -> (swap: Self)
        ensures
            swap.install is None,
            swap.saved is None,
    {
        OverrideSwap { install: None, saved: None }
    }
}

impl<E, L> BlendSurfaceRenderElement<E, L> {
    pub closed spec fn spec_inner(&self) -> E {
        self.inner
    }

    pub closed spec fn spec_kind(&self) -> ContentKind<L> {
        self.kind
    }
}

impl<E, L: Copy> BlendSurfaceRenderElement<E, L> {
    pub fn with_kind(inner: E, kind: ContentKind<L>) -> (element: Self)
        ensures
            element.spec_inner() == inner,
            element.spec_kind() == kind,
    {
        BlendSurfaceRenderElement { inner, kind }
    }

    pub fn inner(&self) -> (inner: &E)
        ensures
            *inner == self.spec_inner(),
    {
        &self.inner
    }

    pub fn into_inner(self) -> (inner: E)
        ensures
            inner == self.spec_inner(),
    {
        self.inner
    }

    pub fn content_kind(&self) -> (kind: ContentKind<L>)
        ensures
            kind == self.spec_kind(),
    {
        self.kind
    }

    /// True for PQ and linear content.
    pub fn content_hdr(&self) -> (hdr: bool)
        ensures
            hdr == self.spec_kind().is_high_range(),
    {
        matches!(self.kind, ContentKind::Hdr { .. } | ContentKind::Linear { .. })
    }

    /// Whether a draw in this frame takes the frame's texture program override and swaps it.
    ///
    /// In HDR frames the default override encodes SDR content into PQ. For PQ and linear surfaces
    /// the matching uniforms are swapped in for the draw, so that the shader converts them instead.
    /// In a capture the override converts HDR into SDR and must be kept as it is.
    pub fn swaps_override(&self, frame: &FrameBlendState<L>) -> (swaps: bool)
        ensures
            swaps == swaps_override(frame@, self.spec_kind()),
    {
        match self.kind {
            ContentKind::Hdr { .. } | ContentKind::Linear { .. } => {
                let (hdr_pq, _, _, _) = frame.values();
                hdr_pq
            },
            ContentKind::Sdr | ContentKind::Passthrough => false,
        }
    }

    /// What is installed for the draw, and what is put back after it, where `taken` is the override
    /// that was taken from the frame.
    pub fn swap_override<P: Clone, U>(
        &self,
        frame: &FrameBlendState<L>,
        taken: Option<(P, U)>,
    ) -> (swap: OverrideSwap<P, U, L>)
        requires
            swaps_override(frame@, self.spec_kind()),
        ensures
            is_override_swap(swap, frame@, self.spec_kind(), taken),
    {
        let install = match &taken {
            Some((program, _)) => Some((program.clone(), frame.uniforms_for_content(self.kind))),
            None => None,
        };
        OverrideSwap { install, saved: taken }
    }

    /// Whether the element may be put on a hardware plane: a plane is signalled as PQ, so linear
    /// content must not hit one.
    pub fn offers_underlying_storage(&self) -> (offers: bool)
        ensures
            offers == !(self.spec_kind() is Linear),
    {
        !matches!(self.kind, ContentKind::Linear { .. })
    }
}

/// A draw leaves a frame's override as it found it. If drawing the content leaves the override
/// alone, it is afterwards what it was before; and an override that was swapped is put back whatever
/// drawing the content did to it.
pub proof fn draws_keep_the_override<P: Clone, U, L>(
    swap: OverrideSwap<P, U, L>,
    frame: Option<BlendLuminances<L>>,
    kind: ContentKind<L>,
    before: Option<(P, U)>,
    left: OverrideSlot<P, U, L>,
)
    requires
        is_override_swap(swap, frame, kind, before),
    ensures
        swap.after(swap.during(swaps_override(frame, kind), before)) == OverrideSlot::<
            P,
            U,
            L,
        >::earlier(before),
        swaps_override(frame, kind) && before is Some ==> swap.after(left) == OverrideSlot::<
            P,
            U,
            L,
        >::earlier(before),
{
}

/// In SDR frames, captures among them, and for SDR and passthrough content, a draw uses the
/// override that is there.
pub proof fn other_draws_use_the_override<P: Clone, U, L>(
    swap: OverrideSwap<P, U, L>,
    frame: Option<BlendLuminances<L>>,
    kind: ContentKind<L>,
    before: Option<(P, U)>,
)
    requires
        is_override_swap(swap, frame, kind, before),
        frame is None || kind is Sdr || kind is Passthrough,
    ensures
        swap.during(swaps_override(frame, kind), before) == OverrideSlot::<P, U, L>::earlier(
            before,
        ),
{
}

/// In an HDR frame with an override, PQ and linear content is drawn with a clone of the override's
/// program and with its own uniforms, which encode it into the blend space.
pub proof fn high_range_draws_use_their_uniforms<P: Clone, U, L>(
    swap: OverrideSwap<P, U, L>,
    luminances: BlendLuminances<L>,
    kind: ContentKind<L>,
    before: (P, U),
)
    requires
        is_override_swap(swap, Some(luminances), kind, Some(before)),
        kind.is_high_range(),
    ensures
        swap.during(swaps_override(Some(luminances), kind), Some(before)) matches
            OverrideSlot::Content { program, uniforms } && cloned(before.0, program) && uniforms
            == crate::frame::draw_uniforms(Some(luminances), kind) && uniforms[0]
            == Uniform::<L>::spec_flag(crate::frame::UniformName::HdrPq, true),
{
}

} // verus!
