//! The blend state of the frame being rendered, and the shader uniforms that a draw gets from it.
use vstd::prelude::*;

use crate::content::ContentKind;

verus! {

/// Default SDR reference white in cd/m2 (BT.2408).
pub const DEFAULT_REFERENCE_LUMINANCE: u32 = 203;

/// Luminance in cd/m2 that the PQ signal value 1.0 stands for.
pub const PQ_PEAK_NITS: u32 = 10000;

/// HDR frame blend luminances in cd/m2: `(reference_luminance, max_nits, sdr_brightness)`.
pub type BlendLuminances<L> = (L, L, L);

/// A luminance as a fraction of another one.
#[derive(Debug, Clone, Copy, PartialEq)]
pub enum Scale<L> {
    /// 0.
    Zero,
    /// `nits / peak_nits`.
    Fraction { nits: L, peak_nits: u32 },
}

impl<L> Scale<L> {
    /// `nits` as a fraction of the PQ peak.
    pub open spec fn spec_pq(nits: L) -> Self {
        Scale::Fraction { nits, peak_nits: PQ_PEAK_NITS }
    }

    /// `nits` as a fraction of the PQ peak.
    pub fn pq(nits: L) -> (scale: Self)
        ensures
            scale == Self::spec_pq(nits),
    {
        Scale::Fraction { nits, peak_nits: PQ_PEAK_NITS }
    }
}

/// The uniforms of the HDR texture shaders.
#[derive(Debug, Clone, Copy, PartialEq, Eq, Structural)]
pub enum UniformName {
    /// The frame is HDR and the draw is encoded into its blend space.
    HdrPq,
    RefLumScale,
    MaxNitScale,
    SdrLumScale,
    /// The content is PQ.
    ContentHdr,
    ContentPeak,
    /// The content is linear.
    Linear,
    LinearScale,
    HdrToSdr,
}

impl UniformName {
    /// The name that the shaders declare.
    pub open spec fn text(&self) -> Seq<char> {
        match self {
            UniformName::HdrPq => "niri_hdr_pq"@,
            UniformName::RefLumScale => "niri_ref_lum_scale"@,
            UniformName::MaxNitScale => "niri_max_nit_scale"@,
            UniformName::SdrLumScale => "niri_sdr_lum_scale"@,
            UniformName::ContentHdr => "niri_content_hdr"@,
            UniformName::ContentPeak => "niri_content_peak"@,
            UniformName::Linear => "niri_linear"@,
            UniformName::LinearScale => "niri_linear_scale"@,
            UniformName::HdrToSdr => "niri_hdr_to_sdr"@,
        }
    }

    /// The name that the shaders declare.
    pub fn as_str(&self) -> (name: &'static str)
        ensures
            name@ == self.text(),
    {
        match self {
            UniformName::HdrPq => "niri_hdr_pq",
            UniformName::RefLumScale => "niri_ref_lum_scale",
            UniformName::MaxNitScale => "niri_max_nit_scale",
            UniformName::SdrLumScale => "niri_sdr_lum_scale",
            UniformName::ContentHdr => "niri_content_hdr",
            UniformName::ContentPeak => "niri_content_peak",
            UniformName::Linear => "niri_linear",
            UniformName::LinearScale => "niri_linear_scale",
            UniformName::HdrToSdr => "niri_hdr_to_sdr",
        }
    }
}

/// What a uniform is set to.
#[derive(Debug, Clone, Copy, PartialEq)]
pub enum UniformValue<L> {
    /// 1 or 0.
    Flag(bool),
    Scale(Scale<L>),
}

/// A uniform of a draw.
#[derive(Debug, Clone, Copy, PartialEq)]
pub struct Uniform<L> {
    pub name: UniformName,
    pub value: UniformValue<L>,
}

impl<L> Uniform<L> {
    pub open spec fn spec_flag(name: UniformName, on: bool) -> Self {
        Uniform { name, value: UniformValue::Flag(on) }
    }

    pub open spec fn spec_scale(name: UniformName, scale: Scale<L>) -> Self {
        Uniform { name, value: UniformValue::Scale(scale) }
    }

    /// A uniform that is 1 or 0.
    pub fn flag(name: UniformName, on: bool) -> (uniform: Self)
        ensures
            uniform == Self::spec_flag(name, on),
    {
        Uniform { name, value: UniformValue::Flag(on) }
    }

    /// A uniform that is a luminance scale.
    pub fn scale(name: UniformName, scale: Scale<L>) -> (uniform: Self)
        ensures
            uniform == Self::spec_scale(name, scale),
    {
        Uniform { name, value: UniformValue::Scale(scale) }
    }
}

/// The reference, maximum and SDR scales of a frame, all zero in an SDR one.
pub open spec fn frame_scales<L>(frame: Option<BlendLuminances<L>>) -> (
    Scale<L>,
    Scale<L>,
    Scale<L>,
) {
    match frame {
        Some((reference, max, sdr)) => (
            Scale::spec_pq(reference),
            Scale::spec_pq(max),
            Scale::spec_pq(sdr),
        ),
        None => (Scale::Zero, Scale::Zero, Scale::Zero),
    }
}

/// The scale of the content's peak, zero where the kind has none.
pub open spec fn content_peak_scale<L>(kind: ContentKind<L>) -> Scale<L> {
    match kind {
        ContentKind::Hdr { peak_nits } => Scale::spec_pq(peak_nits),
        ContentKind::Linear { peak_nits, .. } => Scale::spec_pq(peak_nits),
        _ => Scale::Zero,
    }
}

/// The scale of linear content's reference, zero for any other kind.
pub open spec fn linear_reference_scale<L>(kind: ContentKind<L>) -> Scale<L> {
    match kind {
        ContentKind::Linear { reference_nits, .. } => Scale::spec_pq(reference_nits),
        _ => Scale::Zero,
    }
}

/// The uniforms of a draw of `kind` in a frame with these luminances, or in an SDR one (`None`).
pub open spec fn draw_uniforms<L>(
    frame: Option<BlendLuminances<L>>,
    kind: ContentKind<L>,
) -> Seq<Uniform<L>> {
    seq![
        Uniform::spec_flag(UniformName::HdrPq, frame is Some && !(kind is Passthrough)),
        Uniform::spec_scale(UniformName::RefLumScale, frame_scales(frame).0),
        Uniform::spec_scale(UniformName::MaxNitScale, frame_scales(frame).1),
        Uniform::spec_scale(UniformName::SdrLumScale, frame_scales(frame).2),
        Uniform::spec_flag(UniformName::ContentHdr, kind is Hdr),
        Uniform::spec_scale(UniformName::ContentPeak, content_peak_scale(kind)),
        Uniform::spec_flag(UniformName::Linear, kind is Linear),
        Uniform::spec_scale(UniformName::LinearScale, linear_reference_scale(kind)),
        Uniform::spec_flag(UniformName::HdrToSdr, false),
    ]
}

/// The blend state of the frame currently being rendered, kept with the renderer.
///
/// Its view is the luminances of an HDR frame, or `None` for an SDR one.
#[derive(Debug, Copy, PartialEq)]
pub struct FrameBlendState<L> {
    hdr_pq: bool,
    ref_lum_scale: Scale<L>,
    max_nit_scale: Scale<L>,
    sdr_lum_scale: Scale<L>,
}

impl<L> View for FrameBlendState<L> {
    type V = Option<BlendLuminances<L>>;

    closed spec fn view(&self) -> Option<BlendLuminances<L>> {
        match (self.ref_lum_scale, self.max_nit_scale, self.sdr_lum_scale) {
            (
                Scale::Fraction { nits: reference, .. },
                Scale::Fraction { nits: max, .. },
                Scale::Fraction { nits: sdr, .. },
            ) => Some((reference, max, sdr)),
            _ => None,
        }
    }
}

impl<L> FrameBlendState<L> {
    /// An HDR frame has a PQ scale for each luminance, and an SDR frame has none.
    #[verifier::type_invariant]
    closed spec fn well_formed(&self) -> bool {
        &&& self.hdr_pq == (self@ is Some)
        &&& self.ref_lum_scale == frame_scales(self@).0
        &&& self.max_nit_scale == frame_scales(self@).1
        &&& self.sdr_lum_scale == frame_scales(self@).2
    }
}

impl<L: Copy> Clone for FrameBlendState<L> {
    fn clone(&self) -> (state: Self)
        ensures
            state == *self,
    {
        *self
    }
}

impl<L> Default for FrameBlendState<L> {
    /// An SDR frame.
    fn default() -> (state: Self)
        ensures
            state@ is None,
    {
        FrameBlendState {
            hdr_pq: false,
            ref_lum_scale: Scale::Zero,
            max_nit_scale: Scale::Zero,
            sdr_lum_scale: Scale::Zero,
        }
    }
}

impl<L: Copy> FrameBlendState<L> {
    /// Puts the SDR state where a renderer has none yet; leaves a state that is there alone.
    pub fn init(slot: &mut Option<Self>)
        ensures
            match *old(slot) {
                Some(state) => *final(slot) == Some(state),
                None => *final(slot) matches Some(state) && state@ is None,
            },
    {
        if slot.is_none() {
            *slot = Some(Self::default());
        }
    }

    /// Marks frames as HDR with `(reference_luminance, max_nits, sdr_brightness)` in cd/m2, or SDR
    /// (`None`).
    pub fn set(&mut self, luminances: Option<BlendLuminances<L>>)
        ensures
            final(self)@ == luminances,
    {
        *self = match luminances {
            Some((ref_lum, max_nits, sdr_brightness)) => FrameBlendState {
                hdr_pq: true,
                ref_lum_scale: Scale::pq(ref_lum),
                max_nit_scale: Scale::pq(max_nits),
                sdr_lum_scale: Scale::pq(sdr_brightness),
            },
            None => FrameBlendState {
                hdr_pq: false,
                ref_lum_scale: Scale::Zero,
                max_nit_scale: Scale::Zero,
                sdr_lum_scale: Scale::Zero,
            },
        };
    }

    /// Whether the frame is HDR, and its reference, maximum and SDR scales.
    pub fn values(&self) -> (values: (bool, Scale<L>, Scale<L>, Scale<L>))
        ensures
            values.0 == (self@ is Some),
            values.1 == frame_scales(self@).0,
            values.2 == frame_scales(self@).1,
            values.3 == frame_scales(self@).2,
    {
        proof {
            use_type_invariant(self);
        }
        (self.hdr_pq, self.ref_lum_scale, self.max_nit_scale, self.sdr_lum_scale)
    }

    /// Uniforms for SDR (or compositor-drawn) content in this frame.
    pub fn uniforms(&self) -> (uniforms: [Uniform<L>; 9])
        ensures
            uniforms@ == draw_uniforms(self@, ContentKind::Sdr),
    {
        self.uniforms_for_content(ContentKind::Sdr)
    }

    /// Uniforms for a draw in this frame.
    pub fn uniforms_for_content(&self, kind: ContentKind<L>) -> (uniforms: [Uniform<L>; 9])
        ensures
            uniforms@ == draw_uniforms(self@, kind),
    {
        let (hdr_pq, ref_scale, max_scale, sdr_scale) = self.values();
        let apply = hdr_pq && !matches!(kind, ContentKind::Passthrough);
        let content_hdr = matches!(kind, ContentKind::Hdr { .. });
        let content_peak = match kind {
            ContentKind::Hdr { peak_nits } => Scale::pq(peak_nits),
            ContentKind::Linear { peak_nits, .. } => Scale::pq(peak_nits),
            _ => Scale::Zero,
        };
        let linear = matches!(kind, ContentKind::Linear { .. });
        let linear_scale = match kind {
            ContentKind::Linear { reference_nits, .. } => Scale::pq(reference_nits),
            _ => Scale::Zero,
        };
        [
            Uniform::flag(UniformName::HdrPq, apply),
            Uniform::scale(UniformName::RefLumScale, ref_scale),
            Uniform::scale(UniformName::MaxNitScale, max_scale),
            Uniform::scale(UniformName::SdrLumScale, sdr_scale),
            Uniform::flag(UniformName::ContentHdr, content_hdr),
            Uniform::scale(UniformName::ContentPeak, content_peak),
            Uniform::flag(UniformName::Linear, linear),
            Uniform::scale(UniformName::LinearScale, linear_scale),
            Uniform::flag(UniformName::HdrToSdr, false),
        ]
    }
}

/// A draw is encoded into the blend space exactly where its frame is HDR and its content is not in
/// that space already. In an SDR frame every frame scale is zero.
pub proof fn encoding_follows_the_frame<L>(
    frame: Option<BlendLuminances<L>>,
    kind: ContentKind<L>,
)
    ensures
        draw_uniforms(frame, kind)[0] == Uniform::<L>::spec_flag(
            UniformName::HdrPq,
            frame is Some && !(kind is Passthrough),
        ),
        frame is None ==> forall|i: int|
            1 <= i <= 3 ==> (#[trigger] draw_uniforms(frame, kind)[i]).value
                == UniformValue::Scale(Scale::<L>::Zero),
{
}

/// The frame's own scales reach every draw of the frame, whatever its content.
pub proof fn draws_share_the_frame_scales<L>(
    frame: Option<BlendLuminances<L>>,
    first: ContentKind<L>,
    second: ContentKind<L>,
)
    ensures
        draw_uniforms(frame, first).subrange(1, 4) == draw_uniforms(frame, second).subrange(1, 4),
{
}

/// A draw is marked as PQ or as linear content, never as both, and one that is marked as neither
/// has no content scales.
pub proof fn content_marks_exclude_each_other<L>(
    frame: Option<BlendLuminances<L>>,
    kind: ContentKind<L>,
)
    ensures
        ({
            let uniforms = draw_uniforms(frame, kind);
            let hdr = uniforms[4].value == UniformValue::<L>::Flag(true);
            let linear = uniforms[6].value == UniformValue::<L>::Flag(true);
            &&& !(hdr && linear)
            &&& !hdr && !linear ==> uniforms[5].value == UniformValue::Scale(Scale::<L>::Zero)
            &&& !linear ==> uniforms[7].value == UniformValue::Scale(Scale::<L>::Zero)
        }),
{
}

/// No two uniforms have the same name in the shaders.
pub proof fn uniform_names_differ(first: UniformName, second: UniformName)
    requires
        first.text() == second.text(),
    ensures
        first == second,
{
    reveal_strlit("niri_hdr_pq");
    reveal_strlit("niri_ref_lum_scale");
    reveal_strlit("niri_max_nit_scale");
    reveal_strlit("niri_sdr_lum_scale");
    reveal_strlit("niri_content_hdr");
    reveal_strlit("niri_content_peak");
    reveal_strlit("niri_linear");
    reveal_strlit("niri_linear_scale");
    reveal_strlit("niri_hdr_to_sdr");
    assert("niri_hdr_pq"@.len() == 11 && "niri_hdr_pq"@[5] == 'h');
    assert("niri_ref_lum_scale"@.len() == 18 && "niri_ref_lum_scale"@[5] == 'r');
    assert("niri_max_nit_scale"@.len() == 18 && "niri_max_nit_scale"@[5] == 'm');
    assert("niri_sdr_lum_scale"@.len() == 18 && "niri_sdr_lum_scale"@[5] == 's');
    assert("niri_content_hdr"@.len() == 16 && "niri_content_hdr"@[5] == 'c');
    assert("niri_content_peak"@.len() == 17 && "niri_content_peak"@[5] == 'c');
    assert("niri_linear"@.len() == 11 && "niri_linear"@[5] == 'l');
    assert("niri_linear_scale"@.len() == 17 && "niri_linear_scale"@[5] == 'l');
    assert("niri_hdr_to_sdr"@.len() == 15 && "niri_hdr_to_sdr"@[5] == 'h');
}

/// A draw gets each uniform of the shaders once.
pub proof fn draws_set_each_uniform_once<L>(
    frame: Option<BlendLuminances<L>>,
    kind: ContentKind<L>,
    name: UniformName,
)
    ensures
        exists|i: int|
            0 <= i < 9 && (#[trigger] draw_uniforms(frame, kind)[i]).name == name,
        forall|i: int, j: int|
            0 <= i < j < 9 ==> (#[trigger] draw_uniforms(frame, kind)[i]).name != (
            #[trigger] draw_uniforms(frame, kind)[j]).name,
        draw_uniforms(frame, kind).len() == 9,
{
    let uniforms = draw_uniforms(frame, kind);
    let i: int = match name {
        UniformName::HdrPq => 0,
        UniformName::RefLumScale => 1,
        UniformName::MaxNitScale => 2,
        UniformName::SdrLumScale => 3,
        UniformName::ContentHdr => 4,
        UniformName::ContentPeak => 5,
        UniformName::Linear => 6,
        UniformName::LinearScale => 7,
        UniformName::HdrToSdr => 8,
    };
    assert(uniforms[i].name == name);
}

} // verus!
