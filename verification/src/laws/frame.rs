//! Laws of the frame's blend state and of the uniforms of its draws.
use vstd::prelude::*;

use crate::content::ContentKind;
use crate::frame::{
    BlendLuminances, FrameBlendState, Scale, Uniform, UniformName, UniformValue,
};

verus! {

/// The uniforms set the one that shaders call `name`, and set it to `value` wherever they do.
pub open spec fn sets<L>(
    uniforms: Seq<Uniform<L>>,
    name: Seq<char>,
    value: UniformValue<L>,
) -> bool {
    &&& exists|i: int| 0 <= i < uniforms.len() && #[trigger] uniforms[i].name.text() == name
    &&& forall|i: int|
        0 <= i < uniforms.len() && #[trigger] uniforms[i].name.text() == name ==> uniforms[i].value
            == value
}

/// The value of a uniform that is `nits` as a fraction of 10000.
pub open spec fn fraction<L>(nits: L) -> UniformValue<L> {
    UniformValue::Scale(Scale::Fraction { nits, peak_nits: 10000 })
}

/// The value of a uniform that is a scale of zero.
pub open spec fn zero<L>() -> UniformValue<L> {
    UniformValue::Scale(Scale::Zero)
}

/// A draw sets each of its uniforms to one value.
pub proof fn lemma_sets_each<L>(frame: Option<BlendLuminances<L>>, kind: ContentKind<L>)
    ensures
        forall|i: int|
            0 <= i < 9 ==> sets(
                crate::frame::draw_uniforms(frame, kind),
                #[trigger] crate::frame::draw_uniforms(frame, kind)[i].name.text(),
                crate::frame::draw_uniforms(frame, kind)[i].value,
            ),
        crate::frame::draw_uniforms(frame, kind).len() == 9,
{
    let uniforms = crate::frame::draw_uniforms(frame, kind);
    assert forall|i: int| 0 <= i < 9 implies sets(
        uniforms,
        #[trigger] uniforms[i].name.text(),
        uniforms[i].value,
    ) by {
        assert forall|j: int|
            0 <= j < uniforms.len() && #[trigger] uniforms[j].name.text()
                == uniforms[i].name.text() implies uniforms[j].value == uniforms[i].value by {
            crate::frame::uniform_names_differ(uniforms[i].name, uniforms[j].name);
            crate::frame::draws_set_each_uniform_once(frame, kind, uniforms[i].name);
        }
    }
}

/// A draw sets the content's uniforms by its kind alone, in every frame: PQ content is marked and
/// has its peak, linear content is marked and has its peak and its reference, and everything else is
/// zero. A draw never decodes HDR into SDR.
pub proof fn content_uniforms<L: Copy>(
    state: FrameBlendState<L>,
    kind: ContentKind<L>,
    uniforms: [Uniform<L>; 9],
)
    requires
        call_ensures(FrameBlendState::<L>::uniforms_for_content, (&state, kind), uniforms),
    ensures
        sets(uniforms@, "niri_hdr_to_sdr"@, UniformValue::Flag(false)),
        kind matches ContentKind::Hdr { peak_nits } ==> {
            &&& sets(uniforms@, "niri_content_hdr"@, UniformValue::Flag(true))
            &&& sets(uniforms@, "niri_content_peak"@, fraction(peak_nits))
            &&& sets(uniforms@, "niri_linear"@, UniformValue::Flag(false))
            &&& sets(uniforms@, "niri_linear_scale"@, zero())
        },
        kind matches ContentKind::Linear { reference_nits, peak_nits } ==> {
            &&& sets(uniforms@, "niri_content_hdr"@, UniformValue::Flag(false))
            &&& sets(uniforms@, "niri_content_peak"@, fraction(peak_nits))
            &&& sets(uniforms@, "niri_linear"@, UniformValue::Flag(true))
            &&& sets(uniforms@, "niri_linear_scale"@, fraction(reference_nits))
        },
        kind is Sdr || kind is Passthrough ==> {
            &&& sets(uniforms@, "niri_content_hdr"@, UniformValue::Flag(false))
            &&& sets(uniforms@, "niri_content_peak"@, zero())
            &&& sets(uniforms@, "niri_linear"@, UniformValue::Flag(false))
            &&& sets(uniforms@, "niri_linear_scale"@, zero())
        },
{
    let list = crate::frame::draw_uniforms(state@, kind);
    lemma_sets_each(state@, kind);
    assert(list[4].name.text() == "niri_content_hdr"@);
    assert(list[5].name.text() == "niri_content_peak"@);
    assert(list[6].name.text() == "niri_linear"@);
    assert(list[7].name.text() == "niri_linear_scale"@);
    assert(list[8].name.text() == "niri_hdr_to_sdr"@);
}

/// No draw of any frame, of whatever content, is told to decode HDR into SDR, and no draw of an SDR
/// frame is told to encode into HDR.
pub proof fn draws_never_decode<L: Copy>(
    state: FrameBlendState<L>,
    kind: ContentKind<L>,
    uniforms: [Uniform<L>; 9],
)
    requires
        call_ensures(FrameBlendState::<L>::uniforms_for_content, (&state, kind), uniforms),
    ensures
        forall|i: int|
            0 <= i < 9 && #[trigger] uniforms@[i].name == UniformName::HdrToSdr ==> uniforms@[i].value
                == UniformValue::<L>::Flag(false),
        state@ is None ==> forall|i: int|
            0 <= i < 9 && #[trigger] uniforms@[i].name == UniformName::HdrPq ==> uniforms@[i].value
                == UniformValue::<L>::Flag(false),
        exists|i: int| 0 <= i < 9 && #[trigger] uniforms@[i].name == UniformName::HdrToSdr,
{
    crate::frame::draws_set_each_uniform_once(state@, kind, UniformName::HdrToSdr);
}

/// A draw of an SDR frame is not encoded, whatever its content; the
/// frame's scales are zero.
pub proof fn sdr_frame_uniforms<L: Copy>(
    state: FrameBlendState<L>,
    kind: ContentKind<L>,
    uniforms: [Uniform<L>; 9],
)
    requires
        state@ is None,
        call_ensures(FrameBlendState::<L>::uniforms_for_content, (&state, kind), uniforms),
    ensures
        sets(uniforms@, "niri_hdr_pq"@, UniformValue::Flag(false)),
        sets(uniforms@, "niri_hdr_to_sdr"@, UniformValue::Flag(false)),
        sets(uniforms@, "niri_ref_lum_scale"@, zero()),
        sets(uniforms@, "niri_max_nit_scale"@, zero()),
        sets(uniforms@, "niri_sdr_lum_scale"@, zero()),
{
    let list = crate::frame::draw_uniforms(state@, kind);
    lemma_sets_each(state@, kind);
    assert(list[0].name.text() == "niri_hdr_pq"@);
    assert(list[1].name.text() == "niri_ref_lum_scale"@);
    assert(list[2].name.text() == "niri_max_nit_scale"@);
    assert(list[3].name.text() == "niri_sdr_lum_scale"@);
    assert(list[8].name.text() == "niri_hdr_to_sdr"@);
}

/// A draw of an HDR frame is encoded unless its content is passthrough, and has the three
/// luminances that the frame was set to, each in its place, as fractions of 10000.
pub proof fn hdr_frame_uniforms<L: Copy>(
    state: FrameBlendState<L>,
    reference: L,
    max: L,
    sdr: L,
    kind: ContentKind<L>,
    uniforms: [Uniform<L>; 9],
)
    requires
        state@ == Some((reference, max, sdr)),
        call_ensures(FrameBlendState::<L>::uniforms_for_content, (&state, kind), uniforms),
    ensures
        kind is Passthrough ==> sets(uniforms@, "niri_hdr_pq"@, UniformValue::Flag(false)),
        !(kind is Passthrough) ==> sets(uniforms@, "niri_hdr_pq"@, UniformValue::Flag(true)),
        sets(uniforms@, "niri_hdr_to_sdr"@, UniformValue::Flag(false)),
        sets(uniforms@, "niri_ref_lum_scale"@, fraction(reference)),
        sets(uniforms@, "niri_max_nit_scale"@, fraction(max)),
        sets(uniforms@, "niri_sdr_lum_scale"@, fraction(sdr)),
{
    let list = crate::frame::draw_uniforms(state@, kind);
    lemma_sets_each(state@, kind);
    assert(list[0].name.text() == "niri_hdr_pq"@);
    assert(list[1].name.text() == "niri_ref_lum_scale"@);
    assert(list[2].name.text() == "niri_max_nit_scale"@);
    assert(list[3].name.text() == "niri_sdr_lum_scale"@);
    assert(list[8].name.text() == "niri_hdr_to_sdr"@);
}

/// The uniforms of compositor-drawn content are those of SDR content.
pub proof fn compositor_uniforms<L: Copy>(
    state: FrameBlendState<L>,
    plain: [Uniform<L>; 9],
    sdr: [Uniform<L>; 9],
)
    requires
        call_ensures(FrameBlendState::<L>::uniforms, (&state,), plain),
        call_ensures(
            FrameBlendState::<L>::uniforms_for_content,
            (&state, ContentKind::Sdr),
            sdr,
        ),
    ensures
        plain@ == sdr@,
{
}

/// The uniforms of a draw hold the name that its shader reads.
pub proof fn uniform_names(name: UniformName, text: &'static str)
    requires
        call_ensures(UniformName::as_str, (&name,), text),
    ensures
        text@ == name.text(),
        name == UniformName::HdrPq <==> text@ == "niri_hdr_pq"@,
        name == UniformName::RefLumScale <==> text@ == "niri_ref_lum_scale"@,
        name == UniformName::MaxNitScale <==> text@ == "niri_max_nit_scale"@,
        name == UniformName::SdrLumScale <==> text@ == "niri_sdr_lum_scale"@,
        name == UniformName::ContentHdr <==> text@ == "niri_content_hdr"@,
        name == UniformName::ContentPeak <==> text@ == "niri_content_peak"@,
        name == UniformName::Linear <==> text@ == "niri_linear"@,
        name == UniformName::LinearScale <==> text@ == "niri_linear_scale"@,
        name == UniformName::HdrToSdr <==> text@ == "niri_hdr_to_sdr"@,
{
    assert forall|other: UniformName| name.text() == #[trigger] other.text() implies name
        == other by {
        crate::frame::uniform_names_differ(name, other);
    }
    assert(UniformName::HdrPq.text() == "niri_hdr_pq"@);
    assert(UniformName::RefLumScale.text() == "niri_ref_lum_scale"@);
    assert(UniformName::MaxNitScale.text() == "niri_max_nit_scale"@);
    assert(UniformName::SdrLumScale.text() == "niri_sdr_lum_scale"@);
    assert(UniformName::ContentHdr.text() == "niri_content_hdr"@);
    assert(UniformName::ContentPeak.text() == "niri_content_peak"@);
    assert(UniformName::Linear.text() == "niri_linear"@);
    assert(UniformName::LinearScale.text() == "niri_linear_scale"@);
    assert(UniformName::HdrToSdr.text() == "niri_hdr_to_sdr"@);
}

/// The values of a frame are what it was set to: none in an SDR frame, and the three luminances as
/// fractions of 10000 in an HDR one. Every draw of the frame has them.
pub proof fn frame_values<L: Copy>(
    state: FrameBlendState<L>,
    luminances: Option<BlendLuminances<L>>,
    values: (bool, Scale<L>, Scale<L>, Scale<L>),
    kind: ContentKind<L>,
    uniforms: [Uniform<L>; 9],
)
    requires
        state@ == luminances,
        call_ensures(FrameBlendState::<L>::values, (&state,), values),
        call_ensures(FrameBlendState::<L>::uniforms_for_content, (&state, kind), uniforms),
    ensures
        luminances is None ==> values == (
            false,
            Scale::<L>::Zero,
            Scale::<L>::Zero,
            Scale::<L>::Zero,
        ),
        luminances matches Some((reference, max, sdr)) ==> values == (
            true,
            Scale::Fraction { nits: reference, peak_nits: 10000u32 },
            Scale::Fraction { nits: max, peak_nits: 10000u32 },
            Scale::Fraction { nits: sdr, peak_nits: 10000u32 },
        ),
        sets(uniforms@, "niri_ref_lum_scale"@, UniformValue::Scale(values.1)),
        sets(uniforms@, "niri_max_nit_scale"@, UniformValue::Scale(values.2)),
        sets(uniforms@, "niri_sdr_lum_scale"@, UniformValue::Scale(values.3)),
{
    let list = crate::frame::draw_uniforms(state@, kind);
    lemma_sets_each(state@, kind);
    assert(list[1].name.text() == "niri_ref_lum_scale"@);
    assert(list[2].name.text() == "niri_max_nit_scale"@);
    assert(list[3].name.text() == "niri_sdr_lum_scale"@);
}

/// A new state is an SDR one.
pub proof fn new_frames_are_sdr<L: Copy>(
    state: FrameBlendState<L>,
    values: (bool, Scale<L>, Scale<L>, Scale<L>),
)
    requires
        call_ensures(<FrameBlendState<L> as Default>::default, (), state),
        call_ensures(FrameBlendState::<L>::values, (&state,), values),
    ensures
        state@ is None,
        values == (false, Scale::<L>::Zero, Scale::<L>::Zero, Scale::<L>::Zero),
{
}

/// A frame is what it was last set to, whatever it was before, and its draws show that: encoding is
/// on exactly in a frame set to luminances, for content that is not passthrough, and the frame's
/// scales are those luminances.
pub proof fn last_setting_wins<L: Copy>(
    luminances: Option<BlendLuminances<L>>,
    kind: ContentKind<L>,
    uniforms: [Uniform<L>; 9],
)
    ensures
        forall|state: &mut FrameBlendState<L>| #[trigger]
            call_ensures(FrameBlendState::<L>::set, (state, luminances), ()) ==> final(state)@
                == luminances,
        forall|state: &mut FrameBlendState<L>| #[trigger]
            call_ensures(FrameBlendState::<L>::set, (state, luminances), ()) && call_ensures(
                FrameBlendState::<L>::uniforms_for_content,
                (&*final(state), kind),
                uniforms,
            ) ==> {
                &&& sets(
                    uniforms@,
                    "niri_hdr_pq"@,
                    UniformValue::Flag(luminances is Some && !(kind is Passthrough)),
                )
                &&& luminances is None ==> sets(uniforms@, "niri_ref_lum_scale"@, zero())
                    && sets(uniforms@, "niri_max_nit_scale"@, zero()) && sets(
                    uniforms@,
                    "niri_sdr_lum_scale"@,
                    zero(),
                )
                &&& luminances matches Some((reference, max, sdr)) ==> sets(
                    uniforms@,
                    "niri_ref_lum_scale"@,
                    fraction(reference),
                ) && sets(uniforms@, "niri_max_nit_scale"@, fraction(max)) && sets(
                    uniforms@,
                    "niri_sdr_lum_scale"@,
                    fraction(sdr),
                )
            },
{
    let list = crate::frame::draw_uniforms(luminances, kind);
    lemma_sets_each(luminances, kind);
    assert(list[0].name.text() == "niri_hdr_pq"@);
    assert(list[1].name.text() == "niri_ref_lum_scale"@);
    assert(list[2].name.text() == "niri_max_nit_scale"@);
    assert(list[3].name.text() == "niri_sdr_lum_scale"@);
}

/// Initializing keeps a state that is there, and puts an SDR one where there is none.
pub proof fn initialized<L: Copy>(values: (bool, Scale<L>, Scale<L>, Scale<L>))
    ensures
        forall|slot: &mut Option<FrameBlendState<L>>| #[trigger]
            call_ensures(FrameBlendState::<L>::init, (slot,), ()) ==> {
                &&& *slot is Some ==> *final(slot) == *slot
                &&& *slot is None ==> *final(slot) is Some && (call_ensures(
                    FrameBlendState::<L>::values,
                    (&(*final(slot))->0,),
                    values,
                ) ==> values == (false, Scale::<L>::Zero, Scale::<L>::Zero, Scale::<L>::Zero))
            },
{
}

/// A copy of a state is the state.
pub proof fn copies<L: Copy>(state: FrameBlendState<L>, copy: FrameBlendState<L>)
    requires
        call_ensures(<FrameBlendState<L> as Clone>::clone, (&state,), copy),
    ensures
        copy == state,
{
}

/// Building a scale or a uniform keeps what it is built from; a PQ scale is a fraction of 10000.
pub proof fn built_uniforms<L>(
    nits: L,
    pq: Scale<L>,
    name: UniformName,
    on: bool,
    scale: Scale<L>,
    flag_uniform: Uniform<L>,
    scale_uniform: Uniform<L>,
)
    requires
        call_ensures(Scale::<L>::pq, (nits,), pq),
        call_ensures(Uniform::<L>::flag, (name, on), flag_uniform),
        call_ensures(Uniform::<L>::scale, (name, scale), scale_uniform),
    ensures
        pq == (Scale::Fraction { nits, peak_nits: 10000u32 }),
        flag_uniform.name == name && scale_uniform.name == name,
        flag_uniform.value == UniformValue::<L>::Flag(on),
        scale_uniform.value == UniformValue::Scale(scale),
{
}

} // verus!
