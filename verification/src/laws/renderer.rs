//! Laws of what a renderer is told when the blend changes.
use vstd::prelude::*;

use crate::content::ContentKind;
use crate::frame::{FrameBlendState, Scale, Uniform, UniformValue};
use crate::renderer::{set_frame_blend, set_sdr_capture_blend, MissingShader, RendererUpdate};

verus! {

/// Going to HDR with the HDR program: the frame has the luminances, textures are drawn with that
/// program and the uniforms of SDR content in such a frame, solid colors are encoded at the SDR
/// brightness, and nothing is missing.
pub proof fn hdr_blend<P, L: Copy>(
    program: P,
    reference: L,
    max: L,
    sdr: L,
    update: RendererUpdate<P, L>,
    uniforms: [Uniform<L>; 9],
)
    ensures
        forall|state: &mut FrameBlendState<L>| #[trigger]
            call_ensures(
                set_frame_blend::<P, L>,
                (state, Some(program), Some((reference, max, sdr))),
                update,
            ) ==> {
                &&& final(state)@ == Some((reference, max, sdr))
                &&& update.solid_color_scale == Some(
                    Scale::Fraction { nits: sdr, peak_nits: 10000u32 },
                )
                &&& update.missing_shader is None
                &&& update.tex_program is Override && update.tex_program->program == program
                &&& update.tex_program->uniforms@.len() == 9
                &&& call_ensures(
                    FrameBlendState::<L>::uniforms_for_content,
                    (&*final(state), ContentKind::Sdr),
                    uniforms,
                ) ==> update.tex_program->uniforms@ == uniforms@
            },
{
}

/// The uniforms that the HDR program is installed with encode SDR content: encoding is on, the
/// luminances are in their places, and nothing says that the content is PQ, linear or to be decoded.
pub proof fn hdr_blend_uniforms<P, L: Copy>(
    program: P,
    reference: L,
    max: L,
    sdr: L,
    update: RendererUpdate<P, L>,
)
    ensures
        forall|state: &mut FrameBlendState<L>| #[trigger]
            call_ensures(
                set_frame_blend::<P, L>,
                (state, Some(program), Some((reference, max, sdr))),
                update,
            ) ==> {
                let list = update.tex_program->uniforms@;
                &&& crate::laws::frame::sets(list, "niri_hdr_pq"@, UniformValue::Flag(true))
                &&& crate::laws::frame::sets(
                    list,
                    "niri_ref_lum_scale"@,
                    crate::laws::frame::fraction(reference),
                )
                &&& crate::laws::frame::sets(
                    list,
                    "niri_max_nit_scale"@,
                    crate::laws::frame::fraction(max),
                )
                &&& crate::laws::frame::sets(
                    list,
                    "niri_sdr_lum_scale"@,
                    crate::laws::frame::fraction(sdr),
                )
                &&& crate::laws::frame::sets(list, "niri_content_hdr"@, UniformValue::Flag(false))
                &&& crate::laws::frame::sets(
                    list,
                    "niri_content_peak"@,
                    crate::laws::frame::zero(),
                )
                &&& crate::laws::frame::sets(list, "niri_linear"@, UniformValue::Flag(false))
                &&& crate::laws::frame::sets(
                    list,
                    "niri_linear_scale"@,
                    crate::laws::frame::zero(),
                )
                &&& crate::laws::frame::sets(list, "niri_hdr_to_sdr"@, UniformValue::Flag(false))
            },
{
    let luminances = Some((reference, max, sdr));
    let list = crate::frame::draw_uniforms(luminances, ContentKind::Sdr);
    crate::laws::frame::lemma_sets_each(luminances, ContentKind::Sdr);
    assert(list[0].name.text() == "niri_hdr_pq"@);
    assert(list[1].name.text() == "niri_ref_lum_scale"@);
    assert(list[2].name.text() == "niri_max_nit_scale"@);
    assert(list[3].name.text() == "niri_sdr_lum_scale"@);
    assert(list[4].name.text() == "niri_content_hdr"@);
    assert(list[5].name.text() == "niri_content_peak"@);
    assert(list[6].name.text() == "niri_linear"@);
    assert(list[7].name.text() == "niri_linear_scale"@);
    assert(list[8].name.text() == "niri_hdr_to_sdr"@);
}

/// Going to HDR without the HDR program: the frame has the luminances and solid colors are encoded
/// at the SDR brightness all the same, but the texture program stays, and the lack is reported.
pub proof fn hdr_blend_without_program<P, L: Copy>(
    reference: L,
    max: L,
    sdr: L,
    update: RendererUpdate<P, L>,
)
    ensures
        forall|state: &mut FrameBlendState<L>| #[trigger]
            call_ensures(
                set_frame_blend::<P, L>,
                (state, None, Some((reference, max, sdr))),
                update,
            ) ==> {
                &&& final(state)@ == Some((reference, max, sdr))
                &&& update.tex_program is Keep
                &&& update.solid_color_scale == Some(
                    Scale::Fraction { nits: sdr, peak_nits: 10000u32 },
                )
                &&& update.missing_shader == Some(MissingShader::Hdr)
            },
{
}

/// Going to SDR, with or without the HDR program: the frame is SDR, textures and solid colors are
/// drawn as they are, and nothing is missing.
pub proof fn sdr_blend<P, L: Copy>(texture_hdr: Option<P>, update: RendererUpdate<P, L>)
    ensures
        forall|state: &mut FrameBlendState<L>| #[trigger]
            call_ensures(set_frame_blend::<P, L>, (state, texture_hdr, None), update) ==> {
                &&& final(state)@ is None
                &&& update.tex_program is Clear
                &&& update.solid_color_scale is None
                &&& update.missing_shader is None
            },
{
}

/// Going to a capture with the HDR-to-SDR program: the frame is SDR, textures are drawn with that
/// program, which is told the reference luminance as a fraction of 10000 and nothing else, solid
/// colors are drawn as they are, and nothing is missing.
pub proof fn capture_blend<P, L: Copy>(
    program: P,
    reference: L,
    update: RendererUpdate<P, L>,
)
    ensures
        forall|state: &mut FrameBlendState<L>| #[trigger]
            call_ensures(
                set_sdr_capture_blend::<P, L>,
                (state, Some(program), reference),
                update,
            ) ==> {
                &&& final(state)@ is None
                &&& update.solid_color_scale is None
                &&& update.missing_shader is None
                &&& update.tex_program is Override && update.tex_program->program == program
                &&& update.tex_program->uniforms@.len() == 1
                &&& update.tex_program->uniforms@[0].name.text() == "niri_ref_lum_scale"@
                &&& update.tex_program->uniforms@[0].value == UniformValue::Scale(
                    Scale::Fraction { nits: reference, peak_nits: 10000u32 },
                )
            },
{
}

/// Going to a capture without the HDR-to-SDR program: the frame is SDR, textures and solid colors
/// are drawn as they are, and the lack is reported.
pub proof fn capture_blend_without_program<P, L: Copy>(
    reference: L,
    update: RendererUpdate<P, L>,
)
    ensures
        forall|state: &mut FrameBlendState<L>| #[trigger]
            call_ensures(set_sdr_capture_blend::<P, L>, (state, None, reference), update) ==> {
                &&& final(state)@ is None
                &&& update.tex_program is Clear
                &&& update.solid_color_scale is None
                &&& update.missing_shader == Some(MissingShader::HdrToSdr)
            },
{
}

/// Each missing shader has its own warning.
pub proof fn warnings(hdr: &'static str, hdr_to_sdr: &'static str)
    requires
        call_ensures(MissingShader::message, (&MissingShader::Hdr,), hdr),
        call_ensures(MissingShader::message, (&MissingShader::HdrToSdr,), hdr_to_sdr),
    ensures
        hdr@ == "HDR texture shader missing; SDR content will render raw"@,
        hdr_to_sdr@ == "HDR-to-SDR texture shader missing; HDR capture will render raw"@,
        hdr@ != hdr_to_sdr@,
{
    reveal_strlit("HDR texture shader missing; SDR content will render raw");
    reveal_strlit("HDR-to-SDR texture shader missing; HDR capture will render raw");
    assert(hdr@[3] != hdr_to_sdr@[3]);
}

} // verus!
