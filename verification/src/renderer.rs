//! What a renderer is told when the blend of its frames changes.
use vstd::prelude::*;

use crate::content::ContentKind;
use crate::frame::{BlendLuminances, FrameBlendState, Scale, Uniform, UniformName};

verus! {

/// What becomes of the renderer's default texture program override.
#[derive(Debug, Clone, PartialEq)]
pub enum TexProgramUpdate<P, L> {
    /// The override that is there stays.
    Keep,
    /// Textures are drawn with the renderer's own program.
    Clear,
    /// Textures are drawn with this program and these uniforms.
    Override { program: P, uniforms: Vec<Uniform<L>> },
}

/// A shader that the renderer does not have.
#[derive(Debug, Clone, Copy, PartialEq, Eq, Structural)]
pub enum MissingShader {
    Hdr,
    HdrToSdr,
}

impl MissingShader {
    /// What a user is warned of.
    pub fn message(&self) -> (text: &'static str)
        ensures
            text@ == match self {
                MissingShader::Hdr => "HDR texture shader missing; SDR content will render raw"@,
                MissingShader::HdrToSdr => {
                    "HDR-to-SDR texture shader missing; HDR capture will render raw"@
                },
            },
    {
        match self {
            MissingShader::Hdr => "HDR texture shader missing; SDR content will render raw",
            MissingShader::HdrToSdr => {
                "HDR-to-SDR texture shader missing; HDR capture will render raw"
            },
        }
    }
}

/// A change of a renderer's settings.
#[derive(Debug, Clone, PartialEq)]
pub struct RendererUpdate<P, L> {
    pub tex_program: TexProgramUpdate<P, L>,
    /// The SDR scale at which solid colors are encoded into PQ; `None` leaves them as they are.
    pub solid_color_scale: Option<Scale<L>>,
    pub missing_shader: Option<MissingShader>,
}

/// The texture program override and the solid color transform of a renderer.
pub struct RendererView<P, L> {
    pub tex_program: Option<(P, Seq<Uniform<L>>)>,
    pub solid_color_scale: Option<Scale<L>>,
}

impl<P, L> RendererUpdate<P, L> {
    /// The settings that a renderer has after this update.
    pub open spec fn applied(&self, before: RendererView<P, L>) -> RendererView<P, L> {
        RendererView {
            tex_program: match self.tex_program {
                TexProgramUpdate::Keep => before.tex_program,
                TexProgramUpdate::Clear => None,
                TexProgramUpdate::Override { program, uniforms } => Some((program, uniforms@)),
            },
            solid_color_scale: self.solid_color_scale,
        }
    }
}

/// The update for frames with these luminances, or SDR ones (`None`), where `texture_hdr` is the
/// renderer's HDR texture program.
pub open spec fn is_frame_blend<P, L>(
    update: RendererUpdate<P, L>,
    texture_hdr: Option<P>,
    luminances: Option<BlendLuminances<L>>,
) -> bool {
    &&& match (luminances, texture_hdr) {
        (Some(_), Some(hdr)) => {
            &&& update.tex_program matches TexProgramUpdate::Override { program, uniforms }
            &&& program == hdr
            &&& uniforms@ =~= crate::frame::draw_uniforms(luminances, ContentKind::Sdr)
        },
        (Some(_), None) => update.tex_program is Keep,
        (None, _) => update.tex_program is Clear,
    }
    &&& update.solid_color_scale == match luminances {
        Some((_, _, sdr_brightness)) => Some(Scale::spec_pq(sdr_brightness)),
        None => None,
    }
    &&& update.missing_shader == if luminances is Some && texture_hdr is None {
        Some(MissingShader::Hdr)
    } else {
        None
    }
}

/// The update for drawing into an SDR capture buffer, where `texture_hdr_to_sdr` is the renderer's
/// HDR-to-SDR texture program.
pub open spec fn is_sdr_capture_blend<P, L>(
    update: RendererUpdate<P, L>,
    texture_hdr_to_sdr: Option<P>,
    reference_luminance: L,
) -> bool {
    &&& match texture_hdr_to_sdr {
        Some(hdr_to_sdr) => {
            &&& update.tex_program matches TexProgramUpdate::Override { program, uniforms }
            &&& program == hdr_to_sdr
            &&& uniforms@ =~= seq![
                Uniform::spec_scale(
                    UniformName::RefLumScale,
                    Scale::spec_pq(reference_luminance),
                ),
            ]
        },
        None => update.tex_program is Clear,
    }
    &&& update.solid_color_scale is None
    &&& update.missing_shader == if texture_hdr_to_sdr is None {
        Some(MissingShader::HdrToSdr)
    } else {
        None
    }
}

/// Configures the renderer for rendering into an SDR capture buffer from an HDR session: HDR
/// surfaces are decoded via the HDR-to-SDR texture program; SDR content draws normally.
pub fn set_sdr_capture_blend<P, L: Copy>(
    state: &mut FrameBlendState<L>,
    texture_hdr_to_sdr: Option<P>,
    reference_luminance: L,
) -> (update: RendererUpdate<P, L>)
    ensures
        final(state)@ is None,
        is_sdr_capture_blend(update, texture_hdr_to_sdr, reference_luminance),
{
    state.set(None);
    let scale = Scale::pq(reference_luminance);
    match texture_hdr_to_sdr {
        Some(program) => {
            let uniforms = vec![Uniform::scale(UniformName::RefLumScale, scale)];
            RendererUpdate {
                tex_program: TexProgramUpdate::Override { program, uniforms },
                solid_color_scale: None,
                missing_shader: None,
            }
        },
        None => RendererUpdate {
            tex_program: TexProgramUpdate::Clear,
            solid_color_scale: None,
            missing_shader: Some(MissingShader::HdrToSdr),
        },
    }
}

/// Configures the renderer for `(reference_luminance, max_nits, sdr_brightness)` HDR blend, or SDR
/// (`None`). Where the HDR texture program is missing, the texture program stays as it was.
pub fn set_frame_blend<P, L: Copy>(
    state: &mut FrameBlendState<L>,
    texture_hdr: Option<P>,
    luminances: Option<BlendLuminances<L>>,
) -> (update: RendererUpdate<P, L>)
    ensures
        final(state)@ == luminances,
        is_frame_blend(update, texture_hdr, luminances),
{
    state.set(luminances);
    match luminances {
        Some((ref_lum, max_nits, sdr_brightness)) => {
            let ref_scale = Scale::pq(ref_lum);
            let max_scale = Scale::pq(max_nits);
            let sdr_scale = Scale::pq(sdr_brightness);
            // Solid colors and the default texture override are SDR-only paths.
            match texture_hdr {
                Some(program) => {
                    let uniforms = vec![
                        Uniform::flag(UniformName::HdrPq, true),
                        Uniform::scale(UniformName::RefLumScale, ref_scale),
                        Uniform::scale(UniformName::MaxNitScale, max_scale),
                        Uniform::scale(UniformName::SdrLumScale, sdr_scale),
                        Uniform::flag(UniformName::ContentHdr, false),
                        Uniform::scale(UniformName::ContentPeak, Scale::Zero),
                        Uniform::flag(UniformName::Linear, false),
                        Uniform::scale(UniformName::LinearScale, Scale::Zero),
                        Uniform::flag(UniformName::HdrToSdr, false),
                    ];
                    RendererUpdate {
                        tex_program: TexProgramUpdate::Override { program, uniforms },
                        solid_color_scale: Some(sdr_scale),
                        missing_shader: None,
                    }
                },
                None => RendererUpdate {
                    tex_program: TexProgramUpdate::Keep,
                    solid_color_scale: Some(sdr_scale),
                    missing_shader: Some(MissingShader::Hdr),
                },
            }
        },
        None => RendererUpdate {
            tex_program: TexProgramUpdate::Clear,
            solid_color_scale: None,
            missing_shader: None,
        },
    }
}

/// Going back to SDR frames leaves nothing of an HDR blend, whatever the renderer was set to.
pub proof fn sdr_blend_resets<P, L>(
    update: RendererUpdate<P, L>,
    texture_hdr: Option<P>,
    before: RendererView<P, L>,
)
    requires
        is_frame_blend(update, texture_hdr, None),
    ensures
        update.applied(before) == (RendererView::<P, L> {
            tex_program: None,
            solid_color_scale: None,
        }),
        update.missing_shader is None,
{
}

/// In an HDR frame the default override draws SDR content: its uniforms are those that the frame's
/// state gives for SDR content. Solid colors are encoded at the scale that it hands the shader for
/// SDR content.
pub proof fn hdr_blend_draws_sdr_content<P, L>(
    update: RendererUpdate<P, L>,
    program: P,
    luminances: BlendLuminances<L>,
    state: FrameBlendState<L>,
    before: RendererView<P, L>,
)
    requires
        is_frame_blend(update, Some(program), Some(luminances)),
        state@ == Some(luminances),
    ensures
        ({
            let after = update.applied(before);
            let uniforms = crate::frame::draw_uniforms(state@, ContentKind::Sdr);
            &&& after.tex_program == Some((program, uniforms))
            &&& after.solid_color_scale matches Some(scale) && uniforms[3]
                == Uniform::spec_scale(UniformName::SdrLumScale, scale)
        }),
{
}

/// A renderer without the HDR texture program keeps its override when it goes to HDR, but encodes
/// solid colors all the same; the lack is reported.
pub proof fn missing_hdr_shader_keeps_textures<P, L>(
    update: RendererUpdate<P, L>,
    luminances: BlendLuminances<L>,
    before: RendererView<P, L>,
)
    requires
        is_frame_blend(update, None, Some(luminances)),
    ensures
        update.applied(before).tex_program == before.tex_program,
        update.applied(before).solid_color_scale == Some(Scale::spec_pq(luminances.2)),
        update.missing_shader == Some(MissingShader::Hdr),
{
}

/// What a renderer is set to for a capture does not depend on what it was set to before, and never
/// encodes solid colors.
pub proof fn capture_blend_forgets_the_past<P, L>(
    update: RendererUpdate<P, L>,
    texture_hdr_to_sdr: Option<P>,
    reference_luminance: L,
    first: RendererView<P, L>,
    second: RendererView<P, L>,
)
    requires
        is_sdr_capture_blend(update, texture_hdr_to_sdr, reference_luminance),
    ensures
        update.applied(first) == update.applied(second),
        update.applied(first).solid_color_scale is None,
        update.applied(first).tex_program is Some <==> texture_hdr_to_sdr is Some,
{
}

/// Applying an update a second time changes nothing more.
pub proof fn updates_are_idempotent<P, L>(
    update: RendererUpdate<P, L>,
    before: RendererView<P, L>,
)
    ensures
        update.applied(update.applied(before)) == update.applied(before),
{
}

} // verus!
