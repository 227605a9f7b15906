use blend::{
    set_frame_blend, set_sdr_capture_blend, FrameBlendState, MissingShader, RendererUpdate, Scale,
    TexProgramUpdate, Uniform, UniformName,
};

const LUMINANCES: (f64, f64, f64) = (203., 1000., 400.);

#[test]
fn hdr_blend_overrides_textures_with_the_sdr_uniforms() {
    let mut state = FrameBlendState::default();
    let update = set_frame_blend(&mut state, Some("hdr"), Some(LUMINANCES));
    let mut expected = FrameBlendState::default();
    expected.set(Some(LUMINANCES));
    assert_eq!(state, expected);
    assert_eq!(
        update,
        RendererUpdate {
            tex_program: TexProgramUpdate::Override {
                program: "hdr",
                uniforms: state.uniforms().to_vec(),
            },
            solid_color_scale: Some(Scale::Fraction { nits: 400., peak_nits: 10000 }),
            missing_shader: None,
        }
    );
}

#[test]
fn hdr_blend_without_its_shader_keeps_textures() {
    let mut state = FrameBlendState::default();
    let update = set_frame_blend(&mut state, None::<&str>, Some(LUMINANCES));
    assert!(state.values().0);
    assert_eq!(update.tex_program, TexProgramUpdate::Keep);
    assert_eq!(update.solid_color_scale, Some(Scale::pq(400.)));
    assert_eq!(update.missing_shader, Some(MissingShader::Hdr));
    assert_eq!(
        MissingShader::Hdr.message(),
        "HDR texture shader missing; SDR content will render raw"
    );
}

#[test]
fn sdr_blend_clears_everything() {
    for program in [None, Some("hdr")] {
        let mut state = FrameBlendState::default();
        state.set(Some(LUMINANCES));
        let update = set_frame_blend(&mut state, program, None);
        assert_eq!(state, FrameBlendState::default());
        assert_eq!(
            update,
            RendererUpdate {
                tex_program: TexProgramUpdate::Clear,
                solid_color_scale: None,
                missing_shader: None,
            }
        );
    }
}

#[test]
fn capture_blend_decodes_hdr_at_the_reference() {
    let mut state = FrameBlendState::default();
    state.set(Some(LUMINANCES));
    let update = set_sdr_capture_blend(&mut state, Some("hdr-to-sdr"), 203.);
    assert_eq!(state, FrameBlendState::default());
    assert_eq!(
        update,
        RendererUpdate {
            tex_program: TexProgramUpdate::Override {
                program: "hdr-to-sdr",
                uniforms: vec![Uniform::scale(UniformName::RefLumScale, Scale::pq(203.))],
            },
            solid_color_scale: None,
            missing_shader: None,
        }
    );
}

#[test]
fn capture_blend_without_its_shader_clears_textures() {
    let mut state = FrameBlendState::default();
    let update = set_sdr_capture_blend(&mut state, None::<&str>, 203.);
    assert_eq!(update.tex_program, TexProgramUpdate::Clear);
    assert_eq!(update.solid_color_scale, None);
    assert_eq!(update.missing_shader, Some(MissingShader::HdrToSdr));
    assert_eq!(
        MissingShader::HdrToSdr.message(),
        "HDR-to-SDR texture shader missing; HDR capture will render raw"
    );
}

#[test]
fn setting_a_blend_again_gives_the_same_update() {
    let mut state = FrameBlendState::default();
    for luminances in [Some(LUMINANCES), None] {
        let first = set_frame_blend(&mut state, Some("hdr"), luminances);
        let once = state;
        let second = set_frame_blend(&mut state, Some("hdr"), luminances);
        assert_eq!(first, second);
        assert_eq!(once, state);
    }
}
