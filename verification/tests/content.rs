use blend::content::{
    linear_peak_from_description, linear_reference_from_description, windows_linear_kind,
};
use blend::{
    content_kind_for_buffer, content_kind_from_description, is_fp16_fourcc, ContentKind,
    ImageDescription, Primaries, TransferFunction,
};
use drm_fourcc::DrmFourcc as Fourcc;

fn from_description(desc: Option<ImageDescription>) -> ContentKind<f64> {
    content_kind_from_description(desc).map_nits(f64::from)
}

fn for_buffer(desc: Option<ImageDescription>, fourcc: Option<Fourcc>) -> ContentKind<f64> {
    content_kind_for_buffer(desc, fourcc).map_nits(f64::from)
}

#[test]
fn content_kind_from_description_mapping() {
    assert_eq!(from_description(None), ContentKind::Sdr);
    assert_eq!(from_description(Some(ImageDescription::srgb())), ContentKind::Sdr);
    assert_eq!(
        from_description(Some(ImageDescription::windows_scrgb())),
        ContentKind::Linear {
            reference_nits: 80.,
            peak_nits: 1000.,
        }
    );

    let pq = ImageDescription {
        transfer: TransferFunction::St2084Pq,
        primaries: Primaries::Bt2020,
        max_cll: Some(650),
        max_fall: None,
        mastering_luminance: Some((50, 1000)),
        luminances: None,
        windows_scrgb: false,
    };
    assert_eq!(from_description(Some(pq)), ContentKind::Hdr { peak_nits: 650. });

    let pq_mastering_only = ImageDescription {
        max_cll: None,
        ..pq
    };
    assert_eq!(
        from_description(Some(pq_mastering_only)),
        ContentKind::Hdr { peak_nits: 1000. }
    );

    let ext_linear = ImageDescription {
        transfer: TransferFunction::ExtLinear,
        primaries: Primaries::Srgb,
        max_cll: None,
        max_fall: None,
        mastering_luminance: None,
        luminances: None,
        windows_scrgb: false,
    };
    assert_eq!(
        from_description(Some(ext_linear)),
        ContentKind::Linear {
            reference_nits: 80.,
            peak_nits: 1000.,
        }
    );
    assert!(ext_linear.is_hdr());
    assert!(!ext_linear.is_pq());

    let ext_linear_ref = ImageDescription {
        luminances: Some((2, 80, 100)),
        max_cll: Some(800),
        ..ext_linear
    };
    assert_eq!(
        from_description(Some(ext_linear_ref)),
        ContentKind::Linear {
            reference_nits: 100.,
            peak_nits: 800.,
        }
    );
}

#[test]
fn content_kind_fp16_heuristic() {
    let pq = ImageDescription {
        transfer: TransferFunction::St2084Pq,
        primaries: Primaries::Bt2020,
        max_cll: Some(1000),
        max_fall: None,
        mastering_luminance: None,
        luminances: None,
        windows_scrgb: false,
    };
    assert_eq!(
        for_buffer(Some(pq), Some(Fourcc::Abgr16161616f)),
        ContentKind::Linear {
            reference_nits: 80.,
            peak_nits: 1000.,
        }
    );
    assert_eq!(
        for_buffer(Some(pq), Some(Fourcc::Abgr2101010)),
        ContentKind::Hdr { peak_nits: 1000. }
    );

    // Untagged and sRGB-tagged FP16 swapchains are scRGB too; reading them as electrical sRGB
    // overflows the PQ encode and breaks hue at highlights.
    let scrgb = ContentKind::Linear {
        reference_nits: 80.,
        peak_nits: 1000.,
    };
    assert_eq!(for_buffer(None, Some(Fourcc::Abgr16161616f)), scrgb);
    assert_eq!(
        for_buffer(Some(ImageDescription::srgb()), Some(Fourcc::Xrgb16161616f)),
        scrgb
    );

    // 8-bit buffers keep their tagged (or untagged) meaning.
    assert_eq!(for_buffer(None, Some(Fourcc::Xrgb8888)), ContentKind::Sdr);

    assert!(is_fp16_fourcc(Fourcc::Argb16161616f));
    assert!(!is_fp16_fourcc(Fourcc::Abgr2101010));
}

#[test]
fn fp16_formats_are_those_with_the_half_float_code() {
    for code in [
        Fourcc::Argb16161616f,
        Fourcc::Abgr16161616f,
        Fourcc::Xrgb16161616f,
        Fourcc::Xbgr16161616f,
    ] {
        assert!(is_fp16_fourcc(code));
        assert_eq!(&code.to_string()[2..], "4H");
    }
    for code in [
        Fourcc::Argb8888,
        Fourcc::Xbgr2101010,
        Fourcc::Axbxgxrx106106106106,
        Fourcc::Xvyu16161616,
        Fourcc::Nv12,
    ] {
        assert!(!is_fp16_fourcc(code));
    }
}

fn described(transfer: TransferFunction) -> ImageDescription {
    ImageDescription { transfer, ..ImageDescription::srgb() }
}

#[test]
fn only_pq_and_linear_transfers_are_high_range() {
    let all = [
        TransferFunction::Bt1886,
        TransferFunction::Gamma22,
        TransferFunction::Gamma28,
        TransferFunction::St240,
        TransferFunction::ExtLinear,
        TransferFunction::Log100,
        TransferFunction::Log316,
        TransferFunction::Xvycc,
        TransferFunction::Srgb,
        TransferFunction::ExtSrgb,
        TransferFunction::St2084Pq,
        TransferFunction::St428,
        TransferFunction::Hlg,
    ];
    for transfer in all {
        let desc = described(transfer);
        let kind = content_kind_from_description(Some(desc));
        match transfer {
            TransferFunction::ExtLinear => {
                assert!(matches!(kind, ContentKind::Linear { .. }))
            }
            TransferFunction::St2084Pq => assert_eq!(kind, ContentKind::Hdr { peak_nits: 1000 }),
            _ => assert_eq!(kind, ContentKind::Sdr),
        }
        assert_eq!(desc.is_hdr(), kind != ContentKind::Sdr);
        assert_eq!(desc.is_pq(), transfer == TransferFunction::St2084Pq);
    }
}

#[test]
fn windows_scrgb_outranks_the_transfer_function() {
    let desc = ImageDescription {
        windows_scrgb: true,
        max_cll: Some(600),
        ..described(TransferFunction::St2084Pq)
    };
    assert!(desc.is_windows_scrgb());
    assert!(desc.is_pq());
    assert_eq!(
        content_kind_from_description(Some(desc)),
        ContentKind::Linear { reference_nits: 80, peak_nits: 600 }
    );
}

#[test]
fn zero_luminances_fall_back_only_in_linear_content() {
    let zeros = ImageDescription {
        max_cll: Some(0),
        mastering_luminance: Some((1, 600)),
        luminances: Some((0, 0, 0)),
        ..described(TransferFunction::ExtLinear)
    };
    // A zero light level hides the mastering display's maximum, and is then dropped itself.
    assert_eq!(linear_peak_from_description(&zeros), 1000);
    assert_eq!(linear_reference_from_description(&zeros), 80);
    assert_eq!(
        windows_linear_kind(&zeros),
        ContentKind::Linear { reference_nits: 80, peak_nits: 1000 }
    );

    let mastering_zero = ImageDescription {
        max_cll: None,
        mastering_luminance: Some((1, 0)),
        ..zeros
    };
    assert_eq!(linear_peak_from_description(&mastering_zero), 1000);

    let mastering = ImageDescription {
        max_cll: None,
        ..zeros
    };
    assert_eq!(linear_peak_from_description(&mastering), 600);

    let pq = ImageDescription {
        transfer: TransferFunction::St2084Pq,
        ..zeros
    };
    assert_eq!(content_kind_from_description(Some(pq)), ContentKind::Hdr { peak_nits: 0 });
}

#[test]
fn fp16_buffers_read_as_if_tagged_extended_linear() {
    let pq = ImageDescription {
        max_cll: Some(650),
        luminances: Some((2, 80, 100)),
        ..described(TransferFunction::St2084Pq)
    };
    let retagged = ImageDescription {
        transfer: TransferFunction::ExtLinear,
        ..pq
    };
    let expected = ContentKind::Linear { reference_nits: 100, peak_nits: 650 };
    assert_eq!(content_kind_for_buffer(Some(pq), Some(Fourcc::Xbgr16161616f)), expected);
    assert_eq!(content_kind_from_description(Some(retagged)), expected);
    assert_eq!(
        content_kind_for_buffer(None, Some(Fourcc::Xbgr16161616f)),
        content_kind_from_description(Some(ImageDescription::windows_scrgb()))
    );
}

#[test]
fn the_format_of_linear_content_does_not_matter() {
    let desc = ImageDescription {
        max_cll: Some(800),
        ..described(TransferFunction::ExtLinear)
    };
    let kind = content_kind_from_description(Some(desc));
    assert_eq!(kind, ContentKind::Linear { reference_nits: 80, peak_nits: 800 });
    for format in [None, Some(Fourcc::Xrgb8888), Some(Fourcc::Argb16161616f)] {
        assert_eq!(content_kind_for_buffer(Some(desc), format), kind);
    }
}

#[test]
fn buffers_of_unknown_format_keep_their_description() {
    assert_eq!(content_kind_for_buffer(None, None), ContentKind::Sdr);
    let pq = described(TransferFunction::St2084Pq);
    assert_eq!(content_kind_for_buffer(Some(pq), None), ContentKind::Hdr { peak_nits: 1000 });
}

#[test]
fn map_nits_keeps_the_variant() {
    let half = |nits: u32| f64::from(nits) / 2.;
    assert_eq!(ContentKind::<u32>::Sdr.map_nits(half), ContentKind::Sdr);
    assert_eq!(ContentKind::<u32>::Passthrough.map_nits(half), ContentKind::Passthrough);
    assert_eq!(
        ContentKind::Hdr { peak_nits: 651 }.map_nits(half),
        ContentKind::Hdr { peak_nits: 325.5 }
    );
    assert_eq!(
        ContentKind::Linear { reference_nits: 80, peak_nits: 1000 }.map_nits(half),
        ContentKind::Linear { reference_nits: 40., peak_nits: 500. }
    );
}
