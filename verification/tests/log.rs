use blend::{ContentKind, ContentKindLog, ImageDescription, KindLabel};
use drm_fourcc::DrmFourcc as Fourcc;

#[test]
fn each_classification_is_new_once() {
    let mut log = ContentKindLog::new();
    let formats = [None, Some(Fourcc::Xrgb8888), Some(Fourcc::Abgr16161616f)];
    let kinds = [
        ContentKind::Sdr,
        ContentKind::Hdr { peak_nits: 1000 },
        ContentKind::Linear { reference_nits: 80, peak_nits: 1000 },
        ContentKind::Passthrough,
    ];
    for expected in [true, false] {
        for format in formats {
            for tagged in [false, true] {
                for kind in kinds {
                    assert_eq!(log.log_content_kind(tagged, format, &kind), expected);
                }
            }
        }
    }
}

#[test]
fn luminances_do_not_make_a_classification_new() {
    let mut log = ContentKindLog::new();
    assert!(log.log_content_kind(true, None, &ContentKind::Hdr { peak_nits: 650 }));
    assert!(!log.log_content_kind(true, None, &ContentKind::Hdr { peak_nits: 1000 }));
}

#[test]
fn buffers_are_classified_and_noted() {
    let mut log = ContentKindLog::new();
    let scrgb = ContentKind::Linear { reference_nits: 80, peak_nits: 1000 };
    let format = Some(Fourcc::Abgr16161616f);
    assert_eq!(log.content_kind_for_buffer(None, format), (scrgb, true));
    assert_eq!(log.content_kind_for_buffer(None, format), (scrgb, false));
    let tagged = Some(ImageDescription::srgb());
    assert_eq!(log.content_kind_for_buffer(tagged, format), (scrgb, true));
    assert_eq!(log.content_kind_for_buffer(tagged, None), (ContentKind::Sdr, true));
    assert_eq!(log.content_kind_for_buffer(tagged, None), (ContentKind::Sdr, false));
}

#[test]
fn labels() {
    assert_eq!(KindLabel::of(&ContentKind::<u32>::Sdr).as_str(), "sdr");
    assert_eq!(KindLabel::of(&ContentKind::Hdr { peak_nits: 1 }).as_str(), "hdr-pq");
    let linear = ContentKind::Linear { reference_nits: 1, peak_nits: 1 };
    assert_eq!(KindLabel::of(&linear).as_str(), "linear-scrgb");
    assert_eq!(KindLabel::of(&ContentKind::<u32>::Passthrough).as_str(), "passthrough");
}
