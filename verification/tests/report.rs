use aicheck::detector::c2pa_detector::{read_file_manifests, C2paAction, C2paManifest, C2paReadError, DigitalSourceType};
use aicheck::detector::{run_all_detectors, Confidence, FileReport, Signal, SignalSource};
use aicheck::output::{assessment_label, exit_code, make_summary};

fn sig(c: Confidence) -> Signal {
    Signal { source: SignalSource::Exif, confidence: c, description: "d".to_string(), tool: None, details: vec![] }
}

#[test]
fn from_signals_takes_maximum() {
    let r = FileReport::from_signals(
        "a.png".to_string(),
        Some("image/png".to_string()),
        vec![sig(Confidence::Low), sig(Confidence::High), sig(Confidence::Medium)],
    );
    assert_eq!(r.overall_confidence, Confidence::High);
    assert!(r.ai_generated);
    assert_eq!(r.signals.len(), 3);
    assert!(r.error.is_none());
    let r = FileReport::from_signals("b".to_string(), None, vec![]);
    assert_eq!(r.overall_confidence, Confidence::Absent);
    assert!(!r.ai_generated);
    let r = FileReport::from_signals("c".to_string(), None, vec![sig(Confidence::Absent)]);
    assert!(!r.ai_generated);
}

#[test]
fn from_error_report() {
    let r = FileReport::from_error("x".to_string(), "boom".to_string());
    assert_eq!(r.error, Some("boom".to_string()));
    assert!(r.signals.is_empty());
    assert!(!r.ai_generated);
    assert_eq!(r.overall_confidence, Confidence::Absent);
}

#[test]
fn labels() {
    assert_eq!(Confidence::High.label(), "HIGH");
    assert_eq!(Confidence::Absent.label(), "NONE");
    assert_eq!(SignalSource::C2pa.label(), "C2PA");
    assert_eq!(SignalSource::Watermark.label(), "WATERMARK");
    assert_eq!(assessment_label(true, Confidence::Medium), "Likely AI-generated");
    assert_eq!(assessment_label(false, Confidence::Absent), "Not detected as AI-generated");
}

#[test]
fn summary_counts() {
    let reports = vec![
        FileReport::from_signals("a".to_string(), None, vec![sig(Confidence::High)]),
        FileReport::from_signals("b".to_string(), None, vec![sig(Confidence::Low)]),
        FileReport::from_signals("c".to_string(), None, vec![]),
        FileReport::from_error("d".to_string(), "e".to_string()),
    ];
    let s = make_summary(&reports);
    assert_eq!((s.total, s.ai_detected, s.high, s.medium, s.low), (4, 2, 1, 0, 1));
    assert_eq!(s.high + s.medium + s.low, s.ai_detected);
    assert_eq!(exit_code(&reports), 0);
    assert_eq!(exit_code(&reports[2..]), 2);
    assert_eq!(exit_code(&reports[2..3]), 1);
}

/// A little-endian TIFF whose primary directory holds the given ASCII fields
/// (each value at least four bytes long, so that it is stored out of line).
fn tiff(fields: &[(u16, &str)]) -> Vec<u8> {
    let n = fields.len();
    let mut data_at = 8 + 2 + 12 * n + 4;
    let mut out = b"II*\0\x08\0\0\0".to_vec();
    out.extend_from_slice(&(n as u16).to_le_bytes());
    let mut data = Vec::new();
    for (tag, value) in fields {
        out.extend_from_slice(&tag.to_le_bytes());
        out.extend_from_slice(&2u16.to_le_bytes());
        out.extend_from_slice(&((value.len() + 1) as u32).to_le_bytes());
        out.extend_from_slice(&(data_at as u32).to_le_bytes());
        data.extend_from_slice(value.as_bytes());
        data.push(0);
        data_at += value.len() + 1;
    }
    out.extend_from_slice(&[0, 0, 0, 0]);
    out.extend_from_slice(&data);
    out
}

fn watermark_signal() -> Signal {
    Signal {
        source: SignalSource::Watermark,
        confidence: Confidence::Low,
        description: "w".to_string(),
        tool: None,
        details: vec![],
    }
}

#[test]
fn run_all_detectors_combines_in_order() {
    let mut contents = tiff(&[(0x131, "Midjourney")]);
    contents.extend_from_slice(b"<x:xmpmeta><AISystemUsed>Sora</AISystemUsed></x:xmpmeta>");
    let manifest = C2paManifest {
        claim_generator: None,
        claim_generator_info: None,
        actions: Some(vec![C2paAction {
            action: "c2pa.created".to_string(),
            source_type: Some(DigitalSourceType::CompositeSynthetic),
            software_agent: None,
        }]),
        actions_v2: None,
    };
    let r = run_all_detectors(
        "dir/midjourney_1.tif".to_string(),
        Ok(contents),
        Ok(vec![manifest]),
        Some(Ok(vec![watermark_signal()])),
    );
    assert_eq!(r.mime_type, Some("image/tiff".to_string()));
    let sources: Vec<SignalSource> = r.signals.iter().map(|s| s.source).collect();
    assert_eq!(
        sources,
        vec![SignalSource::C2pa, SignalSource::Xmp, SignalSource::Exif, SignalSource::Exif, SignalSource::Watermark]
    );
    assert_eq!(r.signals[2].description, "Software tag matches AI tool: Midjourney");
    assert_eq!(r.overall_confidence, Confidence::High);
    assert!(r.ai_generated);
}

#[test]
fn failed_detectors_contribute_nothing() {
    let r = run_all_detectors(
        "missing".to_string(),
        Err("not found".to_string()),
        Err(C2paReadError::Other("io".to_string())),
        None,
    );
    assert!(r.signals.is_empty());
    assert_eq!(r.mime_type, None);
    assert!(!r.ai_generated);
    assert!(r.error.is_none());
    let r = run_all_detectors("t.txt".to_string(), Ok(b"hello".to_vec()), Err(C2paReadError::JumbfNotFound), None);
    assert_eq!(r.mime_type, None);
    assert!(r.signals.is_empty());
}

#[test]
fn no_watermark_signal_without_analysis() {
    let mut d = b"<x:xmpmeta><AISystemUsed>Flux</AISystemUsed></x:xmpmeta>".to_vec();
    d.extend_from_slice(b"tail");
    let r = run_all_detectors("g.jpg".to_string(), Ok(d), Err(C2paReadError::UnsupportedType), None);
    assert_eq!(r.signals.len(), 1);
    assert!(r.signals.iter().all(|s| s.source != SignalSource::Watermark));
    assert_eq!(r.overall_confidence, Confidence::Medium);
}

#[test]
fn run_all_detectors_reads_exif_from_contents() {
    let mut contents = tiff(&[(0x131, "Adobe Firefly"), (0x10f, "Canon")]);
    contents.extend_from_slice(b"<x:xmpmeta><AISystemUsed>Sora</AISystemUsed></x:xmpmeta>");
    let c2pa = read_file_manifests("photo.tif", &contents, None);
    let r = run_all_detectors("photo.tif".to_string(), Ok(contents), c2pa, None);
    assert_eq!(r.mime_type, Some("image/tiff".to_string()));
    let sources: Vec<SignalSource> = r.signals.iter().map(|s| s.source).collect();
    assert_eq!(sources, vec![SignalSource::Xmp, SignalSource::Exif]);
    assert_eq!(r.signals[1].tool, Some("adobe firefly".to_string()));
    assert_eq!(r.overall_confidence, Confidence::Medium);
    assert!(r.ai_generated);
}

#[test]
fn unreadable_file_named_like_a_tool_has_no_signal() {
    let r = run_all_detectors(
        "/no/such/elevenlabs_2026-03-11T04_15_43_x.mp3".to_string(),
        Err("not found".to_string()),
        Err(C2paReadError::Other("not found".to_string())),
        None,
    );
    assert!(r.signals.is_empty());
    assert!(!r.ai_generated);
}

#[test]
fn min_confidence_filters_signals() {
    let r = FileReport::from_signals(
        "a".to_string(),
        None,
        vec![sig(Confidence::Low), sig(Confidence::Medium), sig(Confidence::Low)],
    );
    let m = r.clone().with_min_confidence(Confidence::Medium);
    assert_eq!(m.signals.len(), 1);
    assert_eq!(m.overall_confidence, Confidence::Medium);
    assert!(m.ai_generated);
    let h = r.with_min_confidence(Confidence::High);
    assert!(h.signals.is_empty());
    assert_eq!(h.overall_confidence, Confidence::Absent);
    assert!(!h.ai_generated);
}

#[test]
fn confidence_names() {
    assert_eq!(Confidence::from_name("medium"), Some(Confidence::Medium));
    assert_eq!(Confidence::from_name("HIGH"), Some(Confidence::High));
    assert_eq!(Confidence::from_name("Low"), Some(Confidence::Low));
    assert_eq!(Confidence::from_name("none"), None);
    assert_eq!(Confidence::from_name("mediums"), None);
}
