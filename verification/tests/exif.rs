use aicheck::detector::exif::{detect, detect_exif_bytes, dump_info, read_exif_fields, strip_quotes_exec, ExifFields};
use aicheck::detector::{Confidence, SignalSource};

fn fields() -> ExifFields {
    ExifFields {
        software: None,
        make: None,
        model: None,
        image_description: None,
        user_comment: None,
        artist: None,
        camera_tags: vec![false; 10],
    }
}

#[test]
fn software_match_without_camera_adds_absence_signal() {
    let mut f = fields();
    f.software = Some("\"Adobe Firefly\"".to_string());
    let s = detect(&f);
    assert_eq!(s.len(), 2);
    assert_eq!(s[0].description, "Software tag matches AI tool: Adobe Firefly");
    assert_eq!(s[0].tool, Some("adobe firefly".to_string()));
    assert_eq!(s[0].details, vec![("Software".to_string(), "Adobe Firefly".to_string())]);
    assert_eq!(s[1].description, "No camera EXIF fields present");
    assert_eq!(s[1].details, vec![("camera_tags_present".to_string(), "0".to_string())]);
    for sig in &s {
        assert_eq!(sig.source, SignalSource::Exif);
        assert_eq!(sig.confidence, Confidence::Low);
    }
}

#[test]
fn camera_present_suppresses_absence_signal() {
    let mut f = fields();
    f.model = Some("\"Stable Diffusion XL\"".to_string());
    f.camera_tags[3] = true;
    let s = detect(&f);
    assert_eq!(s.len(), 1);
    assert_eq!(s[0].description, "Model tag matches AI tool: Stable Diffusion XL");
}

#[test]
fn description_and_comment_references() {
    let mut f = fields();
    f.image_description = Some("\"made in ComfyUI\"".to_string());
    f.user_comment = Some("\"hello\"".to_string());
    let s = detect(&f);
    assert_eq!(s.len(), 2);
    assert_eq!(s[0].description, "ImageDescription references AI tool");
    assert_eq!(s[0].tool, Some("comfyui".to_string()));
}

#[test]
fn hash_like_artist() {
    let mut f = fields();
    f.artist = Some("\"0123456789abcdef-0123456789ABCDEF\"".to_string());
    let s = detect(&f);
    assert_eq!(s.len(), 2);
    assert_eq!(s[0].description, "Artist tag looks like a hash: 0123456789abcdef");
    assert_eq!(s[0].tool, None);
    let mut g = fields();
    g.artist = Some("\"0123456789abcdef0123456789abcdeX\"".to_string());
    assert!(detect(&g).is_empty());
    let mut h = fields();
    h.artist = Some("\"0123456789abcdef\"".to_string());
    assert!(detect(&h).is_empty());
}

#[test]
fn quiet_without_ai_fields() {
    let mut f = fields();
    f.software = Some("\"GIMP\"".to_string());
    f.make = Some("\"Canon\"".to_string());
    assert!(detect(&f).is_empty());
}

#[test]
fn quotes_are_removed() {
    assert_eq!(strip_quotes_exec(&"\"a\"b\"\"".to_string()), "ab");
}

/// A little-endian TIFF whose primary directory holds the given ASCII fields
/// (each value at least four bytes long, so that it is stored out of line).
fn tiff(fields: &[(u16, &str)]) -> Vec<u8> {
    let n = fields.len();
    let mut data_at = 8 + 2 + 12 * n + 4;
    let mut out = b"II*\0\x08\0\0\0".to_vec();
    out.extend_from_slice(&(n as u16).to_le_bytes());
    let mut data = Vec::new();
    for (tag, value) in fields {
        out.extend_from_slice(&tag.to_le_bytes());
        out.extend_from_slice(&2u16.to_le_bytes());
        out.extend_from_slice(&((value.len() + 1) as u32).to_le_bytes());
        out.extend_from_slice(&(data_at as u32).to_le_bytes());
        data.extend_from_slice(value.as_bytes());
        data.push(0);
        data_at += value.len() + 1;
    }
    out.extend_from_slice(&[0, 0, 0, 0]);
    out.extend_from_slice(&data);
    out
}

#[test]
fn read_exif_fields_from_tiff() {
    let f = read_exif_fields(&tiff(&[(0x131, "Midjourney"), (0x13b, "Some Artist")])).unwrap();
    assert_eq!(f.software, Some("\"Midjourney\"".to_string()));
    assert_eq!(f.artist, Some("\"Some Artist\"".to_string()));
    assert_eq!(f.make, None);
    assert_eq!(f.user_comment, None);
    assert_eq!(f.camera_tags, vec![false; 10]);
    let f = read_exif_fields(&tiff(&[(0x110, "EOS R5")])).unwrap();
    assert_eq!(f.model, Some("\"EOS R5\"".to_string()));
    assert!(f.camera_tags[1]);
    assert!(!f.camera_tags[0]);
}

#[test]
fn read_exif_fields_without_exif() {
    assert!(read_exif_fields(b"plain text, no image").is_none());
    assert!(read_exif_fields(&[]).is_none());
}

#[test]
fn detect_exif_bytes_finds_tool_and_missing_camera() {
    let s = detect_exif_bytes(&tiff(&[(0x131, "Midjourney")]));
    assert_eq!(s.len(), 2);
    assert_eq!(s[0].description, "Software tag matches AI tool: Midjourney");
    assert_eq!(s[0].tool, Some("midjourney".to_string()));
    assert_eq!(s[1].description, "No camera EXIF fields present");
    let s = detect_exif_bytes(&tiff(&[(0x131, "Midjourney"), (0x10f, "Canon")]));
    assert_eq!(s.len(), 1);
    assert!(detect_exif_bytes(&tiff(&[(0x131, "GIMP 2.10")])).is_empty());
    assert!(detect_exif_bytes(b"no exif here").is_empty());
}

#[test]
fn dump_info_lists_fields() {
    let d = dump_info(&tiff(&[(0x10f, "Canon"), (0x131, "Photoshop")]));
    assert_eq!(
        d,
        vec![
            ("Make".to_string(), "\"Canon\"".to_string()),
            ("Software".to_string(), "\"Photoshop\"".to_string())
        ]
    );
    assert!(dump_info(b"nothing").is_empty());
}
