use aicheck::detector::mp4_metadata::{
    detect, detect_aigc_label, detect_ilst_tools, detect_sei_markers, dump_info, extract_ilst_entries,
    extract_json_field, find_boxes, get_box, parse_ilst_keyed, parse_ilst_standard, parse_keys, read_u32_be,
};
use aicheck::detector::{Confidence, SignalSource};

fn boxed(kind: &[u8; 4], content: &[u8]) -> Vec<u8> {
    let mut b = Vec::new();
    b.extend_from_slice(&((content.len() + 8) as u32).to_be_bytes());
    b.extend_from_slice(kind);
    b.extend_from_slice(content);
    b
}

fn data_atom(value: &[u8]) -> Vec<u8> {
    let mut c = vec![0, 0, 0, 1, 0, 0, 0, 0];
    c.extend_from_slice(value);
    boxed(b"data", &c)
}

fn mp4_with_ilst(ilst_items: &[u8], keys: Option<Vec<u8>>, mdat: Option<&[u8]>) -> Vec<u8> {
    let mut meta_content = vec![0, 0, 0, 0];
    if let Some(k) = keys {
        meta_content.extend_from_slice(&k);
    }
    meta_content.extend_from_slice(&boxed(b"ilst", ilst_items));
    let meta = boxed(b"meta", &meta_content);
    let udta = boxed(b"udta", &meta);
    let moov = boxed(b"moov", &udta);
    let mut file = boxed(b"ftyp", b"isom\0\0\0\0");
    file.extend_from_slice(&moov);
    if let Some(m) = mdat {
        file.extend_from_slice(&boxed(b"mdat", m));
    }
    file
}

#[test]
fn test_extract_json_field() {
    let json = r#"{"Label":"1","ProduceID":"abc-123","Other":"val"}"#;
    assert_eq!(extract_json_field(json, "Label"), Some("1".to_string()));
    assert_eq!(extract_json_field(json, "ProduceID"), Some("abc-123".to_string()));
    assert_eq!(extract_json_field(json, "Missing"), None);

    // With spaces
    let json2 = r#"{"Label": "1", "ProduceID": "xyz"}"#;
    assert_eq!(extract_json_field(json2, "Label"), Some("1".to_string()));
    assert_eq!(extract_json_field(json2, "ProduceID"), Some("xyz".to_string()));
}

#[test]
fn test_detect_ilst_tools_known_tool() {
    let entries = vec![("\u{a9}too".to_string(), "Runway Gen-3".to_string())];
    let signals = detect_ilst_tools(&entries);
    assert_eq!(signals.len(), 1);
    assert_eq!(signals[0].tool, Some("runway".to_string()));
    assert_eq!(signals[0].confidence, Confidence::Medium);
}

#[test]
fn test_detect_ilst_tools_mp4_mapping() {
    let entries = vec![("\u{a9}too".to_string(), "Google".to_string())];
    let signals = detect_ilst_tools(&entries);
    assert_eq!(signals.len(), 1);
    assert_eq!(signals[0].tool, Some("google veo".to_string()));
}

#[test]
fn test_detect_ilst_tools_no_match() {
    let entries = vec![("\u{a9}too".to_string(), "Lavf60.16.100".to_string())];
    let signals = detect_ilst_tools(&entries);
    assert!(signals.is_empty());
}

#[test]
fn test_detect_aigc_label() {
    let entries = vec![("AIGC".to_string(), r#"{"Label":"1","ProduceID":"test-123"}"#.to_string())];
    let signals = detect_aigc_label(&entries);
    assert_eq!(signals.len(), 1);
    assert_eq!(signals[0].confidence, Confidence::Medium);
    assert!(signals[0].description.contains("AIGC"));
    assert!(signals[0].description.contains("test-123"));
}

#[test]
fn test_detect_aigc_label_not_ai() {
    let entries = vec![("AIGC".to_string(), r#"{"Label":"0","ProduceID":"test"}"#.to_string())];
    let signals = detect_aigc_label(&entries);
    assert!(signals.is_empty());
}

#[test]
fn test_detect_keyed_encoder() {
    let entries = vec![("encoder".to_string(), "Sora v2".to_string())];
    let signals = detect_ilst_tools(&entries);
    assert_eq!(signals.len(), 1);
    assert_eq!(signals[0].tool, Some("sora".to_string()));
}

#[test]
fn test_parse_standard_ilst() {
    // Construct a minimal standard ilst: ilst > ©too > data > "Google"
    let value = b"Google";
    let data_atom_size: u32 = 8 + 8 + value.len() as u32; // header + flags+locale + value
    let item_size: u32 = 8 + data_atom_size;
    let ilst_size: u32 = 8 + item_size;

    let mut buf = Vec::new();
    // ilst header
    buf.extend_from_slice(&ilst_size.to_be_bytes());
    buf.extend_from_slice(b"ilst");
    // ©too item header
    buf.extend_from_slice(&item_size.to_be_bytes());
    buf.extend_from_slice(&[0xa9, b't', b'o', b'o']);
    // data atom header
    buf.extend_from_slice(&data_atom_size.to_be_bytes());
    buf.extend_from_slice(b"data");
    // type flags + locale
    buf.extend_from_slice(&[0, 0, 0, 1]); // flags: UTF-8 text
    buf.extend_from_slice(&[0, 0, 0, 0]); // locale
    // value
    buf.extend_from_slice(value);

    let entries = parse_ilst_standard(&buf, 8, buf.len()).unwrap();
    assert_eq!(entries.len(), 1);
    assert_eq!(entries[0].0, "\u{a9}too");
    assert_eq!(entries[0].1, "Google");
}

#[test]
fn read_u32_be_values() {
    assert_eq!(read_u32_be(&[0x12, 0x34, 0x56, 0x78, 0x9a], 1), Some(0x3456789a));
    assert_eq!(read_u32_be(&[0, 0, 1], 0), None);
}

#[test]
fn find_boxes_sizes() {
    // A normal box, then a 64-bit-size box, then a size-0 box reaching the end.
    let mut d = boxed(b"free", b"ab");
    d.extend_from_slice(&1u32.to_be_bytes());
    d.extend_from_slice(b"wide");
    d.extend_from_slice(&20u64.to_be_bytes());
    d.extend_from_slice(b"wxyz");
    d.extend_from_slice(&0u32.to_be_bytes());
    d.extend_from_slice(b"last");
    d.extend_from_slice(b"tail");
    let boxes = find_boxes(&d, 0, d.len()).unwrap();
    assert_eq!(boxes.len(), 3);
    assert_eq!(&boxes[0].box_type, b"free");
    assert_eq!((boxes[0].content_start, boxes[0].box_end), (8, 10));
    assert_eq!(&boxes[1].box_type, b"wide");
    assert_eq!((boxes[1].content_start, boxes[1].box_end), (26, 30));
    assert_eq!(&boxes[2].box_type, b"last");
    assert_eq!((boxes[2].content_start, boxes[2].box_end), (38, 42));
}

#[test]
fn find_boxes_stops_at_small_size_and_cuts_at_end() {
    let mut d = boxed(b"abcd", b"0123456789");
    // size 4 is below a header: the walk stops
    d.extend_from_slice(&4u32.to_be_bytes());
    d.extend_from_slice(b"bad!");
    let boxes = find_boxes(&d, 0, d.len()).unwrap();
    assert_eq!(boxes.len(), 1);
    // a box declaring more than is there ends at the range end
    let boxes = find_boxes(&d, 0, 12).unwrap();
    assert_eq!(boxes[0].box_end, 12);
}

#[test]
fn find_boxes_overflowing_size_aborts() {
    let mut d = boxed(b"skip", b"");
    d.extend_from_slice(&1u32.to_be_bytes());
    d.extend_from_slice(b"huge");
    d.extend_from_slice(&u64::MAX.to_be_bytes());
    assert!(find_boxes(&d, 0, d.len()).is_none());
}

#[test]
fn get_box_first_of_type() {
    let mut d = boxed(b"aaaa", b"1");
    d.extend_from_slice(&boxed(b"bbbb", b"22"));
    d.extend_from_slice(&boxed(b"bbbb", b"333"));
    assert_eq!(get_box(&d, 0, d.len(), b"bbbb"), Some(Some((17, 19))));
    assert_eq!(get_box(&d, 0, d.len(), b"cccc"), Some(None));
}

#[test]
fn keys_based_ilst_round_trip() {
    // keys box: version/flags, count 2, then two keys "mdta" namespaced
    let mut keys_content = vec![0, 0, 0, 0, 0, 0, 0, 2];
    for name in [&b"encoder"[..], &b"AIGC"[..]] {
        keys_content.extend_from_slice(&((name.len() + 8) as u32).to_be_bytes());
        keys_content.extend_from_slice(b"mdta");
        keys_content.extend_from_slice(name);
    }
    let keys = boxed(b"keys", &keys_content);
    let mut items = boxed(&1u32.to_be_bytes(), &data_atom(b"Sora v2"));
    items.extend_from_slice(&boxed(&2u32.to_be_bytes(), &data_atom(br#"{"Label": "1", "ProduceID": "p-9"}"#)));
    items.extend_from_slice(&boxed(&7u32.to_be_bytes(), &data_atom(b"other")));
    let file = mp4_with_ilst(&items, Some(keys), None);
    let entries = extract_ilst_entries(&file).unwrap();
    assert_eq!(
        entries,
        vec![
            ("encoder".to_string(), "Sora v2".to_string()),
            ("AIGC".to_string(), r#"{"Label": "1", "ProduceID": "p-9"}"#.to_string()),
            ("idx:7".to_string(), "other".to_string()),
        ]
    );
    let signals = detect(&file).unwrap();
    assert_eq!(signals.len(), 2);
    assert_eq!(signals[0].tool, Some("sora".to_string()));
    assert_eq!(signals[0].description, "encoder matches AI tool: Sora v2");
    assert_eq!(signals[1].description, "AIGC label indicates AI-generated content (ProduceID: p-9)");
    assert_eq!(signals[1].details[1], ("ProduceID".to_string(), "p-9".to_string()));
    for s in &signals {
        assert_eq!(s.source, SignalSource::Mp4Metadata);
        assert_eq!(s.confidence, Confidence::Medium);
    }
}

#[test]
fn parse_keys_direct() {
    let mut c = vec![0, 0, 0, 0, 0, 0, 0, 1];
    c.extend_from_slice(&12u32.to_be_bytes());
    c.extend_from_slice(b"mdtatool");
    assert_eq!(parse_keys(&c, 0, c.len()), Some(vec!["tool".to_string()]));
    // content ending before it starts cannot be parsed
    assert_eq!(parse_keys(&c, 5, 2), None);
    let keys = vec!["x".to_string()];
    let items = boxed(&1u32.to_be_bytes(), &data_atom(b"v"));
    assert_eq!(
        parse_ilst_keyed(&items, &keys, 0, items.len()),
        Some(vec![("x".to_string(), "v".to_string())])
    );
}

#[test]
fn standard_file_with_sei_marker() {
    let items = boxed(&[0xa9, b's', b'w', b'r'], &data_atom(b"Kling AI\0\0"));
    let file = mp4_with_ilst(&items, None, Some(b"....kling-ai...."));
    let signals = detect(&file).unwrap();
    assert_eq!(signals.len(), 2);
    assert_eq!(signals[0].description, "Software matches AI tool: Kling AI");
    assert_eq!(signals[1].description, "H.264 SEI watermark: kling-ai");
    assert_eq!(signals[1].tool, Some("kling".to_string()));
    let sei = detect_sei_markers(&file).unwrap();
    assert_eq!(sei.len(), 1);
    let info = dump_info(&file).unwrap();
    assert_eq!(
        info,
        vec![
            ("\u{a9}swr".to_string(), "Kling AI".to_string()),
            ("SEI watermark".to_string(), "kling-ai (kling)".to_string()),
        ]
    );
}

#[test]
fn non_mp4_has_no_signals() {
    let signals = detect(b"\x89PNG\r\n\x1a\n not an mp4 at all").unwrap();
    assert!(signals.is_empty());
    assert_eq!(dump_info(b"plain text").unwrap(), vec![]);
}

#[test]
fn lossy_values_are_decoded_leniently() {
    let items = boxed(b"\xa9too", &data_atom(b"caf\xff"));
    let file = mp4_with_ilst(&items, None, None);
    let entries = extract_ilst_entries(&file).unwrap();
    assert_eq!(entries[0].1, "caf\u{fffd}");
}

#[test]
fn json_field_edge_cases() {
    assert_eq!(extract_json_field(r#"{"a" : "x"}"#, "a"), Some("x".to_string()));
    assert_eq!(extract_json_field(r#"{"a" 1}"#, "a"), None);
    assert_eq!(extract_json_field(r#"{"a": 1}"#, "a"), None);
    assert_eq!(extract_json_field(r#"{"a": "unterminated"#, "a"), None);
    assert_eq!(extract_json_field(r#"{"a":""}"#, "a"), Some(String::new()));
}

#[test]
fn tool_key_any_case_and_label() {
    let entries = vec![("SOFTWARE".to_string(), "made with Midjourney".to_string())];
    let signals = detect_ilst_tools(&entries);
    assert_eq!(signals.len(), 1);
    assert_eq!(signals[0].description, "SOFTWARE matches AI tool: made with Midjourney");
    let entries = vec![("title".to_string(), "Midjourney".to_string())];
    assert!(detect_ilst_tools(&entries).is_empty());
}
