use aicheck::detector::xmp::{detect, dump_info, extract_property, extract_xmp_xml};
use aicheck::detector::{Confidence, SignalSource};

fn xmp_packet(body: &str) -> Vec<u8> {
    let mut d = b"\xff\xd8\xff\xe1junk".to_vec();
    d.extend_from_slice(format!("<x:xmpmeta xmlns:x=\"adobe:ns:meta/\">{}</x:xmpmeta>", body).as_bytes());
    d.extend_from_slice(b"trailing");
    d
}

#[test]
fn element_and_attribute_properties() {
    let xml = r#"<rdf:Description xmp:CreatorTool="Adobe Photoshop"><Iptc4xmpExt:DigitalSourceType>  http://cv.iptc.org/newscodes/digitalsourcetype/trainedAlgorithmicMedia
 </Iptc4xmpExt:DigitalSourceType></rdf:Description>"#;
    assert_eq!(
        extract_property(xml, "DigitalSourceType"),
        Some("http://cv.iptc.org/newscodes/digitalsourcetype/trainedAlgorithmicMedia".to_string())
    );
    assert_eq!(extract_property(xml, "CreatorTool"), Some("Adobe Photoshop".to_string()));
    assert_eq!(extract_property(xml, "AISystemUsed"), None);
}

#[test]
fn empty_element_falls_back_to_attribute() {
    let xml = r#"<dc:Tool>   </dc:Tool> photoshop:Tool="x""#;
    assert_eq!(extract_property(xml, "Tool"), Some("x".to_string()));
    assert_eq!(extract_property(r#"Tool="""#, "Tool"), None);
}

#[test]
fn xmp_packet_markers_in_order() {
    let d = b"aa<rdf:RDF>r</rdf:RDF> <xmpmeta>m</xmpmeta>".to_vec();
    assert_eq!(extract_xmp_xml(&d), Some("<xmpmeta>m</xmpmeta>".to_string()));
    let d = b"aa<rdf:RDF>r</rdf:RDF>".to_vec();
    assert_eq!(extract_xmp_xml(&d), Some("<rdf:RDF>r</rdf:RDF>".to_string()));
    assert_eq!(extract_xmp_xml(b"<x:xmpmeta> never closed"), None);
}

#[test]
fn invalid_utf8_packet_tries_next_marker() {
    let d = b"<x:xmpmeta>\xff</x:xmpmeta><rdf:RDF>ok</rdf:RDF>".to_vec();
    assert_eq!(extract_xmp_xml(&d), Some("<rdf:RDF>ok</rdf:RDF>".to_string()));
}

#[test]
fn detect_all_xmp_signals() {
    let d = xmp_packet(
        "<Iptc4xmpExt:DigitalSourceType>trainedAlgorithmicMedia</Iptc4xmpExt:DigitalSourceType>\
         <AISystemUsed>DALL-E 3</AISystemUsed>\
         <AIPromptInformation>a cat</AIPromptInformation>\
         <xmp:CreatorTool>Midjourney v6</xmp:CreatorTool>",
    );
    let s = detect(&d);
    assert_eq!(s.len(), 4);
    assert_eq!(s[0].description, "DigitalSourceType = trainedAlgorithmicMedia");
    assert_eq!(s[0].tool, None);
    assert_eq!(s[1].description, "AISystemUsed = DALL-E 3");
    assert_eq!(s[1].tool, Some("dall-e".to_string()));
    assert_eq!(s[2].description, "AIPromptInformation present");
    assert_eq!(s[2].details, vec![("AIPromptInformation".to_string(), "a cat".to_string())]);
    assert_eq!(s[3].description, "CreatorTool matches AI tool: Midjourney v6");
    assert_eq!(s[3].tool, Some("midjourney".to_string()));
    for sig in &s {
        assert_eq!(sig.source, SignalSource::Xmp);
        assert_eq!(sig.confidence, Confidence::Medium);
    }
}

#[test]
fn non_ai_xmp_gives_nothing() {
    let d = xmp_packet("<xmp:CreatorTool>GIMP 2.10</xmp:CreatorTool><DigitalSourceType>digitalCapture</DigitalSourceType>");
    assert!(detect(&d).is_empty());
    assert!(detect(b"no metadata here").is_empty());
}

#[test]
fn unknown_ai_system_has_no_tool() {
    let d = xmp_packet("<AISystemUsed>SomeModel</AISystemUsed>");
    let s = detect(&d);
    assert_eq!(s.len(), 1);
    assert_eq!(s[0].tool, None);
}

#[test]
fn dump_info_lists_properties() {
    let d = xmp_packet("<AISystemVersionUsed>3</AISystemVersionUsed><xmp:CreatorTool>Firefly</xmp:CreatorTool>");
    assert_eq!(
        dump_info(&d),
        vec![
            ("AISystemVersionUsed".to_string(), "3".to_string()),
            ("CreatorTool".to_string(), "Firefly".to_string()),
        ]
    );
    assert!(dump_info(b"nothing").is_empty());
}

#[test]
fn packet_beyond_first_megabyte_is_ignored() {
    let mut d = vec![b' '; 1_048_576];
    d.extend_from_slice(b"<x:xmpmeta><AISystemUsed>Sora</AISystemUsed></x:xmpmeta>");
    assert!(detect(&d).is_empty());
}
