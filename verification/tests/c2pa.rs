use aicheck::detector::c2pa_detector::{
    after_embedded_read, check_manifest, detect, is_ai_source_type, read_c2pa_manifests, read_file_manifests, C2paAction, C2paManifest,
    C2paReadError, DigitalSourceType,
};
use aicheck::detector::{Confidence, SignalSource};

fn manifest() -> C2paManifest {
    C2paManifest { claim_generator: None, claim_generator_info: None, actions: None, actions_v2: None }
}

#[test]
fn source_types() {
    assert_eq!(
        is_ai_source_type(&DigitalSourceType::TrainedAlgorithmicMedia),
        Some((Confidence::High, "trainedAlgorithmicMedia (fully AI-generated)"))
    );
    assert_eq!(
        is_ai_source_type(&DigitalSourceType::AlgorithmicMedia),
        Some((Confidence::Medium, "algorithmicMedia (algorithmic, not necessarily AI-trained)"))
    );
    assert_eq!(is_ai_source_type(&DigitalSourceType::Other), None);
}

#[test]
fn claim_generator_and_info() {
    let mut m = manifest();
    m.claim_generator = Some("DALL-E 3/OpenAI".to_string());
    m.claim_generator_info = Some(vec!["{\"name\":\"ChatGPT\"}".to_string(), "{\"name\":\"x\"}".to_string()]);
    let mut s = Vec::new();
    check_manifest(&m, &mut s);
    assert_eq!(s.len(), 2);
    assert_eq!(s[0].description, "claim_generator matches AI tool: DALL-E 3/OpenAI");
    assert_eq!(s[0].tool, Some("dall-e".to_string()));
    assert_eq!(s[0].confidence, Confidence::High);
    assert_eq!(s[1].description, "claim_generator_info references AI tool");
    assert_eq!(s[1].tool, Some("chatgpt".to_string()));
}

#[test]
fn actions_v1_preferred_over_v2() {
    let mut m = manifest();
    m.actions = Some(vec![C2paAction {
        action: "c2pa.created".to_string(),
        source_type: Some(DigitalSourceType::AlgorithmicMedia),
        software_agent: None,
    }]);
    m.actions_v2 = Some(vec![C2paAction {
        action: "c2pa.opened".to_string(),
        source_type: Some(DigitalSourceType::TrainedAlgorithmicMedia),
        software_agent: None,
    }]);
    let s = detect(Ok(vec![m])).unwrap();
    assert_eq!(s.len(), 1);
    assert_eq!(s[0].description, "digitalSourceType = algorithmicMedia (algorithmic, not necessarily AI-trained)");
    assert_eq!(s[0].confidence, Confidence::Medium);
    assert_eq!(s[0].source, SignalSource::C2pa);
}

#[test]
fn action_with_software_agent() {
    let mut m = manifest();
    m.actions_v2 = Some(vec![C2paAction {
        action: "c2pa.created".to_string(),
        source_type: Some(DigitalSourceType::TrainedAlgorithmicMedia),
        software_agent: Some("\"GPT-4o\"".to_string()),
    }]);
    let s = detect(Ok(vec![manifest(), m])).unwrap();
    assert_eq!(s.len(), 1);
    assert_eq!(s[0].tool, Some("gpt-4o".to_string()));
    assert_eq!(
        s[0].details,
        vec![
            ("action".to_string(), "c2pa.created".to_string()),
            ("digitalSourceType".to_string(), "trainedAlgorithmicMedia (fully AI-generated)".to_string()),
            ("softwareAgent".to_string(), "\"GPT-4o\"".to_string()),
        ]
    );
}

#[test]
fn read_errors() {
    assert!(detect(Err(C2paReadError::JumbfNotFound)).unwrap().is_empty());
    assert!(detect(Err(C2paReadError::UnsupportedType)).unwrap().is_empty());
    assert_eq!(detect(Err(C2paReadError::Other("bad".to_string()))).unwrap_err(), "bad");
}

#[test]
fn path_without_extension_cannot_carry_manifest() {
    assert!(matches!(read_file_manifests("README", b"data", None), Err(C2paReadError::UnsupportedType)));
}

#[test]
fn contents_without_manifest_give_no_manifests() {
    let png = b"\x89PNG\r\n\x1a\n\0\0\0\rIHDR\0\0\0\x01\0\0\0\x01\x08\x02\0\0\0\x90wS\xde\0\0\0\0IEND\xaeB`\x82";
    let r = read_c2pa_manifests("image/png", png, None);
    assert!(matches!(r, Err(C2paReadError::JumbfNotFound)));
    let r = detect(read_file_manifests("plain.png", png, None));
    assert!(matches!(r, Ok(ref v) if v.is_empty()) || r.is_err());
}

#[test]
fn sidecar_is_read_only_when_nothing_is_embedded() {
    assert!(after_embedded_read(Err(C2paReadError::JumbfNotFound), true).is_none());
    assert!(matches!(
        after_embedded_read(Err(C2paReadError::JumbfNotFound), false),
        Some(Err(C2paReadError::JumbfNotFound))
    ));
    assert!(matches!(
        after_embedded_read(Err(C2paReadError::UnsupportedType), true),
        Some(Err(C2paReadError::UnsupportedType))
    ));
    assert!(matches!(
        after_embedded_read(Err(C2paReadError::Other("bad".to_string())), true),
        Some(Err(C2paReadError::Other(ref m))) if m == "bad"
    ));
    assert!(matches!(after_embedded_read(Ok(vec![manifest()]), true), Some(Ok(ref v)) if v.len() == 1));
}

#[test]
fn sidecar_without_embedded_store_is_tried() {
    let png = b"\x89PNG\r\n\x1a\n\0\0\0\rIHDR\0\0\0\x01\0\0\0\x01\x08\x02\0\0\0\x90wS\xde\0\0\0\0IEND\xaeB`\x82";
    let r = read_c2pa_manifests("image/png", png, Some(b"not a manifest store"));
    assert!(r.is_err());
    assert!(matches!(read_file_manifests("no_extension_here", png, Some(b"x")), Err(C2paReadError::UnsupportedType)));
}
