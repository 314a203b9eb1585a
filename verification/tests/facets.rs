use kite_mesh::facets::{canonical_json_bytes, fingerprint, normalize};
use kite_mesh::proto::{CapabilityFacets, AGENT_STATUS_AVAILABLE, AGENT_STATUS_BUSY};

fn sample() -> CapabilityFacets {
    CapabilityFacets {
        tools: vec!["python_exec".into(), "bash".into()],
        ontologies: vec!["code-execution".into()],
        sandbox_level: "container".into(),
        network_access: "egress-limited".into(),
        gpu_class: "none".into(),
        privacy_tier: "trusted".into(),
        region: "local".into(),
        pricing_band: "free".into(),
        trust_tier: "local".into(),
        status: AGENT_STATUS_AVAILABLE,
    }
}

#[test]
fn order_independence() {
    let mut a = sample();
    let mut b = sample();
    b.tools.reverse();
    a.tools.push("python_exec".into()); // duplicate — should dedupe
    assert_eq!(fingerprint(&a), fingerprint(&b));
}

#[test]
fn case_insensitive_enums() {
    let mut a = sample();
    let mut b = sample();
    a.sandbox_level = "Container".into();
    b.sandbox_level = "CONTAINER".into();
    assert_eq!(fingerprint(&a), fingerprint(&b));
}

#[test]
fn status_does_not_affect_fingerprint() {
    let mut a = sample();
    let mut b = sample();
    a.status = AGENT_STATUS_AVAILABLE;
    b.status = AGENT_STATUS_BUSY;
    assert_eq!(fingerprint(&a), fingerprint(&b));
}

#[test]
fn distinct_facets_distinct_fingerprint() {
    let a = sample();
    let mut b = sample();
    b.sandbox_level = "none".into();
    assert_ne!(fingerprint(&a), fingerprint(&b));
}

#[test]
fn canonical_json_has_sorted_lists_and_fixed_key_order() {
    let bytes = canonical_json_bytes(&sample());
    let text = String::from_utf8(bytes).unwrap();
    assert_eq!(
        text,
        "{\"ontologies\":[\"code-execution\"],\"tools\":[\"bash\",\"python_exec\"],\
         \"sandbox_level\":\"container\",\"network_access\":\"egress-limited\",\
         \"gpu_class\":\"none\",\"privacy_tier\":\"trusted\",\"region\":\"local\",\
         \"pricing_band\":\"free\",\"trust_tier\":\"local\",\"status\":0}"
    );
}

#[test]
fn canonical_json_escapes_strings() {
    let mut f = sample();
    f.region = "eu \"west\"".into();
    let text = String::from_utf8(canonical_json_bytes(&f)).unwrap();
    assert!(text.contains("\"region\":\"eu \\\"west\\\"\""));
}

#[test]
fn fingerprint_is_blake3_of_canonical_json() {
    let f = sample();
    let expected = *blake3::hash(&canonical_json_bytes(&f)).as_bytes();
    assert_eq!(fingerprint(&f), expected);
}

#[test]
fn normalize_trims_and_lowercases() {
    assert_eq!(normalize("  Egress-LIMITED \t"), "egress-limited");
    assert_eq!(normalize(""), "");
}

#[test]
fn whitespace_around_enum_values_is_ignored() {
    let a = sample();
    let mut b = sample();
    b.privacy_tier = "  Trusted ".into();
    assert_eq!(fingerprint(&a), fingerprint(&b));
}
