use kite_mesh::proto::{CapabilityFacets, AGENT_STATUS_AVAILABLE, AGENT_STATUS_OFFLINE};
use kite_mesh::rerank::{facet_filter, text_eq_ignore_ascii_case};

fn facets(sandbox: &str) -> CapabilityFacets {
    CapabilityFacets {
        tools: vec!["python_exec".into()],
        ontologies: vec!["code-execution".into()],
        sandbox_level: sandbox.into(),
        network_access: "egress-limited".into(),
        gpu_class: "none".into(),
        privacy_tier: "trusted".into(),
        region: "local".into(),
        pricing_band: "free".into(),
        trust_tier: "local".into(),
        status: AGENT_STATUS_AVAILABLE,
    }
}

#[test]
fn filter_pass_and_fail() {
    let required = facets("container");
    let (pass, trace) = facet_filter(&required, &facets("container"));
    assert!(pass);
    assert!(trace.is_empty());

    let (pass, trace) = facet_filter(&required, &facets("none"));
    assert!(!pass);
    assert!(trace.iter().any(|t| t.contains("sandbox_level")));
}

#[test]
fn filter_compares_enums_ignoring_ascii_case() {
    let required = facets("Container");
    let (pass, trace) = facet_filter(&required, &facets("CONTAINER"));
    assert!(pass);
    assert!(trace.is_empty());
}

#[test]
fn empty_requirement_matches_anything() {
    let mut required = facets("");
    required.network_access = String::new();
    let (pass, _) = facet_filter(&required, &facets("vm"));
    assert!(pass);
}

#[test]
fn missing_tool_and_ontology_are_reported() {
    let mut required = facets("container");
    required.tools = vec!["python_exec".into(), "gpu_exec".into()];
    required.ontologies = vec!["translation".into()];
    let (pass, trace) = facet_filter(&required, &facets("container"));
    assert!(!pass);
    assert!(trace.iter().any(|t| t.contains("gpu_exec")));
    assert!(trace.iter().any(|t| t.contains("translation")));
}

#[test]
fn status_is_not_filtered() {
    let required = facets("container");
    let mut candidate = facets("container");
    candidate.status = AGENT_STATUS_OFFLINE;
    let (pass, _) = facet_filter(&required, &candidate);
    assert!(pass);
}

#[test]
fn ascii_case_comparison() {
    assert!(text_eq_ignore_ascii_case("GPU-a100", "gpu-A100"));
    assert!(!text_eq_ignore_ascii_case("gpu", "gpus"));
    assert!(!text_eq_ignore_ascii_case("a", "b"));
}

#[test]
fn mismatch_trace_names_need_and_got() {
    let (pass, trace) = facet_filter(&facets("container"), &facets("none"));
    assert!(!pass);
    assert_eq!(trace, vec!["sandbox_level mismatch: need container, got none".to_string()]);
}

#[test]
fn weaker_requirement_and_larger_candidate_still_pass() {
    let r = facets("container");
    let c = facets("container");
    assert!(facet_filter(&r, &c).0);
    let mut r2 = facets("");
    r2.tools.clear();
    r2.region = String::new();
    let mut c2 = facets("container");
    c2.tools.push("bash".into());
    c2.ontologies.push("translation".into());
    assert_eq!(facet_filter(&r2, &c2), (true, Vec::<String>::new()));
}

#[test]
fn card_without_facets_fails_with_one_line() {
    let id = kite_mesh::identity::AgentIdentity::generate();
    let mut v = vec![0u32; 384];
    v[0] = 1.0f32.to_bits();
    let mut card = kite_mesh::capability::build_at(
        &id, "cap".into(), "w".into(), "1".into(), facets("container"), "d".into(), v, 1, 1,
    )
    .unwrap();
    let (pass, trace) = kite_mesh::rerank::card_filter(&facets("container"), &card);
    assert!(pass && trace.is_empty());
    card.facets = None;
    let (pass, trace) = kite_mesh::rerank::card_filter(&facets("container"), &card);
    assert!(!pass);
    assert_eq!(trace, vec!["missing facets on candidate card".to_string()]);
}
