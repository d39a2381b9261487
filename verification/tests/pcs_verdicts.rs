use stwo_cairo_common::preprocessed_columns::preprocessed_trace::PreProcessedTraceVariant;
use stwo_web_stark::pcs::{prove_pcs_config, same_pcs_config, secure_pcs_config};
use stwo_web_stark::verdicts::{
    expected_header, parse_proof, preprocessed_trace_variant, prove_trace_variant, same_header,
    same_trace_variant, verdict, verify, Blake2sCairoProof,
};

fn secure() -> stwo::core::pcs::PcsConfig {
    stwo::core::pcs::PcsConfig {
        pow_bits: 26,
        fri_config: stwo::core::fri::FriConfig {
            log_blowup_factor: 1,
            log_last_layer_degree_bound: 0,
            n_queries: 70,
            fold_step: 1,
        },
        lifting_log_size: None,
    }
}

#[test]
fn secure_config_values() {
    assert_eq!(secure_pcs_config(), secure());
}

#[test]
fn secure_config_has_96_bits() {
    let p = secure_pcs_config();
    let bits = p.pow_bits as usize + p.fri_config.log_blowup_factor as usize * p.fri_config.n_queries;
    assert_eq!(bits, 96);
}

#[test]
fn secure_config_matches_stwo_security_bits() {
    assert_eq!(secure_pcs_config().security_bits(), 96);
}

#[test]
fn secure_config_differs_from_default() {
    assert!(!same_pcs_config(&secure_pcs_config(), &stwo::core::pcs::PcsConfig::default()));
    assert!(same_pcs_config(&secure_pcs_config(), &secure()));
}

#[test]
fn pedersen_selects_canonical() {
    assert_eq!(preprocessed_trace_variant(true), PreProcessedTraceVariant::Canonical);
    assert_eq!(preprocessed_trace_variant(false), PreProcessedTraceVariant::CanonicalWithoutPedersen);
}

#[test]
fn prove_uses_variant_without_pedersen() {
    assert_eq!(prove_trace_variant(), PreProcessedTraceVariant::CanonicalWithoutPedersen);
    assert_eq!(prove_trace_variant(), preprocessed_trace_variant(false));
}

#[test]
fn expected_header_values() {
    let h = expected_header(true);
    assert_eq!(h.pcs_config, secure());
    assert_eq!(h.trace_variant, PreProcessedTraceVariant::Canonical);
    let h = expected_header(false);
    assert_eq!(h.pcs_config, secure());
    assert_eq!(h.trace_variant, PreProcessedTraceVariant::CanonicalWithoutPedersen);
}

#[test]
fn header_and_variant_comparison() {
    assert!(same_header(&expected_header(true), &expected_header(true)));
    assert!(!same_header(&expected_header(true), &expected_header(false)));
    assert!(same_trace_variant(PreProcessedTraceVariant::CanonicalSmall, PreProcessedTraceVariant::CanonicalSmall));
    assert!(!same_trace_variant(PreProcessedTraceVariant::Canonical, PreProcessedTraceVariant::CanonicalSmall));
}

#[test]
fn verdict_accepts_expected_header() {
    let h = expected_header(false);
    assert!(verdict(&h, false, true));
    assert!(!verdict(&h, false, false));
    assert!(!verdict(&h, true, true));
}

#[test]
fn verdict_is_exclusive_between_settings() {
    for with_pedersen in [true, false] {
        let h = expected_header(with_pedersen);
        assert!(!(verdict(&h, true, true) && verdict(&h, false, true)));
    }
}

#[test]
fn verdict_rejects_other_config() {
    let mut h = expected_header(true);
    h.pcs_config.pow_bits = 10;
    assert!(!verdict(&h, true, true));
    let mut h = expected_header(true);
    h.pcs_config.fri_config.n_queries = 3;
    assert!(!verdict(&h, true, true));
    let mut h = expected_header(true);
    h.pcs_config.lifting_log_size = Some(20);
    assert!(!verdict(&h, true, true));
}

#[test]
fn verdict_rejects_small_variant() {
    let mut h = expected_header(true);
    h.trace_variant = PreProcessedTraceVariant::CanonicalSmall;
    assert!(!verdict(&h, true, true));
    assert!(!verdict(&h, false, true));
}

#[test]
fn proof_from_garbage_json_fails() {
    assert!(parse_proof("not json").is_err());
    assert!(parse_proof("{}").is_err());
}

#[test]
fn verify_signature_takes_a_proof() {
    let f: fn(Blake2sCairoProof, bool) -> bool = verify;
    let _ = f;
}

#[test]
fn prove_config_is_stwo_default() {
    let c = prove_pcs_config();
    assert_eq!(c, stwo::core::pcs::PcsConfig::default());
    assert_eq!(c.pow_bits, 10);
    assert_eq!(c.fri_config.n_queries, 3);
    assert_eq!(c.security_bits(), 13);
}

#[test]
fn headers_with_the_prove_config_are_rejected() {
    let h = stwo_web_stark::verdicts::ProofHeader {
        pcs_config: prove_pcs_config(),
        trace_variant: prove_trace_variant(),
    };
    assert!(!verdict(&h, false, true));
    assert!(!verdict(&h, true, true));
}
