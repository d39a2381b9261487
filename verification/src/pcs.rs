//! The configuration of Stwo's polynomial commitment scheme (PCS) under
//! which proofs are verified.
use vstd::prelude::*;

verus! {

/// The configuration of the FRI protocol: blowup factor, degree bound of the
/// last layer, number of queries and folding step.
#[verifier::external_type_specification]
pub struct ExFriConfig(stwo::core::fri::FriConfig);

/// The configuration of the polynomial commitment scheme: proof-of-work
/// bits, the FRI configuration and the size of the lifting domain.
#[verifier::external_type_specification]
pub struct ExPcsConfig(stwo::core::pcs::PcsConfig);

/// The configuration that `secure_pcs_config` returns: 26 proof-of-work bits
/// and 70 FRI queries at blowup 2 (log 1), with a last layer of degree bound
/// 1 (log 0), folding one layer at a time and no fixed lifting domain.
pub open spec fn spec_secure_pcs_config() -> stwo::core::pcs::PcsConfig {
    stwo::core::pcs::PcsConfig {
        pow_bits: 26,
        fri_config: stwo::core::fri::FriConfig {
            log_blowup_factor: 1,
            log_last_layer_degree_bound: 0,
            n_queries: 70,
            fold_step: 1,
        },
        lifting_log_size: None,
    }
}

/// The configuration under which proofs are verified.
pub fn secure_pcs_config() -> (r: stwo::core::pcs::PcsConfig)
    ensures
        r == spec_secure_pcs_config(),
{
    stwo::core::pcs::PcsConfig {
        pow_bits: 26,
        fri_config: stwo::core::fri::FriConfig {
            log_blowup_factor: 1,
            log_last_layer_degree_bound: 0,
            n_queries: 70,
            fold_step: 1,
        },
        lifting_log_size: None,
    }
}

/// Stwo's default configuration, as stwo defines `PcsConfig::default`: 10
/// proof-of-work bits and `FriConfig::new(0, 1, 3, 1)`, that is 3 FRI
/// queries at blowup 2 (log 1), a last layer of degree bound 1 (log 0),
/// folding one layer at a time, and no fixed lifting domain.
pub open spec fn spec_default_pcs_config() -> stwo::core::pcs::PcsConfig {
    stwo::core::pcs::PcsConfig {
        pow_bits: 10,
        fri_config: stwo::core::fri::FriConfig {
            log_blowup_factor: 1,
            log_last_layer_degree_bound: 0,
            n_queries: 3,
            fold_step: 1,
        },
        lifting_log_size: None,
    }
}

/// Stwo's default configuration; stwo builds it from the constants of
/// `spec_default_pcs_config`.
pub assume_specification[ <stwo::core::pcs::PcsConfig as core::default::Default>::default ]() -> (r: stwo::core::pcs::PcsConfig)
    ensures
        r == spec_default_pcs_config(),
;

/// The configuration `prove` makes its proofs with: Stwo's default.
pub fn prove_pcs_config() -> (r: stwo::core::pcs::PcsConfig)
    ensures
        r == spec_default_pcs_config(),
{
    stwo::core::pcs::PcsConfig::default()
}

/// Whether two configurations are equal, field for field.
pub fn same_pcs_config(a: &stwo::core::pcs::PcsConfig, b: &stwo::core::pcs::PcsConfig) -> (r: bool)
    ensures
        r == (*a == *b),
{
    let same_lifting = match (a.lifting_log_size, b.lifting_log_size) {
        (None, None) => true,
        (Some(x), Some(y)) => x == y,
        _ => false,
    };
    a.pow_bits == b.pow_bits && a.fri_config.log_blowup_factor == b.fri_config.log_blowup_factor
        && a.fri_config.log_last_layer_degree_bound == b.fri_config.log_last_layer_degree_bound
        && a.fri_config.n_queries == b.fri_config.n_queries && a.fri_config.fold_step
        == b.fri_config.fold_step && same_lifting
}

/// The security level of a configuration in bits, as Stwo counts it
/// (`PcsConfig::security_bits`): the proof-of-work bits plus, for each FRI
/// query, the log of the blowup factor.
pub open spec fn security_bits(config: stwo::core::pcs::PcsConfig) -> int {
    config.pow_bits + config.fri_config.log_blowup_factor * config.fri_config.n_queries
}

/// The configuration of `secure_pcs_config` reaches 96 bits of security,
/// and Stwo's default 13.
pub proof fn lemma_secure_pcs_config_security_bits()
    ensures
        security_bits(spec_secure_pcs_config()) == 96,
        security_bits(spec_default_pcs_config()) == 13,
{
}

} // verus!
