//! Verification of Cairo proofs.
//!
//! A proof carries the PCS configuration and the preprocessed-trace variant it
//! was made with. A proof is accepted when it was made with the secure
//! configuration of `secure_pcs_config`, with the variant that the caller
//! asks for (with or without the Pedersen columns), and when the Stwo Cairo
//! verifier accepts it.
use vstd::prelude::*;

use crate::pcs::{same_pcs_config, secure_pcs_config, spec_default_pcs_config, spec_secure_pcs_config};
use cairo_air::verifier::CairoVerificationError;
use cairo_air::CairoProof;
use stwo_cairo_common::preprocessed_columns::preprocessed_trace::PreProcessedTraceVariant;

verus! {

/// The hasher of Stwo's Blake2s Merkle trees.
#[verifier::external_type_specification]
#[verifier::external_body]
pub struct ExBlake2sHasherGeneric<const IS_M31_OUTPUT: bool>(stwo::core::vcs::blake2_hash::Blake2sHasherGeneric<IS_M31_OUTPUT>);

/// A proof of a Cairo execution over Blake2s Merkle trees
/// (`cairo_air::CairoProof<Blake2sMerkleHasher>`). The outside type cannot be
/// declared here (its bound, `MerkleHasherLifted`, is an outside trait), so it
/// is held in this opaque box.
#[verifier::external_body]
pub struct Blake2sCairoProof {
    proof: CairoProof<stwo::core::vcs::blake2_hash::Blake2sHasherGeneric<false>>,
}

/// The error of `serde_json`.
#[verifier::external_type_specification]
#[verifier::external_body]
pub struct ExSerdeJsonError(serde_json::Error);

/// Whether a text is the JSON form of a Cairo proof over Blake2s Merkle
/// trees; the result of parsing it with `serde_json::from_str`.
pub uninterp spec fn parses_as_cairo_proof(json: Seq<char>) -> bool;

/// The proof that `serde_json::from_str` reads from a text that is the JSON
/// form of a Cairo proof.
pub uninterp spec fn proof_from_json(json: Seq<char>) -> Blake2sCairoProof;

/// Parses a proof from its JSON form with `serde_json::from_str`. The claims:
/// the parse succeeds exactly when `parses_as_cairo_proof` holds of the
/// text, and the proof it yields is `proof_from_json` of the text; what that
/// proof holds is not stated.
#[verifier::external_body]
fn parse_cairo_proof_json(json: &str) -> (r: Result<Blake2sCairoProof, serde_json::Error>)
    ensures
        r is Ok <==> parses_as_cairo_proof(json@),
        r matches Ok(proof) ==> proof == proof_from_json(json@),
{
    serde_json::from_str(json).map(|proof| Blake2sCairoProof { proof })
}

/// Reads a proof from its JSON form. It is read exactly when the text is the
/// JSON form of a Cairo proof over Blake2s Merkle trees; otherwise the JSON
/// error comes back.
pub fn parse_proof(json: &str) -> (r: Result<Blake2sCairoProof, serde_json::Error>)
    ensures
        r is Ok <==> parses_as_cairo_proof(json@),
        r matches Ok(proof) ==> proof == proof_from_json(json@),
{
    parse_cairo_proof_json(json)
}

/// The error of the Stwo Cairo verifier.
#[verifier::external_type_specification]
#[verifier::external_body]
pub struct ExCairoVerificationError(CairoVerificationError);

/// Which preprocessed trace a proof is made against: all preprocessed
/// columns (`Canonical`), all but the Pedersen ones
/// (`CanonicalWithoutPedersen`), or a reduced set (`CanonicalSmall`).
#[verifier::external_type_specification]
pub struct ExPreProcessedTraceVariant(PreProcessedTraceVariant);

/// The variant that `verify` asks for.
pub open spec fn spec_preprocessed_trace_variant(with_pedersen: bool) -> PreProcessedTraceVariant {
    if with_pedersen {
        PreProcessedTraceVariant::Canonical
    } else {
        PreProcessedTraceVariant::CanonicalWithoutPedersen
    }
}

/// The preprocessed-trace variant for a proof made with or without the
/// Pedersen builtin.
pub fn preprocessed_trace_variant(with_pedersen: bool) -> (r: PreProcessedTraceVariant)
    ensures
        r == spec_preprocessed_trace_variant(with_pedersen),
{
    if with_pedersen {
        PreProcessedTraceVariant::Canonical
    } else {
        PreProcessedTraceVariant::CanonicalWithoutPedersen
    }
}

/// The variant `prove` makes its proofs with: the one without the Pedersen
/// columns.
pub fn prove_trace_variant() -> (r: PreProcessedTraceVariant)
    ensures
        r == PreProcessedTraceVariant::CanonicalWithoutPedersen,
{
    PreProcessedTraceVariant::CanonicalWithoutPedersen
}

/// Whether two variants are the same.
pub fn same_trace_variant(a: PreProcessedTraceVariant, b: PreProcessedTraceVariant) -> (r: bool)
    ensures
        r == (a == b),
{
    match (a, b) {
        (PreProcessedTraceVariant::Canonical, PreProcessedTraceVariant::Canonical) => true,
        (
            PreProcessedTraceVariant::CanonicalWithoutPedersen,
            PreProcessedTraceVariant::CanonicalWithoutPedersen,
        ) => true,
        (PreProcessedTraceVariant::CanonicalSmall, PreProcessedTraceVariant::CanonicalSmall) => true,
        _ => false,
    }
}

/// What a proof states about how it was made.
#[derive(Debug, Clone, Copy)]
pub struct ProofHeader {
    pub pcs_config: stwo::core::pcs::PcsConfig,
    pub trace_variant: PreProcessedTraceVariant,
}

/// The header a proof must carry to be accepted by `verify`.
pub open spec fn spec_expected_header(with_pedersen: bool) -> ProofHeader {
    ProofHeader {
        pcs_config: spec_secure_pcs_config(),
        trace_variant: spec_preprocessed_trace_variant(with_pedersen),
    }
}

/// The verdict on a proof with header `header`, given whether the Stwo Cairo
/// verifier accepts it.
pub open spec fn spec_verdict(header: ProofHeader, with_pedersen: bool, backend_accepts: bool) -> bool {
    header == spec_expected_header(with_pedersen) && backend_accepts
}

/// The header a proof must carry to be accepted by `verify`.
pub fn expected_header(with_pedersen: bool) -> (r: ProofHeader)
    ensures
        r == spec_expected_header(with_pedersen),
{
    ProofHeader {
        pcs_config: secure_pcs_config(),
        trace_variant: preprocessed_trace_variant(with_pedersen),
    }
}

/// The verdict on a proof with header `header`: accepted exactly when the
/// header is the expected one and the Stwo Cairo verifier accepts the proof.
pub fn verdict(header: &ProofHeader, with_pedersen: bool, backend_accepts: bool) -> (r: bool)
    ensures
        r == spec_verdict(*header, with_pedersen, backend_accepts),
{
    let expected = expected_header(with_pedersen);
    same_header(header, &expected) && backend_accepts
}

/// Whether two headers are equal, field for field.
pub fn same_header(a: &ProofHeader, b: &ProofHeader) -> (r: bool)
    ensures
        r == (*a == *b),
{
    same_pcs_config(&a.pcs_config, &b.pcs_config) && same_trace_variant(a.trace_variant, b.trace_variant)
}

/// The PCS configuration a proof carries, field for field.
pub uninterp spec fn carried_pcs_config(proof: Blake2sCairoProof) -> stwo::core::pcs::PcsConfig;

/// The preprocessed-trace variant a proof carries.
pub uninterp spec fn carried_trace_variant(proof: Blake2sCairoProof) -> PreProcessedTraceVariant;

/// Whether the Stwo Cairo verifier accepts a proof.
pub uninterp spec fn cairo_verifier_accepts(proof: Blake2sCairoProof) -> bool;

/// Whether the Stwo Cairo verifier returns on a proof, rather than failing
/// one of the assertions it makes on the proof's claim (segment bounds,
/// register values, relation uses, memory sizes).
pub uninterp spec fn cairo_verifier_returns(proof: Blake2sCairoProof) -> bool;

/// The header a proof carries.
pub open spec fn carried_header(proof: Blake2sCairoProof) -> ProofHeader {
    ProofHeader { pcs_config: carried_pcs_config(proof), trace_variant: carried_trace_variant(proof) }
}

/// Reads the PCS configuration a proof carries
/// (`proof.extended_stark_proof.proof.config`). The claim is only that the
/// result is `carried_pcs_config` of the proof, which a field read makes a
/// function of the proof alone.
#[verifier::external_body]
fn proof_pcs_config(proof: &Blake2sCairoProof) -> (r: stwo::core::pcs::PcsConfig)
    ensures
        r == carried_pcs_config(*proof),
{
    proof.proof.extended_stark_proof.proof.config
}

/// Reads the preprocessed-trace variant a proof carries
/// (`proof.preprocessed_trace_variant`). The claim is only that the result
/// is `carried_trace_variant` of the proof.
#[verifier::external_body]
fn proof_trace_variant(proof: &Blake2sCairoProof) -> (r: PreProcessedTraceVariant)
    ensures
        r == carried_trace_variant(*proof),
{
    proof.proof.preprocessed_trace_variant
}

/// The header a proof carries.
pub fn proof_header(proof: &Blake2sCairoProof) -> (r: ProofHeader)
    ensures
        r == carried_header(*proof),
{
    ProofHeader { pcs_config: proof_pcs_config(proof), trace_variant: proof_trace_variant(proof) }
}

/// Runs the Stwo Cairo verifier (`cairo_air::verifier::verify_cairo` over the
/// Blake2s Merkle channel) on the proof, converted to the verifier's format.
/// The verifier asserts on malformed claims: it is called only on proofs on
/// which it returns, `cairo_verifier_returns`. It is deterministic, so the
/// claim is that it succeeds exactly when `cairo_verifier_accepts` holds of
/// the proof. Which proofs those two names hold of is not stated: the
/// checks are private to the verifier.
#[verifier::external_body]
fn verify_cairo_proof(proof: Blake2sCairoProof) -> (r: Result<(), CairoVerificationError>)
    requires
        cairo_verifier_returns(proof),
    ensures
        r is Ok <==> cairo_verifier_accepts(proof),
        r is Ok ==> cairo_verifier_returns(proof),
{
    cairo_air::verifier::verify_cairo::<stwo::core::vcs_lifted::blake2_merkle::Blake2sMerkleChannel>(proof.proof.into())
}

/// Verifies a Cairo proof made with or without the Pedersen builtin: the
/// proof is accepted exactly when it carries the configuration of
/// `secure_pcs_config` and the variant of
/// `preprocessed_trace_variant(with_pedersen)`, and the Stwo Cairo verifier
/// accepts it. The verifier runs only on a proof whose header is the
/// expected one, and such a proof must be one on which it returns.
pub fn verify(cairo_proof: Blake2sCairoProof, with_pedersen: bool) -> (r: bool)
    requires
        carried_header(cairo_proof) == spec_expected_header(with_pedersen) ==> cairo_verifier_returns(
            cairo_proof,
        ),
    ensures
        r == spec_verdict(carried_header(cairo_proof), with_pedersen, cairo_verifier_accepts(cairo_proof)),
{
    let header = proof_header(&cairo_proof);
    let expected = expected_header(with_pedersen);
    if same_header(&header, &expected) {
        let outcome = verify_cairo_proof(cairo_proof);
        let accepted = outcome.is_ok();
        verdict(&header, with_pedersen, accepted)
    } else {
        verdict(&header, with_pedersen, false)
    }
}

/// A proof is accepted for at most one of the two Pedersen settings.
pub proof fn lemma_verdict_exclusive(header: ProofHeader, b1: bool, b2: bool)
    ensures
        !(spec_verdict(header, true, b1) && spec_verdict(header, false, b2)),
{
}

/// A proof that the Stwo Cairo verifier rejects is rejected, whatever it
/// carries.
pub proof fn lemma_verdict_needs_backend(header: ProofHeader, with_pedersen: bool)
    ensures
        !spec_verdict(header, with_pedersen, false),
{
}

/// A proof that the Stwo Cairo verifier accepts is accepted exactly when it
/// carries the secure configuration and the requested variant.
pub proof fn lemma_verdict_accepts_expected(header: ProofHeader, with_pedersen: bool)
    ensures
        spec_verdict(header, with_pedersen, true) <==> (header.pcs_config
            == spec_secure_pcs_config() && header.trace_variant
            == spec_preprocessed_trace_variant(with_pedersen)),
{
}

/// Proofs made by `prove`, which uses the variant without the Pedersen
/// columns, are never accepted by `verify` with the Pedersen setting.
pub proof fn lemma_prove_variant_needs_no_pedersen(header: ProofHeader, b: bool)
    requires
        header.trace_variant == PreProcessedTraceVariant::CanonicalWithoutPedersen,
    ensures
        !spec_verdict(header, true, b),
{
}

/// A proof made with the configuration of `prove`, Stwo's default, is not
/// accepted by `verify`, which asks for the secure configuration: the two
/// differ.
pub proof fn lemma_prove_config_is_rejected(header: ProofHeader, with_pedersen: bool, b: bool)
    requires
        header.pcs_config == spec_default_pcs_config(),
    ensures
        !spec_verdict(header, with_pedersen, b),
{
}

} // verus!
