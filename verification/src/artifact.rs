//! What a completed proving run hands over.

use vstd::prelude::*;

verus! {

/// The proof construction that a caller selects. It changes the size of the
/// proof and the cost of checking it, never the published values.
#[derive(Clone, Copy, Debug, PartialEq, Eq, Structural)]
pub enum ProofSystem {
    Plonk,
    Groth16,
}

/// The result of one proving run: the proof, the bytes that the guest
/// published, the identifier of the verification key, and the proof system
/// that was used. It is made once and never changed.
#[derive(Clone, Debug, PartialEq, Eq)]
pub struct ProofArtifact {
    pub proof_bytes: Vec<u8>,
    pub public_values: Vec<u8>,
    pub verification_key_id: String,
    pub proof_system: ProofSystem,
}

/// An artifact as a mathematical value.
pub struct ArtifactView {
    pub proof_bytes: Seq<u8>,
    pub public_values: Seq<u8>,
    pub verification_key_id: Seq<char>,
    pub proof_system: ProofSystem,
}

impl View for ProofArtifact {
    type V = ArtifactView;

    open spec fn view(&self) -> ArtifactView {
        ArtifactView {
            proof_bytes: self.proof_bytes@,
            public_values: self.public_values@,
            verification_key_id: self.verification_key_id@,
            proof_system: self.proof_system,
        }
    }
}

} // verus!
