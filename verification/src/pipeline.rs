//! The proof pipeline: a strictly sequential batch job over the
//! synthesized circuit.
//!
//! The stages — reference-string generation, inner key derivation, the
//! inner proof, the recursive aggregation circuit with its outer proof,
//! and the emission of verifier artifacts — run in a fixed order.  No
//! stage starts before the previous one's full output exists, no stage
//! is retried, and a failure anywhere aborts the run.  The backend work
//! itself (polynomial commitment, transcript arithmetic) is performed
//! outside; this module owns the sequencing decisions and the encoding
//! of instance values into call data.

use vstd::prelude::*;
use crate::felt::{Felt, felt_bytes_be};

verus! {

/// The pipeline's stages, in execution order, plus the two terminal
/// states.
#[derive(Clone, Copy, Debug, PartialEq, Eq, Structural)]
pub enum PipelineStage {
    /// Generate or load the structured reference string.
    ReferenceString,
    /// Derive the inner circuit's verification and proving keys.
    InnerKeys,
    /// Generate the inner proof over the two public commitments.
    InnerProof,
    /// Build the aggregation circuit, derive its keys, and produce the
    /// outer proof.
    Aggregation,
    /// Emit the stand-alone verifier and the encoded call data.
    Artifacts,
    /// Every stage completed.
    Done,
    /// Some stage failed; nothing further runs.
    Aborted,
}

/// The stage that follows a successful one.
pub open spec fn next_stage(s: PipelineStage) -> PipelineStage {
    match s {
        PipelineStage::ReferenceString => PipelineStage::InnerKeys,
        PipelineStage::InnerKeys => PipelineStage::InnerProof,
        PipelineStage::InnerProof => PipelineStage::Aggregation,
        PipelineStage::Aggregation => PipelineStage::Artifacts,
        PipelineStage::Artifacts => PipelineStage::Done,
        PipelineStage::Done => PipelineStage::Done,
        PipelineStage::Aborted => PipelineStage::Aborted,
    }
}

/// Whether a stage is terminal: nothing runs after it.
pub open spec fn is_terminal(s: PipelineStage) -> bool {
    s is Done || s is Aborted
}

/// The sequencer of one pipeline run.
pub struct ProofPipeline {
    pub stage: PipelineStage,
}

impl ProofPipeline {
    /// A fresh run, about to generate the reference string.
    pub fn new() -> (r: ProofPipeline)
        ensures
            r.stage == PipelineStage::ReferenceString,
    {
        ProofPipeline { stage: PipelineStage::ReferenceString }
    }

    /// The stage whose outside work must be performed next, or `None`
    /// once the run has ended.
    pub fn current(&self) -> (r: Option<PipelineStage>)
        ensures
            r == if is_terminal(self.stage) {
                Option::<PipelineStage>::None
            } else {
                Option::<PipelineStage>::Some(self.stage)
            },
    {
        match self.stage {
            PipelineStage::Done => None,
            PipelineStage::Aborted => None,
            s => Some(s),
        }
    }

    /// Records the outcome of the current stage's outside work: success
    /// advances to the next stage, failure aborts the whole run, and a
    /// terminal state never changes — no stage is ever retried.
    pub fn step(&mut self, succeeded: bool)
        ensures
            final(self).stage == if is_terminal(old(self).stage) {
                old(self).stage
            } else if succeeded {
                next_stage(old(self).stage)
            } else {
                PipelineStage::Aborted
            },
    {
        if matches!(self.stage, PipelineStage::Done) || matches!(
            self.stage,
            PipelineStage::Aborted,
        ) {
            return ;
        }
        if !succeeded {
            self.stage = PipelineStage::Aborted;
            return ;
        }
        self.stage = match self.stage {
            PipelineStage::ReferenceString => PipelineStage::InnerKeys,
            PipelineStage::InnerKeys => PipelineStage::InnerProof,
            PipelineStage::InnerProof => PipelineStage::Aggregation,
            PipelineStage::Aggregation => PipelineStage::Artifacts,
            PipelineStage::Artifacts => PipelineStage::Done,
            PipelineStage::Done => PipelineStage::Done,
            PipelineStage::Aborted => PipelineStage::Aborted,
        };
    }
}

/// The big-endian serialization of a run of instance values.
pub open spec fn instances_bytes(s: Seq<Felt>) -> Seq<u8>
    decreases s.len(),
{
    if s.len() == 0 {
        Seq::empty()
    } else {
        instances_bytes(s.drop_last()) + felt_bytes_be(s.last())
    }
}

/// Serializes the public instance values: each element as 32 big-endian
/// bytes, in order.
pub fn encode_instances(instances: &Vec<Felt>) -> (r: Vec<u8>)
    ensures
        r@ == instances_bytes(instances@),
        r@.len() == 32 * instances@.len(),
{
    let mut r: Vec<u8> = Vec::new();
    let mut i: usize = 0;
    proof {
        assert(instances@.take(0) =~= Seq::<Felt>::empty());
    }
    while i < instances.len()
        invariant
            i <= instances@.len(),
            r@ == instances_bytes(instances@.take(i as int)),
            r@.len() == 32 * i,
        decreases instances@.len() - i,
    {
        let mut bytes = instances[i].to_bytes_be();
        let mut k: usize = 0;
        let ghost r_before = r@;
        while k < bytes.len()
            invariant
                k <= bytes@.len(),
                bytes@ == felt_bytes_be(instances@[i as int]),
                r@ == r_before + bytes@.take(k as int),
            decreases bytes@.len() - k,
        {
            proof {
                assert((r_before + bytes@.take(k as int)).push(bytes@[k as int]) =~= r_before
                    + bytes@.take(k + 1));
            }
            r.push(bytes[k]);
            k = k + 1;
        }
        proof {
            assert(bytes@.take(bytes@.len() as int) =~= bytes@);
            assert(instances@.take(i + 1).drop_last() =~= instances@.take(i as int));
            assert(instances@.take(i + 1).last() == instances@[i as int]);
        }
        i = i + 1;
    }
    proof {
        assert(instances@.take(instances@.len() as int) =~= instances@);
    }
    r
}

/// Encodes the outer proof and its public instances into one call-data
/// byte string: the serialized instances first, then the proof bytes.
pub fn encode_calldata(instances: &Vec<Felt>, proof: &Vec<u8>) -> (r: Vec<u8>)
    ensures
        r@ == instances_bytes(instances@) + proof@,
{
    let mut r = encode_instances(instances);
    let mut k: usize = 0;
    let ghost head = r@;
    while k < proof.len()
        invariant
            k <= proof@.len(),
            r@ == head + proof@.take(k as int),
        decreases proof@.len() - k,
    {
        proof {
            assert((head + proof@.take(k as int)).push(proof@[k as int]) =~= head + proof@.take(
                k + 1,
            ));
        }
        r.push(proof[k]);
        k = k + 1;
    }
    proof {
        assert(proof@.take(proof@.len() as int) =~= proof@);
    }
    r
}

} // verus!
