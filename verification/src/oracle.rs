//! State roots and the two independent correctness oracles: the
//! spec-comparison oracle, which holds the emitted root against the fixture's
//! expectation, and the recompute oracle, which holds it against a root
//! recomputed outside the execution environment.

use vstd::prelude::*;
use vstd::slice::slice_to_vec;

verus! {

/// The sole public commitment of one guest invocation: the 32-byte canonical
/// root of the resulting consensus state.
#[derive(Debug, Clone, PartialEq, Eq)]
pub struct StateRoot {
    bytes: Vec<u8>,
}

impl View for StateRoot {
    type V = Seq<u8>;

    closed spec fn view(&self) -> Seq<u8> {
        self.bytes@
    }
}

impl StateRoot {
    /// A root is exactly 32 bytes.
    pub open spec fn wf(&self) -> bool {
        self@.len() == 32
    }

    /// Take a root from its 32 bytes; reject any other length.
    pub fn from_bytes(b: &[u8]) -> (r: Option<StateRoot>)
        ensures
            r is Some <==> b@.len() == 32,
            r matches Some(root) ==> root@ == b@ && root.wf(),
    {
        if b.len() == 32 {
            Some(StateRoot { bytes: slice_to_vec(b) })
        } else {
            None
        }
    }

    /// The root's bytes.
    pub fn as_bytes(&self) -> (r: &[u8])
        ensures
            r@ == self@,
    {
        self.bytes.as_slice()
    }

    /// Bit-for-bit equality of two roots.
    pub fn equals(&self, other: &StateRoot) -> (r: bool)
        ensures
            r == (self@ == other@),
    {
        if self.bytes.len() != other.bytes.len() {
            proof {
                assert(self@ != other@);
            }
            return false;
        }
        let mut k: usize = 0;
        while k < self.bytes.len()
            invariant
                self@.len() == other@.len(),
                0 <= k <= self@.len(),
                forall|i: int| 0 <= i < k ==> self@[i] == other@[i],
            decreases self@.len() - k,
        {
            if self.bytes[k] != other.bytes[k] {
                proof {
                    assert(self@[k as int] != other@[k as int]);
                }
                return false;
            }
            k += 1;
        }
        proof {
            assert(self@ =~= other@);
        }
        true
    }
}

/// Extract the committed root from the raw output buffer of one guest
/// invocation: a leading framing prefix is skipped and the trailing 32 bytes
/// are the root. The prefix size is an environment-specific framing constant,
/// re-derived per execution environment, so the caller passes it in; a buffer
/// of any other size is rejected, never truncated or padded.
pub fn extract_root(output: &[u8], prefix_len: usize) -> (r: Option<StateRoot>)
    ensures
        r is Some <==> output@.len() == prefix_len + 32,
        r matches Some(root) ==> root@ == output@.skip(prefix_len as int) && root.wf(),
{
    if output.len() >= 32 && output.len() - 32 == prefix_len {
        let r = StateRoot::from_bytes(&output[prefix_len..output.len()]);
        proof {
            assert(output@.subrange(prefix_len as int, output@.len() as int) =~= output@.skip(
                prefix_len as int,
            ));
        }
        r
    } else {
        None
    }
}

/// The views of an optional root.
pub open spec fn spec_opt_root(r: Option<StateRoot>) -> Option<Seq<u8>> {
    match r {
        Some(root) => Some(root@),
        None => None,
    }
}

/// The root the spec-comparison oracle expects for a case: the post-state
/// fixture's root when one exists (mutation expected), else the original
/// pre-state's own root (no observable mutation expected, covering rejected
/// operations and genuine no-ops).
pub open spec fn spec_expected_root(pre_root: Seq<u8>, post_root: Option<Seq<u8>>) -> Seq<u8> {
    match post_root {
        Some(p) => p,
        None => pre_root,
    }
}

/// The spec-comparison oracle: the emitted root must equal the expected one,
/// exactly; a mismatch is a hard failure for the case.
pub fn state_root_matches_specs(
    emitted: &StateRoot,
    pre_root: &StateRoot,
    post_root: &Option<StateRoot>,
) -> (r: bool)
    ensures
        r == (emitted@ == spec_expected_root(pre_root@, spec_opt_root(*post_root))),
{
    match post_root {
        Some(p) => emitted.equals(p),
        None => emitted.equals(pre_root),
    }
}

/// The recompute oracle: the root committed inside the execution environment
/// must equal the root recomputed from the identical dispatch logic outside
/// it, bit for bit.
pub fn state_root_matches_recompute(emitted: &StateRoot, recomputed: &StateRoot) -> (r: bool)
    ensures
        r == (emitted@ == recomputed@),
{
    emitted.equals(recomputed)
}

/// With no post-state fixture, the spec-comparison oracle accepts exactly
/// the pre-state's own root: dispatching the case's operation must yield a
/// root equal to the root the state already had.
pub proof fn lemma_no_mutation_expectation(emitted: Seq<u8>, pre_root: Seq<u8>)
    ensures
        (emitted == spec_expected_root(pre_root, None::<Seq<u8>>)) <==> (emitted == pre_root),
{
}

/// With a post-state fixture, the spec-comparison oracle accepts exactly the
/// post-state's root, whatever root the pre-state had and whatever the
/// mutation entrypoint reported.
pub proof fn lemma_mutation_expectation(emitted: Seq<u8>, pre_root: Seq<u8>, post_root: Seq<u8>)
    ensures
        (emitted == spec_expected_root(pre_root, Some(post_root))) <==> (emitted == post_root),
{
}

} // verus!
