//! The dispatch facade and the opaque filler: classify a path, then zero the
//! file's content with the strategy the classification picks.

use crate::classify::classify;
use crate::classify::spec_classify;
use crate::classify::ExtType;
use crate::error::Error;
use crate::wav::fill_wav;
use crate::wav::wav_fill_result;
use crate::wav::wav_header_of;
use crate::wav::wav_samples_of;
use crate::wav::zero_samples;
use vstd::prelude::*;

verus! {

/// `n` zero bytes: what an opaque file's content becomes.
pub open spec fn zero_seq(n: nat) -> Seq<u8> {
    Seq::new(n, |i: int| 0u8)
}

/// Replaces an opaque file's content: as many zero bytes as the file held.
pub fn fill_any(len: usize) -> (r: Vec<u8>)
    ensures
        r@ == zero_seq(len as nat),
{
    let mut v: Vec<u8> = Vec::new();
    let mut i: usize = 0;
    while i < len
        invariant
            0 <= i <= len,
            v@ == zero_seq(i as nat),
        decreases len - i,
    {
        v.push(0u8);
        i = i + 1;
        proof {
            assert(v@ =~= zero_seq(i as nat));
        }
    }
    v
}

/// What filling yields for a path and the file's bytes: a WAV path gets the
/// structured re-encoding, everything else gets a run of zero bytes of the
/// same length.
pub open spec fn fill_spec(p: Seq<char>, c: Seq<u8>) -> Option<Seq<u8>> {
    match spec_classify(p) {
        ExtType::Wav => wav_fill_result(c),
        ExtType::Others => Some(zero_seq(c.len())),
    }
}

/// Classifies `path` and zero-fills `content` with the matching strategy.
/// The opaque strategy cannot fail; the structured one fails exactly where
/// `fill_wav` does, and only with a WAV error. A successful fill is
/// idempotent: filling the output again returns the output itself.
pub fn fill_matching(path: &str, content: &Vec<u8>) -> (r: Result<Vec<u8>, Error>)
    ensures
        r is Ok <==> fill_spec(path@, content@) is Some,
        r matches Ok(out) ==> Some(out@) == fill_spec(path@, content@),
        spec_classify(path@) is Others ==> (r matches Ok(out) && out@ == zero_seq(
            content@.len(),
        )),
        r matches Err(e) ==> e matches Error::Wav(_) && spec_classify(path@) is Wav,
        r matches Ok(out) ==> (spec_classify(path@) is Wav ==> wav_header_of(out@)
            == wav_header_of(content@)),
        r matches Ok(out) ==> (spec_classify(path@) is Wav ==> (wav_header_of(content@) matches
            Some(h) ==> (h.0.sample_format is Int ==> wav_samples_of(out@) == zero_samples(
            h.1 as nat,
        )))),
        r matches Ok(out) ==> fill_spec(path@, out@) == Some(out@),
{
    match classify(path) {
        ExtType::Wav => fill_wav(content),
        ExtType::Others => {
            let out = fill_any(content.len());
            proof {
                assert(zero_seq(out@.len()) =~= out@);
            }
            Ok(out)
        },
    }
}

/// Zero-filling an opaque file is idempotent: when a path classifies as
/// opaque, filling succeeds, and filling the output again returns the output
/// itself.
pub proof fn lemma_fill_opaque_idempotent(p: Seq<char>, c: Seq<u8>)
    requires
        spec_classify(p) is Others,
    ensures
        fill_spec(p, c) matches Some(o) && fill_spec(p, o) == Some(o),
{
    assert(zero_seq(zero_seq(c.len()).len()) =~= zero_seq(c.len()));
}

} // verus!
