//! Reference predicate logic built on the protocol layer: the time-lock
//! and the m-of-n signature predicates. Each is a pure decision function
//! from the decoded configuration and the host's answers to an outcome;
//! fetching those answers is the calling environment's part.

use vstd::prelude::*;

use crate::PredicateResult;
use crate::api::SignedByResult;
use crate::decoder::Value;
use crate::decoder::ValueModel;

verus! {

/// Reason code of a time-lock refusal: the current time is not past the
/// unlock time.
pub const REASON_TIME_LOCKED: u64 = 0xff;

/// Reason code of a configuration whose unlock time is not an unsigned
/// integer.
pub const REASON_BAD_LOCK_CONFIG: u64 = 0x0c;

/// Reason code of an m-of-n refusal: not enough valid signatures after
/// every proof was seen.
pub const REASON_TOO_FEW_SIGNATURES: u64 = 0xff;

/// The time-lock decision for a known unlock date: false while the
/// current time is before the date; afterwards, the signature check's
/// verdict, with its code as the reason for anything but a clean pass.
pub open spec fn spec_time_lock_at(
    locked_until: u64,
    now: u64,
    sig: SignedByResult,
) -> PredicateResult {
    if now < locked_until {
        PredicateResult::False(Some(REASON_TIME_LOCKED))
    } else if sig is True {
        PredicateResult::True
    } else {
        PredicateResult::False(Some(sig.spec_code()))
    }
}

/// The time-lock decision: the first configuration value must be the
/// unlock date as an unsigned integer, else the outcome is false with
/// [`REASON_BAD_LOCK_CONFIG`]; then per [`spec_time_lock_at`].
pub open spec fn spec_time_lock(cfg: ValueModel, now: u64, sig: SignedByResult) -> PredicateResult {
    match cfg {
        ValueModel::U64(v) => spec_time_lock_at(v, now, sig),
        ValueModel::U32(v) => spec_time_lock_at(v as u64, now, sig),
        _ => PredicateResult::False(Some(REASON_BAD_LOCK_CONFIG)),
    }
}

/// Time-locked bearer predicate: the bearer is recognised only once the
/// unlock date has passed.
///
/// `cfg` is the first value of the predicate's configuration (the unlock
/// date), `now` the current time in Unix seconds, and `sig` the host's
/// answer to the P2PKH check of the transaction against the bearer's
/// public-key hash.
pub fn time_lock(cfg: &Value, now: u64, sig: &SignedByResult) -> (r: PredicateResult)
    ensures
        r == spec_time_lock(cfg.model(), now, *sig),
{
    let locked_until: u64 = match cfg {
        Value::U64(v) => *v,
        Value::U32(v) => *v as u64,
        _ => {
            return PredicateResult::False(Some(REASON_BAD_LOCK_CONFIG));
        },
    };
    if now < locked_until {
        return PredicateResult::False(Some(REASON_TIME_LOCKED));
    }
    match sig {
        SignedByResult::True => PredicateResult::True,
        err => PredicateResult::False(Some(err.code())),
    }
}

/// A result that counts towards the m-of-n tally: a valid signature, or
/// a proof the signer left out. Anything else is a present-but-invalid
/// proof and vetoes the predicate.
pub open spec fn is_vote(r: SignedByResult) -> bool {
    r is True || r is NilProof
}

/// How many results are valid signatures.
pub open spec fn count_true(rs: Seq<SignedByResult>) -> int
    decreases rs.len(),
{
    if rs.len() == 0 {
        0
    } else {
        (if rs[0] is True {
            1int
        } else {
            0int
        }) + count_true(rs.drop_first())
    }
}

/// How many results are missing proofs.
pub open spec fn count_nil(rs: Seq<SignedByResult>) -> int
    decreases rs.len(),
{
    if rs.len() == 0 {
        0
    } else {
        (if rs[0] is NilProof {
            1int
        } else {
            0int
        }) + count_nil(rs.drop_first())
    }
}

/// The m-of-n decision from position `i` on, with `valid` signatures
/// counted so far and `missing` more proofs allowed to be absent: a
/// valid signature counts, a missing proof spends the allowance — or
/// ends the walk as false once the threshold is out of reach — and a
/// present-but-invalid proof is an immediate veto carrying its code.
pub open spec fn spec_multi_sig_from(
    rs: Seq<SignedByResult>,
    i: int,
    valid: int,
    missing: int,
    threshold: u8,
) -> PredicateResult
    decreases rs.len() - i,
{
    if i < 0 || i >= rs.len() {
        if valid >= threshold {
            PredicateResult::True
        } else {
            PredicateResult::False(Some(REASON_TOO_FEW_SIGNATURES))
        }
    } else {
        match rs[i] {
            SignedByResult::True => spec_multi_sig_from(rs, i + 1, valid + 1, missing, threshold),
            SignedByResult::NilProof => if missing == 0 {
                PredicateResult::False(None)
            } else {
                spec_multi_sig_from(rs, i + 1, valid, missing - 1, threshold)
            },
            r => PredicateResult::False(Some(r.spec_code())),
        }
    }
}

/// The m-of-n decision over all results, allowing as many missing proofs
/// as the count of results exceeds the threshold.
pub open spec fn spec_multi_sig(rs: Seq<SignedByResult>, threshold: u8) -> PredicateResult {
    spec_multi_sig_from(rs, 0, 0, rs.len() - threshold, threshold)
}

/// Bearer predicate requiring `threshold` out of `results.len()`
/// signatures, per [`spec_multi_sig`]. `results[i]` is the host's answer
/// to the P2PKH check of the transaction against the i-th registered
/// public-key hash and the i-th supplied proof.
pub fn multi_sig(threshold: u8, results: &Vec<SignedByResult>) -> (r: PredicateResult)
    requires
        threshold as int <= results@.len(),
    ensures
        r == spec_multi_sig(results@, threshold),
{
    let n = results.len();
    let mut missing_allowed: usize = n - threshold as usize;
    let mut valid: usize = 0;
    let mut i: usize = 0;
    while i < n
        invariant
            i <= n,
            n == results@.len(),
            valid <= i,
            spec_multi_sig(results@, threshold) == spec_multi_sig_from(
                results@,
                i as int,
                valid as int,
                missing_allowed as int,
                threshold,
            ),
        decreases n - i,
    {
        match results[i] {
            SignedByResult::True => {
                valid = valid + 1;
            },
            SignedByResult::NilProof => {
                if missing_allowed == 0 {
                    return PredicateResult::False(None);
                }
                missing_allowed = missing_allowed - 1;
            },
            err => {
                return PredicateResult::False(Some(err.code()));
            },
        }
        i = i + 1;
    }
    if valid >= threshold as usize {
        PredicateResult::True
    } else {
        PredicateResult::False(Some(REASON_TOO_FEW_SIGNATURES))
    }
}

proof fn lemma_multi_sig_from_true(
    rs: Seq<SignedByResult>,
    i: int,
    valid: int,
    missing: int,
    threshold: u8,
)
    requires
        0 <= i <= rs.len(),
        missing >= 0,
    ensures
        spec_multi_sig_from(rs, i, valid, missing, threshold) is True <==> ((forall|j: int|
            i <= j < rs.len() ==> is_vote(#[trigger] rs[j])) && count_nil(rs.skip(i)) <= missing
            && valid + count_true(rs.skip(i)) >= threshold),
    decreases rs.len() - i,
{
    if i == rs.len() {
        assert(rs.skip(i) =~= Seq::empty());
    } else {
        assert(rs.skip(i).drop_first() =~= rs.skip(i + 1));
        assert(rs.skip(i)[0] == rs[i]);
        match rs[i] {
            SignedByResult::True => {
                lemma_multi_sig_from_true(rs, i + 1, valid + 1, missing, threshold);
            },
            SignedByResult::NilProof => {
                if missing == 0 {
                    lemma_count_nil_nonneg(rs.skip(i + 1));
                } else {
                    lemma_multi_sig_from_true(rs, i + 1, valid, missing - 1, threshold);
                }
            },
            _ => {},
        }
    }
}

proof fn lemma_count_nil_nonneg(rs: Seq<SignedByResult>)
    ensures
        count_nil(rs) >= 0,
    decreases rs.len(),
{
    if rs.len() > 0 {
        lemma_count_nil_nonneg(rs.drop_first());
    }
}

proof fn lemma_votes_partition(rs: Seq<SignedByResult>)
    requires
        forall|j: int| 0 <= j < rs.len() ==> is_vote(#[trigger] rs[j]),
    ensures
        count_true(rs) + count_nil(rs) == rs.len(),
    decreases rs.len(),
{
    if rs.len() > 0 {
        assert(is_vote(rs[0]));
        lemma_votes_partition(rs.drop_first());
    }
}

/// The m-of-n predicate evaluates to true exactly when every proof is
/// either a valid signature or left out, and the valid signatures reach
/// the threshold.
pub proof fn lemma_multi_sig_true_iff(rs: Seq<SignedByResult>, threshold: u8)
    requires
        threshold as int <= rs.len(),
    ensures
        spec_multi_sig(rs, threshold) is True <==> ((forall|j: int|
            0 <= j < rs.len() ==> is_vote(#[trigger] rs[j])) && count_true(rs) >= threshold),
{
    lemma_multi_sig_from_true(rs, 0, 0, rs.len() - threshold, threshold);
    assert(rs.skip(0) =~= rs);
    if forall|j: int| 0 <= j < rs.len() ==> is_vote(#[trigger] rs[j]) {
        lemma_votes_partition(rs);
    }
}

/// A present-but-invalid proof is a veto: when any result is neither a
/// valid signature nor a missing proof, the predicate never evaluates to
/// true, however many valid signatures the other proofs carry.
pub proof fn lemma_multi_sig_veto(rs: Seq<SignedByResult>, threshold: u8, i: int)
    requires
        threshold as int <= rs.len(),
        0 <= i < rs.len(),
        !is_vote(rs[i]),
    ensures
        !(spec_multi_sig(rs, threshold) is True),
{
    lemma_multi_sig_true_iff(rs, threshold);
}

} // verus!
