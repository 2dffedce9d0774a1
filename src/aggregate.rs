//! Reduction of the reference endpoints' answers to one best known height.
use vstd::prelude::*;
use crate::rpc::RpcError;

verus! {

/// The highest height among the answers that succeeded, or zero when none
/// did.
pub open spec fn best_height(answers: Seq<Result<u64, RpcError>>) -> int
    decreases answers.len(),
{
    if answers.len() == 0 {
        0
    } else {
        let rest = best_height(answers.drop_last());
        match answers.last() {
            Ok(h) => if h as int > rest {
                h as int
            } else {
                rest
            },
            Err(_) => rest,
        }
    }
}

/// Whether every answer failed.
pub open spec fn all_failed(answers: Seq<Result<u64, RpcError>>) -> bool {
    forall|i: int| 0 <= i < answers.len() ==> (#[trigger] answers[i]) is Err
}

/// The best height bounds every successful answer from above, and is either
/// one of them or, when there is none, zero.
pub proof fn lemma_best_height_is_max(answers: Seq<Result<u64, RpcError>>)
    ensures
        0 <= best_height(answers) <= u64::MAX,
        forall|i: int|
            0 <= i < answers.len() && (#[trigger] answers[i]) is Ok ==> answers[i]->Ok_0
                <= best_height(answers),
        all_failed(answers) ==> best_height(answers) == 0,
        !all_failed(answers) ==> exists|i: int|
            0 <= i < answers.len() && (#[trigger] answers[i]) == Ok::<u64, RpcError>(
                best_height(answers) as u64,
            ),
    decreases answers.len(),
{
    if answers.len() > 0 {
        let rest = answers.drop_last();
        lemma_best_height_is_max(rest);
        assert forall|i: int| 0 <= i < rest.len() implies #[trigger] rest[i] == answers[i] by {}
        assert forall|i: int|
            0 <= i < answers.len() && (#[trigger] answers[i]) is Ok implies answers[i]->Ok_0
                <= best_height(answers) by {
            if i < rest.len() {
                assert(rest[i] == answers[i]);
            }
        }
        if !all_failed(answers) && all_failed(rest) {
            let k = answers.len() - 1;
            assert(answers[k] is Ok) by {
                let j = choose|j: int| 0 <= j < answers.len() && !(#[trigger] answers[j] is Err);
                if j < k {
                    assert(rest[j] == answers[j]);
                }
            }
        }
        if !all_failed(rest) {
            let j = choose|j: int|
                0 <= j < rest.len() && (#[trigger] rest[j]) == Ok::<u64, RpcError>(
                    best_height(rest) as u64,
                );
            assert(answers[j] == rest[j]);
        }
    }
}

/// Reduces the answers of the reference endpoints, in any order, to the
/// highest height among those that succeeded. Failed answers are dropped;
/// when all of them failed the result is zero.
pub fn aggregate_heights(answers: &Vec<Result<u64, RpcError>>) -> (r: u64)
    ensures
        r as int == best_height(answers@),
{
    let mut best: u64 = 0;
    let mut i: usize = 0;
    while i < answers.len()
        invariant
            0 <= i <= answers@.len(),
            best as int == best_height(answers@.take(i as int)),
        decreases answers@.len() - i,
    {
        assert(answers@.take(i + 1).drop_last() =~= answers@.take(i as int));
        match &answers[i] {
            Ok(h) => {
                if *h > best {
                    best = *h;
                }
            },
            Err(_) => {},
        }
        i = i + 1;
    }
    assert(answers@.take(i as int) =~= answers@);
    best
}

} // verus!
