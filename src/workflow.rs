use vstd::prelude::*;
use crate::accounts::distinct;
use crate::ids::AccountId;
use crate::notes::{asset_valid, Asset, ConstructionError, NoteType, Word};
use crate::requests::{consume_notes, mint, SerialSource, TransactionRequest};

verus! {

/// A faucet and how much of its maximum supply has been issued.
#[derive(Clone, Copy, Debug, PartialEq, Eq, Structural)]
pub struct Faucet {
    pub id: AccountId,
    pub max_supply: u64,
    pub issued: u64,
}

impl Faucet {
    pub open spec fn wf(self) -> bool {
        self.issued <= self.max_supply
    }

    pub open spec fn remaining_spec(self) -> int {
        self.max_supply - self.issued
    }

    pub fn new(id: AccountId, max_supply: u64) -> (r: Faucet)
        ensures
            r == (Faucet { id, max_supply, issued: 0 }),
    {
        Faucet { id, max_supply, issued: 0 }
    }

    pub fn remaining(&self) -> (r: u64)
        requires
            self.wf(),
        ensures
            r == self.remaining_spec(),
    {
        self.max_supply - self.issued
    }
}

/// The source after `n` draws.
pub open spec fn advance_by(src: SerialSource, n: nat) -> SerialSource
    decreases n,
{
    if n == 0 {
        src
    } else {
        advance_by(src, (n - 1) as nat).advanced()
    }
}

/// `reqs` mints `amount` units of `faucet`'s asset to `target` in each request,
/// the i-th with the serial number of the i-th draw from `src`.
pub open spec fn mints_of(
    reqs: Seq<TransactionRequest>,
    faucet: AccountId,
    amount: u64,
    target: AccountId,
    note_type: NoteType,
    src: SerialSource,
) -> bool {
    forall|i: int|
        0 <= i < reqs.len() ==> (#[trigger] reqs[i] matches TransactionRequest::Mint {
            asset: a,
            target: t,
            note_type: nt,
            serial_num: s,
        } && a == (Asset { faucet_id: faucet, amount }) && t == target && nt == note_type && s@
            == advance_by(src, i as nat).next_serial())
}

/// Mints `count` notes of `amount` units each from `faucet` to `target`. Either
/// all of them fit in the faucet's remaining supply and all are built, or none is.
pub fn mint_notes(
    faucet: &mut Faucet,
    amount: u64,
    count: u64,
    target: AccountId,
    note_type: NoteType,
    rng: &mut SerialSource,
) -> (r: Result<Vec<TransactionRequest>, ConstructionError>)
    requires
        old(faucet).wf(),
    ensures
        !asset_valid(old(faucet).id, amount) ==> r == Err::<Vec<TransactionRequest>, ConstructionError>(
            ConstructionError::InvalidAsset,
        ),
        asset_valid(old(faucet).id, amount) && (amount == 0 || count * amount
            > old(faucet).remaining_spec()) ==> r == Err::<Vec<TransactionRequest>, ConstructionError>(
            ConstructionError::InvalidAmount,
        ),
        r is Err ==> *final(faucet) == *old(faucet) && *final(rng) == *old(rng),
        asset_valid(old(faucet).id, amount) && amount > 0 && count * amount
            <= old(faucet).remaining_spec() ==> {
            &&& r matches Ok(reqs)
            &&& reqs@.len() == count
            &&& mints_of(reqs@, old(faucet).id, amount, target, note_type, *old(rng))
            &&& *final(faucet) == (Faucet { issued: (old(faucet).issued + count * amount) as u64, ..*old(faucet) })
            &&& *final(rng) == advance_by(*old(rng), count as nat)
        },
{
    let asset = match Asset::new(faucet.id, amount) {
        Ok(a) => a,
        Err(e) => return Err(e),
    };
    let remaining = faucet.remaining();
    if amount == 0 {
        return Err(ConstructionError::InvalidAmount);
    }
    let total = match count.checked_mul(amount) {
        Some(t) => t,
        None => return Err(ConstructionError::InvalidAmount),
    };
    if total > remaining {
        return Err(ConstructionError::InvalidAmount);
    }
    let ghost src0 = *rng;
    let ghost f0 = *faucet;
    let mut reqs: Vec<TransactionRequest> = Vec::new();
    let mut i: u64 = 0;
    while i < count
        invariant
            i <= count,
            0 < amount,
            count * amount <= f0.remaining_spec(),
            f0.wf(),
            asset == (Asset { faucet_id: f0.id, amount }),
            asset_valid(f0.id, amount),
            *faucet == (Faucet { issued: (f0.issued + i * amount) as u64, ..f0 }),
            *rng == advance_by(src0, i as nat),
            reqs@.len() == i,
            mints_of(reqs@, f0.id, amount, target, note_type, src0),
        decreases count - i,
    {
        proof {
            assert(i * amount + amount <= count * amount) by (nonlinear_arith)
                requires i < count, 0 < amount;
        }
        let left = faucet.remaining();
        assert(0 < amount && amount <= left);
        let ghost prev = reqs@;
        let ghost before = *rng;
        let req = match mint(asset, left, target, note_type, rng) {
            Ok(q) => q,
            Err(e) => return Err(e),
        };
        reqs.push(req);
        faucet.issued = faucet.issued + amount;
        proof {
            assert((i + 1) * amount == i * amount + amount) by (nonlinear_arith);
            assert forall|k: int| 0 <= k < reqs@.len() implies (#[trigger] reqs@[k] matches TransactionRequest::Mint {
                asset: a,
                target: t,
                note_type: nt,
                serial_num: s,
            } && a == (Asset { faucet_id: f0.id, amount }) && t == target && nt == note_type && s@
                == advance_by(src0, k as nat).next_serial()) by {
                if k < prev.len() {
                    assert(reqs@[k] == prev[k]);
                } else {
                    assert(before == advance_by(src0, k as nat));
                }
            }
        }
        i = i + 1;
    }
    Ok(reqs)
}

/// Once polling reports exactly `expected` distinct consumable notes, the
/// request that consumes all of them; before that, nothing.
pub fn consume_when_ready(consumable: Vec<Word>, expected: usize) -> (r: Option<TransactionRequest>)
    ensures
        consumable@.len() == expected && expected > 0 && distinct(consumable@) ==> (r matches Some(
            TransactionRequest::ConsumeNotes { note_ids },
        ) && note_ids@ == consumable@),
        consumable@.len() != expected || expected == 0 || !distinct(consumable@) ==> r is None,
{
    if consumable.len() != expected || expected == 0 {
        return None;
    }
    match consume_notes(consumable) {
        Ok(req) => Some(req),
        Err(_) => None,
    }
}

/// How the backend answered a submitted transaction.
#[derive(Clone, Copy, Debug, PartialEq, Eq, Structural)]
pub enum SubmitOutcome {
    Accepted,
    /// Rejected because it was built against state that has since changed.
    StaleState,
    Rejected,
}

#[derive(Clone, Copy, Debug, PartialEq, Eq, Structural)]
pub enum SubmitDecision {
    Continue,
    ResyncAndRetry,
    Abort,
}

pub open spec fn submission_decision(outcome: SubmitOutcome, retried: bool) -> SubmitDecision {
    match outcome {
        SubmitOutcome::Accepted => SubmitDecision::Continue,
        SubmitOutcome::StaleState => if retried {
            SubmitDecision::Abort
        } else {
            SubmitDecision::ResyncAndRetry
        },
        SubmitOutcome::Rejected => SubmitDecision::Abort,
    }
}

/// What follows a submission: an accepted one lets the workflow go on; a
/// stale-state rejection is retried once after a resynchronization; any other
/// failure, or a second stale-state rejection, aborts the remaining steps.
pub fn after_submission(outcome: SubmitOutcome, retried: bool) -> (d: SubmitDecision)
    ensures
        d == submission_decision(outcome, retried),
{
    match outcome {
        SubmitOutcome::Accepted => SubmitDecision::Continue,
        SubmitOutcome::StaleState => if retried {
            SubmitDecision::Abort
        } else {
            SubmitDecision::ResyncAndRetry
        },
        SubmitOutcome::Rejected => SubmitDecision::Abort,
    }
}

} // verus!
