use vstd::prelude::*;
use crate::ids::AccountId;
use crate::accounts::distinct;
use crate::notes::{
    asset_valid, assets_valid, check_assets, check_vault, hash_elements, rpo_digest, vault_valid, Asset,
    ConstructionError, NoteType, Word,
};

verus! {

/// A source of serial numbers, passed by exclusive reference to each request
/// constructor. Each draw hashes the seed with a counter that then advances, so
/// one source hashes a fresh counter for each of 2^64 draws, while two sources
/// made from one seed hand out the same serials, which `RequestLog` catches.
#[derive(Debug)]
pub struct SerialSource {
    pub seed: Word,
    pub counter: u64,
}

pub open spec fn serial_for(seed: Word, counter: u64) -> Seq<u64> {
    rpo_digest(seed@.push(counter))
}

impl SerialSource {
    pub fn new(seed: Word) -> (r: SerialSource)
        ensures
            r.seed == seed,
            r.counter == 0,
    {
        SerialSource { seed, counter: 0 }
    }

    /// The serial the next draw yields.
    pub open spec fn next_serial(self) -> Seq<u64> {
        serial_for(self.seed, self.counter)
    }

    pub open spec fn advanced(self) -> SerialSource {
        SerialSource { seed: self.seed, counter: (if self.counter == u64::MAX { 0 } else { (self.counter + 1) as u64 }) }
    }

    pub fn draw(&mut self) -> (r: Word)
        ensures
            r@ == old(self).next_serial(),
            *final(self) == old(self).advanced(),
    {
        let mut elems: Vec<u64> = Vec::new();
        elems.push(self.seed.a);
        elems.push(self.seed.b);
        elems.push(self.seed.c);
        elems.push(self.seed.d);
        elems.push(self.counter);
        assert(elems@ =~= self.seed@.push(self.counter));
        let r = hash_elements(&elems);
        self.counter = self.counter.wrapping_add(1);
        r
    }
}

/// The three transaction shapes the execution engine accepts.
#[derive(Clone, Debug)]
pub enum TransactionRequest {
    Mint { asset: Asset, target: AccountId, note_type: NoteType, serial_num: Word },
    PayToId {
        assets: Vec<Asset>,
        sender: AccountId,
        target: AccountId,
        recall_height: Option<u32>,
        note_type: NoteType,
        serial_num: Word,
    },
    ConsumeNotes { note_ids: Vec<Word> },
}

/// A mint is accepted when its amount is positive and within the faucet's
/// remaining issuable supply.
pub open spec fn mint_amount_ok(amount: u64, remaining_supply: u64) -> bool {
    0 < amount && amount <= remaining_supply
}

/// A request that mints `asset` to `target`, drawing its serial number from `rng`.
pub fn mint(
    asset: Asset,
    remaining_supply: u64,
    target: AccountId,
    note_type: NoteType,
    rng: &mut SerialSource,
) -> (r: Result<TransactionRequest, ConstructionError>)
    ensures
        !mint_amount_ok(asset.amount, remaining_supply) ==> {
            &&& r == Err::<TransactionRequest, ConstructionError>(ConstructionError::InvalidAmount)
            &&& *final(rng) == *old(rng)
        },
        mint_amount_ok(asset.amount, remaining_supply) && !asset_valid(asset.faucet_id, asset.amount)
            ==> {
            &&& r == Err::<TransactionRequest, ConstructionError>(ConstructionError::InvalidAsset)
            &&& *final(rng) == *old(rng)
        },
        mint_amount_ok(asset.amount, remaining_supply) && asset_valid(asset.faucet_id, asset.amount)
            ==> {
            &&& *final(rng) == old(rng).advanced()
            &&& r matches Ok(TransactionRequest::Mint { asset: a, target: t, note_type: nt, serial_num: s })
            &&& a == asset && t == target && nt == note_type && s@ == old(rng).next_serial()
        },
{
    if asset.amount == 0 || asset.amount > remaining_supply {
        return Err(ConstructionError::InvalidAmount);
    }
    if let Err(e) = Asset::new(asset.faucet_id, asset.amount) {
        return Err(e);
    }
    let serial_num = rng.draw();
    Ok(TransactionRequest::Mint { asset, target, note_type, serial_num })
}

/// The error for a payment's asset list, checked in the order empty, assets,
/// vault.
pub open spec fn payment_error(assets: Seq<Asset>) -> Option<ConstructionError> {
    if assets.len() == 0 {
        Some(ConstructionError::EmptyAssetList)
    } else if !assets_valid(assets) {
        Some(ConstructionError::InvalidAsset)
    } else if !vault_valid(assets) {
        Some(ConstructionError::InvalidVault)
    } else {
        None
    }
}

/// A request that pays `assets` from `sender` to `target`, optionally recallable
/// by the sender from `recall_height` on.
pub fn pay_to_id(
    assets: Vec<Asset>,
    sender: AccountId,
    target: AccountId,
    recall_height: Option<u32>,
    note_type: NoteType,
    rng: &mut SerialSource,
) -> (r: Result<TransactionRequest, ConstructionError>)
    ensures
        payment_error(assets@) matches Some(e) ==> {
            &&& r == Err::<TransactionRequest, ConstructionError>(e)
            &&& *final(rng) == *old(rng)
        },
        payment_error(assets@) is None ==> {
            &&& *final(rng) == old(rng).advanced()
            &&& r matches Ok(TransactionRequest::PayToId { assets: a, sender: s, target: t, recall_height: h, note_type: nt, serial_num: sn })
            &&& a@ == assets@ && s == sender && t == target && h == recall_height && nt == note_type
            &&& sn@ == old(rng).next_serial()
        },
{
    if assets.len() == 0 {
        return Err(ConstructionError::EmptyAssetList);
    }
    if !check_assets(&assets) {
        return Err(ConstructionError::InvalidAsset);
    }
    if !check_vault(&assets) {
        return Err(ConstructionError::InvalidVault);
    }
    let serial_num = rng.draw();
    Ok(TransactionRequest::PayToId { assets, sender, target, recall_height, note_type, serial_num })
}

/// No identifier occurs twice.
pub fn check_distinct(ids: &Vec<Word>) -> (r: bool)
    ensures
        r == distinct(ids@),
{
    let mut j: usize = 0;
    while j < ids.len()
        invariant
            j <= ids@.len(),
            forall|a: int, b: int| 0 <= a < b < j ==> ids@[a] != ids@[b],
        decreases ids.len() - j,
    {
        let mut i: usize = 0;
        while i < j
            invariant
                i <= j < ids@.len(),
                forall|a: int, b: int| 0 <= a < b < j ==> ids@[a] != ids@[b],
                forall|a: int| 0 <= a < i ==> ids@[a] != ids@[j as int],
            decreases j - i,
        {
            if ids[i] == ids[j] {
                return false;
            }
            i = i + 1;
        }
        j = j + 1;
    }
    true
}

/// A request that consumes the given set of notes. Whether the notes are
/// consumable is left to the execution engine.
pub fn consume_notes(note_ids: Vec<Word>) -> (r: Result<TransactionRequest, ConstructionError>)
    ensures
        note_ids@.len() == 0 ==> r == Err::<TransactionRequest, ConstructionError>(
            ConstructionError::EmptyNoteSet,
        ),
        note_ids@.len() > 0 && !distinct(note_ids@) ==> r == Err::<TransactionRequest, ConstructionError>(
            ConstructionError::DuplicateNoteId,
        ),
        note_ids@.len() > 0 && distinct(note_ids@) ==> (r matches Ok(
            TransactionRequest::ConsumeNotes { note_ids: ids },
        ) && ids@ == note_ids@),
{
    if note_ids.len() == 0 {
        return Err(ConstructionError::EmptyNoteSet);
    }
    if !check_distinct(&note_ids) {
        return Err(ConstructionError::DuplicateNoteId);
    }
    Ok(TransactionRequest::ConsumeNotes { note_ids })
}

/// The serial number a request carries, if its shape draws one.
pub open spec fn request_serial(r: TransactionRequest) -> Option<Word> {
    match r {
        TransactionRequest::Mint { serial_num, .. } => Some(serial_num),
        TransactionRequest::PayToId { serial_num, .. } => Some(serial_num),
        TransactionRequest::ConsumeNotes { .. } => None,
    }
}

fn serial_of(r: &TransactionRequest) -> (s: Option<Word>)
    ensures
        s == request_serial(*r),
{
    match r {
        TransactionRequest::Mint { serial_num, .. } => Some(*serial_num),
        TransactionRequest::PayToId { serial_num, .. } => Some(*serial_num),
        TransactionRequest::ConsumeNotes { .. } => None,
    }
}

/// The serial numbers of the requests recorded for submission so far. A request
/// whose serial number was already used is refused: reusing randomness would
/// make the two notes linkable.
#[derive(Debug)]
pub struct RequestLog {
    pub used: Vec<Word>,
}

impl RequestLog {
    pub fn new() -> (r: RequestLog)
        ensures
            r.used@.len() == 0,
    {
        RequestLog { used: Vec::new() }
    }

    pub fn record(&mut self, req: &TransactionRequest) -> (r: Result<(), ConstructionError>)
        ensures
            request_serial(*req) is None ==> r is Ok && final(self).used@ == old(self).used@,
            request_serial(*req) matches Some(s) ==> if old(self).used@.contains(s) {
                &&& r == Err::<(), ConstructionError>(ConstructionError::SerialReuse)
                &&& final(self).used@ == old(self).used@
            } else {
                &&& r is Ok
                &&& final(self).used@ == old(self).used@.push(s)
            },
    {
        let s = match serial_of(req) {
            Some(s) => s,
            None => return Ok(()),
        };
        let mut i: usize = 0;
        while i < self.used.len()
            invariant
                i <= self.used@.len(),
                self.used@ == old(self).used@,
                request_serial(*req) == Some(s),
                forall|k: int| 0 <= k < i ==> self.used@[k] != s,
            decreases self.used.len() - i,
        {
            if self.used[i] == s {
                assert(self.used@[i as int] == s);
                return Err(ConstructionError::SerialReuse);
            }
            i = i + 1;
        }
        self.used.push(s);
        Ok(())
    }
}

/// `req` took its serial number from `src`.
pub open spec fn drawn_from(req: TransactionRequest, src: SerialSource) -> bool {
    request_serial(req) matches Some(w) && w@ == src.next_serial()
}

proof fn lemma_word_view_injective(a: Word, b: Word)
    requires
        a@ == b@,
    ensures
        a == b,
{
    assert(a@[0] == b@[0] && a@[1] == b@[1] && a@[2] == b@[2] && a@[3] == b@[3]);
}

/// Randomness reuse is flagged: once a request drawn from one source has been
/// recorded, a request drawn from a copy of that source at the same point
/// carries a serial number the log already holds, so `record` refuses it.
pub proof fn lemma_seed_reuse_flagged(
    log: RequestLog,
    first: TransactionRequest,
    second: TransactionRequest,
    src: SerialSource,
    copy: SerialSource,
)
    requires
        copy.seed == src.seed,
        copy.counter == src.counter,
        drawn_from(first, src),
        drawn_from(second, copy),
        log.used@.contains(request_serial(first)->Some_0),
    ensures
        request_serial(second) matches Some(s) && log.used@.contains(s),
{
    lemma_word_view_injective(request_serial(first)->Some_0, request_serial(second)->Some_0);
}

} // verus!
