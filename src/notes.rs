use vstd::prelude::*;
use miden_objects::assembly::Assembler;
use miden_objects::assets::FungibleAsset;
use miden_objects::notes::{NoteAssets, NoteId, NoteInputs, NoteRecipient as LedgerRecipient, NoteScript};
use miden_objects::accounts::AccountId as LedgerAccountId;
use miden_objects::{Digest, Felt, StarkField};
use crate::ids::{AccountId, is_fungible_faucet_id, is_public_id, storage_bits_valid, FIELD_MODULUS};

verus! {

/// The largest amount a fungible asset can carry.
pub const MAX_ASSET_AMOUNT: u64 = 0x7fff_ffff_ffff_ffff;

/// The most assets a note's vault can hold.
pub const MAX_ASSETS_PER_NOTE: usize = 255;

/// The most inputs a note's recipient can carry.
pub const MAX_INPUTS_PER_NOTE: usize = 128;

/// Errors raised by the builders and the request factory. They signal malformed
/// input and are never retried.
#[derive(Clone, Copy, Debug, PartialEq, Eq, Structural)]
pub enum ConstructionError {
    InvalidAsset,
    InvalidAmount,
    InvalidVault,
    InvalidMetadata,
    TooManyInputs,
    NoProcedures,
    TooManyProcedures,
    ScriptCompilationError,
    EmptyAssetList,
    EmptyNoteSet,
    DuplicateNoteId,
    SerialReuse,
    ProcedureConflict { component: usize },
    UnsupportedAccountType { component: usize },
}

#[derive(Clone, Copy, Debug, PartialEq, Eq, Structural)]
pub enum NoteType {
    Private,
    Encrypted,
    Public,
}

/// Whether a note's tag targets one local account or is discoverable network-wide.
#[derive(Clone, Copy, Debug, PartialEq, Eq, Structural)]
pub enum ExecutionMode {
    Local,
    Network,
}

#[derive(Clone, Copy, Debug, PartialEq, Eq, Structural)]
pub enum ExecutionHint {
    Never,
    Always,
    AfterBlock { height: u32 },
}

/// Four field-sized values: a digest, a serial number or a note identifier.
#[derive(Clone, Copy, Debug, PartialEq, Eq, Structural)]
pub struct Word {
    pub a: u64,
    pub b: u64,
    pub c: u64,
    pub d: u64,
}

impl Word {
    pub open spec fn view(self) -> Seq<u64> {
        seq![self.a, self.b, self.c, self.d]
    }
}

/// A fungible quantity issued by a faucet.
#[derive(Clone, Copy, Debug, PartialEq, Eq, Structural)]
pub struct Asset {
    pub faucet_id: AccountId,
    pub amount: u64,
}

pub open spec fn asset_valid(faucet_id: AccountId, amount: u64) -> bool {
    is_fungible_faucet_id(faucet_id.value) && amount <= MAX_ASSET_AMOUNT
}

impl Asset {
    /// A fungible asset of `amount` units issued by `faucet_id`.
    pub fn new(faucet_id: AccountId, amount: u64) -> (r: Result<Asset, ConstructionError>)
        ensures
            asset_valid(faucet_id, amount) ==> r == Ok::<Asset, ConstructionError>(
                Asset { faucet_id, amount },
            ),
            !asset_valid(faucet_id, amount) ==> r == Err::<Asset, ConstructionError>(
                ConstructionError::InvalidAsset,
            ),
    {
        if ((faucet_id.value >> 60u64) & 3) == 2 && amount <= MAX_ASSET_AMOUNT {
            Ok(Asset { faucet_id, amount })
        } else {
            Err(ConstructionError::InvalidAsset)
        }
    }
}

/// The routing tag that `NoteTag::from_account_id` derives for a target account.
pub open spec fn tag_for(target: u64, mode: ExecutionMode) -> Option<u32> {
    match mode {
        ExecutionMode::Local => Some((((target >> 34u64) as u32) & 0xffff_0000u32) | 0xc000_0000u32),
        ExecutionMode::Network => if is_public_id(target) {
            Some((target >> 33u64) as u32)
        } else {
            None
        },
    }
}

/// A tag may route a note of this type: network-execution tags (top bit clear)
/// and public use-case tags (top bits `0b10`) need a public note.
pub open spec fn tag_allows(tag: u32, note_type: NoteType) -> bool {
    &&& ((tag >> 31u32) == 0 ==> note_type == NoteType::Public)
    &&& ((tag & 0xc000_0000u32) == 0x8000_0000u32 ==> note_type == NoteType::Public)
}

/// Relies on miden_objects' `NoteTag::from_account_id`, which computes `tag_for`;
/// it reads the storage bits only in network mode, and panics on invalid ones.
#[verifier::external_body]
fn derive_tag(target: u64, mode: ExecutionMode) -> (r: Option<u32>)
    requires
        target < FIELD_MODULUS,
        storage_bits_valid(target),
    ensures
        r == tag_for(target, mode),
{
    let id = miden_objects::accounts::AccountId::new_unchecked(Felt::new(target));
    let mode = match mode {
        ExecutionMode::Local => miden_objects::notes::NoteExecutionMode::Local,
        ExecutionMode::Network => miden_objects::notes::NoteExecutionMode::Network,
    };
    miden_objects::notes::NoteTag::from_account_id(id, mode).ok().map(|t| t.inner())
}

/// Relies on miden_objects' `NoteTag::validate`, which accepts exactly `tag_allows`.
#[verifier::external_body]
fn tag_accepts(tag: u32, note_type: NoteType) -> (r: bool)
    ensures
        r == tag_allows(tag, note_type),
{
    let t = match note_type {
        NoteType::Private => miden_objects::notes::NoteType::Private,
        NoteType::Encrypted => miden_objects::notes::NoteType::Encrypted,
        NoteType::Public => miden_objects::notes::NoteType::Public,
    };
    miden_objects::notes::NoteTag::from(tag).validate(t).is_ok()
}

/// The routing tag of a note addressed to `target`.
pub fn note_tag(target: AccountId, mode: ExecutionMode) -> (r: Result<u32, ConstructionError>)
    requires
        target.wf(),
    ensures
        tag_for(target.value, mode) matches Some(t) ==> r == Ok::<u32, ConstructionError>(t),
        tag_for(target.value, mode) is None ==> r == Err::<u32, ConstructionError>(
            ConstructionError::InvalidMetadata,
        ),
{
    match derive_tag(target.value, mode) {
        Some(t) => Ok(t),
        None => Err(ConstructionError::InvalidMetadata),
    }
}

#[derive(Clone, Copy, Debug, PartialEq, Eq, Structural)]
pub struct NoteMetadata {
    pub sender: AccountId,
    pub note_type: NoteType,
    pub tag: u32,
    pub hint: ExecutionHint,
    pub aux: u64,
}

impl NoteMetadata {
    pub open spec fn wf(self) -> bool {
        tag_allows(self.tag, self.note_type)
    }

    pub fn new(sender: AccountId, note_type: NoteType, tag: u32, hint: ExecutionHint, aux: u64) -> (r:
        Result<NoteMetadata, ConstructionError>)
        ensures
            tag_allows(tag, note_type) ==> r == Ok::<NoteMetadata, ConstructionError>(
                NoteMetadata { sender, note_type, tag, hint, aux },
            ),
            !tag_allows(tag, note_type) ==> r == Err::<NoteMetadata, ConstructionError>(
                ConstructionError::InvalidMetadata,
            ),
    {
        if tag_accepts(tag, note_type) {
            Ok(NoteMetadata { sender, note_type, tag, hint, aux })
        } else {
            Err(ConstructionError::InvalidMetadata)
        }
    }
}

/// What RPO-256 hashes a sequence of field elements to.
pub uninterp spec fn rpo_digest(elems: Seq<u64>) -> Seq<u64>;

/// The ledger's commitment to a vault's assets.
pub uninterp spec fn ledger_asset_commitment(vault: Seq<Asset>) -> Seq<u64>;

/// The identifier the ledger gives a note with this asset commitment, serial
/// number, script source and inputs.
pub uninterp spec fn ledger_note_id(
    commitment: Seq<u64>,
    serial_num: Seq<u64>,
    source: Seq<char>,
    inputs: Seq<u64>,
) -> Seq<u64>;

/// Whether a note script's source assembles.
pub uninterp spec fn script_compiles(source: Seq<char>) -> bool;

/// Relies on miden_objects' `Hasher::hash_elements` (RPO-256): a four-element digest
/// that depends on the elements alone.
#[verifier::external_body]
pub(crate) fn hash_elements(elems: &Vec<u64>) -> (r: Word)
    ensures
        r@ == rpo_digest(elems@),
{
    let felts: Vec<miden_objects::Felt> = elems.iter().map(|e| Felt::new(*e)).collect();
    let digest = miden_objects::Hasher::hash_elements(&felts);
    let e = digest.as_elements();
    Word { a: e[0].as_int(), b: e[1].as_int(), c: e[2].as_int(), d: e[3].as_int() }
}


/// At most `MAX_ASSETS_PER_NOTE` assets, no two from the same issuer.
pub open spec fn vault_valid(v: Seq<Asset>) -> bool {
    &&& v.len() <= MAX_ASSETS_PER_NOTE
    &&& forall|i: int, j: int|
        0 <= i < j < v.len() ==> (#[trigger] v[i]).faucet_id != (#[trigger] v[j]).faucet_id
}

pub fn check_vault(v: &Vec<Asset>) -> (r: bool)
    ensures
        r == vault_valid(v@),
{
    if v.len() > MAX_ASSETS_PER_NOTE {
        return false;
    }
    let mut j: usize = 1;
    while j < v.len()
        invariant
            1 <= j <= v.len() || v.len() == 0,
            forall|a: int, b: int|
                0 <= a < b < j && b < v.len() ==> (#[trigger] v@[a]).faucet_id != (#[trigger] v@[b]).faucet_id,
        decreases v.len() - j,
    {
        let mut i: usize = 0;
        while i < j
            invariant
                0 <= i <= j < v.len(),
                forall|a: int| 0 <= a < i ==> (#[trigger] v@[a]).faucet_id != v@[j as int].faucet_id,
            decreases j - i,
        {
            if v[i].faucet_id.value == v[j].faucet_id.value {
                return false;
            }
            i = i + 1;
        }
        j = j + 1;
    }
    true
}


/// Every asset is a valid fungible asset.
pub open spec fn assets_valid(v: Seq<Asset>) -> bool {
    forall|i: int| 0 <= i < v.len() ==> asset_valid((#[trigger] v[i]).faucet_id, v[i].amount)
}

pub fn check_assets(v: &Vec<Asset>) -> (r: bool)
    ensures
        r == assets_valid(v@),
{
    let mut i: usize = 0;
    while i < v.len()
        invariant
            i <= v@.len(),
            forall|k: int| 0 <= k < i ==> asset_valid((#[trigger] v@[k]).faucet_id, v@[k].amount),
        decreases v.len() - i,
    {
        if Asset::new(v[i].faucet_id, v[i].amount).is_err() {
            return false;
        }
        i = i + 1;
    }
    true
}

/// Relies on miden_objects' `NoteAssets::new` and `NoteAssets::commitment`: the
/// commitment to a valid vault's assets, which depends on the assets alone.
#[verifier::external_body]
fn asset_commitment(vault: &Vec<Asset>) -> (r: Word)
    requires
        vault_valid(vault@),
        assets_valid(vault@),
    ensures
        r@ == ledger_asset_commitment(vault@),
{
    let id = |v: u64| LedgerAccountId::new_unchecked(Felt::new(v));
    let assets = vault.iter().map(|a| FungibleAsset::new(id(a.faucet_id.value), a.amount).unwrap().into());
    let [a, b, c, d]: [u64; 4] = NoteAssets::new(assets.collect()).unwrap().commitment().into();
    Word { a, b, c, d }
}

/// Relies on miden_objects' `NoteInputs::new`, `NoteScript::compile` (default
/// assembler), `NoteRecipient::new` and `NoteId::new`: the ledger's note
/// identifier, from the recipient's digest and the assets' commitment. It exists
/// exactly when the script assembles, and depends on the arguments alone.
#[verifier::external_body]
fn note_id_from_ledger(commitment: Word, serial_num: Word, source: &str, inputs: &Vec<u64>) -> (r:
    Option<Word>)
    requires
        inputs@.len() <= MAX_INPUTS_PER_NOTE,
    ensures
        r is Some <==> script_compiles(source@),
        r matches Some(w) ==> w@ == ledger_note_id(commitment@, serial_num@, source@, inputs@),
{
    let inputs = NoteInputs::new(inputs.iter().map(|v| Felt::new(*v)).collect()).unwrap();
    let script = NoteScript::compile(source, Assembler::default()).ok()?;
    let serial = [serial_num.a, serial_num.b, serial_num.c, serial_num.d].map(Felt::new);
    let assets = Digest::new([commitment.a, commitment.b, commitment.c, commitment.d].map(Felt::new));
    let recipient = LedgerRecipient::new(serial, script, inputs);
    let [a, b, c, d]: [u64; 4] = NoteId::new(recipient.digest(), assets).inner().into();
    Some(Word { a, b, c, d })
}

/// The serial number, script and inputs that decide who can consume a note and how.
#[derive(Clone, Debug)]
pub struct NoteRecipient {
    pub serial_num: Word,
    pub script: String,
    pub inputs: Vec<u64>,
}

/// A note: its vault, metadata and recipient, with the identifier the ledger gives it.
#[derive(Clone, Debug)]
pub struct Note {
    pub vault: Vec<Asset>,
    pub metadata: NoteMetadata,
    pub recipient: NoteRecipient,
    pub id: Word,
}

/// `n` holds these parts and the identifier `id`.
pub open spec fn note_holds(
    n: Note,
    vault: Seq<Asset>,
    metadata: NoteMetadata,
    recipient: NoteRecipient,
    id: Word,
) -> bool {
    &&& n.vault@ == vault
    &&& n.metadata == metadata
    &&& n.recipient.serial_num == recipient.serial_num
    &&& n.recipient.script@ == recipient.script@
    &&& n.recipient.inputs@ == recipient.inputs@
    &&& n.id == id
}

/// `n` is the note built from a vault, metadata and recipient, its identifier
/// the ledger's.
pub open spec fn note_built_from(
    n: Note,
    vault: Seq<Asset>,
    metadata: NoteMetadata,
    recipient: NoteRecipient,
) -> bool {
    &&& note_holds(n, vault, metadata, recipient, n.id)
    &&& n.id@ == ledger_note_id(
        ledger_asset_commitment(vault),
        recipient.serial_num@,
        recipient.script@,
        recipient.inputs@,
    )
}

/// The parts of a note are acceptable: valid assets in a valid vault, metadata
/// whose tag allows its note type, and at most `MAX_INPUTS_PER_NOTE` inputs.
pub open spec fn parts_valid(vault: Seq<Asset>, metadata: NoteMetadata, inputs: Seq<u64>) -> bool {
    assets_valid(vault) && vault_valid(vault) && metadata.wf() && inputs.len() <= MAX_INPUTS_PER_NOTE
}

/// The error for unacceptable parts, checked in the order assets, vault,
/// metadata, inputs.
pub open spec fn parts_error(vault: Seq<Asset>, metadata: NoteMetadata) -> ConstructionError {
    if !assets_valid(vault) {
        ConstructionError::InvalidAsset
    } else if !vault_valid(vault) {
        ConstructionError::InvalidVault
    } else if !metadata.wf() {
        ConstructionError::InvalidMetadata
    } else {
        ConstructionError::TooManyInputs
    }
}

fn check_parts(vault: &Vec<Asset>, metadata: &NoteMetadata, inputs: &Vec<u64>) -> (r: Result<
    (),
    ConstructionError,
>)
    ensures
        parts_valid(vault@, *metadata, inputs@) ==> r is Ok,
        !parts_valid(vault@, *metadata, inputs@) ==> r == Err::<(), ConstructionError>(
            parts_error(vault@, *metadata),
        ),
{
    if !check_assets(vault) {
        return Err(ConstructionError::InvalidAsset);
    }
    if !check_vault(vault) {
        return Err(ConstructionError::InvalidVault);
    }
    if !tag_accepts(metadata.tag, metadata.note_type) {
        return Err(ConstructionError::InvalidMetadata);
    }
    if inputs.len() > MAX_INPUTS_PER_NOTE {
        return Err(ConstructionError::TooManyInputs);
    }
    Ok(())
}

/// Assembles a note from its parts and the identifier the ledger gave it.
pub fn assemble_note(vault: Vec<Asset>, metadata: NoteMetadata, recipient: NoteRecipient, id: Word) -> (r:
    Result<Note, ConstructionError>)
    ensures
        !parts_valid(vault@, metadata, recipient.inputs@) ==> r == Err::<Note, ConstructionError>(
            parts_error(vault@, metadata),
        ),
        parts_valid(vault@, metadata, recipient.inputs@) ==> (r matches Ok(n) && note_holds(
            n,
            vault@,
            metadata,
            recipient,
            id,
        )),
{
    if let Err(e) = check_parts(&vault, &metadata, &recipient.inputs) {
        return Err(e);
    }
    Ok(Note { vault, metadata, recipient, id })
}

/// Builds a note: checks its parts, compiles the recipient's script and takes
/// the note's identifier from the ledger library.
pub fn build_note(vault: Vec<Asset>, metadata: NoteMetadata, recipient: NoteRecipient) -> (r: Result<
    Note,
    ConstructionError,
>)
    ensures
        !parts_valid(vault@, metadata, recipient.inputs@) ==> r == Err::<Note, ConstructionError>(
            parts_error(vault@, metadata),
        ),
        parts_valid(vault@, metadata, recipient.inputs@) && !script_compiles(recipient.script@)
            ==> r == Err::<Note, ConstructionError>(ConstructionError::ScriptCompilationError),
        parts_valid(vault@, metadata, recipient.inputs@) && script_compiles(recipient.script@) ==> (
        r matches Ok(n) && note_built_from(n, vault@, metadata, recipient)),
{
    if let Err(e) = check_parts(&vault, &metadata, &recipient.inputs) {
        return Err(e);
    }
    let commitment = asset_commitment(&vault);
    let id = match note_id_from_ledger(commitment, recipient.serial_num, recipient.script.as_str(), &recipient.inputs) {
        Some(w) => w,
        None => return Err(ConstructionError::ScriptCompilationError),
    };
    assemble_note(vault, metadata, recipient, id)
}

/// Building a note is deterministic: two notes built from the same vault,
/// metadata and recipient have the same identifier.
pub proof fn lemma_note_id_deterministic(
    vault: Seq<Asset>,
    metadata: NoteMetadata,
    recipient: NoteRecipient,
    n1: Note,
    n2: Note,
)
    requires
        note_built_from(n1, vault, metadata, recipient),
        note_built_from(n2, vault, metadata, recipient),
    ensures
        n1.id == n2.id,
{
    assert(n1.id@[0] == n2.id@[0]);
    assert(n1.id@[1] == n2.id@[1]);
    assert(n1.id@[2] == n2.id@[2]);
    assert(n1.id@[3] == n2.id@[3]);
}

} // verus!
