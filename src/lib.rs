//! Client-side construction of notes, accounts and transaction requests for a
//! note-based ledger, with the decision logic that sequences them against an
//! eventually-consistent backend.

mod accounts;
mod config;
mod ids;
mod notes;
mod poll;
mod requests;
mod workflow;

pub use accounts::{
    compile_account, AccountDefinition, AccountType, CodeComponent, MAX_NUM_PROCEDURES,
};
pub use config::{ClientConfig, ProverChoice};
pub use ids::{AccountId, IdError, FIELD_MODULUS};
pub use notes::{
    assemble_note, build_note, check_assets, check_vault, note_tag, Asset, ConstructionError, ExecutionHint,
    ExecutionMode, Note, NoteMetadata, NoteRecipient, NoteType, Word, MAX_ASSETS_PER_NOTE,
    MAX_ASSET_AMOUNT, MAX_INPUTS_PER_NOTE,
};
pub use poll::{PollAction, PollEvent, PollPhase, Poller};
pub use requests::{check_distinct, consume_notes, mint, pay_to_id, RequestLog, SerialSource, TransactionRequest};
pub use workflow::{
    after_submission, consume_when_ready, mint_notes, Faucet, SubmitDecision, SubmitOutcome,
};
