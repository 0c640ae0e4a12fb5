use miden_flow::{after_submission, SubmitDecision, SubmitOutcome};
use miden_flow::{
    consume_notes, consume_when_ready, mint, mint_notes, pay_to_id, AccountId, Asset,
    ConstructionError, Faucet, NoteType, PollAction, PollEvent, PollPhase, Poller, RequestLog,
    SerialSource, TransactionRequest, Word,
};

fn id(s: &str) -> AccountId {
    AccountId::from_hex(s).unwrap()
}

fn seed() -> Word {
    Word { a: 11, b: 22, c: 33, d: 44 }
}

fn note(n: u64) -> Word {
    Word { a: n, b: 0, c: 0, d: 0 }
}

#[test]
fn mint_zero_is_invalid_amount() {
    let mut rng = SerialSource::new(seed());
    let asset = Asset { faucet_id: id("0x2a021ef7df708360"), amount: 0 };
    let r = mint(asset, 1_000_000, id("0x8d03743cf76f4a95"), NoteType::Private, &mut rng);
    assert_eq!(r.err(), Some(ConstructionError::InvalidAmount));
    assert_eq!(rng.counter, 0);
}

#[test]
fn mint_over_supply_is_invalid_amount() {
    let mut rng = SerialSource::new(seed());
    let asset = Asset::new(id("0x2a021ef7df708360"), 101).unwrap();
    let r = mint(asset, 100, id("0x8d03743cf76f4a95"), NoteType::Private, &mut rng);
    assert_eq!(r.err(), Some(ConstructionError::InvalidAmount));
}

#[test]
fn mint_within_supply_succeeds() {
    let mut rng = SerialSource::new(seed());
    let asset = Asset::new(id("0x2a021ef7df708360"), 100).unwrap();
    let r = mint(asset, 100, id("0x8d03743cf76f4a95"), NoteType::Private, &mut rng).unwrap();
    match r {
        TransactionRequest::Mint { asset: a, target, note_type, serial_num } => {
            assert_eq!(a, asset);
            assert_eq!(target, id("0x8d03743cf76f4a95"));
            assert_eq!(note_type, NoteType::Private);
            assert_ne!(serial_num, seed());
        }
        _ => panic!("expected a mint request"),
    }
    assert_eq!(rng.counter, 1);
}

#[test]
fn consume_nothing_is_empty_note_set() {
    assert_eq!(consume_notes(vec![]).err(), Some(ConstructionError::EmptyNoteSet));
}

#[test]
fn consume_single_note_succeeds() {
    match consume_notes(vec![note(7)]).unwrap() {
        TransactionRequest::ConsumeNotes { note_ids } => assert_eq!(note_ids, vec![note(7)]),
        _ => panic!("expected a consume request"),
    }
}

#[test]
fn pay_nothing_is_empty_asset_list() {
    let mut rng = SerialSource::new(seed());
    let r = pay_to_id(
        vec![],
        id("0x80ed046bc511a83c"),
        id("0x8d03743cf76f4a95"),
        None,
        NoteType::Private,
        &mut rng,
    );
    assert_eq!(r.err(), Some(ConstructionError::EmptyAssetList));
}

#[test]
fn pay_to_id_fields_round_trip() {
    let faucet = id("0x2a021ef7df708360");
    let sender = id("0x80ed046bc511a83c");
    let target = id("0x8d03743cf76f4a95");
    let asset = Asset::new(faucet, 3).unwrap();
    let mut rng = SerialSource::new(seed());
    let r = pay_to_id(vec![asset], sender, target, None, NoteType::Private, &mut rng).unwrap();
    match r {
        TransactionRequest::PayToId { assets, sender: s, target: t, recall_height, note_type, .. } => {
            assert_eq!(assets.len(), 1);
            assert_eq!(
                (assets[0].faucet_id, assets[0].amount, s, t, note_type, recall_height),
                (faucet, 3, sender, target, NoteType::Private, None)
            );
        }
        _ => panic!("expected a payment request"),
    }
}

#[test]
fn reused_seed_is_flagged() {
    let asset = Asset::new(id("0x2a021ef7df708360"), 3).unwrap();
    let sender = id("0x80ed046bc511a83c");
    let target = id("0x8d03743cf76f4a95");
    let mut first_rng = SerialSource::new(seed());
    let mut second_rng = SerialSource::new(seed());
    let a = pay_to_id(vec![asset], sender, target, None, NoteType::Private, &mut first_rng).unwrap();
    let b = pay_to_id(vec![asset], sender, target, None, NoteType::Private, &mut second_rng).unwrap();
    let mut log = RequestLog::new();
    assert_eq!(log.record(&a), Ok(()));
    assert_eq!(log.record(&b), Err(ConstructionError::SerialReuse));
    assert_eq!(log.used.len(), 1);
}

#[test]
fn one_source_gives_fresh_serials() {
    let asset = Asset::new(id("0x2a021ef7df708360"), 3).unwrap();
    let sender = id("0x80ed046bc511a83c");
    let target = id("0x8d03743cf76f4a95");
    let mut rng = SerialSource::new(seed());
    let a = pay_to_id(vec![asset], sender, target, None, NoteType::Private, &mut rng).unwrap();
    let b = pay_to_id(vec![asset], sender, target, None, NoteType::Private, &mut rng).unwrap();
    let mut log = RequestLog::new();
    assert_eq!(log.record(&a), Ok(()));
    assert_eq!(log.record(&b), Ok(()));
    assert_eq!(log.record(&consume_notes(vec![note(1)]).unwrap()), Ok(()));
    assert_eq!(log.used.len(), 2);
}

#[test]
fn mint_five_then_consume_five() {
    let faucet_id = id("0x2a021ef7df708360");
    let alice = id("0x8d03743cf76f4a95");
    let mut faucet = Faucet::new(faucet_id, 1_000_000);
    let mut rng = SerialSource::new(seed());
    let reqs = mint_notes(&mut faucet, 100, 5, alice, NoteType::Private, &mut rng).unwrap();
    assert_eq!(reqs.len(), 5);
    for r in &reqs {
        match r {
            TransactionRequest::Mint { asset, target, .. } => {
                assert_eq!(*asset, Asset { faucet_id, amount: 100 });
                assert_eq!(*target, alice);
            }
            _ => panic!("expected a mint request"),
        }
    }
    assert_eq!(faucet.issued, 500);
    assert_eq!(faucet.remaining(), 999_500);

    let mut poller = Poller::new(5, Some(10));
    assert_eq!(poller.step(PollEvent::Started), PollAction::Sync);
    assert_eq!(poller.step(PollEvent::SyncCompleted), PollAction::EvaluatePredicate);
    assert_eq!(poller.step(PollEvent::Observed { value: 3 }), PollAction::Sleep);
    assert_eq!(poller.step(PollEvent::Slept), PollAction::Sync);
    assert_eq!(poller.step(PollEvent::SyncCompleted), PollAction::EvaluatePredicate);
    assert_eq!(poller.step(PollEvent::Observed { value: 5 }), PollAction::Proceed);
    assert_eq!(poller.phase, PollPhase::Satisfied);

    let ids: Vec<Word> = (1..=5).map(note).collect();
    assert!(consume_when_ready(ids[..4].to_vec(), 5).is_none());
    match consume_when_ready(ids.clone(), 5).unwrap() {
        TransactionRequest::ConsumeNotes { note_ids } => assert_eq!(note_ids, ids),
        _ => panic!("expected a consume request"),
    }
}

#[test]
fn mint_batch_over_supply_builds_nothing() {
    let mut faucet = Faucet::new(id("0x2a021ef7df708360"), 450);
    let mut rng = SerialSource::new(seed());
    let r = mint_notes(&mut faucet, 100, 5, id("0x8d03743cf76f4a95"), NoteType::Private, &mut rng);
    assert_eq!(r.err(), Some(ConstructionError::InvalidAmount));
    assert_eq!(faucet.issued, 0);
    assert_eq!(rng.counter, 0);
}

#[test]
fn mint_batch_from_non_faucet_is_invalid_asset() {
    let mut faucet = Faucet::new(id("0x8d03743cf76f4a95"), 450);
    let mut rng = SerialSource::new(seed());
    let r = mint_notes(&mut faucet, 1, 1, id("0x8d03743cf76f4a95"), NoteType::Private, &mut rng);
    assert_eq!(r.err(), Some(ConstructionError::InvalidAsset));
}

#[test]
fn observation_before_sync_is_ignored() {
    let mut poller = Poller::new(5, None);
    assert_eq!(poller.step(PollEvent::Observed { value: 5 }), PollAction::Ignore);
    assert_eq!(poller.step(PollEvent::Started), PollAction::Sync);
    assert_eq!(poller.step(PollEvent::Observed { value: 5 }), PollAction::Ignore);
    assert_eq!(poller.phase, PollPhase::Syncing);
    assert_eq!(poller.step(PollEvent::SyncFailed), PollAction::Sleep);
    assert_eq!(poller.step(PollEvent::Slept), PollAction::Sync);
    assert_eq!(poller.attempts, 2);
}

#[test]
fn bounded_wait_gives_up() {
    let mut poller = Poller::new(5, Some(2));
    assert_eq!(poller.step(PollEvent::Started), PollAction::Sync);
    assert_eq!(poller.step(PollEvent::SyncCompleted), PollAction::EvaluatePredicate);
    assert_eq!(poller.step(PollEvent::Observed { value: 0 }), PollAction::Sleep);
    assert_eq!(poller.step(PollEvent::Slept), PollAction::Sync);
    assert_eq!(poller.step(PollEvent::SyncCompleted), PollAction::EvaluatePredicate);
    assert_eq!(poller.step(PollEvent::Observed { value: 4 }), PollAction::Sleep);
    assert_eq!(poller.step(PollEvent::Slept), PollAction::GiveUp);
    assert_eq!(poller.phase, PollPhase::Exhausted);
}

#[test]
fn stale_submission_is_retried_once() {
    assert_eq!(after_submission(SubmitOutcome::Accepted, false), SubmitDecision::Continue);
    assert_eq!(after_submission(SubmitOutcome::StaleState, false), SubmitDecision::ResyncAndRetry);
    assert_eq!(after_submission(SubmitOutcome::StaleState, true), SubmitDecision::Abort);
    assert_eq!(after_submission(SubmitOutcome::Rejected, false), SubmitDecision::Abort);
}

#[test]
fn mint_of_invalid_asset_is_refused() {
    let mut rng = SerialSource::new(seed());
    let asset = Asset { faucet_id: id("0x8d03743cf76f4a95"), amount: 10 };
    let r = mint(asset, 100, id("0x8d03743cf76f4a95"), NoteType::Private, &mut rng);
    assert_eq!(r.err(), Some(ConstructionError::InvalidAsset));
    assert_eq!(rng.counter, 0);
}

#[test]
fn payment_needs_a_valid_vault() {
    let faucet = id("0x2a021ef7df708360");
    let sender = id("0x80ed046bc511a83c");
    let target = id("0x8d03743cf76f4a95");
    let mut rng = SerialSource::new(seed());
    let asset = Asset::new(faucet, 3).unwrap();
    let r = pay_to_id(vec![asset, asset], sender, target, None, NoteType::Private, &mut rng);
    assert_eq!(r.err(), Some(ConstructionError::InvalidVault));
    let bad = Asset { faucet_id: sender, amount: 3 };
    let r = pay_to_id(vec![bad], sender, target, None, NoteType::Private, &mut rng);
    assert_eq!(r.err(), Some(ConstructionError::InvalidAsset));
    assert_eq!(rng.counter, 0);
}

#[test]
fn consume_refuses_duplicate_ids() {
    assert_eq!(
        consume_notes(vec![note(1), note(2), note(1)]).err(),
        Some(ConstructionError::DuplicateNoteId)
    );
    assert!(consume_when_ready(vec![note(1), note(1)], 2).is_none());
}
