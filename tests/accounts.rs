use miden_flow::{
    compile_account, AccountType, ClientConfig, CodeComponent, ConstructionError, ProverChoice,
    Word,
};

fn root(n: u64) -> Word {
    Word { a: n, b: n + 1, c: n + 2, d: n + 3 }
}

#[test]
fn account_counts_procedures() {
    let c = CodeComponent::new(vec![root(1), root(10), root(20)]).with_supports_all_types();
    let d = compile_account(vec![c], AccountType::RegularAccountUpdatableCode).unwrap();
    assert_eq!(d.num_procedures(), 3);
    assert_eq!(d.account_type, AccountType::RegularAccountUpdatableCode);
}

#[test]
fn components_must_support_the_account_type() {
    let a = CodeComponent::new(vec![root(1)]).with_supported_type(AccountType::FungibleFaucet);
    let b = CodeComponent::new(vec![root(2)]).with_supported_type(AccountType::FungibleFaucet);
    let d = compile_account(vec![a.clone(), b], AccountType::FungibleFaucet).unwrap();
    assert_eq!(d.procedures, vec![root(1), root(2)]);
    let c = CodeComponent::new(vec![root(3)]);
    let r = compile_account(vec![a, c], AccountType::FungibleFaucet);
    assert_eq!(r.err(), Some(ConstructionError::UnsupportedAccountType { component: 1 }));
    assert!(!CodeComponent::new(vec![]).supports_type(AccountType::FungibleFaucet));
}

#[test]
fn colliding_procedures_conflict() {
    let a = CodeComponent::new(vec![root(1), root(2)]).with_supports_all_types();
    let b = CodeComponent::new(vec![root(3)]).with_supports_all_types();
    let c = CodeComponent::new(vec![root(2)]).with_supports_all_types();
    let r = compile_account(vec![a, b, c], AccountType::RegularAccountImmutableCode);
    assert_eq!(r.err(), Some(ConstructionError::ProcedureConflict { component: 2 }));
}

#[test]
fn prover_follows_config() {
    let mut cfg = ClientConfig {
        rpc_endpoint: "http://localhost:57291".to_string(),
        store_path: "store.sqlite3".to_string(),
        default_account_id: None,
        token_symbol_map_filepath: "token_symbol_map.toml".to_string(),
        remote_prover_endpoint: None,
    };
    assert_eq!(cfg.prover(), ProverChoice::Local);
    cfg.remote_prover_endpoint = Some("http://prover:8082".to_string());
    assert_eq!(cfg.prover(), ProverChoice::Remote { endpoint: "http://prover:8082".to_string() });
}

#[test]
fn account_needs_a_procedure() {
    let r = compile_account(vec![], AccountType::RegularAccountUpdatableCode);
    assert_eq!(r.err(), Some(ConstructionError::NoProcedures));
    let r = compile_account(vec![CodeComponent::new(vec![]).with_supports_all_types()], AccountType::FungibleFaucet);
    assert_eq!(r.err(), Some(ConstructionError::NoProcedures));
}

#[test]
fn account_holds_at_most_256_procedures() {
    let full: Vec<Word> = (0..256u64).map(|n| root(4 * n)).collect();
    assert!(compile_account(vec![CodeComponent::new(full.clone()).with_supports_all_types()], AccountType::FungibleFaucet).is_ok());
    let r = compile_account(
        vec![
            CodeComponent::new(full).with_supports_all_types(),
            CodeComponent::new(vec![root(5000)]).with_supports_all_types(),
        ],
        AccountType::FungibleFaucet,
    );
    assert_eq!(r.err(), Some(ConstructionError::TooManyProcedures));
}
