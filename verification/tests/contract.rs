use synapse_contract::{ContractError, SynapseContract};

fn generate(tag: &str) -> String {
    format!("G{:A>55}", tag)
}

fn setup() -> (String, SynapseContract) {
    let mut client = SynapseContract::new();
    let admin = generate("ADMIN");
    client.initialize(admin.clone()).unwrap();
    (admin, client)
}

fn usd() -> String {
    "USD".to_string()
}

/// A contract with an administrator, one relayer and USD on the allowlist.
fn setup_with_relayer() -> (String, String, SynapseContract) {
    let (admin, mut client) = setup();
    let relayer = generate("RELAYER");
    client.grant_relayer(&admin, relayer.clone()).unwrap();
    client.add_asset(&admin, usd()).unwrap();
    (admin, relayer, client)
}

// ---------------------------------------------------------------------------
// Init
// ---------------------------------------------------------------------------

#[test]
fn initialize_sets_admin() {
    let (admin, mut client) = setup();
    // Only the administrator can take administrator actions.
    assert_eq!(client.pause(&admin), Ok(()));
}

#[test]
fn initialize_twice_panics() {
    let (admin, mut client) = setup();
    assert_eq!(client.initialize(admin), Err(ContractError::AlreadyInitialized));
}

// ---------------------------------------------------------------------------
// Access control
// ---------------------------------------------------------------------------

#[test]
fn grant_and_revoke_relayer() {
    let (admin, mut client) = setup();
    let relayer = generate("R1");
    client.grant_relayer(&admin, relayer.clone()).unwrap();
    assert!(client.is_relayer(&relayer));
    client.revoke_relayer(&admin, &relayer).unwrap();
    assert!(!client.is_relayer(&relayer));
}

#[test]
fn grant_relayer_rejects_zero_address() {
    let (admin, mut client) = setup();
    let zero = "GAAAAAAAAAAAAAAAAAAAAAAAAAAAAAAAAAAAAAAAAAAAAAAAAAAAAWHF".to_string();
    assert_eq!(
        client.grant_relayer(&admin, zero.clone()),
        Err(ContractError::InvalidRelayerAddress)
    );
    assert!(!client.is_relayer(&zero));
}

#[test]
fn non_admin_cannot_grant_relayer() {
    let (_, mut client) = setup();
    let rando = generate("RANDO");
    assert_eq!(
        client.grant_relayer(&rando, rando.clone()),
        Err(ContractError::Unauthorized)
    );
    assert!(!client.is_relayer(&rando));
}

#[test]
fn pause_and_unpause() {
    let (admin, mut client) = setup();
    client.pause(&admin).unwrap();
    client.unpause(&admin).unwrap();
}

#[test]
fn mutating_call_while_paused_panics() {
    let (admin, mut client) = setup();
    let relayer = generate("R1");
    client.grant_relayer(&admin, relayer.clone()).unwrap();
    client.add_asset(&admin, usd()).unwrap();
    client.pause(&admin).unwrap();
    assert_eq!(
        client.register_deposit(
            &relayer,
            "a1".to_string(),
            generate("DEPOSITOR"),
            100_000_000,
            usd(),
            1,
        ),
        Err(ContractError::ContractPaused)
    );
}

// ---------------------------------------------------------------------------
// Asset allowlist
// ---------------------------------------------------------------------------

#[test]
fn add_and_remove_asset() {
    let (admin, mut client) = setup();
    client.add_asset(&admin, usd()).unwrap();
    assert!(client.is_asset_allowed(&usd()));
    client.remove_asset(&admin, usd()).unwrap();
    assert!(!client.is_asset_allowed(&usd()));
}

#[test]
fn register_deposit_rejects_unlisted_asset() {
    let (admin, mut client) = setup();
    let relayer = generate("R1");
    client.grant_relayer(&admin, relayer.clone()).unwrap();
    assert_eq!(
        client.register_deposit(
            &relayer,
            "a1".to_string(),
            generate("DEPOSITOR"),
            100_000_000,
            usd(),
            1,
        ),
        Err(ContractError::AssetNotAllowed)
    );
}

// ---------------------------------------------------------------------------
// Deposit registration
// ---------------------------------------------------------------------------

#[test]
fn register_deposit_returns_tx_id() {
    let (_, relayer, mut client) = setup_with_relayer();
    let anchor_id = "anchor-001".to_string();
    let tx_id = client
        .register_deposit(&relayer, anchor_id, generate("DEPOSITOR"), 100_000_000, usd(), 1)
        .unwrap();
    let tx = client.get_transaction(tx_id).unwrap();
    assert_eq!(tx.amount, 100_000_000);
}

#[test]
fn register_deposit_is_idempotent() {
    let (_, relayer, mut client) = setup_with_relayer();
    let anchor_id = "anchor-001".to_string();
    let depositor = generate("DEPOSITOR");
    let id1 = client
        .register_deposit(&relayer, anchor_id.clone(), depositor.clone(), 100_000_000, usd(), 1)
        .unwrap();
    let id2 = client
        .register_deposit(&relayer, anchor_id, depositor, 100_000_000, usd(), 2)
        .unwrap();
    assert_eq!(id1, id2);
}

#[test]
fn register_deposit_rejects_non_relayer() {
    let (admin, mut client) = setup();
    client.add_asset(&admin, usd()).unwrap();
    assert_eq!(
        client.register_deposit(
            &admin,
            "a1".to_string(),
            generate("DEPOSITOR"),
            100_000_000,
            usd(),
            1,
        ),
        Err(ContractError::NotRelayer)
    );
}

// ---------------------------------------------------------------------------
// Transaction lifecycle
// ---------------------------------------------------------------------------

#[test]
fn full_lifecycle_pending_to_completed() {
    let (_, relayer, mut client) = setup_with_relayer();
    let tx_id = client
        .register_deposit(&relayer, "a1".to_string(), generate("DEPOSITOR"), 50_000_000, usd(), 1)
        .unwrap();
    client.mark_processing(&relayer, tx_id, 2).unwrap();
    client.mark_completed(&relayer, tx_id, 3).unwrap();
}

#[test]
fn mark_failed_creates_dlq_entry() {
    let (_, relayer, mut client) = setup_with_relayer();
    let tx_id = client
        .register_deposit(&relayer, "a2".to_string(), generate("DEPOSITOR"), 50_000_000, usd(), 1)
        .unwrap();
    client.mark_failed(&relayer, tx_id, "horizon timeout".to_string(), 2).unwrap();
}

// ---------------------------------------------------------------------------
// DLQ retry
// ---------------------------------------------------------------------------

#[test]
fn retry_dlq_panics_until_implemented() {
    let (admin, mut client) = setup();
    assert_eq!(client.retry_dlq(&admin, 0), Err(ContractError::NotImplemented));
}

// ---------------------------------------------------------------------------
// Settlement
// ---------------------------------------------------------------------------

#[test]
fn finalize_settlement_stores_record() {
    let (_, relayer, mut client) = setup_with_relayer();
    let tx_id = client
        .register_deposit(&relayer, "a3".to_string(), generate("DEPOSITOR"), 100_000_000, usd(), 1)
        .unwrap();
    client.mark_processing(&relayer, tx_id, 2).unwrap();
    client.mark_completed(&relayer, tx_id, 3).unwrap();
    let s_id = client
        .finalize_settlement(&relayer, usd(), vec![tx_id], 100_000_000, 0u64, 1u64, 4)
        .unwrap();
    let s = client.get_settlement(s_id).unwrap();
    assert_eq!(s.total_amount, 100_000_000);
}
