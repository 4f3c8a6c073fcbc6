use synapse_contract::{
    ContractError, ContractParts, DlqEntry, Event, Settlement, SynapseContract, Transaction,
    TransactionStatus, ZERO_ADDRESS,
};

fn account(tag: &str) -> String {
    format!("G{:A>55}", tag)
}

fn ready() -> (String, String, SynapseContract) {
    let mut c = SynapseContract::new();
    let admin = account("ADMIN");
    let relayer = account("RELAYER");
    c.initialize(admin.clone()).unwrap();
    c.grant_relayer(&admin, relayer.clone()).unwrap();
    c.add_asset(&admin, "USD".to_string()).unwrap();
    (admin, relayer, c)
}

#[test]
fn admin_actions_before_initialize_are_refused() {
    let mut c = SynapseContract::new();
    let someone = account("X");
    assert_eq!(c.pause(&someone), Err(ContractError::NotInitialized));
    assert_eq!(c.add_asset(&someone, "USD".to_string()), Err(ContractError::NotInitialized));
    assert_eq!(c.retry_dlq(&someone, 0), Err(ContractError::NotInitialized));
    assert!(!c.is_asset_allowed(&"USD".to_string()));
}

#[test]
fn admin_actions_refused_to_others() {
    let (admin, relayer, mut c) = ready();
    let other = account("OTHER");
    assert_eq!(c.revoke_relayer(&other, &relayer), Err(ContractError::Unauthorized));
    assert!(c.is_relayer(&relayer));
    assert_eq!(c.transfer_admin(&other, other.clone()), Err(ContractError::Unauthorized));
    assert_eq!(c.pause(&other), Err(ContractError::Unauthorized));
    assert_eq!(c.unpause(&other), Err(ContractError::Unauthorized));
    assert_eq!(c.add_asset(&other, "EUR".to_string()), Err(ContractError::Unauthorized));
    assert!(!c.is_asset_allowed(&"EUR".to_string()));
    assert_eq!(c.remove_asset(&other, "USD".to_string()), Err(ContractError::Unauthorized));
    assert!(c.is_asset_allowed(&"USD".to_string()));
    assert_eq!(c.retry_dlq(&other, 0), Err(ContractError::Unauthorized));
    // The administrator is unaffected.
    assert_eq!(c.pause(&admin), Ok(()));
}

#[test]
fn transfer_admin_hands_over_the_role() {
    let (admin, _, mut c) = ready();
    let next = account("NEXT");
    c.transfer_admin(&admin, next.clone()).unwrap();
    assert_eq!(c.pause(&admin), Err(ContractError::Unauthorized));
    assert_eq!(c.pause(&next), Ok(()));
}

#[test]
fn zero_address_constant_is_the_all_zeros_account() {
    assert_eq!(ZERO_ADDRESS, "GAAAAAAAAAAAAAAAAAAAAAAAAAAAAAAAAAAAAAAAAAAAAAAAAAAAAWHF");
    let mut c = SynapseContract::new();
    // Refused even before initialization: the address check comes first.
    assert_eq!(
        c.grant_relayer(&account("X"), ZERO_ADDRESS.to_string()),
        Err(ContractError::InvalidRelayerAddress)
    );
}

#[test]
fn granting_twice_and_revoking_an_unknown_relayer() {
    let (admin, relayer, mut c) = ready();
    c.grant_relayer(&admin, relayer.clone()).unwrap();
    c.revoke_relayer(&admin, &relayer).unwrap();
    assert!(!c.is_relayer(&relayer));
    assert_eq!(c.revoke_relayer(&admin, &relayer), Ok(()));
    assert!(!c.is_relayer(&relayer));
}

#[test]
fn registered_deposit_is_read_back() {
    let (_, relayer, mut c) = ready();
    let depositor = account("DEP");
    let id = c
        .register_deposit(&relayer, "anchor-7".to_string(), depositor.clone(), 42, "USD".to_string(), 9)
        .unwrap();
    assert_eq!(id, 0);
    let tx: Transaction = c.get_transaction(id).unwrap();
    assert_eq!(tx.id, 0);
    assert_eq!(tx.anchor_transaction_id, "anchor-7");
    assert_eq!(tx.stellar_account, depositor);
    assert_eq!(tx.amount, 42);
    assert_eq!(tx.asset_code, "USD");
    assert_eq!(tx.status, TransactionStatus::Pending);
    assert_eq!(tx.created_ledger, 9);
    assert_eq!(tx.updated_ledger, 9);
    let id2 = c
        .register_deposit(&relayer, "anchor-8".to_string(), depositor, 43, "USD".to_string(), 10)
        .unwrap();
    assert_eq!(id2, 1);
}

#[test]
fn idempotent_registration_changes_nothing() {
    let (_, relayer, mut c) = ready();
    let id = c
        .register_deposit(&relayer, "a".to_string(), account("D1"), 5, "USD".to_string(), 1)
        .unwrap();
    c.take_events();
    let again = c
        .register_deposit(&relayer, "a".to_string(), account("D2"), 999, "USD".to_string(), 2)
        .unwrap();
    assert_eq!(again, id);
    let tx = c.get_transaction(id).unwrap();
    assert_eq!(tx.amount, 5);
    assert_eq!(tx.stellar_account, account("D1"));
    assert!(c.take_events().is_empty());
    assert_eq!(c.get_transaction(1).unwrap_err(), ContractError::TransactionNotFound);
}

#[test]
fn lifecycle_statuses_and_ledgers() {
    let (_, relayer, mut c) = ready();
    let id = c
        .register_deposit(&relayer, "a".to_string(), account("D"), 5, "USD".to_string(), 1)
        .unwrap();
    c.mark_processing(&relayer, id, 2).unwrap();
    let tx = c.get_transaction(id).unwrap();
    assert_eq!(tx.status, TransactionStatus::Processing);
    assert_eq!(tx.updated_ledger, 2);
    c.mark_completed(&relayer, id, 3).unwrap();
    let tx = c.get_transaction(id).unwrap();
    assert_eq!(tx.status, TransactionStatus::Completed);
    assert_eq!(tx.created_ledger, 1);
    assert_eq!(tx.updated_ledger, 3);
}

#[test]
fn status_changes_of_unknown_deposits_are_refused() {
    let (_, relayer, mut c) = ready();
    assert_eq!(c.mark_processing(&relayer, 0, 1), Err(ContractError::TransactionNotFound));
    assert_eq!(c.mark_completed(&relayer, 3, 1), Err(ContractError::TransactionNotFound));
    assert_eq!(
        c.mark_failed(&relayer, 7, "x".to_string(), 1),
        Err(ContractError::TransactionNotFound)
    );
    assert!(c.into_parts().dlq.is_empty());
}

#[test]
fn relayer_actions_refused_to_non_relayers_and_while_paused() {
    let (admin, relayer, mut c) = ready();
    let id = c
        .register_deposit(&relayer, "a".to_string(), account("D"), 5, "USD".to_string(), 1)
        .unwrap();
    let other = account("OTHER");
    assert_eq!(c.mark_processing(&other, id, 2), Err(ContractError::NotRelayer));
    assert_eq!(
        c.finalize_settlement(&other, "USD".to_string(), vec![id], 5, 0, 1, 2),
        Err(ContractError::NotRelayer)
    );
    c.pause(&admin).unwrap();
    assert_eq!(c.mark_processing(&relayer, id, 2), Err(ContractError::ContractPaused));
    assert_eq!(c.mark_completed(&relayer, id, 2), Err(ContractError::ContractPaused));
    assert_eq!(
        c.mark_failed(&relayer, id, "r".to_string(), 2),
        Err(ContractError::ContractPaused)
    );
    assert_eq!(
        c.finalize_settlement(&relayer, "USD".to_string(), vec![id], 5, 0, 1, 2),
        Err(ContractError::ContractPaused)
    );
    assert_eq!(c.get_transaction(id).unwrap().status, TransactionStatus::Pending);
    c.unpause(&admin).unwrap();
    assert_eq!(c.mark_processing(&relayer, id, 3), Ok(()));
}

#[test]
fn failed_deposit_enters_the_dead_letter_queue() {
    let (_, relayer, mut c) = ready();
    let id = c
        .register_deposit(&relayer, "a".to_string(), account("D"), 5, "USD".to_string(), 1)
        .unwrap();
    c.take_events();
    c.mark_failed(&relayer, id, "horizon timeout".to_string(), 4).unwrap();
    assert_eq!(c.get_transaction(id).unwrap().status, TransactionStatus::Failed);
    let events = c.take_events();
    assert_eq!(events.len(), 1);
    match &events[0] {
        Event::MovedToDlq(tx_id, reason) => {
            assert_eq!(*tx_id, id);
            assert_eq!(reason, "horizon timeout");
        }
        other => panic!("unexpected event {:?}", other),
    }
    let parts = c.into_parts();
    assert_eq!(parts.dlq.len(), 1);
    let entry: &DlqEntry = &parts.dlq[0];
    assert_eq!(entry.tx_id, id);
    assert_eq!(entry.error_reason, "horizon timeout");
    assert_eq!(entry.failed_ledger, 4);
}

#[test]
fn settlement_is_read_back() {
    let (_, relayer, mut c) = ready();
    let s_id = c
        .finalize_settlement(&relayer, "USD".to_string(), vec![4, 7], -3, 10, 20, 5)
        .unwrap();
    assert_eq!(s_id, 0);
    let s: Settlement = c.get_settlement(s_id).unwrap();
    assert_eq!(s.id, 0);
    assert_eq!(s.asset_code, "USD");
    assert_eq!(s.tx_ids, vec![4, 7]);
    assert_eq!(s.total_amount, -3);
    assert_eq!(s.period_start, 10);
    assert_eq!(s.period_end, 20);
    assert_eq!(s.created_ledger, 5);
    assert_eq!(c.get_settlement(1).unwrap_err(), ContractError::SettlementNotFound);
    let s_id2 = c
        .finalize_settlement(&relayer, "EUR".to_string(), vec![], 0, 0, 0, 6)
        .unwrap();
    assert_eq!(s_id2, 1);
}

#[test]
fn events_are_recorded_in_order_and_handed_out_once() {
    let (admin, relayer, mut c) = ready();
    let id = c
        .register_deposit(&relayer, "anc".to_string(), account("D"), 5, "USD".to_string(), 1)
        .unwrap();
    c.mark_processing(&relayer, id, 2).unwrap();
    c.mark_completed(&relayer, id, 3).unwrap();
    let s = c.finalize_settlement(&relayer, "USD".to_string(), vec![id], 5, 0, 1, 4).unwrap();
    c.remove_asset(&admin, "USD".to_string()).unwrap();
    let events = c.take_events();
    assert_eq!(events.len(), 6);
    assert!(matches!(&events[0], Event::AssetAdded(a) if a == "USD"));
    assert!(matches!(&events[1], Event::DepositRegistered(i, a) if *i == id && a == "anc"));
    assert!(matches!(&events[2], Event::StatusUpdated(i, TransactionStatus::Processing) if *i == id));
    assert!(matches!(&events[3], Event::StatusUpdated(i, TransactionStatus::Completed) if *i == id));
    assert!(matches!(&events[4], Event::SettlementFinalized(i, a, 5) if *i == s && a == "USD"));
    assert!(matches!(&events[5], Event::AssetRemoved(a) if a == "USD"));
    assert!(c.take_events().is_empty());
}

#[test]
fn parts_round_trip() {
    let (admin, relayer, mut c) = ready();
    let id = c
        .register_deposit(&relayer, "a".to_string(), account("D"), 5, "USD".to_string(), 1)
        .unwrap();
    let parts = c.into_parts();
    let mut c = SynapseContract::from_parts(parts).unwrap();
    assert!(c.is_relayer(&relayer));
    assert!(c.is_asset_allowed(&"USD".to_string()));
    assert_eq!(c.get_transaction(id).unwrap().amount, 5);
    assert!(c.take_events().is_empty());
    assert_eq!(c.initialize(admin), Err(ContractError::AlreadyInitialized));
}

fn tx(id: u64, anchor: &str) -> Transaction {
    Transaction {
        id,
        anchor_transaction_id: anchor.to_string(),
        stellar_account: account("D"),
        amount: 1,
        asset_code: "USD".to_string(),
        status: TransactionStatus::Pending,
        created_ledger: 1,
        updated_ledger: 1,
    }
}

fn parts() -> ContractParts {
    ContractParts {
        admin: Some(account("ADMIN")),
        paused: false,
        relayers: vec![account("R1"), account("R2")],
        assets: vec!["USD".to_string()],
        deposits: vec![tx(0, "a"), tx(1, "b")],
        settlements: vec![],
        dlq: vec![],
    }
}

#[test]
fn from_parts_accepts_valid_storage() {
    assert!(SynapseContract::from_parts(parts()).is_some());
}

#[test]
fn from_parts_rejects_invalid_storage() {
    let mut p = parts();
    p.relayers.push(account("R1"));
    assert!(SynapseContract::from_parts(p).is_none());

    let mut p = parts();
    p.assets.push("USD".to_string());
    assert!(SynapseContract::from_parts(p).is_none());

    let mut p = parts();
    p.relayers.push(ZERO_ADDRESS.to_string());
    assert!(SynapseContract::from_parts(p).is_none());

    let mut p = parts();
    p.deposits[1].id = 5;
    assert!(SynapseContract::from_parts(p).is_none());

    let mut p = parts();
    p.deposits[1].anchor_transaction_id = "a".to_string();
    assert!(SynapseContract::from_parts(p).is_none());

    let mut p = parts();
    p.settlements.push(Settlement {
        id: 3,
        asset_code: "USD".to_string(),
        tx_ids: vec![],
        total_amount: 0,
        period_start: 0,
        period_end: 0,
        created_ledger: 0,
    });
    assert!(SynapseContract::from_parts(p).is_none());
}
