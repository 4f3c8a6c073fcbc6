//! Properties of the contract that span several calls, proved over the
//! step functions that the contract's methods are verified against.

use vstd::prelude::*;

use crate::spec::{zero_address, ContractModel};
use crate::types::{ContractError, TransactionStatus};

verus! {

/// Granting a relayer makes it one; revoking it afterwards makes it none
/// again, and leaves the other relayers as they were before the grant.
pub proof fn grant_then_revoke_relayer(s: ContractModel, admin: Seq<char>, relayer: Seq<char>)
    requires
        s.wf(),
        s.admin == Some(admin),
        relayer != zero_address(),
    ensures
        s.grant_relayer(admin, relayer) is Ok,
        s.grant_relayer(admin, relayer).unwrap().relayers.contains(relayer),
        s.grant_relayer(admin, relayer).unwrap().revoke_relayer(admin, relayer) is Ok,
        !s.grant_relayer(admin, relayer).unwrap().revoke_relayer(
            admin,
            relayer,
        ).unwrap().relayers.contains(relayer),
        s.grant_relayer(admin, relayer).unwrap().revoke_relayer(admin, relayer).unwrap().relayers
            == s.relayers.remove(relayer),
{
    let s1 = s.grant_relayer(admin, relayer).unwrap();
    let s2 = s1.revoke_relayer(admin, relayer).unwrap();
    assert(s2.relayers =~= s.relayers.remove(relayer));
}

/// The all-zeros account is refused as a relayer by anyone, and is never a
/// relayer of a well-formed state.
pub proof fn zero_address_never_relayer(s: ContractModel, caller: Seq<char>)
    requires
        s.wf(),
    ensures
        s.grant_relayer(caller, zero_address()) == Err::<ContractModel, ContractError>(
            ContractError::InvalidRelayerAddress,
        ),
        !s.relayers.contains(zero_address()),
{
}

/// Every administrator action is refused to a caller who is not the
/// administrator, with the same error, and none of them changes anything.
pub proof fn admin_actions_refused_to_others(
    s: ContractModel,
    caller: Seq<char>,
    other: Seq<char>,
    flag: bool,
)
    requires
        s.admin != Some(caller),
        other != zero_address(),
    ensures
        s.admin_refusal(caller) is Some,
        s.grant_relayer(caller, other) == Err::<ContractModel, ContractError>(
            s.admin_refusal(caller).unwrap(),
        ),
        s.revoke_relayer(caller, other) == Err::<ContractModel, ContractError>(
            s.admin_refusal(caller).unwrap(),
        ),
        s.transfer_admin(caller, other) == Err::<ContractModel, ContractError>(
            s.admin_refusal(caller).unwrap(),
        ),
        s.set_paused(caller, flag) == Err::<ContractModel, ContractError>(
            s.admin_refusal(caller).unwrap(),
        ),
        s.add_asset(caller, other) == Err::<ContractModel, ContractError>(
            s.admin_refusal(caller).unwrap(),
        ),
        s.remove_asset(caller, other) == Err::<ContractModel, ContractError>(
            s.admin_refusal(caller).unwrap(),
        ),
        s.retry_dlq_refusal(caller) == s.admin_refusal(caller).unwrap(),
        s.admin is Some ==> s.admin_refusal(caller) == Some(ContractError::Unauthorized),
{
}

/// A contract is initialized once: the first call sets the administrator,
/// every later call is refused.
pub proof fn initialize_once(s: ContractModel, first: Seq<char>, second: Seq<char>)
    requires
        s.admin is None,
    ensures
        s.initialize(first) is Ok,
        s.initialize(first).unwrap().admin == Some(first),
        s.initialize(first).unwrap().initialize(second) == Err::<ContractModel, ContractError>(
            ContractError::AlreadyInitialized,
        ),
{
}

/// While the contract is paused every relayer action is refused.
pub proof fn paused_refuses_relayer_actions(
    s: ContractModel,
    caller: Seq<char>,
    anchor: Seq<char>,
    account: Seq<char>,
    amount: i128,
    asset: Seq<char>,
    tx_id: u64,
    tx_ids: Seq<u64>,
    reason: Seq<char>,
    status: TransactionStatus,
    period_start: u64,
    period_end: u64,
    ledger: u32,
)
    requires
        s.paused,
    ensures
        s.register_deposit(caller, anchor, account, amount, asset, ledger) == Err::<
            (u64, ContractModel),
            ContractError,
        >(ContractError::ContractPaused),
        s.update_status(caller, tx_id, status, ledger) == Err::<ContractModel, ContractError>(
            ContractError::ContractPaused,
        ),
        s.mark_failed(caller, tx_id, reason, ledger) == Err::<ContractModel, ContractError>(
            ContractError::ContractPaused,
        ),
        s.finalize_settlement(caller, asset, tx_ids, amount, period_start, period_end, ledger)
            == Err::<(u64, ContractModel), ContractError>(ContractError::ContractPaused),
{
}

/// Pausing and then unpausing a running contract gives back the state it had.
pub proof fn pause_then_unpause(s: ContractModel, admin: Seq<char>)
    requires
        s.admin == Some(admin),
        !s.paused,
    ensures
        s.set_paused(admin, true) is Ok,
        s.set_paused(admin, true).unwrap().paused,
        s.set_paused(admin, true).unwrap().set_paused(admin, false) == Ok::<
            ContractModel,
            ContractError,
        >(s),
{
    assert(s.set_paused(admin, true).unwrap().set_paused(admin, false).unwrap() =~= s);
}

/// Adding an asset puts it on the allowlist; removing it afterwards takes it
/// off, and the other assets are those of before the addition.
pub proof fn add_then_remove_asset(s: ContractModel, admin: Seq<char>, asset: Seq<char>)
    requires
        s.admin == Some(admin),
    ensures
        s.add_asset(admin, asset) is Ok,
        s.add_asset(admin, asset).unwrap().assets.contains(asset),
        s.add_asset(admin, asset).unwrap().remove_asset(admin, asset) is Ok,
        !s.add_asset(admin, asset).unwrap().remove_asset(admin, asset).unwrap().assets.contains(
            asset,
        ),
        s.add_asset(admin, asset).unwrap().remove_asset(admin, asset).unwrap().assets
            == s.assets.remove(asset),
{
    let s2 = s.add_asset(admin, asset).unwrap().remove_asset(admin, asset).unwrap();
    assert(s2.assets =~= s.assets.remove(asset));
}

/// A running contract refuses a deposit to anyone who is not a relayer, and
/// to a relayer a deposit in an asset that is not on the allowlist.
pub proof fn deposit_refusals(
    s: ContractModel,
    caller: Seq<char>,
    anchor: Seq<char>,
    account: Seq<char>,
    amount: i128,
    asset: Seq<char>,
    ledger: u32,
)
    requires
        !s.paused,
    ensures
        !s.relayers.contains(caller) ==> s.register_deposit(
            caller,
            anchor,
            account,
            amount,
            asset,
            ledger,
        ) == Err::<(u64, ContractModel), ContractError>(ContractError::NotRelayer),
        s.relayers.contains(caller) && !s.assets.contains(asset) ==> s.register_deposit(
            caller,
            anchor,
            account,
            amount,
            asset,
            ledger,
        ) == Err::<(u64, ContractModel), ContractError>(ContractError::AssetNotAllowed),
{
}

/// A new deposit is read back as registered: under the returned id sits a
/// pending deposit with the given anchor id, account, amount and asset, the
/// anchor id leads back to it, the deposits before it are untouched, and the
/// state stays well formed.
pub proof fn register_then_get(
    s: ContractModel,
    caller: Seq<char>,
    anchor: Seq<char>,
    account: Seq<char>,
    amount: i128,
    asset: Seq<char>,
    ledger: u32,
)
    requires
        s.wf(),
        s.deposits.len() < u64::MAX,
        s.register_deposit(caller, anchor, account, amount, asset, ledger) is Ok,
        s.anchor_lookup(anchor) is None,
    ensures
        ({
            let (id, s1) = s.register_deposit(caller, anchor, account, amount, asset, ledger).unwrap();
            &&& id == s.deposits.len()
            &&& s1.wf()
            &&& s1.get_transaction(id) is Ok
            &&& s1.get_transaction(id).unwrap().id == id
            &&& s1.get_transaction(id).unwrap().anchor_transaction_id == anchor
            &&& s1.get_transaction(id).unwrap().stellar_account == account
            &&& s1.get_transaction(id).unwrap().amount == amount
            &&& s1.get_transaction(id).unwrap().asset_code == asset
            &&& s1.get_transaction(id).unwrap().status == TransactionStatus::Pending
            &&& s1.anchor_lookup(anchor) == Some(id)
            &&& s1.deposits.subrange(0, s.deposits.len() as int) == s.deposits
        }),
{
    let (id, s1) = s.register_deposit(caller, anchor, account, amount, asset, ledger).unwrap();
    let n = s.deposits.len() as int;
    assert(s1.deposits[n].anchor_transaction_id == anchor);
    assert forall|i: int, j: int|
        0 <= i < s1.deposits.len() && 0 <= j < s1.deposits.len() && i != j implies #[trigger] s1.deposits[i].anchor_transaction_id
        != #[trigger] s1.deposits[j].anchor_transaction_id by {
        if i < n && j < n {
            assert(s1.deposits[i] == s.deposits[i]);
            assert(s1.deposits[j] == s.deposits[j]);
        } else if i < n {
            assert(s1.deposits[i] == s.deposits[i]);
        } else {
            assert(s1.deposits[j] == s.deposits[j]);
        }
    }
    let k = choose|k: int|
        0 <= k < s1.deposits.len() && #[trigger] s1.deposits[k].anchor_transaction_id == anchor;
    assert(k == n);
    assert(s1.deposits.subrange(0, n) =~= s.deposits);
}

/// Registering a deposit is idempotent: a second registration under the same
/// anchor transaction id returns the first one's id and changes nothing.
pub proof fn register_deposit_idempotent(
    s: ContractModel,
    caller: Seq<char>,
    anchor: Seq<char>,
    account: Seq<char>,
    amount: i128,
    asset: Seq<char>,
    account2: Seq<char>,
    amount2: i128,
    ledger: u32,
    ledger2: u32,
)
    requires
        s.wf(),
        s.deposits.len() < u64::MAX,
        s.register_deposit(caller, anchor, account, amount, asset, ledger) is Ok,
    ensures
        ({
            let (id1, s1) = s.register_deposit(caller, anchor, account, amount, asset, ledger).unwrap();
            s1.register_deposit(caller, anchor, account2, amount2, asset, ledger2) == Ok::<
                (u64, ContractModel),
                ContractError,
            >((id1, s1))
        }),
{
    let (id1, s1) = s.register_deposit(caller, anchor, account, amount, asset, ledger).unwrap();
    match s.anchor_lookup(anchor) {
        Some(id) => {
            assert(s1 == s);
        },
        None => {
            register_then_get(s, caller, anchor, account, amount, asset, ledger);
        },
    }
}

/// Moving a deposit along its lifecycle changes that deposit's status and
/// ledger and nothing else of it, and leaves the other deposits alone:
/// pending, processing, completed.
pub proof fn lifecycle_to_completed(
    s: ContractModel,
    relayer: Seq<char>,
    tx_id: u64,
    ledger1: u32,
    ledger2: u32,
)
    requires
        s.wf(),
        !s.paused,
        s.relayers.contains(relayer),
        tx_id < s.deposits.len(),
    ensures
        ({
            let s1 = s.update_status(relayer, tx_id, TransactionStatus::Processing, ledger1);
            &&& s1 is Ok
            &&& s1.unwrap().get_transaction(tx_id).unwrap().status == TransactionStatus::Processing
            &&& s1.unwrap().update_status(relayer, tx_id, TransactionStatus::Completed, ledger2) is Ok
            &&& ({
                let s2 = s1.unwrap().update_status(
                    relayer,
                    tx_id,
                    TransactionStatus::Completed,
                    ledger2,
                ).unwrap();
                &&& s2.wf()
                &&& s2.get_transaction(tx_id).unwrap() == (crate::types::TransactionModel {
                    status: TransactionStatus::Completed,
                    updated_ledger: ledger2,
                    ..s.deposits[tx_id as int]
                })
                &&& s2.deposits.len() == s.deposits.len()
                &&& forall|i: int|
                    0 <= i < s.deposits.len() && i != tx_id ==> #[trigger] s2.deposits[i]
                        == s.deposits[i]
            })
        }),
{
    let s1 = s.update_status(relayer, tx_id, TransactionStatus::Processing, ledger1).unwrap();
    let s2 = s1.update_status(relayer, tx_id, TransactionStatus::Completed, ledger2).unwrap();
    assert forall|i: int, j: int|
        0 <= i < s2.deposits.len() && 0 <= j < s2.deposits.len() && i != j implies #[trigger] s2.deposits[i].anchor_transaction_id
        != #[trigger] s2.deposits[j].anchor_transaction_id by {
        assert(s2.deposits[i].anchor_transaction_id == s.deposits[i].anchor_transaction_id);
        assert(s2.deposits[j].anchor_transaction_id == s.deposits[j].anchor_transaction_id);
    }
}

/// Marking a deposit failed sets its status to failed and appends exactly
/// one dead-letter entry, naming the deposit and the reason.
pub proof fn mark_failed_enqueues(
    s: ContractModel,
    relayer: Seq<char>,
    tx_id: u64,
    reason: Seq<char>,
    ledger: u32,
)
    requires
        !s.paused,
        s.relayers.contains(relayer),
        tx_id < s.deposits.len(),
    ensures
        s.mark_failed(relayer, tx_id, reason, ledger) is Ok,
        ({
            let s1 = s.mark_failed(relayer, tx_id, reason, ledger).unwrap();
            &&& s1.get_transaction(tx_id).unwrap().status == TransactionStatus::Failed
            &&& s1.dlq.len() == s.dlq.len() + 1
            &&& s1.dlq.drop_last() == s.dlq
            &&& s1.dlq.last().tx_id == tx_id
            &&& s1.dlq.last().error_reason == reason
        }),
{
    let s1 = s.mark_failed(relayer, tx_id, reason, ledger).unwrap();
    assert(s1.dlq.drop_last() =~= s.dlq);
}

/// A finalized settlement is read back as recorded under the returned id.
pub proof fn finalize_then_get_settlement(
    s: ContractModel,
    relayer: Seq<char>,
    asset: Seq<char>,
    tx_ids: Seq<u64>,
    total: i128,
    period_start: u64,
    period_end: u64,
    ledger: u32,
)
    requires
        s.wf(),
        s.settlements.len() < u64::MAX,
        !s.paused,
        s.relayers.contains(relayer),
    ensures
        s.finalize_settlement(relayer, asset, tx_ids, total, period_start, period_end, ledger) is Ok,
        ({
            let (id, s1) = s.finalize_settlement(
                relayer,
                asset,
                tx_ids,
                total,
                period_start,
                period_end,
                ledger,
            ).unwrap();
            &&& id == s.settlements.len()
            &&& s1.wf()
            &&& s1.get_settlement(id) is Ok
            &&& s1.get_settlement(id).unwrap().total_amount == total
            &&& s1.get_settlement(id).unwrap().asset_code == asset
            &&& s1.get_settlement(id).unwrap().tx_ids == tx_ids
            &&& s1.get_settlement(id).unwrap().period_start == period_start
            &&& s1.get_settlement(id).unwrap().period_end == period_end
        }),
{
}

/// Registering under an anchor id that is already registered returns the id
/// of the deposit that carries that anchor id, wherever it stands among the
/// deposits, and changes nothing.
pub proof fn register_existing_anchor_returns_its_deposit(
    s: ContractModel,
    caller: Seq<char>,
    anchor: Seq<char>,
    account: Seq<char>,
    amount: i128,
    asset: Seq<char>,
    ledger: u32,
    i: int,
)
    requires
        s.wf(),
        !s.paused,
        s.relayers.contains(caller),
        s.assets.contains(asset),
        0 <= i < s.deposits.len(),
        s.deposits[i].anchor_transaction_id == anchor,
    ensures
        s.register_deposit(caller, anchor, account, amount, asset, ledger) is Ok,
        ({
            let (id, s1) = s.register_deposit(caller, anchor, account, amount, asset, ledger).unwrap();
            &&& id == i
            &&& s1.deposits[id as int].anchor_transaction_id == anchor
            &&& s1 == s
        }),
{
    let k = choose|k: int|
        0 <= k < s.deposits.len() && #[trigger] s.deposits[k].anchor_transaction_id == anchor;
    assert(k == i);
    assert(s.deposits[i].id == i);
}

/// Every stored deposit is found under its own id, whatever its status.
pub proof fn get_transaction_reads_its_id(s: ContractModel, tx_id: u64)
    requires
        s.wf(),
        tx_id < s.deposits.len(),
    ensures
        s.get_transaction(tx_id) is Ok,
        s.get_transaction(tx_id).unwrap().id == tx_id,
{
}

/// Registering a deposit leaves what every earlier id reads unchanged.
pub proof fn register_keeps_earlier_deposits(
    s: ContractModel,
    caller: Seq<char>,
    anchor: Seq<char>,
    account: Seq<char>,
    amount: i128,
    asset: Seq<char>,
    ledger: u32,
    tx_id: u64,
)
    requires
        s.wf(),
        tx_id < s.deposits.len(),
        s.register_deposit(caller, anchor, account, amount, asset, ledger) is Ok,
    ensures
        s.register_deposit(caller, anchor, account, amount, asset, ledger).unwrap().1.get_transaction(
            tx_id,
        ) == s.get_transaction(tx_id),
        s.get_transaction(tx_id).unwrap().id == tx_id,
{
}

/// Every stored settlement is found under its own id.
pub proof fn get_settlement_reads_its_id(s: ContractModel, settlement_id: u64)
    requires
        s.wf(),
        settlement_id < s.settlements.len(),
    ensures
        s.get_settlement(settlement_id) is Ok,
        s.get_settlement(settlement_id).unwrap().id == settlement_id,
{
}

/// Finalizing a settlement leaves what every earlier settlement id reads
/// unchanged.
pub proof fn finalize_keeps_earlier_settlements(
    s: ContractModel,
    relayer: Seq<char>,
    asset: Seq<char>,
    tx_ids: Seq<u64>,
    total: i128,
    period_start: u64,
    period_end: u64,
    ledger: u32,
    settlement_id: u64,
)
    requires
        s.wf(),
        settlement_id < s.settlements.len(),
        s.finalize_settlement(relayer, asset, tx_ids, total, period_start, period_end, ledger) is Ok,
    ensures
        s.finalize_settlement(
            relayer,
            asset,
            tx_ids,
            total,
            period_start,
            period_end,
            ledger,
        ).unwrap().1.get_settlement(settlement_id) == s.get_settlement(settlement_id),
        s.get_settlement(settlement_id).unwrap().id == settlement_id,
{
}

/// Marking a deposit failed at a ledger records that ledger as the deposit's
/// last update and sets its status to failed; every other field of the
/// deposit is as before, and so is every other deposit.
pub proof fn mark_failed_records_its_ledger(
    s: ContractModel,
    relayer: Seq<char>,
    tx_id: u64,
    reason: Seq<char>,
    ledger: u32,
)
    requires
        !s.paused,
        s.relayers.contains(relayer),
        tx_id < s.deposits.len(),
    ensures
        s.mark_failed(relayer, tx_id, reason, ledger) is Ok,
        ({
            let before = s.deposits[tx_id as int];
            let s1 = s.mark_failed(relayer, tx_id, reason, ledger).unwrap();
            let after = s1.get_transaction(tx_id).unwrap();
            &&& s1.get_transaction(tx_id) is Ok
            &&& after.status == TransactionStatus::Failed
            &&& after.updated_ledger == ledger
            &&& after.id == before.id
            &&& after.anchor_transaction_id == before.anchor_transaction_id
            &&& after.stellar_account == before.stellar_account
            &&& after.amount == before.amount
            &&& after.asset_code == before.asset_code
            &&& after.created_ledger == before.created_ledger
            &&& s1.deposits.len() == s.deposits.len()
            &&& forall|i: int|
                0 <= i < s.deposits.len() && i != tx_id ==> #[trigger] s1.deposits[i]
                    == s.deposits[i]
        }),
{
}

/// The administrator can always hand the role over: afterwards the new
/// administrator's actions are accepted and, if it is someone else, the
/// former administrator's are refused; nothing else changes.
pub proof fn transfer_admin_hands_over(s: ContractModel, admin: Seq<char>, new_admin: Seq<char>)
    requires
        s.admin == Some(admin),
    ensures
        s.transfer_admin(admin, new_admin) is Ok,
        ({
            let s1 = s.transfer_admin(admin, new_admin).unwrap();
            &&& s1.admin == Some(new_admin)
            &&& s1.admin_refusal(new_admin) is None
            &&& admin != new_admin ==> s1.admin_refusal(admin) == Some(
                ContractError::Unauthorized,
            )
            &&& s1 == (ContractModel { admin: Some(new_admin), ..s })
        }),
{
}

} // verus!
