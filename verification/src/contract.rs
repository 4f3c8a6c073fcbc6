//! The contract: its storage held as plain values, and one verified method
//! per entry point.

use vstd::prelude::*;

use crate::spec::{applied, applied_with_id, zero_address, ContractModel, ZERO_ADDRESS};
use crate::text_set::{
    all_distinct, contains_text, distinct_texts, insert_text, remove_text, text_set, texts,
};
use crate::types::{
    models, ContractError, DlqEntry, Event, EventModel, Settlement, SettlementModel,
    Transaction, TransactionModel, TransactionStatus,
};

verus! {

/// The Synapse contract's storage and the events it has recorded.
///
/// Addresses are Stellar strkeys (`G...`, `C...`); the caller of each
/// method is the address whose authorization the host has checked, and
/// `ledger` is the ledger sequence number at the call. The contract is
/// initialized once; while it is paused, relayer actions (registering
/// deposits, changing their status, finalizing settlements) are refused.
/// Deposits and settlements are numbered from 0 in the order they are made.
pub struct SynapseContract {
    admin: Option<String>,
    paused: bool,
    relayers: Vec<String>,
    assets: Vec<String>,
    deposits: Vec<Transaction>,
    settlements: Vec<Settlement>,
    dlq: Vec<DlqEntry>,
    events: Vec<Event>,
}

/// The contract's storage as plain values, as it is persisted between
/// calls. The recorded events are not part of it.
pub struct ContractParts {
    pub admin: Option<String>,
    pub paused: bool,
    pub relayers: Vec<String>,
    pub assets: Vec<String>,
    pub deposits: Vec<Transaction>,
    pub settlements: Vec<Settlement>,
    pub dlq: Vec<DlqEntry>,
}

impl ContractParts {
    /// The model of a contract holding these parts and no recorded events.
    pub open spec fn model(&self) -> ContractModel {
        ContractModel {
            admin: opt_text(self.admin),
            paused: self.paused,
            relayers: text_set(self.relayers@),
            assets: text_set(self.assets@),
            deposits: models(self.deposits@),
            settlements: models(self.settlements@),
            dlq: models(self.dlq@),
            events: Seq::empty(),
        }
    }

    /// These parts can be a contract's storage: each relayer and asset is
    /// held once, and the model is well formed.
    pub open spec fn valid(&self) -> bool {
        &&& distinct_texts(self.relayers@)
        &&& distinct_texts(self.assets@)
        &&& self.model().wf()
    }
}

/// The model of an optional text.
pub open spec fn opt_text(o: Option<String>) -> Option<Seq<char>> {
    match o {
        Some(s) => Some(s@),
        None => None,
    }
}

impl View for SynapseContract {
    type V = ContractModel;

    closed spec fn view(&self) -> ContractModel {
        ContractModel {
            admin: opt_text(self.admin),
            paused: self.paused,
            relayers: text_set(self.relayers@),
            assets: text_set(self.assets@),
            deposits: models(self.deposits@),
            settlements: models(self.settlements@),
            dlq: models(self.dlq@),
            events: models(self.events@),
        }
    }
}

impl SynapseContract {
    /// The representation holds each relayer and asset once, and its model is
    /// well formed.
    pub closed spec fn wf(&self) -> bool {
        &&& distinct_texts(self.relayers@)
        &&& distinct_texts(self.assets@)
        &&& self@.wf()
    }

    /// A freshly deployed contract.
    pub fn new() -> (r: SynapseContract)
        ensures
            r.wf(),
            r@ == ContractModel::empty(),
    {
        let r = SynapseContract {
            admin: None,
            paused: false,
            relayers: Vec::new(),
            assets: Vec::new(),
            deposits: Vec::new(),
            settlements: Vec::new(),
            dlq: Vec::new(),
            events: Vec::new(),
        };
        proof {
            assert(text_set(r.relayers@) =~= Set::empty());
            assert(text_set(r.assets@) =~= Set::empty());
            assert(models(r.deposits@) =~= Seq::empty());
            assert(models(r.settlements@) =~= Seq::empty());
            assert(models(r.dlq@) =~= Seq::empty());
            assert(models(r.events@) =~= Seq::empty());
            assert(r@ =~= ContractModel::empty());
        }
        r
    }

    /// Whether `caller` may take an administrator action; the refusal if not.
    fn check_admin(&self, caller: &String) -> (r: Option<ContractError>)
        ensures
            r == self@.admin_refusal(caller@),
    {
        match &self.admin {
            None => Some(ContractError::NotInitialized),
            Some(admin) => if *admin == *caller {
                None
            } else {
                Some(ContractError::Unauthorized)
            },
        }
    }

    /// Whether `caller` may take a relayer action; the refusal if not.
    fn check_relayer(&self, caller: &String) -> (r: Option<ContractError>)
        ensures
            r == self@.relayer_refusal(caller@),
    {
        if self.paused {
            Some(ContractError::ContractPaused)
        } else if !contains_text(&self.relayers, caller) {
            Some(ContractError::NotRelayer)
        } else {
            None
        }
    }

    /// Sets the administrator of a contract that has none.
    pub fn initialize(&mut self, admin: String) -> (result: Result<(), ContractError>)
        requires
            old(self).wf(),
        ensures
            final(self).wf(),
            applied(old(self)@.initialize(admin@), old(self)@, final(self)@, result),
    {
        if self.admin.is_some() {
            return Err(ContractError::AlreadyInitialized);
        }
        self.admin = Some(admin);
        proof {
            assert(self@ =~= old(self)@.initialize(admin@).unwrap());
        }
        Ok(())
    }

    /// The administrator makes `relayer` a relayer; the all-zeros account is
    /// refused.
    pub fn grant_relayer(&mut self, caller: &String, relayer: String) -> (result: Result<
        (),
        ContractError,
    >)
        requires
            old(self).wf(),
        ensures
            final(self).wf(),
            applied(old(self)@.grant_relayer(caller@, relayer@), old(self)@, final(self)@, result),
    {
        let zero = String::from_str(ZERO_ADDRESS);
        if relayer == zero {
            return Err(ContractError::InvalidRelayerAddress);
        }
        if let Some(e) = self.check_admin(caller) {
            return Err(e);
        }
        let ghost r = relayer@;
        insert_text(&mut self.relayers, relayer);
        proof {
            assert(self@ =~= old(self)@.grant_relayer(caller@, r).unwrap());
        }
        Ok(())
    }

    /// The administrator withdraws `relayer`'s role; revoking someone who is
    /// no relayer changes nothing.
    pub fn revoke_relayer(&mut self, caller: &String, relayer: &String) -> (result: Result<
        (),
        ContractError,
    >)
        requires
            old(self).wf(),
        ensures
            final(self).wf(),
            applied(old(self)@.revoke_relayer(caller@, relayer@), old(self)@, final(self)@, result),
    {
        if let Some(e) = self.check_admin(caller) {
            return Err(e);
        }
        remove_text(&mut self.relayers, relayer);
        proof {
            assert(self@ =~= old(self)@.revoke_relayer(caller@, relayer@).unwrap());
        }
        Ok(())
    }

    /// The administrator hands the role to `new_admin`.
    pub fn transfer_admin(&mut self, caller: &String, new_admin: String) -> (result: Result<
        (),
        ContractError,
    >)
        requires
            old(self).wf(),
        ensures
            final(self).wf(),
            applied(
                old(self)@.transfer_admin(caller@, new_admin@),
                old(self)@,
                final(self)@,
                result,
            ),
    {
        if let Some(e) = self.check_admin(caller) {
            return Err(e);
        }
        let ghost a = new_admin@;
        self.admin = Some(new_admin);
        proof {
            assert(self@ =~= old(self)@.transfer_admin(caller@, a).unwrap());
        }
        Ok(())
    }

    /// The administrator pauses the contract: relayer actions are refused
    /// until it is unpaused.
    pub fn pause(&mut self, caller: &String) -> (result: Result<(), ContractError>)
        requires
            old(self).wf(),
        ensures
            final(self).wf(),
            applied(old(self)@.set_paused(caller@, true), old(self)@, final(self)@, result),
    {
        if let Some(e) = self.check_admin(caller) {
            return Err(e);
        }
        self.paused = true;
        proof {
            assert(self@ =~= old(self)@.set_paused(caller@, true).unwrap());
        }
        Ok(())
    }

    /// The administrator lifts a pause.
    pub fn unpause(&mut self, caller: &String) -> (result: Result<(), ContractError>)
        requires
            old(self).wf(),
        ensures
            final(self).wf(),
            applied(old(self)@.set_paused(caller@, false), old(self)@, final(self)@, result),
    {
        if let Some(e) = self.check_admin(caller) {
            return Err(e);
        }
        self.paused = false;
        proof {
            assert(self@ =~= old(self)@.set_paused(caller@, false).unwrap());
        }
        Ok(())
    }

    /// The administrator puts `asset_code` on the allowlist.
    pub fn add_asset(&mut self, caller: &String, asset_code: String) -> (result: Result<
        (),
        ContractError,
    >)
        requires
            old(self).wf(),
        ensures
            final(self).wf(),
            applied(old(self)@.add_asset(caller@, asset_code@), old(self)@, final(self)@, result),
    {
        if let Some(e) = self.check_admin(caller) {
            return Err(e);
        }
        let ghost a = asset_code@;
        let announced = asset_code.clone();
        insert_text(&mut self.assets, asset_code);
        self.events.push(Event::AssetAdded(announced));
        proof {
            assert(models(self.events@) =~= models(old(self).events@).push(EventModel::AssetAdded(a)));
            assert(self@ =~= old(self)@.add_asset(caller@, a).unwrap());
        }
        Ok(())
    }

    /// The administrator takes `asset_code` off the allowlist; removing a code
    /// that is not listed changes only the event log.
    pub fn remove_asset(&mut self, caller: &String, asset_code: String) -> (result: Result<
        (),
        ContractError,
    >)
        requires
            old(self).wf(),
        ensures
            final(self).wf(),
            applied(
                old(self)@.remove_asset(caller@, asset_code@),
                old(self)@,
                final(self)@,
                result,
            ),
    {
        if let Some(e) = self.check_admin(caller) {
            return Err(e);
        }
        let ghost a = asset_code@;
        remove_text(&mut self.assets, &asset_code);
        self.events.push(Event::AssetRemoved(asset_code));
        proof {
            assert(models(self.events@) =~= models(old(self).events@).push(
                EventModel::AssetRemoved(a),
            ));
            assert(self@ =~= old(self)@.remove_asset(caller@, a).unwrap());
        }
        Ok(())
    }

    /// The id of the deposit registered under `anchor`, if any.
    fn find_by_anchor_id(&self, anchor: &String) -> (r: Option<u64>)
        requires
            self.wf(),
        ensures
            r == self@.anchor_lookup(anchor@),
    {
        let n = self.deposits.len();
        let mut i: usize = 0;
        while i < n
            invariant
                self.wf(),
                n == self.deposits.len(),
                i <= n,
                forall|j: int| 0 <= j < i ==> self.deposits@[j].anchor_transaction_id@ != anchor@,
            decreases n - i,
        {
            if self.deposits[i].anchor_transaction_id == *anchor {
                proof {
                    let ds = self@.deposits;
                    assert(ds[i as int].anchor_transaction_id == anchor@);
                    let k = choose|k: int|
                        0 <= k < ds.len() && #[trigger] ds[k].anchor_transaction_id == anchor@;
                    assert(k == i);
                }
                return Some(i as u64);
            }
            i = i + 1;
        }
        proof {
            let ds = self@.deposits;
            assert forall|k: int| 0 <= k < ds.len() implies #[trigger] ds[k].anchor_transaction_id
                != anchor@ by {
                assert(ds[k] == self.deposits@[k]@);
            }
        }
        None
    }

    /// A relayer registers a deposit of `amount` of `asset_code` to
    /// `stellar_account`, made under the anchor's transaction id, at ledger
    /// `ledger`; the result is the deposit's id. A second registration under
    /// the same anchor transaction id returns the first one's id and changes
    /// nothing.
    pub fn register_deposit(
        &mut self,
        caller: &String,
        anchor_transaction_id: String,
        stellar_account: String,
        amount: i128,
        asset_code: String,
        ledger: u32,
    ) -> (result: Result<u64, ContractError>)
        requires
            old(self).wf(),
        ensures
            final(self).wf(),
            applied_with_id(
                old(self)@.register_deposit(
                    caller@,
                    anchor_transaction_id@,
                    stellar_account@,
                    amount,
                    asset_code@,
                    ledger,
                ),
                old(self)@,
                final(self)@,
                result,
            ),
    {
        if let Some(e) = self.check_relayer(caller) {
            return Err(e);
        }
        if !contains_text(&self.assets, &asset_code) {
            return Err(ContractError::AssetNotAllowed);
        }
        if let Some(existing) = self.find_by_anchor_id(&anchor_transaction_id) {
            return Ok(existing);
        }
        let ghost anchor = anchor_transaction_id@;
        let id = self.deposits.len() as u64;
        let announced = anchor_transaction_id.clone();
        let tx = Transaction {
            id,
            anchor_transaction_id,
            stellar_account,
            amount,
            asset_code,
            status: TransactionStatus::Pending,
            created_ledger: ledger,
            updated_ledger: ledger,
        };
        let ghost txm = tx@;
        self.deposits.push(tx);
        self.events.push(Event::DepositRegistered(id, announced));
        proof {
            assert(models(self.deposits@) =~= models(old(self).deposits@).push(txm));
            assert(models(self.events@) =~= models(old(self).events@).push(
                EventModel::DepositRegistered(id, anchor),
            ));
            let after = old(self)@.register_deposit(
                caller@,
                anchor,
                stellar_account@,
                amount,
                asset_code@,
                ledger,
            );
            assert(self@ =~= after.unwrap().1);
            let ds = self@.deposits;
            assert forall|i: int, j: int|
                0 <= i < ds.len() && 0 <= j < ds.len() && i != j implies #[trigger] ds[i].anchor_transaction_id
                != #[trigger] ds[j].anchor_transaction_id by {
                if i < ds.len() - 1 && j < ds.len() - 1 {
                    assert(ds[i] == old(self)@.deposits[i]);
                    assert(ds[j] == old(self)@.deposits[j]);
                } else if i < ds.len() - 1 {
                    assert(ds[i] == old(self)@.deposits[i]);
                } else {
                    assert(ds[j] == old(self)@.deposits[j]);
                }
            }
        }
        Ok(id)
    }

    /// Gives deposit `tx_id` `status` at `ledger`, after the checks of a
    /// status change.
    fn set_status(
        &mut self,
        caller: &String,
        tx_id: u64,
        status: TransactionStatus,
        ledger: u32,
    ) -> (result: Result<(), ContractError>)
        requires
            old(self).wf(),
        ensures
            final(self).wf(),
            match old(self)@.status_refusal(caller@, tx_id) {
                Some(e) => result == Err::<(), ContractError>(e) && final(self)@ == old(self)@,
                None => result == Ok::<(), ContractError>(()) && final(self)@ == old(self)@.with_status(
                    tx_id,
                    status,
                    ledger,
                ),
            },
    {
        if let Some(e) = self.check_relayer(caller) {
            return Err(e);
        }
        if tx_id >= self.deposits.len() as u64 {
            return Err(ContractError::TransactionNotFound);
        }
        let i = tx_id as usize;
        let mut tx = self.deposits[i].duplicate();
        tx.status = status;
        tx.updated_ledger = ledger;
        let ghost txm = tx@;
        self.deposits.set(i, tx);
        proof {
            assert(models(self.deposits@) =~= models(old(self).deposits@).update(i as int, txm));
            assert(self@ =~= old(self)@.with_status(tx_id, status, ledger));
        }
        Ok(())
    }

    /// A relayer marks deposit `tx_id` as being processed.
    pub fn mark_processing(&mut self, caller: &String, tx_id: u64, ledger: u32) -> (result: Result<
        (),
        ContractError,
    >)
        requires
            old(self).wf(),
        ensures
            final(self).wf(),
            applied(
                old(self)@.update_status(caller@, tx_id, TransactionStatus::Processing, ledger),
                old(self)@,
                final(self)@,
                result,
            ),
    {
        self.set_status(caller, tx_id, TransactionStatus::Processing, ledger)?;
        self.events.push(Event::StatusUpdated(tx_id, TransactionStatus::Processing));
        proof {
            let mid = old(self)@.with_status(tx_id, TransactionStatus::Processing, ledger);
            assert(models(self.events@) =~= mid.events.push(
                EventModel::StatusUpdated(tx_id, TransactionStatus::Processing),
            ));
            assert(self@ =~= old(self)@.update_status(
                caller@,
                tx_id,
                TransactionStatus::Processing,
                ledger,
            ).unwrap());
        }
        Ok(())
    }

    /// A relayer marks deposit `tx_id` as completed.
    pub fn mark_completed(&mut self, caller: &String, tx_id: u64, ledger: u32) -> (result: Result<
        (),
        ContractError,
    >)
        requires
            old(self).wf(),
        ensures
            final(self).wf(),
            applied(
                old(self)@.update_status(caller@, tx_id, TransactionStatus::Completed, ledger),
                old(self)@,
                final(self)@,
                result,
            ),
    {
        self.set_status(caller, tx_id, TransactionStatus::Completed, ledger)?;
        self.events.push(Event::StatusUpdated(tx_id, TransactionStatus::Completed));
        proof {
            let mid = old(self)@.with_status(tx_id, TransactionStatus::Completed, ledger);
            assert(models(self.events@) =~= mid.events.push(
                EventModel::StatusUpdated(tx_id, TransactionStatus::Completed),
            ));
            assert(self@ =~= old(self)@.update_status(
                caller@,
                tx_id,
                TransactionStatus::Completed,
                ledger,
            ).unwrap());
        }
        Ok(())
    }

    /// A relayer marks deposit `tx_id` as failed for `error_reason`; the
    /// deposit enters the dead-letter queue.
    pub fn mark_failed(
        &mut self,
        caller: &String,
        tx_id: u64,
        error_reason: String,
        ledger: u32,
    ) -> (result: Result<(), ContractError>)
        requires
            old(self).wf(),
        ensures
            final(self).wf(),
            applied(
                old(self)@.mark_failed(caller@, tx_id, error_reason@, ledger),
                old(self)@,
                final(self)@,
                result,
            ),
    {
        self.set_status(caller, tx_id, TransactionStatus::Failed, ledger)?;
        let ghost reason = error_reason@;
        let entry = DlqEntry { tx_id, error_reason: error_reason.clone(), failed_ledger: ledger };
        let ghost em = entry@;
        self.dlq.push(entry);
        self.events.push(Event::MovedToDlq(tx_id, error_reason));
        proof {
            let mid = old(self)@.with_status(tx_id, TransactionStatus::Failed, ledger);
            assert(models(self.dlq@) =~= mid.dlq.push(em));
            assert(models(self.events@) =~= mid.events.push(EventModel::MovedToDlq(tx_id, reason)));
            assert(self@ =~= old(self)@.mark_failed(caller@, tx_id, reason, ledger).unwrap());
        }
        Ok(())
    }

    /// Retrying a dead-letter entry: refused to anyone but the administrator,
    /// and not implemented for the administrator. Nothing changes.
    pub fn retry_dlq(&mut self, caller: &String, tx_id: u64) -> (result: Result<(), ContractError>)
        requires
            old(self).wf(),
        ensures
            final(self).wf(),
            final(self)@ == old(self)@,
            result == Err::<(), ContractError>(old(self)@.retry_dlq_refusal(caller@)),
    {
        let _ = tx_id;
        if let Some(e) = self.check_admin(caller) {
            return Err(e);
        }
        Err(ContractError::NotImplemented)
    }

    /// A relayer records a settlement of the deposits `tx_ids` in
    /// `asset_code` for `total_amount` over the period from `period_start` to
    /// `period_end`, at ledger `ledger`; the result is the settlement's id.
    pub fn finalize_settlement(
        &mut self,
        caller: &String,
        asset_code: String,
        tx_ids: Vec<u64>,
        total_amount: i128,
        period_start: u64,
        period_end: u64,
        ledger: u32,
    ) -> (result: Result<u64, ContractError>)
        requires
            old(self).wf(),
        ensures
            final(self).wf(),
            applied_with_id(
                old(self)@.finalize_settlement(
                    caller@,
                    asset_code@,
                    tx_ids@,
                    total_amount,
                    period_start,
                    period_end,
                    ledger,
                ),
                old(self)@,
                final(self)@,
                result,
            ),
    {
        if let Some(e) = self.check_relayer(caller) {
            return Err(e);
        }
        let ghost asset = asset_code@;
        let id = self.settlements.len() as u64;
        let announced = asset_code.clone();
        let settlement = Settlement {
            id,
            asset_code,
            tx_ids,
            total_amount,
            period_start,
            period_end,
            created_ledger: ledger,
        };
        let ghost sm = settlement@;
        self.settlements.push(settlement);
        self.events.push(Event::SettlementFinalized(id, announced, total_amount));
        proof {
            assert(models(self.settlements@) =~= models(old(self).settlements@).push(sm));
            assert(models(self.events@) =~= models(old(self).events@).push(
                EventModel::SettlementFinalized(id, asset, total_amount),
            ));
            assert(self@ =~= old(self)@.finalize_settlement(
                caller@,
                asset,
                tx_ids@,
                total_amount,
                period_start,
                period_end,
                ledger,
            ).unwrap().1);
        }
        Ok(id)
    }

    /// The deposit with id `tx_id`.
    pub fn get_transaction(&self, tx_id: u64) -> (result: Result<Transaction, ContractError>)
        requires
            self.wf(),
        ensures
            match result {
                Ok(tx) => self@.get_transaction(tx_id) == Ok::<_, ContractError>(tx@),
                Err(e) => self@.get_transaction(tx_id) == Err::<TransactionModel, _>(e),
            },
    {
        if tx_id < self.deposits.len() as u64 {
            Ok(self.deposits[tx_id as usize].duplicate())
        } else {
            Err(ContractError::TransactionNotFound)
        }
    }

    /// The settlement with id `settlement_id`.
    pub fn get_settlement(&self, settlement_id: u64) -> (result: Result<Settlement, ContractError>)
        requires
            self.wf(),
        ensures
            match result {
                Ok(s) => self@.get_settlement(settlement_id) == Ok::<_, ContractError>(s@),
                Err(e) => self@.get_settlement(settlement_id) == Err::<SettlementModel, _>(e),
            },
    {
        if settlement_id < self.settlements.len() as u64 {
            Ok(self.settlements[settlement_id as usize].duplicate())
        } else {
            Err(ContractError::SettlementNotFound)
        }
    }

    /// Whether `asset_code` is on the allowlist.
    pub fn is_asset_allowed(&self, asset_code: &String) -> (r: bool)
        requires
            self.wf(),
        ensures
            r == self@.assets.contains(asset_code@),
    {
        contains_text(&self.assets, asset_code)
    }

    /// Whether `address` is a relayer.
    pub fn is_relayer(&self, address: &String) -> (r: bool)
        requires
            self.wf(),
        ensures
            r == self@.relayers.contains(address@),
    {
        contains_text(&self.relayers, address)
    }

    /// Hands out the events recorded since the last call, oldest first, and
    /// forgets them.
    pub fn take_events(&mut self) -> (r: Vec<Event>)
        requires
            old(self).wf(),
        ensures
            final(self).wf(),
            models(r@) == old(self)@.events,
            final(self)@ == (ContractModel { events: Seq::empty(), ..old(self)@ }),
    {
        let mut r = Vec::new();
        std::mem::swap(&mut r, &mut self.events);
        proof {
            assert(models(self.events@) =~= Seq::<EventModel>::empty());
            assert(self@ =~= (ContractModel { events: Seq::empty(), ..old(self)@ }));
        }
        r
    }

    /// Restores a contract from persisted parts; `None` where the parts
    /// cannot be a contract's storage.
    pub fn from_parts(parts: ContractParts) -> (r: Option<SynapseContract>)
        ensures
            r is Some <==> parts.valid(),
            r matches Some(c) ==> c.wf() && c@ == parts.model(),
    {
        let ghost pm = parts.model();
        if !all_distinct(&parts.relayers) || !all_distinct(&parts.assets) {
            return None;
        }
        if contains_text(&parts.relayers, &String::from_str(ZERO_ADDRESS)) {
            return None;
        }
        let n = parts.deposits.len();
        let mut i: usize = 0;
        while i < n
            invariant
                n == parts.deposits.len(),
                i <= n,
                pm == parts.model(),
                forall|a: int| 0 <= a < i ==> #[trigger] pm.deposits[a].id == a,
                forall|a: int, b: int|
                    0 <= a < i && 0 <= b < i && a != b ==> #[trigger] pm.deposits[a].anchor_transaction_id
                        != #[trigger] pm.deposits[b].anchor_transaction_id,
            decreases n - i,
        {
            if parts.deposits[i].id != i as u64 {
                proof {
                    assert(pm.deposits[i as int].id != i);
                }
                return None;
            }
            let mut j: usize = 0;
            while j < i
                invariant
                    n == parts.deposits.len(),
                    i < n,
                    j <= i,
                    pm == parts.model(),
                    forall|b: int| 0 <= b < j ==> #[trigger] pm.deposits[b].anchor_transaction_id
                        != pm.deposits[i as int].anchor_transaction_id,
                decreases i - j,
            {
                if parts.deposits[j].anchor_transaction_id == parts.deposits[i].anchor_transaction_id {
                    proof {
                        assert(pm.deposits[j as int].anchor_transaction_id
                            == pm.deposits[i as int].anchor_transaction_id);
                    }
                    return None;
                }
                j = j + 1;
            }
            i = i + 1;
        }
        let m = parts.settlements.len();
        let mut k: usize = 0;
        while k < m
            invariant
                m == parts.settlements.len(),
                k <= m,
                pm == parts.model(),
                forall|a: int| 0 <= a < k ==> #[trigger] pm.settlements[a].id == a,
            decreases m - k,
        {
            if parts.settlements[k].id != k as u64 {
                proof {
                    assert(pm.settlements[k as int].id != k);
                }
                return None;
            }
            k = k + 1;
        }
        let c = SynapseContract {
            admin: parts.admin,
            paused: parts.paused,
            relayers: parts.relayers,
            assets: parts.assets,
            deposits: parts.deposits,
            settlements: parts.settlements,
            dlq: parts.dlq,
            events: Vec::new(),
        };
        proof {
            assert(models(c.events@) =~= Seq::<EventModel>::empty());
            assert(c@ =~= pm);
            vstd::seq_lib::seq_to_set_is_finite(texts(c.relayers@));
            vstd::seq_lib::seq_to_set_is_finite(texts(c.assets@));
        }
        Some(c)
    }

    /// The persisted parts of this contract; the recorded events are dropped.
    pub fn into_parts(self) -> (r: ContractParts)
        requires
            self.wf(),
        ensures
            r.valid(),
            r.model() == (ContractModel { events: Seq::empty(), ..self@ }),
    {
        let r = ContractParts {
            admin: self.admin,
            paused: self.paused,
            relayers: self.relayers,
            assets: self.assets,
            deposits: self.deposits,
            settlements: self.settlements,
            dlq: self.dlq,
        };
        proof {
            assert(r.model() =~= (ContractModel { events: Seq::empty(), ..self@ }));
        }
        r
    }
}

} // verus!
