//! The records the contract stores and the events it records, each with its
//! mathematical model.

use vstd::prelude::*;

verus! {

/// Where a deposit stands in its lifecycle.
#[derive(Clone, Copy, Debug, PartialEq, Eq, Structural)]
pub enum TransactionStatus {
    Pending,
    Processing,
    Completed,
    Failed,
}

/// Why the contract refused a call.
#[derive(Clone, Copy, Debug, PartialEq, Eq, Structural)]
pub enum ContractError {
    /// `initialize` was called on a contract that already has an administrator.
    AlreadyInitialized,
    /// An administrator action on a contract that has none yet.
    NotInitialized,
    /// An administrator action by someone who is not the administrator.
    Unauthorized,
    /// A relayer action by someone who is not a relayer.
    NotRelayer,
    /// `grant_relayer` was given the all-zeros account.
    InvalidRelayerAddress,
    /// A relayer action while the contract is paused.
    ContractPaused,
    /// A deposit in an asset that is not on the allowlist.
    AssetNotAllowed,
    /// No deposit has the given id.
    TransactionNotFound,
    /// No settlement has the given id.
    SettlementNotFound,
    /// The operation has no implementation yet.
    NotImplemented,
}

/// A deposit registered by a relayer. `id` is its position among all deposits.
#[derive(Debug)]
pub struct Transaction {
    pub id: u64,
    pub anchor_transaction_id: String,
    pub stellar_account: String,
    pub amount: i128,
    pub asset_code: String,
    pub status: TransactionStatus,
    pub created_ledger: u32,
    pub updated_ledger: u32,
}

/// The model of a [`Transaction`]: its text fields as character sequences.
pub struct TransactionModel {
    pub id: u64,
    pub anchor_transaction_id: Seq<char>,
    pub stellar_account: Seq<char>,
    pub amount: i128,
    pub asset_code: Seq<char>,
    pub status: TransactionStatus,
    pub created_ledger: u32,
    pub updated_ledger: u32,
}

impl View for Transaction {
    type V = TransactionModel;

    open spec fn view(&self) -> TransactionModel {
        TransactionModel {
            id: self.id,
            anchor_transaction_id: self.anchor_transaction_id@,
            stellar_account: self.stellar_account@,
            amount: self.amount,
            asset_code: self.asset_code@,
            status: self.status,
            created_ledger: self.created_ledger,
            updated_ledger: self.updated_ledger,
        }
    }
}

impl Transaction {
    /// A copy of this record.
    pub fn duplicate(&self) -> (r: Transaction)
        ensures
            r@ == self@,
    {
        Transaction {
            id: self.id,
            anchor_transaction_id: self.anchor_transaction_id.clone(),
            stellar_account: self.stellar_account.clone(),
            amount: self.amount,
            asset_code: self.asset_code.clone(),
            status: self.status,
            created_ledger: self.created_ledger,
            updated_ledger: self.updated_ledger,
        }
    }
}

/// A batch of deposits settled together. `id` is its position among all
/// settlements.
#[derive(Debug)]
pub struct Settlement {
    pub id: u64,
    pub asset_code: String,
    pub tx_ids: Vec<u64>,
    pub total_amount: i128,
    pub period_start: u64,
    pub period_end: u64,
    pub created_ledger: u32,
}

/// The model of a [`Settlement`].
pub struct SettlementModel {
    pub id: u64,
    pub asset_code: Seq<char>,
    pub tx_ids: Seq<u64>,
    pub total_amount: i128,
    pub period_start: u64,
    pub period_end: u64,
    pub created_ledger: u32,
}

impl View for Settlement {
    type V = SettlementModel;

    open spec fn view(&self) -> SettlementModel {
        SettlementModel {
            id: self.id,
            asset_code: self.asset_code@,
            tx_ids: self.tx_ids@,
            total_amount: self.total_amount,
            period_start: self.period_start,
            period_end: self.period_end,
            created_ledger: self.created_ledger,
        }
    }
}

impl Settlement {
    /// A copy of this record.
    pub fn duplicate(&self) -> (r: Settlement)
        ensures
            r@ == self@,
    {
        Settlement {
            id: self.id,
            asset_code: self.asset_code.clone(),
            tx_ids: self.tx_ids.clone(),
            total_amount: self.total_amount,
            period_start: self.period_start,
            period_end: self.period_end,
            created_ledger: self.created_ledger,
        }
    }
}

/// An entry of the dead-letter queue: a deposit that failed, and why.
#[derive(Debug)]
pub struct DlqEntry {
    pub tx_id: u64,
    pub error_reason: String,
    pub failed_ledger: u32,
}

/// The model of a [`DlqEntry`].
pub struct DlqEntryModel {
    pub tx_id: u64,
    pub error_reason: Seq<char>,
    pub failed_ledger: u32,
}

impl View for DlqEntry {
    type V = DlqEntryModel;

    open spec fn view(&self) -> DlqEntryModel {
        DlqEntryModel {
            tx_id: self.tx_id,
            error_reason: self.error_reason@,
            failed_ledger: self.failed_ledger,
        }
    }
}

/// What the contract announces after a change.
#[derive(Debug)]
pub enum Event {
    AssetAdded(String),
    AssetRemoved(String),
    DepositRegistered(u64, String),
    StatusUpdated(u64, TransactionStatus),
    MovedToDlq(u64, String),
    SettlementFinalized(u64, String, i128),
}

/// The model of an [`Event`].
pub enum EventModel {
    AssetAdded(Seq<char>),
    AssetRemoved(Seq<char>),
    DepositRegistered(u64, Seq<char>),
    StatusUpdated(u64, TransactionStatus),
    MovedToDlq(u64, Seq<char>),
    SettlementFinalized(u64, Seq<char>, i128),
}

impl View for Event {
    type V = EventModel;

    open spec fn view(&self) -> EventModel {
        match self {
            Event::AssetAdded(a) => EventModel::AssetAdded(a@),
            Event::AssetRemoved(a) => EventModel::AssetRemoved(a@),
            Event::DepositRegistered(id, anchor) => EventModel::DepositRegistered(*id, anchor@),
            Event::StatusUpdated(id, st) => EventModel::StatusUpdated(*id, *st),
            Event::MovedToDlq(id, reason) => EventModel::MovedToDlq(*id, reason@),
            Event::SettlementFinalized(id, asset, total) => EventModel::SettlementFinalized(
                *id,
                asset@,
                *total,
            ),
        }
    }
}

/// The models of a sequence of records.
pub open spec fn models<T: View>(s: Seq<T>) -> Seq<T::V> {
    s.map_values(|x: T| x@)
}

} // verus!
