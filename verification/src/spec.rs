//! What the contract does, stated over its model: one step function per
//! entry point, from the state before a call to the outcome of the call.

use vstd::prelude::*;

use crate::types::{
    ContractError, DlqEntryModel, EventModel, SettlementModel, TransactionModel, TransactionStatus,
};

verus! {

/// The all-zeros Stellar account (32 zero bytes encoded as a G-address),
/// which may never be made a relayer.
pub const ZERO_ADDRESS: &'static str = "GAAAAAAAAAAAAAAAAAAAAAAAAAAAAAAAAAAAAAAAAAAAAAAAAAAAAWHF";

/// The text of [`ZERO_ADDRESS`].
pub open spec fn zero_address() -> Seq<char> {
    ZERO_ADDRESS@
}

/// The model of the contract's storage, together with the events it has
/// recorded and not yet handed out.
#[verifier::ext_equal]
pub struct ContractModel {
    pub admin: Option<Seq<char>>,
    pub paused: bool,
    pub relayers: Set<Seq<char>>,
    pub assets: Set<Seq<char>>,
    pub deposits: Seq<TransactionModel>,
    pub settlements: Seq<SettlementModel>,
    pub dlq: Seq<DlqEntryModel>,
    pub events: Seq<EventModel>,
}

impl ContractModel {
    /// A freshly deployed contract: no administrator, nothing stored.
    pub open spec fn empty() -> ContractModel {
        ContractModel {
            admin: None,
            paused: false,
            relayers: Set::empty(),
            assets: Set::empty(),
            deposits: Seq::empty(),
            settlements: Seq::empty(),
            dlq: Seq::empty(),
            events: Seq::empty(),
        }
    }

    /// What every reachable state satisfies: each deposit and settlement
    /// sits at the position its id names, no two deposits share an anchor
    /// transaction id, and the all-zeros account is no relayer.
    pub open spec fn wf(self) -> bool {
        &&& self.relayers.finite()
        &&& self.assets.finite()
        &&& !self.relayers.contains(zero_address())
        &&& forall|i: int| 0 <= i < self.deposits.len() ==> #[trigger] self.deposits[i].id == i
        &&& forall|i: int, j: int|
            0 <= i < self.deposits.len() && 0 <= j < self.deposits.len() && i != j
                ==> #[trigger] self.deposits[i].anchor_transaction_id
                != #[trigger] self.deposits[j].anchor_transaction_id
        &&& forall|i: int|
            0 <= i < self.settlements.len() ==> #[trigger] self.settlements[i].id == i
    }

    /// The refusal, if any, of an administrator action by `caller`.
    pub open spec fn admin_refusal(self, caller: Seq<char>) -> Option<ContractError> {
        match self.admin {
            None => Some(ContractError::NotInitialized),
            Some(admin) => if admin == caller {
                None
            } else {
                Some(ContractError::Unauthorized)
            },
        }
    }

    /// The refusal, if any, of a relayer action by `caller`: none is taken
    /// while the contract is paused, and only relayers take them.
    pub open spec fn relayer_refusal(self, caller: Seq<char>) -> Option<ContractError> {
        if self.paused {
            Some(ContractError::ContractPaused)
        } else if !self.relayers.contains(caller) {
            Some(ContractError::NotRelayer)
        } else {
            None
        }
    }

    pub open spec fn initialize(self, admin: Seq<char>) -> Result<ContractModel, ContractError> {
        if self.admin is Some {
            Err(ContractError::AlreadyInitialized)
        } else {
            Ok(ContractModel { admin: Some(admin), ..self })
        }
    }

    pub open spec fn grant_relayer(self, caller: Seq<char>, relayer: Seq<char>) -> Result<
        ContractModel,
        ContractError,
    > {
        if relayer == zero_address() {
            Err(ContractError::InvalidRelayerAddress)
        } else {
            match self.admin_refusal(caller) {
                Some(e) => Err(e),
                None => Ok(ContractModel { relayers: self.relayers.insert(relayer), ..self }),
            }
        }
    }

    pub open spec fn revoke_relayer(self, caller: Seq<char>, relayer: Seq<char>) -> Result<
        ContractModel,
        ContractError,
    > {
        match self.admin_refusal(caller) {
            Some(e) => Err(e),
            None => Ok(ContractModel { relayers: self.relayers.remove(relayer), ..self }),
        }
    }

    pub open spec fn transfer_admin(self, caller: Seq<char>, new_admin: Seq<char>) -> Result<
        ContractModel,
        ContractError,
    > {
        match self.admin_refusal(caller) {
            Some(e) => Err(e),
            None => Ok(ContractModel { admin: Some(new_admin), ..self }),
        }
    }

    /// `pause` and `unpause`: the administrator sets the paused flag.
    pub open spec fn set_paused(self, caller: Seq<char>, paused: bool) -> Result<
        ContractModel,
        ContractError,
    > {
        match self.admin_refusal(caller) {
            Some(e) => Err(e),
            None => Ok(ContractModel { paused, ..self }),
        }
    }

    pub open spec fn add_asset(self, caller: Seq<char>, asset_code: Seq<char>) -> Result<
        ContractModel,
        ContractError,
    > {
        match self.admin_refusal(caller) {
            Some(e) => Err(e),
            None => Ok(
                ContractModel {
                    assets: self.assets.insert(asset_code),
                    events: self.events.push(EventModel::AssetAdded(asset_code)),
                    ..self
                },
            ),
        }
    }

    pub open spec fn remove_asset(self, caller: Seq<char>, asset_code: Seq<char>) -> Result<
        ContractModel,
        ContractError,
    > {
        match self.admin_refusal(caller) {
            Some(e) => Err(e),
            None => Ok(
                ContractModel {
                    assets: self.assets.remove(asset_code),
                    events: self.events.push(EventModel::AssetRemoved(asset_code)),
                    ..self
                },
            ),
        }
    }

    /// The id of the deposit registered under `anchor`, if there is one.
    pub open spec fn anchor_lookup(self, anchor: Seq<char>) -> Option<u64> {
        if exists|i: int|
            0 <= i < self.deposits.len() && #[trigger] self.deposits[i].anchor_transaction_id
                == anchor {
            Some(
                (choose|i: int|
                    0 <= i < self.deposits.len() && #[trigger] self.deposits[i].anchor_transaction_id
                        == anchor) as u64,
            )
        } else {
            None
        }
    }

    /// A relayer registers a deposit. A second registration under the same
    /// anchor transaction id returns the first one's id and changes nothing.
    pub open spec fn register_deposit(
        self,
        caller: Seq<char>,
        anchor: Seq<char>,
        account: Seq<char>,
        amount: i128,
        asset_code: Seq<char>,
        ledger: u32,
    ) -> Result<(u64, ContractModel), ContractError> {
        match self.relayer_refusal(caller) {
            Some(e) => Err(e),
            None => if !self.assets.contains(asset_code) {
                Err(ContractError::AssetNotAllowed)
            } else {
                match self.anchor_lookup(anchor) {
                    Some(id) => Ok((id, self)),
                    None => {
                        let id = self.deposits.len() as u64;
                        let tx = TransactionModel {
                            id,
                            anchor_transaction_id: anchor,
                            stellar_account: account,
                            amount,
                            asset_code,
                            status: TransactionStatus::Pending,
                            created_ledger: ledger,
                            updated_ledger: ledger,
                        };
                        Ok(
                            (
                                id,
                                ContractModel {
                                    deposits: self.deposits.push(tx),
                                    events: self.events.push(
                                        EventModel::DepositRegistered(id, anchor),
                                    ),
                                    ..self
                                },
                            ),
                        )
                    },
                }
            },
        }
    }

    /// The state with deposit `tx_id` given `status` at `ledger`.
    pub open spec fn with_status(self, tx_id: u64, status: TransactionStatus, ledger: u32) -> ContractModel {
        ContractModel {
            deposits: self.deposits.update(
                tx_id as int,
                TransactionModel { status, updated_ledger: ledger, ..self.deposits[tx_id as int] },
            ),
            ..self
        }
    }

    /// The refusal, if any, of a status change of deposit `tx_id` by `caller`.
    pub open spec fn status_refusal(self, caller: Seq<char>, tx_id: u64) -> Option<ContractError> {
        match self.relayer_refusal(caller) {
            Some(e) => Some(e),
            None => if tx_id < self.deposits.len() {
                None
            } else {
                Some(ContractError::TransactionNotFound)
            },
        }
    }

    /// `mark_processing` and `mark_completed`: a relayer sets a deposit's
    /// status and the change is announced.
    pub open spec fn update_status(
        self,
        caller: Seq<char>,
        tx_id: u64,
        status: TransactionStatus,
        ledger: u32,
    ) -> Result<ContractModel, ContractError> {
        match self.status_refusal(caller, tx_id) {
            Some(e) => Err(e),
            None => {
                let s = self.with_status(tx_id, status, ledger);
                Ok(
                    ContractModel {
                        events: s.events.push(EventModel::StatusUpdated(tx_id, status)),
                        ..s
                    },
                )
            },
        }
    }

    /// A relayer marks a deposit failed; it enters the dead-letter queue.
    pub open spec fn mark_failed(
        self,
        caller: Seq<char>,
        tx_id: u64,
        reason: Seq<char>,
        ledger: u32,
    ) -> Result<ContractModel, ContractError> {
        match self.status_refusal(caller, tx_id) {
            Some(e) => Err(e),
            None => {
                let s = self.with_status(tx_id, TransactionStatus::Failed, ledger);
                Ok(
                    ContractModel {
                        dlq: s.dlq.push(
                            DlqEntryModel { tx_id, error_reason: reason, failed_ledger: ledger },
                        ),
                        events: s.events.push(EventModel::MovedToDlq(tx_id, reason)),
                        ..s
                    },
                )
            },
        }
    }

    /// Retrying a dead-letter entry is refused: to anyone but the
    /// administrator as unauthorized, to the administrator as not implemented.
    pub open spec fn retry_dlq_refusal(self, caller: Seq<char>) -> ContractError {
        match self.admin_refusal(caller) {
            Some(e) => e,
            None => ContractError::NotImplemented,
        }
    }

    pub open spec fn finalize_settlement(
        self,
        caller: Seq<char>,
        asset_code: Seq<char>,
        tx_ids: Seq<u64>,
        total_amount: i128,
        period_start: u64,
        period_end: u64,
        ledger: u32,
    ) -> Result<(u64, ContractModel), ContractError> {
        match self.relayer_refusal(caller) {
            Some(e) => Err(e),
            None => {
                let id = self.settlements.len() as u64;
                let s = SettlementModel {
                    id,
                    asset_code,
                    tx_ids,
                    total_amount,
                    period_start,
                    period_end,
                    created_ledger: ledger,
                };
                Ok(
                    (
                        id,
                        ContractModel {
                            settlements: self.settlements.push(s),
                            events: self.events.push(
                                EventModel::SettlementFinalized(id, asset_code, total_amount),
                            ),
                            ..self
                        },
                    ),
                )
            },
        }
    }

    pub open spec fn get_transaction(self, tx_id: u64) -> Result<TransactionModel, ContractError> {
        if tx_id < self.deposits.len() {
            Ok(self.deposits[tx_id as int])
        } else {
            Err(ContractError::TransactionNotFound)
        }
    }

    pub open spec fn get_settlement(self, settlement_id: u64) -> Result<
        SettlementModel,
        ContractError,
    > {
        if settlement_id < self.settlements.len() {
            Ok(self.settlements[settlement_id as int])
        } else {
            Err(ContractError::SettlementNotFound)
        }
    }
}

/// A call that changes the state and returns nothing did what `step` says:
/// on success the state became the step's, on refusal it returned the step's
/// error and left the state alone.
pub open spec fn applied(
    step: Result<ContractModel, ContractError>,
    before: ContractModel,
    after: ContractModel,
    result: Result<(), ContractError>,
) -> bool {
    match step {
        Ok(s) => result == Ok::<(), ContractError>(()) && after == s,
        Err(e) => result == Err::<(), ContractError>(e) && after == before,
    }
}

/// As [`applied`], for a call that returns an id.
pub open spec fn applied_with_id(
    step: Result<(u64, ContractModel), ContractError>,
    before: ContractModel,
    after: ContractModel,
    result: Result<u64, ContractError>,
) -> bool {
    match step {
        Ok((id, s)) => result == Ok::<u64, ContractError>(id) && after == s,
        Err(e) => result == Err::<u64, ContractError>(e) && after == before,
    }
}

} // verus!
