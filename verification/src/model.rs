use vstd::prelude::*;

use crate::types::{Config, Escrow, EscrowError, EscrowStatus, Transfer};

verus! {

/// What the contract has recorded: its settings, once `initialize` has run,
/// and every escrow ever created, in the order of creation.
pub struct ContractState {
    pub config: Option<Config>,
    pub escrows: Seq<Escrow>,
}

/// `i` is the first position in `escrows` whose id is `id`.
pub open spec fn is_first_with_id(escrows: Seq<Escrow>, id: Seq<char>, i: int) -> bool {
    &&& 0 <= i < escrows.len()
    &&& escrows[i].id@ == id
    &&& forall|j: int| 0 <= j < i ==> escrows[j].id@ != id
}

/// The position of the escrow with the given id, if there is one.
pub open spec fn find(escrows: Seq<Escrow>, id: Seq<char>) -> Option<int> {
    if exists|i: int| is_first_with_id(escrows, id, i) {
        Some(choose|i: int| is_first_with_id(escrows, id, i))
    } else {
        None
    }
}

/// The escrow holds funds: it has been neither released nor refunded.
pub open spec fn is_open(e: Escrow) -> bool {
    e.status is Pending || e.status is Disputed
}

/// The amount that an escrow keeps in the contract's account.
pub open spec fn held_by(e: Escrow) -> int {
    if is_open(e) {
        e.amount as int
    } else {
        0
    }
}

/// The amount that the contract's account holds for all escrows together.
pub open spec fn held(escrows: Seq<Escrow>) -> int
    decreases escrows.len(),
{
    if escrows.len() == 0 {
        0
    } else {
        held(escrows.drop_last()) + held_by(escrows.last())
    }
}

/// The ids of the escrows that `select` picks, in the order of creation.
pub open spec fn ids_where(escrows: Seq<Escrow>, select: spec_fn(Escrow) -> bool) -> Seq<String>
    decreases escrows.len(),
{
    if escrows.len() == 0 {
        Seq::empty()
    } else {
        let rest = ids_where(escrows.drop_last(), select);
        if select(escrows.last()) {
            rest.push(escrows.last().id)
        } else {
            rest
        }
    }
}

pub open spec fn by_depositor(who: Seq<char>) -> spec_fn(Escrow) -> bool {
    |e: Escrow| e.depositor@ == who
}

pub open spec fn by_beneficiary(who: Seq<char>) -> spec_fn(Escrow) -> bool {
    |e: Escrow| e.beneficiary@ == who
}

/// A dispute may still be raised on `e` at time `now`: disputes are enabled
/// for it and its window has not run out.
pub open spec fn dispute_window_open(e: Escrow, now: u64) -> bool {
    e.dispute_window > 0 && now <= e.created_at + e.dispute_window
}

/// `e` after it was settled at `now` with the given outcome.
pub open spec fn settled(e: Escrow, status: EscrowStatus, now: u64) -> Escrow {
    Escrow { status, resolved_at: Some(now), ..e }
}

/// The payout that settles `e`: to the beneficiary when it is released,
/// back to the depositor otherwise.
pub open spec fn payout(e: Escrow, to_beneficiary: bool) -> Transfer {
    if to_beneficiary {
        Transfer::Payout { to: e.beneficiary, amount: e.amount }
    } else {
        Transfer::Payout { to: e.depositor, amount: e.amount }
    }
}

/// The escrow that `create_escrow` records.
pub open spec fn new_escrow(
    depositor: String,
    id: String,
    beneficiary: String,
    amount: i128,
    description: String,
    release_after: u64,
    dispute_window: u64,
    now: u64,
) -> Escrow {
    Escrow {
        id,
        depositor,
        beneficiary,
        amount,
        description,
        status: EscrowStatus::Pending,
        created_at: now,
        dispute_window,
        release_after,
        dispute_raised_at: None,
        resolved_at: None,
    }
}

/// The timestamps of `e` agree with its status.
pub open spec fn status_consistent(e: Escrow) -> bool {
    match e.status {
        EscrowStatus::Pending => e.dispute_raised_at is None && e.resolved_at is None,
        EscrowStatus::Disputed => e.dispute_raised_at is Some && e.resolved_at is None,
        EscrowStatus::Released => e.resolved_at is Some,
        EscrowStatus::Refunded => e.resolved_at is Some,
    }
}

pub proof fn lemma_find_first(escrows: Seq<Escrow>, id: Seq<char>, i: int)
    requires
        is_first_with_id(escrows, id, i),
    ensures
        find(escrows, id) == Some(i),
{
    let k = choose|k: int| is_first_with_id(escrows, id, k);
    assert(is_first_with_id(escrows, id, k));
    if k < i {
        assert(escrows[k].id@ != id);
    } else if i < k {
        assert(escrows[i].id@ != id);
    }
}

pub proof fn lemma_find_absent(escrows: Seq<Escrow>, id: Seq<char>)
    requires
        forall|j: int| 0 <= j < escrows.len() ==> escrows[j].id@ != id,
    ensures
        find(escrows, id) is None,
{
}

/// When some escrow has the id, a first one has it.
pub proof fn lemma_first_exists(escrows: Seq<Escrow>, id: Seq<char>, j: int)
    requires
        0 <= j < escrows.len(),
        escrows[j].id@ == id,
    ensures
        find(escrows, id) is Some,
    decreases j,
{
    if forall|k: int| 0 <= k < j ==> escrows[k].id@ != id {
        assert(is_first_with_id(escrows, id, j));
    } else {
        let k = choose|k: int| 0 <= k < j && escrows[k].id@ != id == false;
        lemma_first_exists(escrows, id, k);
    }
}

/// `find` fails exactly when no escrow has the id.
pub proof fn lemma_find_none_iff(escrows: Seq<Escrow>, id: Seq<char>)
    ensures
        find(escrows, id) is None <==> forall|j: int|
            0 <= j < escrows.len() ==> #[trigger] escrows[j].id@ != id,
{
    if !(forall|j: int| 0 <= j < escrows.len() ==> #[trigger] escrows[j].id@ != id) {
        let j = choose|j: int| 0 <= j < escrows.len() && !(escrows[j].id@ != id);
        lemma_first_exists(escrows, id, j);
    }
}

pub proof fn lemma_find_some(escrows: Seq<Escrow>, id: Seq<char>)
    requires
        find(escrows, id) is Some,
    ensures
        is_first_with_id(escrows, id, find(escrows, id)->0),
{
}

pub proof fn lemma_held_push(escrows: Seq<Escrow>, e: Escrow)
    ensures
        held(escrows.push(e)) == held(escrows) + held_by(e),
{
    assert(escrows.push(e).drop_last() =~= escrows);
}

pub proof fn lemma_held_update(escrows: Seq<Escrow>, i: int, e: Escrow)
    requires
        0 <= i < escrows.len(),
    ensures
        held(escrows.update(i, e)) == held(escrows) - held_by(escrows[i]) + held_by(e),
    decreases escrows.len(),
{
    let u = escrows.update(i, e);
    if i == escrows.len() - 1 {
        assert(u.drop_last() =~= escrows.drop_last());
    } else {
        lemma_held_update(escrows.drop_last(), i, e);
        assert(u.drop_last() =~= escrows.drop_last().update(i, e));
    }
}

pub proof fn lemma_held_nonnegative(escrows: Seq<Escrow>)
    requires
        forall|i: int| 0 <= i < escrows.len() ==> #[trigger] escrows[i].amount > 0,
    ensures
        held(escrows) >= 0,
    decreases escrows.len(),
{
    if escrows.len() > 0 {
        let rest = escrows.drop_last();
        assert forall|i: int| 0 <= i < rest.len() implies #[trigger] rest[i].amount > 0 by {
            assert(rest[i] == escrows[i]);
        }
        lemma_held_nonnegative(rest);
        assert(escrows.last() == escrows[escrows.len() - 1]);
    }
}

pub proof fn lemma_ids_where_push(escrows: Seq<Escrow>, e: Escrow, select: spec_fn(Escrow) -> bool)
    ensures
        ids_where(escrows.push(e), select) == if select(e) {
            ids_where(escrows, select).push(e.id)
        } else {
            ids_where(escrows, select)
        },
{
    assert(escrows.push(e).drop_last() =~= escrows);
}

pub proof fn lemma_ids_where_update(
    escrows: Seq<Escrow>,
    i: int,
    e: Escrow,
    select: spec_fn(Escrow) -> bool,
)
    requires
        0 <= i < escrows.len(),
        select(e) == select(escrows[i]),
        e.id == escrows[i].id,
    ensures
        ids_where(escrows.update(i, e), select) == ids_where(escrows, select),
    decreases escrows.len(),
{
    let u = escrows.update(i, e);
    if i == escrows.len() - 1 {
        assert(u.drop_last() =~= escrows.drop_last());
    } else {
        lemma_ids_where_update(escrows.drop_last(), i, e, select);
        assert(u.drop_last() =~= escrows.drop_last().update(i, e));
    }
}

impl ContractState {
    /// A freshly deployed contract.
    pub open spec fn empty() -> ContractState {
        ContractState { config: None, escrows: Seq::empty() }
    }

    /// What every reachable state satisfies: no two escrows share an id,
    /// every escrow holds a positive amount and has timestamps that agree
    /// with its status, and escrows exist only once the contract is set up.
    pub open spec fn wf(self) -> bool {
        &&& forall|i: int, j: int|
            0 <= i < self.escrows.len() && 0 <= j < self.escrows.len() && i != j
                ==> #[trigger] self.escrows[i].id@ != #[trigger] self.escrows[j].id@
        &&& forall|i: int| 0 <= i < self.escrows.len() ==> #[trigger] self.escrows[i].amount > 0
        &&& forall|i: int|
            0 <= i < self.escrows.len() ==> status_consistent(#[trigger] self.escrows[i])
        &&& self.escrows.len() > 0 ==> self.config is Some
    }

    pub open spec fn initialize(
        self,
        admin: String,
        payment_token: String,
        dispute_window: u64,
    ) -> Result<ContractState, EscrowError> {
        if self.config is Some {
            Err(EscrowError::AlreadyInitialized)
        } else {
            Ok(ContractState { config: Some(Config { admin, payment_token, dispute_window }), ..self })
        }
    }

    pub open spec fn set_dispute_window(self, caller: String, dispute_window: u64) -> Result<
        ContractState,
        EscrowError,
    > {
        match self.config {
            None => Err(EscrowError::NotInitialized),
            Some(c) => if caller@ != c.admin@ {
                Err(EscrowError::Unauthorized)
            } else {
                Ok(ContractState { config: Some(Config { dispute_window, ..c }), ..self })
            },
        }
    }

    pub open spec fn create_escrow(
        self,
        depositor: String,
        id: String,
        beneficiary: String,
        amount: i128,
        description: String,
        release_after: u64,
        now: u64,
    ) -> Result<(ContractState, Transfer), EscrowError> {
        match self.config {
            None => Err(EscrowError::NotInitialized),
            Some(c) => if amount <= 0 {
                Err(EscrowError::InvalidAmount)
            } else if find(self.escrows, id@) is Some {
                Err(EscrowError::EscrowAlreadyExists)
            } else {
                let e = new_escrow(
                    depositor,
                    id,
                    beneficiary,
                    amount,
                    description,
                    release_after,
                    c.dispute_window,
                    now,
                );
                Ok(
                    (
                        ContractState { escrows: self.escrows.push(e), ..self },
                        Transfer::Deposit { from: depositor, amount },
                    ),
                )
            },
        }
    }

    /// The administrator settles a pending escrow: to the beneficiary
    /// (`release`) or back to the depositor (`refund`).
    pub open spec fn settle_pending(
        self,
        caller: String,
        id: String,
        to_beneficiary: bool,
        now: u64,
    ) -> Result<(ContractState, Transfer), EscrowError> {
        match self.config {
            None => Err(EscrowError::NotInitialized),
            Some(c) => if caller@ != c.admin@ {
                Err(EscrowError::Unauthorized)
            } else {
                match find(self.escrows, id@) {
                    None => Err(EscrowError::EscrowNotFound),
                    Some(i) => {
                        let e = self.escrows[i];
                        if !(e.status is Pending) {
                            Err(EscrowError::EscrowNotPending)
                        } else {
                            let status = if to_beneficiary {
                                EscrowStatus::Released
                            } else {
                                EscrowStatus::Refunded
                            };
                            Ok(
                                (
                                    ContractState {
                                        escrows: self.escrows.update(i, settled(e, status, now)),
                                        ..self
                                    },
                                    payout(e, to_beneficiary),
                                ),
                            )
                        }
                    },
                }
            },
        }
    }

    pub open spec fn release(self, caller: String, id: String, now: u64) -> Result<
        (ContractState, Transfer),
        EscrowError,
    > {
        self.settle_pending(caller, id, true, now)
    }

    pub open spec fn refund(self, caller: String, id: String, now: u64) -> Result<
        (ContractState, Transfer),
        EscrowError,
    > {
        self.settle_pending(caller, id, false, now)
    }

    pub open spec fn raise_dispute(self, caller: String, id: String, now: u64) -> Result<
        ContractState,
        EscrowError,
    > {
        match find(self.escrows, id@) {
            None => Err(EscrowError::EscrowNotFound),
            Some(i) => {
                let e = self.escrows[i];
                if caller@ != e.depositor@ && caller@ != e.beneficiary@ {
                    Err(EscrowError::Unauthorized)
                } else if !(e.status is Pending) {
                    Err(EscrowError::EscrowNotPending)
                } else if !dispute_window_open(e, now) {
                    Err(EscrowError::DisputeWindowClosed)
                } else {
                    let d = Escrow { status: EscrowStatus::Disputed, dispute_raised_at: Some(now), ..e };
                    Ok(ContractState { escrows: self.escrows.update(i, d), ..self })
                }
            },
        }
    }

    pub open spec fn resolve_dispute(
        self,
        caller: String,
        id: String,
        release_to_beneficiary: bool,
        now: u64,
    ) -> Result<(ContractState, Transfer), EscrowError> {
        match self.config {
            None => Err(EscrowError::NotInitialized),
            Some(c) => if caller@ != c.admin@ {
                Err(EscrowError::Unauthorized)
            } else {
                match find(self.escrows, id@) {
                    None => Err(EscrowError::EscrowNotFound),
                    Some(i) => {
                        let e = self.escrows[i];
                        if !(e.status is Disputed) {
                            Err(EscrowError::EscrowNotDisputed)
                        } else {
                            let status = if release_to_beneficiary {
                                EscrowStatus::Released
                            } else {
                                EscrowStatus::Refunded
                            };
                            Ok(
                                (
                                    ContractState {
                                        escrows: self.escrows.update(i, settled(e, status, now)),
                                        ..self
                                    },
                                    payout(e, release_to_beneficiary),
                                ),
                            )
                        }
                    },
                }
            },
        }
    }

    pub open spec fn claim(self, caller: String, id: String, now: u64) -> Result<
        (ContractState, Transfer),
        EscrowError,
    > {
        match self.config {
            None => Err(EscrowError::NotInitialized),
            Some(_) => match find(self.escrows, id@) {
                None => Err(EscrowError::EscrowNotFound),
                Some(i) => {
                    let e = self.escrows[i];
                    if caller@ != e.beneficiary@ {
                        Err(EscrowError::Unauthorized)
                    } else if !(e.status is Pending) {
                        Err(EscrowError::EscrowNotPending)
                    } else if e.release_after == 0 {
                        Err(EscrowError::AutoClaimDisabled)
                    } else if now < e.release_after {
                        Err(EscrowError::ClaimTooEarly)
                    } else {
                        Ok(
                            (
                                ContractState {
                                    escrows: self.escrows.update(
                                        i,
                                        settled(e, EscrowStatus::Released, now),
                                    ),
                                    ..self
                                },
                                payout(e, true),
                            ),
                        )
                    }
                },
            },
        }
    }

    pub open spec fn get_escrow(self, id: String) -> Result<Escrow, EscrowError> {
        match find(self.escrows, id@) {
            None => Err(EscrowError::EscrowNotFound),
            Some(i) => Ok(self.escrows[i]),
        }
    }
}

} // verus!
