use vstd::prelude::*;

use crate::model::{self, ContractState};
use crate::types::{Escrow, EscrowError, EscrowStatus, Transfer};

verus! {

/// A request that changes the contract, with the arguments that the caller
/// gives; the ledger time comes with it separately.
pub enum Request {
    Initialize { admin: String, payment_token: String, dispute_window: u64 },
    SetDisputeWindow { admin: String, dispute_window: u64 },
    CreateEscrow {
        depositor: String,
        id: String,
        beneficiary: String,
        amount: i128,
        description: String,
        release_after: u64,
    },
    Release { admin: String, id: String },
    Refund { admin: String, id: String },
    RaiseDispute { caller: String, id: String },
    ResolveDispute { admin: String, id: String, release_to_beneficiary: bool },
    Claim { beneficiary: String, id: String },
}

pub open spec fn without_transfer(r: Result<ContractState, EscrowError>) -> Result<
    (ContractState, Option<Transfer>),
    EscrowError,
> {
    match r {
        Ok(s) => Ok((s, None)),
        Err(e) => Err(e),
    }
}

pub open spec fn with_transfer(r: Result<(ContractState, Transfer), EscrowError>) -> Result<
    (ContractState, Option<Transfer>),
    EscrowError,
> {
    match r {
        Ok((s, t)) => Ok((s, Some(t))),
        Err(e) => Err(e),
    }
}

/// What the operation of `PaymentEscrow` that serves `req` does to the state
/// `s` at time `now`, and the transfer it asks for.
pub open spec fn step(s: ContractState, req: Request, now: u64) -> Result<
    (ContractState, Option<Transfer>),
    EscrowError,
> {
    match req {
        Request::Initialize { admin, payment_token, dispute_window } => without_transfer(
            s.initialize(admin, payment_token, dispute_window),
        ),
        Request::SetDisputeWindow { admin, dispute_window } => without_transfer(
            s.set_dispute_window(admin, dispute_window),
        ),
        Request::CreateEscrow {
            depositor,
            id,
            beneficiary,
            amount,
            description,
            release_after,
        } => with_transfer(
            s.create_escrow(depositor, id, beneficiary, amount, description, release_after, now),
        ),
        Request::Release { admin, id } => with_transfer(s.release(admin, id, now)),
        Request::Refund { admin, id } => with_transfer(s.refund(admin, id, now)),
        Request::RaiseDispute { caller, id } => without_transfer(s.raise_dispute(caller, id, now)),
        Request::ResolveDispute { admin, id, release_to_beneficiary } => with_transfer(
            s.resolve_dispute(admin, id, release_to_beneficiary, now),
        ),
        Request::Claim { beneficiary, id } => with_transfer(s.claim(beneficiary, id, now)),
    }
}

/// The change that a transfer makes to the contract's own token balance.
pub open spec fn net_inflow(t: Option<Transfer>) -> int {
    match t {
        None => 0,
        Some(Transfer::Deposit { from, amount }) => amount as int,
        Some(Transfer::Payout { to, amount }) => -(amount as int),
    }
}

/// Two records describe the same escrow on the same terms; only its status
/// and timestamps may differ.
pub open spec fn same_terms(a: Escrow, b: Escrow) -> bool {
    &&& a.id == b.id
    &&& a.depositor == b.depositor
    &&& a.beneficiary == b.beneficiary
    &&& a.amount == b.amount
    &&& a.description == b.description
    &&& a.created_at == b.created_at
    &&& a.dispute_window == b.dispute_window
    &&& a.release_after == b.release_after
}

/// Every accepted request keeps the state well formed: ids stay unique,
/// amounts positive, timestamps in agreement with the status.
pub proof fn law_wf_preserved(s: ContractState, req: Request, now: u64)
    requires
        s.wf(),
        step(s, req, now) is Ok,
    ensures
        step(s, req, now)->Ok_0.0.wf(),
{
    let s2 = step(s, req, now)->Ok_0.0;
    match req {
        Request::CreateEscrow { depositor, id, beneficiary, amount, description, release_after } => {
            model::lemma_find_none_iff(s.escrows, id@);
            let n = s.escrows.len() as int;
            assert forall|i: int, j: int|
                0 <= i < s2.escrows.len() && 0 <= j < s2.escrows.len() && i != j
                    implies #[trigger] s2.escrows[i].id@ != #[trigger] s2.escrows[j].id@ by {
                if i < n && j < n {
                    assert(s2.escrows[i] == s.escrows[i]);
                    assert(s2.escrows[j] == s.escrows[j]);
                } else if i == n {
                    assert(s2.escrows[j] == s.escrows[j]);
                    assert(s.escrows[j].id@ != id@);
                } else {
                    assert(s2.escrows[i] == s.escrows[i]);
                    assert(s.escrows[i].id@ != id@);
                }
            }
            assert forall|i: int| 0 <= i < s2.escrows.len() implies #[trigger] s2.escrows[i].amount
                > 0 by {
                if i < n {
                    assert(s2.escrows[i] == s.escrows[i]);
                }
            }
            assert forall|i: int| 0 <= i < s2.escrows.len() implies model::status_consistent(
                #[trigger] s2.escrows[i],
            ) by {
                if i < n {
                    assert(s2.escrows[i] == s.escrows[i]);
                }
            }
        },
        Request::Release { admin, id } => {
            lemma_update_keeps_wf(s, req, now);
        },
        Request::Refund { admin, id } => {
            lemma_update_keeps_wf(s, req, now);
        },
        Request::RaiseDispute { caller, id } => {
            lemma_update_keeps_wf(s, req, now);
        },
        Request::ResolveDispute { admin, id, release_to_beneficiary } => {
            lemma_update_keeps_wf(s, req, now);
        },
        Request::Claim { beneficiary, id } => {
            lemma_update_keeps_wf(s, req, now);
        },
        _ => {},
    }
}

/// The requests that act on one existing escrow replace it by a record on the
/// same terms, at the position where its id is found.
pub open spec fn updates_one(s: ContractState, s2: ContractState, i: int) -> bool {
    &&& 0 <= i < s.escrows.len()
    &&& s2.config == s.config
    &&& s2.escrows == s.escrows.update(i, s2.escrows[i])
    &&& same_terms(s2.escrows[i], s.escrows[i])
    &&& model::is_open(s.escrows[i])
}

proof fn lemma_single_update(s: ContractState, req: Request, now: u64) -> (i: int)
    requires
        step(s, req, now) is Ok,
        !(req is Initialize),
        !(req is SetDisputeWindow),
        !(req is CreateEscrow),
    ensures
        updates_one(s, step(s, req, now)->Ok_0.0, i),
        model::status_consistent(s.escrows[i]) ==> model::status_consistent(
            step(s, req, now)->Ok_0.0.escrows[i],
        ),
        step(s, req, now)->Ok_0.0.escrows[i].status is Disputed ==> (req is RaiseDispute
            && step(s, req, now)->Ok_0.1 is None),
        !(req is RaiseDispute) ==> (!model::is_open(step(s, req, now)->Ok_0.0.escrows[i])
            && step(s, req, now)->Ok_0.1 == Some(
            model::payout(
                s.escrows[i],
                step(s, req, now)->Ok_0.0.escrows[i].status is Released,
            ),
        )),
        req is RaiseDispute ==> step(s, req, now)->Ok_0.0.escrows[i].status is Disputed,
{
    let s2 = step(s, req, now)->Ok_0.0;
    let id = match req {
        Request::Release { admin, id } => id,
        Request::Refund { admin, id } => id,
        Request::RaiseDispute { caller, id } => id,
        Request::ResolveDispute { admin, id, release_to_beneficiary } => id,
        Request::Claim { beneficiary, id } => id,
        _ => arbitrary(),
    };
    let i = model::find(s.escrows, id@)->0;
    model::lemma_find_some(s.escrows, id@);
    assert(s2.escrows =~= s.escrows.update(i, s2.escrows[i]));
    i
}

proof fn lemma_update_keeps_wf(s: ContractState, req: Request, now: u64)
    requires
        s.wf(),
        step(s, req, now) is Ok,
        !(req is Initialize),
        !(req is SetDisputeWindow),
        !(req is CreateEscrow),
    ensures
        step(s, req, now)->Ok_0.0.wf(),
{
    let s2 = step(s, req, now)->Ok_0.0;
    let k = lemma_single_update(s, req, now);
    assert(model::status_consistent(s.escrows[k]));
    assert forall|i: int, j: int|
        0 <= i < s2.escrows.len() && 0 <= j < s2.escrows.len() && i != j
            implies #[trigger] s2.escrows[i].id@ != #[trigger] s2.escrows[j].id@ by {
        assert(s2.escrows[i].id == s.escrows[i].id);
        assert(s2.escrows[j].id == s.escrows[j].id);
    }
    assert forall|i: int| 0 <= i < s2.escrows.len() implies #[trigger] s2.escrows[i].amount > 0 by {
        assert(s2.escrows[i].amount == s.escrows[i].amount);
    }
    assert forall|i: int| 0 <= i < s2.escrows.len() implies model::status_consistent(
        #[trigger] s2.escrows[i],
    ) by {
        if i != k {
            assert(s2.escrows[i] == s.escrows[i]);
        }
    }
}

/// The contract's holdings move exactly with its transfers: every accepted
/// request changes the total held for open escrows by the amount deposited,
/// or by minus the amount paid out, and by nothing otherwise.
pub proof fn law_held_follows_transfers(s: ContractState, req: Request, now: u64)
    requires
        step(s, req, now) is Ok,
    ensures
        model::held(step(s, req, now)->Ok_0.0.escrows) == model::held(s.escrows) + net_inflow(
            step(s, req, now)->Ok_0.1,
        ),
{
    let s2 = step(s, req, now)->Ok_0.0;
    match req {
        Request::Initialize { admin, payment_token, dispute_window } => {},
        Request::SetDisputeWindow { admin, dispute_window } => {},
        Request::CreateEscrow { depositor, id, beneficiary, amount, description, release_after } => {
            model::lemma_held_push(s.escrows, s2.escrows.last());
            assert(s2.escrows =~= s.escrows.push(s2.escrows.last()));
        },
        _ => {
            let i = lemma_single_update(s, req, now);
            model::lemma_held_update(s.escrows, i, s2.escrows[i]);
        },
    }
}

/// A payout never exceeds what the contract holds for open escrows, and what
/// it holds never drops below zero.
pub proof fn law_payouts_covered(s: ContractState, req: Request, now: u64)
    requires
        s.wf(),
        step(s, req, now) is Ok,
    ensures
        -net_inflow(step(s, req, now)->Ok_0.1) <= model::held(s.escrows),
        model::held(step(s, req, now)->Ok_0.0.escrows) >= 0,
{
    law_held_follows_transfers(s, req, now);
    law_wf_preserved(s, req, now);
    model::lemma_held_nonnegative(step(s, req, now)->Ok_0.0.escrows);
    model::lemma_held_nonnegative(s.escrows);
}

/// Escrows are never removed, and each keeps its id, parties, amount,
/// description, creation time, dispute window and release time for good.
pub proof fn law_terms_fixed(s: ContractState, req: Request, now: u64, i: int)
    requires
        step(s, req, now) is Ok,
        0 <= i < s.escrows.len(),
    ensures
        s.escrows.len() <= step(s, req, now)->Ok_0.0.escrows.len(),
        same_terms(step(s, req, now)->Ok_0.0.escrows[i], s.escrows[i]),
{
    let s2 = step(s, req, now)->Ok_0.0;
    match req {
        Request::Initialize { admin, payment_token, dispute_window } => {},
        Request::SetDisputeWindow { admin, dispute_window } => {},
        Request::CreateEscrow { depositor, id, beneficiary, amount, description, release_after } => {
            assert(s2.escrows[i] == s.escrows[i]);
        },
        _ => {
            let k = lemma_single_update(s, req, now);
            if i != k {
                assert(s2.escrows[i] == s.escrows[i]);
            }
        },
    }
}

/// A released or refunded escrow is final: no request changes it again, so
/// its funds are paid out at most once.
pub proof fn law_settled_is_final(s: ContractState, req: Request, now: u64, i: int)
    requires
        step(s, req, now) is Ok,
        0 <= i < s.escrows.len(),
        !model::is_open(s.escrows[i]),
    ensures
        step(s, req, now)->Ok_0.0.escrows[i] == s.escrows[i],
{
    let s2 = step(s, req, now)->Ok_0.0;
    match req {
        Request::Initialize { admin, payment_token, dispute_window } => {},
        Request::SetDisputeWindow { admin, dispute_window } => {},
        Request::CreateEscrow { depositor, id, beneficiary, amount, description, release_after } => {},
        _ => {
            let k = lemma_single_update(s, req, now);
            assert(i != k);
        },
    }
}

/// Once set, the administrator and the payment token never change, and the
/// contract stays initialised, so that `initialize` is refused from then on.
pub proof fn law_configuration_fixed(
    s: ContractState,
    req: Request,
    now: u64,
    admin: String,
    payment_token: String,
    dispute_window: u64,
)
    requires
        s.config is Some,
        step(s, req, now) is Ok,
    ensures
        step(s, req, now)->Ok_0.0.config is Some,
        step(s, req, now)->Ok_0.0.config->0.admin == s.config->0.admin,
        step(s, req, now)->Ok_0.0.config->0.payment_token == s.config->0.payment_token,
        step(s, req, now)->Ok_0.0.initialize(admin, payment_token, dispute_window) == Err::<
            ContractState,
            EscrowError,
        >(EscrowError::AlreadyInitialized),
{
    match req {
        Request::Initialize { admin, payment_token, dispute_window } => {},
        Request::SetDisputeWindow { admin, dispute_window } => {},
        Request::CreateEscrow { depositor, id, beneficiary, amount, description, release_after } => {},
        _ => {
            lemma_single_update(s, req, now);
        },
    }
}

/// The per-party lists of escrow ids grow only by creation: creating an
/// escrow appends its id to its depositor's and its beneficiary's list, and
/// no other request changes any list.
pub proof fn law_party_lists(s: ContractState, req: Request, now: u64, who: Seq<char>)
    requires
        step(s, req, now) is Ok,
    ensures
        model::ids_where(step(s, req, now)->Ok_0.0.escrows, model::by_depositor(who)) == (
        match req {
            Request::CreateEscrow { depositor, id, .. } => if depositor@ == who {
                model::ids_where(s.escrows, model::by_depositor(who)).push(id)
            } else {
                model::ids_where(s.escrows, model::by_depositor(who))
            },
            _ => model::ids_where(s.escrows, model::by_depositor(who)),
        }),
        model::ids_where(step(s, req, now)->Ok_0.0.escrows, model::by_beneficiary(who)) == (
        match req {
            Request::CreateEscrow { beneficiary, id, .. } => if beneficiary@ == who {
                model::ids_where(s.escrows, model::by_beneficiary(who)).push(id)
            } else {
                model::ids_where(s.escrows, model::by_beneficiary(who))
            },
            _ => model::ids_where(s.escrows, model::by_beneficiary(who)),
        }),
{
    let s2 = step(s, req, now)->Ok_0.0;
    match req {
        Request::Initialize { admin, payment_token, dispute_window } => {},
        Request::SetDisputeWindow { admin, dispute_window } => {},
        Request::CreateEscrow { depositor, id, beneficiary, amount, description, release_after } => {
            let e = s2.escrows.last();
            assert(s2.escrows =~= s.escrows.push(e));
            model::lemma_ids_where_push(s.escrows, e, model::by_depositor(who));
            model::lemma_ids_where_push(s.escrows, e, model::by_beneficiary(who));
        },
        _ => {
            let k = lemma_single_update(s, req, now);
            model::lemma_ids_where_update(s.escrows, k, s2.escrows[k], model::by_depositor(who));
            model::lemma_ids_where_update(s.escrows, k, s2.escrows[k], model::by_beneficiary(who));
        },
    }
}

/// A new dispute window applies to the escrows created after it was set and
/// to no existing one.
pub proof fn law_window_change_applies_to_new_escrows(
    s: ContractState,
    admin: String,
    dispute_window: u64,
    depositor: String,
    id: String,
    beneficiary: String,
    amount: i128,
    description: String,
    release_after: u64,
    now: u64,
)
    requires
        s.set_dispute_window(admin, dispute_window) is Ok,
    ensures
        s.set_dispute_window(admin, dispute_window)->Ok_0.escrows == s.escrows,
        s.set_dispute_window(admin, dispute_window)->Ok_0.create_escrow(
            depositor,
            id,
            beneficiary,
            amount,
            description,
            release_after,
            now,
        ) matches Ok((s3, _)) ==> s3.escrows.last().dispute_window == dispute_window
            && s3.escrows.drop_last() == s.escrows,
{
    let s2 = s.set_dispute_window(admin, dispute_window)->Ok_0;
    if let Ok((s3, _)) = s2.create_escrow(
        depositor,
        id,
        beneficiary,
        amount,
        description,
        release_after,
        now,
    ) {
        assert(s3.escrows.drop_last() =~= s.escrows);
    }
}

/// Only the administrator changes the settings, settles pending escrows and
/// resolves disputes; only an escrow's beneficiary claims it, and only its
/// depositor or beneficiary disputes it.
pub proof fn law_authorised_callers(s: ContractState, req: Request, now: u64)
    requires
        step(s, req, now) is Ok,
    ensures
        match req {
            Request::SetDisputeWindow { admin, .. } => admin@ == s.config->0.admin@,
            Request::Release { admin, .. } => admin@ == s.config->0.admin@,
            Request::Refund { admin, .. } => admin@ == s.config->0.admin@,
            Request::ResolveDispute { admin, .. } => admin@ == s.config->0.admin@,
            Request::Claim { beneficiary, id } => beneficiary@ == s.escrows[model::find(
                s.escrows,
                id@,
            )->0].beneficiary@,
            Request::RaiseDispute { caller, id } => {
                let e = s.escrows[model::find(s.escrows, id@)->0];
                caller@ == e.depositor@ || caller@ == e.beneficiary@
            },
            _ => true,
        },
{
}

/// Funds leave the contract only to the depositor or the beneficiary of the
/// escrow that the payout settles, and always its full amount; funds enter
/// only from the depositor of the escrow being created.
pub proof fn law_funds_go_to_parties(s: ContractState, req: Request, now: u64)
    requires
        step(s, req, now) is Ok,
    ensures
        match step(s, req, now)->Ok_0.1 {
            Some(Transfer::Payout { to, amount }) => exists|i: int|
                0 <= i < s.escrows.len() && model::is_open(s.escrows[i]) && !model::is_open(
                    #[trigger] step(s, req, now)->Ok_0.0.escrows[i],
                ) && (to == s.escrows[i].depositor || to == s.escrows[i].beneficiary) && amount
                    == s.escrows[i].amount,
            Some(Transfer::Deposit { from, amount }) => {
                let s2 = step(s, req, now)->Ok_0.0;
                &&& s2.escrows.len() == s.escrows.len() + 1
                &&& from == s2.escrows.last().depositor
                &&& amount == s2.escrows.last().amount
            },
            None => true,
        },
{
    match req {
        Request::Initialize { admin, payment_token, dispute_window } => {},
        Request::SetDisputeWindow { admin, dispute_window } => {},
        Request::CreateEscrow { depositor, id, beneficiary, amount, description, release_after } => {},
        Request::RaiseDispute { caller, id } => {
            lemma_single_update(s, req, now);
        },
        _ => {
            let i = lemma_single_update(s, req, now);
            assert(!model::is_open(step(s, req, now)->Ok_0.0.escrows[i]));
        },
    }
}

/// In a well-formed state, the escrow at `i` is the one that its id finds.
proof fn lemma_locate(s: ContractState, id: String, i: int)
    requires
        s.wf(),
        0 <= i < s.escrows.len(),
        s.escrows[i].id@ == id@,
    ensures
        model::find(s.escrows, id@) == Some(i),
        s.config is Some,
{
    assert forall|j: int| 0 <= j < i implies s.escrows[j].id@ != id@ by {
        assert(s.escrows[j].id@ != s.escrows[i].id@);
    }
    model::lemma_find_first(s.escrows, id@, i);
}

/// The beneficiary of a pending escrow with a release time may claim it from
/// that time on, whatever the escrow's creation time and dispute window: the
/// claim pays the full amount to the beneficiary and marks the escrow
/// released at `now`, and touches no other escrow. Before that time, and only
/// then, it is refused as too early.
pub proof fn law_claim_opens_at_release_time(
    s: ContractState,
    beneficiary: String,
    id: String,
    now: u64,
    i: int,
)
    requires
        s.wf(),
        0 <= i < s.escrows.len(),
        s.escrows[i].id@ == id@,
        s.escrows[i].status == EscrowStatus::Pending,
        beneficiary@ == s.escrows[i].beneficiary@,
        s.escrows[i].release_after != 0,
    ensures
        now >= s.escrows[i].release_after ==> s.claim(beneficiary, id, now) == Ok::<
            (ContractState, Transfer),
            EscrowError,
        >(
            (
                ContractState {
                    escrows: s.escrows.update(
                        i,
                        Escrow {
                            status: EscrowStatus::Released,
                            resolved_at: Some(now),
                            ..s.escrows[i]
                        },
                    ),
                    ..s
                },
                Transfer::Payout { to: s.escrows[i].beneficiary, amount: s.escrows[i].amount },
            ),
        ),
        now < s.escrows[i].release_after <==> s.claim(beneficiary, id, now) == Err::<
            (ContractState, Transfer),
            EscrowError,
        >(EscrowError::ClaimTooEarly),
{
    lemma_locate(s, id, i);
}

/// A disputed escrow can always be resolved by the administrator, at any
/// time: to the beneficiary when `release_to_beneficiary` holds, back to the
/// depositor otherwise, always for the full amount, marking the escrow
/// released or refunded at `now` and touching no other escrow.
pub proof fn law_dispute_always_resolvable(
    s: ContractState,
    admin: String,
    id: String,
    release_to_beneficiary: bool,
    now: u64,
    i: int,
)
    requires
        s.wf(),
        0 <= i < s.escrows.len(),
        s.escrows[i].id@ == id@,
        s.escrows[i].status == EscrowStatus::Disputed,
        s.config is Some,
        admin@ == s.config->0.admin@,
    ensures
        s.resolve_dispute(admin, id, release_to_beneficiary, now) == Ok::<
            (ContractState, Transfer),
            EscrowError,
        >(
            (
                ContractState {
                    escrows: s.escrows.update(
                        i,
                        Escrow {
                            status: if release_to_beneficiary {
                                EscrowStatus::Released
                            } else {
                                EscrowStatus::Refunded
                            },
                            resolved_at: Some(now),
                            ..s.escrows[i]
                        },
                    ),
                    ..s
                },
                Transfer::Payout {
                    to: if release_to_beneficiary {
                        s.escrows[i].beneficiary
                    } else {
                        s.escrows[i].depositor
                    },
                    amount: s.escrows[i].amount,
                },
            ),
        ),
{
    lemma_locate(s, id, i);
}

/// A party to a pending escrow may dispute it exactly while its dispute
/// window is open: the window is not zero and at most `dispute_window`
/// seconds have passed since creation, whatever the release time. An
/// accepted dispute marks the escrow disputed at `now` and touches no other
/// escrow; otherwise the dispute is refused as too late.
pub proof fn law_dispute_open_exactly_in_window(
    s: ContractState,
    caller: String,
    id: String,
    now: u64,
    i: int,
)
    requires
        s.wf(),
        0 <= i < s.escrows.len(),
        s.escrows[i].id@ == id@,
        s.escrows[i].status == EscrowStatus::Pending,
        caller@ == s.escrows[i].depositor@ || caller@ == s.escrows[i].beneficiary@,
    ensures
        (s.escrows[i].dispute_window > 0 && now <= s.escrows[i].created_at
            + s.escrows[i].dispute_window) ==> s.raise_dispute(caller, id, now) == Ok::<
            ContractState,
            EscrowError,
        >(
            ContractState {
                escrows: s.escrows.update(
                    i,
                    Escrow {
                        status: EscrowStatus::Disputed,
                        dispute_raised_at: Some(now),
                        ..s.escrows[i]
                    },
                ),
                ..s
            },
        ),
        !(s.escrows[i].dispute_window > 0 && now <= s.escrows[i].created_at
            + s.escrows[i].dispute_window) ==> s.raise_dispute(caller, id, now) == Err::<
            ContractState,
            EscrowError,
        >(EscrowError::DisputeWindowClosed),
{
    lemma_locate(s, id, i);
}

/// The administrator may settle any pending escrow at any time, whatever its
/// release time or dispute window: a release pays the full amount to the
/// beneficiary and marks it released, a refund pays the full amount back to
/// the depositor and marks it refunded, both at `now`, and neither touches
/// another escrow.
pub proof fn law_admin_settles_pending_any_time(
    s: ContractState,
    admin: String,
    id: String,
    now: u64,
    i: int,
)
    requires
        s.wf(),
        0 <= i < s.escrows.len(),
        s.escrows[i].id@ == id@,
        s.escrows[i].status == EscrowStatus::Pending,
        s.config is Some,
        admin@ == s.config->0.admin@,
    ensures
        s.release(admin, id, now) == Ok::<(ContractState, Transfer), EscrowError>(
            (
                ContractState {
                    escrows: s.escrows.update(
                        i,
                        Escrow {
                            status: EscrowStatus::Released,
                            resolved_at: Some(now),
                            ..s.escrows[i]
                        },
                    ),
                    ..s
                },
                Transfer::Payout { to: s.escrows[i].beneficiary, amount: s.escrows[i].amount },
            ),
        ),
        s.refund(admin, id, now) == Ok::<(ContractState, Transfer), EscrowError>(
            (
                ContractState {
                    escrows: s.escrows.update(
                        i,
                        Escrow {
                            status: EscrowStatus::Refunded,
                            resolved_at: Some(now),
                            ..s.escrows[i]
                        },
                    ),
                    ..s
                },
                Transfer::Payout { to: s.escrows[i].depositor, amount: s.escrows[i].amount },
            ),
        ),
{
    lemma_locate(s, id, i);
}

/// The first `initialize` records exactly the given administrator, payment
/// token and dispute window and leaves the escrows as they are.
pub proof fn law_initialize_records_settings(
    s: ContractState,
    admin: String,
    payment_token: String,
    dispute_window: u64,
)
    requires
        s.config is None,
    ensures
        s.initialize(admin, payment_token, dispute_window) == Ok::<ContractState, EscrowError>(
            ContractState {
                config: Some(crate::types::Config { admin, payment_token, dispute_window }),
                escrows: s.escrows,
            },
        ),
{
}

/// The administrator may always change the dispute window for new escrows;
/// the administrator, the token and all escrows stay as they are. Anyone
/// else is refused as unauthorised.
pub proof fn law_set_dispute_window(s: ContractState, caller: String, dispute_window: u64)
    requires
        s.config is Some,
    ensures
        caller@ == s.config->0.admin@ ==> s.set_dispute_window(caller, dispute_window) == Ok::<
            ContractState,
            EscrowError,
        >(
            ContractState {
                config: Some(
                    crate::types::Config {
                        admin: s.config->0.admin,
                        payment_token: s.config->0.payment_token,
                        dispute_window,
                    },
                ),
                escrows: s.escrows,
            },
        ),
        caller@ != s.config->0.admin@ ==> s.set_dispute_window(caller, dispute_window) == Err::<
            ContractState,
            EscrowError,
        >(EscrowError::Unauthorized),
{
}

/// Creating an escrow under a fresh id with a positive amount succeeds once
/// the contract is initialised: the new escrow is appended with exactly the
/// given parties, amount, description and release time, created at `now`,
/// pending, with the current dispute window, and the deposit of the amount
/// from the depositor is asked for. A non-positive amount is refused as
/// invalid, an id in use as a duplicate.
pub proof fn law_create_escrow(
    s: ContractState,
    depositor: String,
    id: String,
    beneficiary: String,
    amount: i128,
    description: String,
    release_after: u64,
    now: u64,
)
    requires
        s.config is Some,
    ensures
        amount > 0 && (forall|j: int| 0 <= j < s.escrows.len() ==> s.escrows[j].id@ != id@)
            ==> s.create_escrow(depositor, id, beneficiary, amount, description, release_after, now)
            == Ok::<(ContractState, Transfer), EscrowError>(
            (
                ContractState {
                    escrows: s.escrows.push(
                        Escrow {
                            id,
                            depositor,
                            beneficiary,
                            amount,
                            description,
                            status: EscrowStatus::Pending,
                            created_at: now,
                            dispute_window: s.config->0.dispute_window,
                            release_after,
                            dispute_raised_at: None,
                            resolved_at: None,
                        },
                    ),
                    ..s
                },
                Transfer::Deposit { from: depositor, amount },
            ),
        ),
        amount <= 0 ==> s.create_escrow(
            depositor,
            id,
            beneficiary,
            amount,
            description,
            release_after,
            now,
        ) == Err::<(ContractState, Transfer), EscrowError>(EscrowError::InvalidAmount),
        amount > 0 && (exists|j: int| 0 <= j < s.escrows.len() && s.escrows[j].id@ == id@)
            ==> s.create_escrow(depositor, id, beneficiary, amount, description, release_after, now)
            == Err::<(ContractState, Transfer), EscrowError>(EscrowError::EscrowAlreadyExists),
{
    model::lemma_find_none_iff(s.escrows, id@);
}

/// An escrow is found by its id and given back as recorded; an id that no
/// escrow has is not found.
pub proof fn law_get_escrow(s: ContractState, id: String)
    requires
        s.wf(),
    ensures
        forall|i: int|
            0 <= i < s.escrows.len() && #[trigger] s.escrows[i].id@ == id@ ==> s.get_escrow(id)
                == Ok::<Escrow, EscrowError>(s.escrows[i]),
        (forall|i: int| 0 <= i < s.escrows.len() ==> s.escrows[i].id@ != id@) ==> s.get_escrow(id)
            == Err::<Escrow, EscrowError>(EscrowError::EscrowNotFound),
{
    model::lemma_find_none_iff(s.escrows, id@);
    assert forall|i: int|
        0 <= i < s.escrows.len() && #[trigger] s.escrows[i].id@ == id@ implies s.get_escrow(id)
            == Ok::<Escrow, EscrowError>(s.escrows[i]) by {
        lemma_locate(s, id, i);
    }
}

/// Who may not act on an escrow is refused as unauthorised, whatever the
/// escrow's state and the time: a non-administrator settling or resolving
/// it, anyone but its beneficiary claiming it, and anyone but its parties
/// disputing it.
pub proof fn law_unauthorised_refused(
    s: ContractState,
    caller: String,
    id: String,
    flag: bool,
    now: u64,
    i: int,
)
    requires
        s.wf(),
        0 <= i < s.escrows.len(),
        s.escrows[i].id@ == id@,
    ensures
        caller@ != s.config->0.admin@ ==> {
            &&& s.release(caller, id, now) == Err::<(ContractState, Transfer), EscrowError>(
                EscrowError::Unauthorized,
            )
            &&& s.refund(caller, id, now) == Err::<(ContractState, Transfer), EscrowError>(
                EscrowError::Unauthorized,
            )
            &&& s.resolve_dispute(caller, id, flag, now) == Err::<
                (ContractState, Transfer),
                EscrowError,
            >(EscrowError::Unauthorized)
        },
        caller@ != s.escrows[i].beneficiary@ ==> s.claim(caller, id, now) == Err::<
            (ContractState, Transfer),
            EscrowError,
        >(EscrowError::Unauthorized),
        caller@ != s.escrows[i].beneficiary@ && caller@ != s.escrows[i].depositor@
            ==> s.raise_dispute(caller, id, now) == Err::<ContractState, EscrowError>(
            EscrowError::Unauthorized,
        ),
{
    lemma_locate(s, id, i);
}

/// Requests that do not fit an escrow's status are refused with the matching
/// error: the administrator cannot release or refund an escrow that is not
/// pending nor resolve one that is not disputed, the beneficiary cannot claim
/// one that is not pending or has no release time, and a party cannot dispute
/// one that is not pending.
pub proof fn law_status_refusals(
    s: ContractState,
    admin: String,
    id: String,
    flag: bool,
    now: u64,
    i: int,
)
    requires
        s.wf(),
        0 <= i < s.escrows.len(),
        s.escrows[i].id@ == id@,
        admin@ == s.config->0.admin@,
    ensures
        s.escrows[i].status != EscrowStatus::Pending ==> {
            &&& s.release(admin, id, now) == Err::<(ContractState, Transfer), EscrowError>(
                EscrowError::EscrowNotPending,
            )
            &&& s.refund(admin, id, now) == Err::<(ContractState, Transfer), EscrowError>(
                EscrowError::EscrowNotPending,
            )
            &&& s.claim(s.escrows[i].beneficiary, id, now) == Err::<
                (ContractState, Transfer),
                EscrowError,
            >(EscrowError::EscrowNotPending)
            &&& s.raise_dispute(s.escrows[i].depositor, id, now) == Err::<
                ContractState,
                EscrowError,
            >(EscrowError::EscrowNotPending)
        },
        s.escrows[i].status != EscrowStatus::Disputed ==> s.resolve_dispute(admin, id, flag, now)
            == Err::<(ContractState, Transfer), EscrowError>(EscrowError::EscrowNotDisputed),
        s.escrows[i].status == EscrowStatus::Pending && s.escrows[i].release_after == 0 ==> s.claim(
            s.escrows[i].beneficiary,
            id,
            now,
        ) == Err::<(ContractState, Transfer), EscrowError>(EscrowError::AutoClaimDisabled),
{
    lemma_locate(s, id, i);
}

proof fn lemma_ids_where_members(escrows: Seq<Escrow>, select: spec_fn(Escrow) -> bool)
    ensures
        model::ids_where(escrows, select).len() <= escrows.len(),
        forall|x: String|
            #![trigger model::ids_where(escrows, select).contains(x)]
            model::ids_where(escrows, select).contains(x) ==> exists|i: int|
                0 <= i < escrows.len() && select(escrows[i]) && #[trigger] escrows[i].id == x,
        forall|i: int|
            0 <= i < escrows.len() && select(#[trigger] escrows[i]) ==> model::ids_where(
                escrows,
                select,
            ).contains(escrows[i].id),
    decreases escrows.len(),
{
    if escrows.len() > 0 {
        let rest = escrows.drop_last();
        lemma_ids_where_members(rest, select);
        let list = model::ids_where(escrows, select);
        let rlist = model::ids_where(rest, select);
        assert forall|x: String| list.contains(x) implies exists|i: int|
            0 <= i < escrows.len() && select(escrows[i]) && #[trigger] escrows[i].id == x by {
            let k = choose|k: int| 0 <= k < list.len() && list[k] == x;
            if k < rlist.len() {
                assert(list[k] == rlist[k]);
                assert(rlist.contains(x));
                let i = choose|i: int|
                    0 <= i < rest.len() && select(rest[i]) && #[trigger] rest[i].id == x;
                assert(escrows[i] == rest[i]);
            } else {
                assert(escrows[escrows.len() - 1] == escrows.last());
            }
        }
        assert forall|i: int| 0 <= i < escrows.len() && select(#[trigger] escrows[i]) implies list.contains(
            escrows[i].id,
        ) by {
            if i < rest.len() {
                assert(rest[i] == escrows[i]);
                assert(rlist.contains(rest[i].id));
                let k = choose|k: int| 0 <= k < rlist.len() && rlist[k] == rest[i].id;
                assert(list[k] == rlist[k]);
            } else {
                assert(escrows[i] == escrows.last());
                assert(list[list.len() - 1] == escrows[i].id);
            }
        }
    }
}

/// A party's list of escrows holds exactly the ids of the escrows in which it
/// is the depositor (or the beneficiary): every listed id is the id of such an
/// escrow, and every such escrow's id is listed.
pub proof fn law_party_list_members(escrows: Seq<Escrow>, who: Seq<char>)
    ensures
        forall|x: String|
            #![trigger model::ids_where(escrows, model::by_depositor(who)).contains(x)]
            model::ids_where(escrows, model::by_depositor(who)).contains(x) <==> exists|i: int|
                0 <= i < escrows.len() && escrows[i].depositor@ == who && #[trigger] escrows[i].id
                    == x,
        forall|x: String|
            #![trigger model::ids_where(escrows, model::by_beneficiary(who)).contains(x)]
            model::ids_where(escrows, model::by_beneficiary(who)).contains(x) <==> exists|i: int|
                0 <= i < escrows.len() && escrows[i].beneficiary@ == who && #[trigger] escrows[i].id
                    == x,
{
    let d = model::by_depositor(who);
    let b = model::by_beneficiary(who);
    lemma_ids_where_members(escrows, d);
    lemma_ids_where_members(escrows, b);
    assert forall|x: String| #[trigger] model::ids_where(escrows, d).contains(x) <==> exists|i: int|
        0 <= i < escrows.len() && escrows[i].depositor@ == who && #[trigger] escrows[i].id == x by {
        if exists|i: int| 0 <= i < escrows.len() && escrows[i].depositor@ == who && #[trigger] escrows[i].id == x {
            let i = choose|i: int| 0 <= i < escrows.len() && escrows[i].depositor@ == who && #[trigger] escrows[i].id == x;
            assert(d(escrows[i]));
        }
        if model::ids_where(escrows, d).contains(x) {
            let i = choose|i: int| 0 <= i < escrows.len() && d(escrows[i]) && #[trigger] escrows[i].id == x;
            assert(escrows[i].depositor@ == who);
        }
    }
    assert forall|x: String| #[trigger] model::ids_where(escrows, b).contains(x) <==> exists|i: int|
        0 <= i < escrows.len() && escrows[i].beneficiary@ == who && #[trigger] escrows[i].id == x by {
        if exists|i: int| 0 <= i < escrows.len() && escrows[i].beneficiary@ == who && #[trigger] escrows[i].id == x {
            let i = choose|i: int| 0 <= i < escrows.len() && escrows[i].beneficiary@ == who && #[trigger] escrows[i].id == x;
            assert(b(escrows[i]));
        }
        if model::ids_where(escrows, b).contains(x) {
            let i = choose|i: int| 0 <= i < escrows.len() && b(escrows[i]) && #[trigger] escrows[i].id == x;
            assert(escrows[i].beneficiary@ == who);
        }
    }
}

} // verus!
