use vstd::prelude::*;

use crate::model::{self, ContractState};
use crate::types::{Config, Escrow, EscrowError, EscrowStatus, Transfer};

verus! {

/// The state of one deployed escrow contract, with its operations. Each
/// operation takes the account that the host has authenticated for the call
/// and the ledger time; an accepted operation that moves funds returns the
/// transfer that the host must perform, a refused one leaves the state as it
/// was.
pub struct PaymentEscrow {
    config: Option<Config>,
    escrows: Vec<Escrow>,
}

impl View for PaymentEscrow {
    type V = ContractState;

    closed spec fn view(&self) -> ContractState {
        ContractState { config: self.config, escrows: self.escrows@ }
    }
}

impl PaymentEscrow {
    /// A contract that has just been deployed: not yet initialised, no escrows.
    pub fn new() -> (r: Self)
        ensures
            r@ == ContractState::empty(),
            r@.wf(),
    {
        let r = PaymentEscrow { config: None, escrows: Vec::new() };
        assert(r@.escrows =~= Seq::<Escrow>::empty());
        r
    }

    /// The contract as stored: its settings and its escrows in the order of
    /// creation. The host keeps a contract's state between calls this way.
    pub fn from_parts(config: Option<Config>, escrows: Vec<Escrow>) -> (r: Self)
        ensures
            r@ == (ContractState { config, escrows: escrows@ }),
    {
        PaymentEscrow { config, escrows }
    }

    /// The settings and the escrows, for the host to store.
    pub fn into_parts(self) -> (r: (Option<Config>, Vec<Escrow>))
        ensures
            r.0 == self@.config,
            r.1@ == self@.escrows,
    {
        (self.config, self.escrows)
    }

    /// The position of the escrow with the given id.
    fn find_index(&self, id: &String) -> (r: Option<usize>)
        ensures
            match r {
                Some(i) => model::find(self@.escrows, id@) == Some(i as int),
                None => model::find(self@.escrows, id@) is None,
            },
    {
        let mut i: usize = 0;
        while i < self.escrows.len()
            invariant
                i <= self.escrows.len(),
                forall|j: int| 0 <= j < i ==> self.escrows@[j].id@ != id@,
            decreases self.escrows.len() - i,
        {
            if self.escrows[i].id == *id {
                proof {
                    model::lemma_find_first(self.escrows@, id@, i as int);
                }
                return Some(i);
            }
            i += 1;
        }
        proof {
            model::lemma_find_absent(self.escrows@, id@);
        }
        None
    }

    /// Records the administrator, the payment token and the dispute window
    /// for new escrows. It can be done once.
    pub fn initialize(&mut self, admin: String, payment_token: String, dispute_window: u64) -> (r:
        Result<(), EscrowError>)
        ensures
            match r {
                Ok(()) => old(self)@.initialize(admin, payment_token, dispute_window) == Ok::<
                    ContractState,
                    EscrowError,
                >(final(self)@),
                Err(e) => {
                    &&& old(self)@.initialize(admin, payment_token, dispute_window) == Err::<
                        ContractState,
                        EscrowError,
                    >(e)
                    &&& final(self)@ == old(self)@
                },
            },
    {
        if self.config.is_some() {
            return Err(EscrowError::AlreadyInitialized);
        }
        self.config = Some(Config { admin, payment_token, dispute_window });
        Ok(())
    }

    /// The administrator, once the contract is initialised.
    pub fn admin(&self) -> (r: Result<String, EscrowError>)
        ensures
            match self@.config {
                Some(c) => r == Ok::<String, EscrowError>(c.admin),
                None => r == Err::<String, EscrowError>(EscrowError::NotInitialized),
            },
    {
        match &self.config {
            Some(c) => Ok(c.admin.clone()),
            None => Err(EscrowError::NotInitialized),
        }
    }

    /// The token in which escrows are paid, once the contract is initialised.
    pub fn payment_token(&self) -> (r: Result<String, EscrowError>)
        ensures
            match self@.config {
                Some(c) => r == Ok::<String, EscrowError>(c.payment_token),
                None => r == Err::<String, EscrowError>(EscrowError::NotInitialized),
            },
    {
        match &self.config {
            Some(c) => Ok(c.payment_token.clone()),
            None => Err(EscrowError::NotInitialized),
        }
    }

    /// The dispute window that new escrows receive, once the contract is
    /// initialised.
    pub fn dispute_window(&self) -> (r: Result<u64, EscrowError>)
        ensures
            match self@.config {
                Some(c) => r == Ok::<u64, EscrowError>(c.dispute_window),
                None => r == Err::<u64, EscrowError>(EscrowError::NotInitialized),
            },
    {
        match &self.config {
            Some(c) => Ok(c.dispute_window),
            None => Err(EscrowError::NotInitialized),
        }
    }

    /// The administrator changes the dispute window given to escrows created
    /// from now on; existing escrows keep theirs.
    pub fn set_dispute_window(&mut self, admin: &String, dispute_window: u64) -> (r: Result<
        (),
        EscrowError,
    >)
        ensures
            match r {
                Ok(()) => old(self)@.set_dispute_window(*admin, dispute_window) == Ok::<
                    ContractState,
                    EscrowError,
                >(final(self)@),
                Err(e) => {
                    &&& old(self)@.set_dispute_window(*admin, dispute_window) == Err::<
                        ContractState,
                        EscrowError,
                    >(e)
                    &&& final(self)@ == old(self)@
                },
            },
    {
        let new_config = match &self.config {
            None => {
                return Err(EscrowError::NotInitialized);
            },
            Some(c) => {
                if !(*admin == c.admin) {
                    return Err(EscrowError::Unauthorized);
                }
                Config {
                    admin: c.admin.clone(),
                    payment_token: c.payment_token.clone(),
                    dispute_window,
                }
            },
        };
        self.config = Some(new_config);
        Ok(())
    }

    /// The depositor locks `amount` of the payment token for the beneficiary
    /// under a new id. The escrow receives the current dispute window; a
    /// non-zero `release_after` lets the beneficiary claim the funds itself
    /// from that time on. The returned deposit moves the funds in.
    pub fn create_escrow(
        &mut self,
        depositor: String,
        id: String,
        beneficiary: String,
        amount: i128,
        description: String,
        release_after: u64,
        now: u64,
    ) -> (r: Result<Transfer, EscrowError>)
        ensures
            match r {
                Ok(t) => old(self)@.create_escrow(
                    depositor,
                    id,
                    beneficiary,
                    amount,
                    description,
                    release_after,
                    now,
                ) == Ok::<(ContractState, Transfer), EscrowError>((final(self)@, t)),
                Err(e) => {
                    &&& old(self)@.create_escrow(
                        depositor,
                        id,
                        beneficiary,
                        amount,
                        description,
                        release_after,
                        now,
                    ) == Err::<(ContractState, Transfer), EscrowError>(e)
                    &&& final(self)@ == old(self)@
                },
            },
    {
        let window = match &self.config {
            None => {
                return Err(EscrowError::NotInitialized);
            },
            Some(c) => c.dispute_window,
        };
        if amount <= 0 {
            return Err(EscrowError::InvalidAmount);
        }
        if self.find_index(&id).is_some() {
            return Err(EscrowError::EscrowAlreadyExists);
        }
        let transfer = Transfer::Deposit { from: depositor.clone(), amount };
        let e = Escrow {
            id,
            depositor,
            beneficiary,
            amount,
            description,
            status: EscrowStatus::Pending,
            created_at: now,
            dispute_window: window,
            release_after,
            dispute_raised_at: None,
            resolved_at: None,
        };
        self.escrows.push(e);
        Ok(transfer)
    }

    /// Replaces the escrow at `i` by `e`.
    fn replace(&mut self, i: usize, e: Escrow)
        requires
            i < old(self).escrows@.len(),
        ensures
            final(self)@ == (ContractState { escrows: old(self)@.escrows.update(i as int, e), ..old(self)@ }),
    {
        self.escrows.set(i, e);
    }

    /// Settles the escrow at `i` at time `now`, to the beneficiary or back to
    /// the depositor, and returns the payout.
    fn settle_at(&mut self, i: usize, to_beneficiary: bool, now: u64) -> (t: Transfer)
        requires
            i < old(self).escrows@.len(),
        ensures
            ({
                let e = old(self)@.escrows[i as int];
                let status = if to_beneficiary {
                    EscrowStatus::Released
                } else {
                    EscrowStatus::Refunded
                };
                &&& final(self)@ == (ContractState {
                    escrows: old(self)@.escrows.update(i as int, model::settled(e, status, now)),
                    ..old(self)@
                })
                &&& t == model::payout(e, to_beneficiary)
            }),
    {
        let mut e = self.escrows[i].clone();
        let t = if to_beneficiary {
            Transfer::Payout { to: e.beneficiary.clone(), amount: e.amount }
        } else {
            Transfer::Payout { to: e.depositor.clone(), amount: e.amount }
        };
        e.status = if to_beneficiary {
            EscrowStatus::Released
        } else {
            EscrowStatus::Refunded
        };
        e.resolved_at = Some(now);
        self.replace(i, e);
        t
    }

    /// Whether `caller` is the administrator.
    fn check_admin(&self, caller: &String) -> (r: Result<(), EscrowError>)
        ensures
            match self@.config {
                None => r == Err::<(), EscrowError>(EscrowError::NotInitialized),
                Some(c) => if caller@ != c.admin@ {
                    r == Err::<(), EscrowError>(EscrowError::Unauthorized)
                } else {
                    r == Ok::<(), EscrowError>(())
                },
            },
    {
        match &self.config {
            None => Err(EscrowError::NotInitialized),
            Some(c) => if *caller == c.admin {
                Ok(())
            } else {
                Err(EscrowError::Unauthorized)
            },
        }
    }

    fn settle_pending(&mut self, admin: &String, id: &String, to_beneficiary: bool, now: u64) -> (r:
        Result<Transfer, EscrowError>)
        ensures
            match r {
                Ok(t) => old(self)@.settle_pending(*admin, *id, to_beneficiary, now) == Ok::<
                    (ContractState, Transfer),
                    EscrowError,
                >((final(self)@, t)),
                Err(e) => {
                    &&& old(self)@.settle_pending(*admin, *id, to_beneficiary, now) == Err::<
                        (ContractState, Transfer),
                        EscrowError,
                    >(e)
                    &&& final(self)@ == old(self)@
                },
            },
    {
        match self.check_admin(admin) {
            Err(e) => {
                return Err(e);
            },
            Ok(()) => {},
        }
        let i = match self.find_index(id) {
            None => {
                return Err(EscrowError::EscrowNotFound);
            },
            Some(i) => i,
        };
        match self.escrows[i].status {
            EscrowStatus::Pending => {},
            _ => {
                return Err(EscrowError::EscrowNotPending);
            },
        }
        Ok(self.settle_at(i, to_beneficiary, now))
    }

    /// The administrator releases a pending escrow to its beneficiary.
    pub fn release(&mut self, admin: &String, id: &String, now: u64) -> (r: Result<
        Transfer,
        EscrowError,
    >)
        ensures
            match r {
                Ok(t) => old(self)@.release(*admin, *id, now) == Ok::<
                    (ContractState, Transfer),
                    EscrowError,
                >((final(self)@, t)),
                Err(e) => {
                    &&& old(self)@.release(*admin, *id, now) == Err::<
                        (ContractState, Transfer),
                        EscrowError,
                    >(e)
                    &&& final(self)@ == old(self)@
                },
            },
    {
        self.settle_pending(admin, id, true, now)
    }

    /// The administrator refunds a pending escrow to its depositor.
    pub fn refund(&mut self, admin: &String, id: &String, now: u64) -> (r: Result<
        Transfer,
        EscrowError,
    >)
        ensures
            match r {
                Ok(t) => old(self)@.refund(*admin, *id, now) == Ok::<
                    (ContractState, Transfer),
                    EscrowError,
                >((final(self)@, t)),
                Err(e) => {
                    &&& old(self)@.refund(*admin, *id, now) == Err::<
                        (ContractState, Transfer),
                        EscrowError,
                    >(e)
                    &&& final(self)@ == old(self)@
                },
            },
    {
        self.settle_pending(admin, id, false, now)
    }

    /// The depositor or the beneficiary disputes a pending escrow while its
    /// dispute window is open.
    pub fn raise_dispute(&mut self, caller: &String, id: &String, now: u64) -> (r: Result<
        (),
        EscrowError,
    >)
        ensures
            match r {
                Ok(()) => old(self)@.raise_dispute(*caller, *id, now) == Ok::<
                    ContractState,
                    EscrowError,
                >(final(self)@),
                Err(e) => {
                    &&& old(self)@.raise_dispute(*caller, *id, now) == Err::<
                        ContractState,
                        EscrowError,
                    >(e)
                    &&& final(self)@ == old(self)@
                },
            },
    {
        let i = match self.find_index(id) {
            None => {
                return Err(EscrowError::EscrowNotFound);
            },
            Some(i) => i,
        };
        let mut e = self.escrows[i].clone();
        if !(*caller == e.depositor) && !(*caller == e.beneficiary) {
            return Err(EscrowError::Unauthorized);
        }
        match e.status {
            EscrowStatus::Pending => {},
            _ => {
                return Err(EscrowError::EscrowNotPending);
            },
        }
        let open = e.dispute_window > 0 && (now <= e.created_at || now - e.created_at
            <= e.dispute_window);
        if !open {
            return Err(EscrowError::DisputeWindowClosed);
        }
        e.status = EscrowStatus::Disputed;
        e.dispute_raised_at = Some(now);
        self.replace(i, e);
        Ok(())
    }

    /// The administrator settles a disputed escrow: to the beneficiary when
    /// `release_to_beneficiary` holds, back to the depositor otherwise.
    pub fn resolve_dispute(
        &mut self,
        admin: &String,
        id: &String,
        release_to_beneficiary: bool,
        now: u64,
    ) -> (r: Result<Transfer, EscrowError>)
        ensures
            match r {
                Ok(t) => old(self)@.resolve_dispute(*admin, *id, release_to_beneficiary, now)
                    == Ok::<(ContractState, Transfer), EscrowError>((final(self)@, t)),
                Err(e) => {
                    &&& old(self)@.resolve_dispute(*admin, *id, release_to_beneficiary, now)
                        == Err::<(ContractState, Transfer), EscrowError>(e)
                    &&& final(self)@ == old(self)@
                },
            },
    {
        match self.check_admin(admin) {
            Err(e) => {
                return Err(e);
            },
            Ok(()) => {},
        }
        let i = match self.find_index(id) {
            None => {
                return Err(EscrowError::EscrowNotFound);
            },
            Some(i) => i,
        };
        match self.escrows[i].status {
            EscrowStatus::Disputed => {},
            _ => {
                return Err(EscrowError::EscrowNotDisputed);
            },
        }
        Ok(self.settle_at(i, release_to_beneficiary, now))
    }

    /// The beneficiary takes the funds of a pending escrow itself, once its
    /// release time has come.
    pub fn claim(&mut self, beneficiary: &String, id: &String, now: u64) -> (r: Result<
        Transfer,
        EscrowError,
    >)
        ensures
            match r {
                Ok(t) => old(self)@.claim(*beneficiary, *id, now) == Ok::<
                    (ContractState, Transfer),
                    EscrowError,
                >((final(self)@, t)),
                Err(e) => {
                    &&& old(self)@.claim(*beneficiary, *id, now) == Err::<
                        (ContractState, Transfer),
                        EscrowError,
                    >(e)
                    &&& final(self)@ == old(self)@
                },
            },
    {
        if self.config.is_none() {
            return Err(EscrowError::NotInitialized);
        }
        let i = match self.find_index(id) {
            None => {
                return Err(EscrowError::EscrowNotFound);
            },
            Some(i) => i,
        };
        if !(*beneficiary == self.escrows[i].beneficiary) {
            return Err(EscrowError::Unauthorized);
        }
        match self.escrows[i].status {
            EscrowStatus::Pending => {},
            _ => {
                return Err(EscrowError::EscrowNotPending);
            },
        }
        if self.escrows[i].release_after == 0 {
            return Err(EscrowError::AutoClaimDisabled);
        }
        if now < self.escrows[i].release_after {
            return Err(EscrowError::ClaimTooEarly);
        }
        Ok(self.settle_at(i, true, now))
    }

    /// The escrow with the given id.
    pub fn get_escrow(&self, id: &String) -> (r: Result<Escrow, EscrowError>)
        ensures
            r == self@.get_escrow(*id),
    {
        match self.find_index(id) {
            None => Err(EscrowError::EscrowNotFound),
            Some(i) => Ok(self.escrows[i].clone()),
        }
    }

    /// The ids of the escrows of one party, in the order of creation: those
    /// it deposited (`as_depositor`) or those it is the beneficiary of.
    fn ids_of(&self, who: &String, as_depositor: bool) -> (r: Vec<String>)
        ensures
            r@ == model::ids_where(
                self@.escrows,
                if as_depositor {
                    model::by_depositor(who@)
                } else {
                    model::by_beneficiary(who@)
                },
            ),
    {
        let ghost select = if as_depositor {
            model::by_depositor(who@)
        } else {
            model::by_beneficiary(who@)
        };
        let mut ids: Vec<String> = Vec::new();
        let mut i: usize = 0;
        while i < self.escrows.len()
            invariant
                i <= self.escrows.len(),
                select == (if as_depositor {
                    model::by_depositor(who@)
                } else {
                    model::by_beneficiary(who@)
                }),
                ids@ == model::ids_where(self.escrows@.take(i as int), select),
            decreases self.escrows.len() - i,
        {
            let party = if as_depositor {
                &self.escrows[i].depositor
            } else {
                &self.escrows[i].beneficiary
            };
            if *party == *who {
                ids.push(self.escrows[i].id.clone());
            }
            assert(self.escrows@.take(i + 1).drop_last() =~= self.escrows@.take(i as int));
            i += 1;
        }
        assert(self.escrows@.take(i as int) =~= self.escrows@);
        ids
    }

    /// The ids of the escrows that `depositor` funded, in the order of creation.
    pub fn get_depositor_escrows(&self, depositor: &String) -> (r: Vec<String>)
        ensures
            r@ == model::ids_where(self@.escrows, model::by_depositor(depositor@)),
    {
        self.ids_of(depositor, true)
    }

    /// The ids of the escrows whose beneficiary is `beneficiary`, in the order
    /// of creation.
    pub fn get_beneficiary_escrows(&self, beneficiary: &String) -> (r: Vec<String>)
        ensures
            r@ == model::ids_where(self@.escrows, model::by_beneficiary(beneficiary@)),
    {
        self.ids_of(beneficiary, false)
    }
}

} // verus!
