//! The operations on credit lines, over a ledger that holds the
//! administrator, the records and the event log.

use crate::error::CreditError;
use crate::identity::Identity;
use crate::lifecycle;
use crate::lifecycle::{
    close_outcome, default_outcome, draw_outcome, open_outcome, repay_outcome, suspend_outcome,
    update_outcome,
};
use crate::store::CreditLineStore;
use crate::types::{CreditLineData, CreditLineView, Event, EventView};
use vstd::prelude::*;

verus! {

/// The state that the operations read and change: the administrator, set
/// once; one record per borrower; the events in the order in which they were
/// published; and the time, which never goes back.
pub struct Ledger {
    admin: Option<Identity>,
    lines: CreditLineStore,
    events: Vec<Event>,
    timestamp: u64,
}

pub struct LedgerView {
    pub admin: Option<Seq<u8>>,
    pub lines: Map<Seq<u8>, CreditLineView>,
    pub events: Seq<EventView>,
    pub timestamp: u64,
}

pub open spec fn events_view(events: Seq<Event>) -> Seq<EventView> {
    events.map_values(|e: Event| e@)
}

impl LedgerView {
    /// The record on file for `borrower`, if any.
    pub open spec fn line(self, borrower: Seq<u8>) -> Option<CreditLineView> {
        if self.lines.contains_key(borrower) {
            Some(self.lines[borrower])
        } else {
            None
        }
    }

    /// Every record is on file under its own borrower.
    pub open spec fn keyed(self) -> bool {
        forall|k: Seq<u8>| #[trigger] self.lines.contains_key(k) ==> self.lines[k].borrower == k
    }

    /// The ledger after a decision: on success the record is stored under
    /// its borrower and the event is appended; on failure nothing changes.
    pub open spec fn commit(
        self,
        outcome: Result<(CreditLineView, EventView), CreditError>,
    ) -> LedgerView {
        match outcome {
            Ok((line, event)) => LedgerView {
                lines: self.lines.insert(line.borrower, line),
                events: self.events.push(event),
                ..self
            },
            Err(_) => self,
        }
    }

    /// The ledger after a decision that publishes nothing.
    pub open spec fn commit_silent(self, outcome: Result<CreditLineView, CreditError>) -> LedgerView {
        match outcome {
            Ok(line) => LedgerView { lines: self.lines.insert(line.borrower, line), ..self },
            Err(_) => self,
        }
    }
}

/// What the caller is told of a decision.
pub open spec fn answer<T>(outcome: Result<T, CreditError>) -> Result<(), CreditError> {
    match outcome {
        Ok(_) => Ok(()),
        Err(e) => Err(e),
    }
}

/// One call of an operation, with its arguments as plain values.
pub enum Operation {
    Init { admin: Seq<u8> },
    Open {
        caller: Seq<u8>,
        borrower: Seq<u8>,
        credit_limit: i128,
        interest_rate_bps: u32,
        risk_score: u32,
    },
    Draw { caller: Seq<u8>, borrower: Seq<u8>, amount: i128 },
    Repay { caller: Seq<u8>, borrower: Seq<u8>, amount: i128 },
    Update {
        caller: Seq<u8>,
        borrower: Seq<u8>,
        credit_limit: i128,
        interest_rate_bps: u32,
        risk_score: u32,
    },
    Suspend { caller: Seq<u8>, borrower: Seq<u8> },
    Close { caller: Seq<u8>, borrower: Seq<u8> },
    MarkDefaulted { caller: Seq<u8>, borrower: Seq<u8> },
    AdvanceTo { now: u64 },
}

impl Operation {
    /// A repayment must be of a positive amount; any other call may be made.
    pub open spec fn admissible(self) -> bool {
        match self {
            Operation::Repay { amount, .. } => amount > 0,
            _ => true,
        }
    }

    /// The borrower whose record the call may write, if it may write one.
    pub open spec fn target(self) -> Option<Seq<u8>> {
        match self {
            Operation::Init { .. } => None,
            Operation::AdvanceTo { .. } => None,
            Operation::Open { borrower, .. } => Some(borrower),
            Operation::Draw { borrower, .. } => Some(borrower),
            Operation::Repay { borrower, .. } => Some(borrower),
            Operation::Update { borrower, .. } => Some(borrower),
            Operation::Suspend { borrower, .. } => Some(borrower),
            Operation::Close { borrower, .. } => Some(borrower),
            Operation::MarkDefaulted { borrower, .. } => Some(borrower),
        }
    }
}

impl LedgerView {
    /// The ledger after the call `op`.
    pub open spec fn step(self, op: Operation) -> LedgerView {
        match op {
            Operation::Init { admin } => if self.admin is None {
                LedgerView { admin: Some(admin), ..self }
            } else {
                self
            },
            Operation::Open { caller, borrower, credit_limit, interest_rate_bps, risk_score } => {
                self.commit(
                    open_outcome(
                        self.admin,
                        caller,
                        self.line(borrower),
                        borrower,
                        credit_limit,
                        interest_rate_bps,
                        risk_score,
                    ),
                )
            },
            Operation::Draw { caller, borrower, amount } => self.commit(
                draw_outcome(caller, self.line(borrower), borrower, amount, self.timestamp),
            ),
            Operation::Repay { caller, borrower, amount } => self.commit(
                repay_outcome(caller, self.line(borrower), borrower, amount, self.timestamp),
            ),
            Operation::Update { caller, borrower, credit_limit, interest_rate_bps, risk_score } => {
                self.commit_silent(
                    update_outcome(
                        self.admin,
                        caller,
                        self.line(borrower),
                        credit_limit,
                        interest_rate_bps,
                        risk_score,
                    ),
                )
            },
            Operation::Suspend { caller, borrower } => self.commit(
                suspend_outcome(self.admin, caller, self.line(borrower)),
            ),
            Operation::Close { caller, borrower } => self.commit(
                close_outcome(self.admin, caller, self.line(borrower), borrower),
            ),
            Operation::MarkDefaulted { caller, borrower } => self.commit(
                default_outcome(self.admin, caller, self.line(borrower)),
            ),
            Operation::AdvanceTo { now } => LedgerView {
                timestamp: if now > self.timestamp {
                    now
                } else {
                    self.timestamp
                },
                ..self
            },
        }
    }

    /// What the caller of `op` is told.
    pub open spec fn reply(self, op: Operation) -> Result<(), CreditError> {
        match op {
            Operation::Init { admin } => if self.admin is None {
                Ok(())
            } else {
                Err(CreditError::Configuration)
            },
            Operation::Open { caller, borrower, credit_limit, interest_rate_bps, risk_score } => {
                answer(
                    open_outcome(
                        self.admin,
                        caller,
                        self.line(borrower),
                        borrower,
                        credit_limit,
                        interest_rate_bps,
                        risk_score,
                    ),
                )
            },
            Operation::Draw { caller, borrower, amount } => answer(
                draw_outcome(caller, self.line(borrower), borrower, amount, self.timestamp),
            ),
            Operation::Repay { caller, borrower, amount } => answer(
                repay_outcome(caller, self.line(borrower), borrower, amount, self.timestamp),
            ),
            Operation::Update { caller, borrower, credit_limit, interest_rate_bps, risk_score } => {
                answer(
                    update_outcome(
                        self.admin,
                        caller,
                        self.line(borrower),
                        credit_limit,
                        interest_rate_bps,
                        risk_score,
                    ),
                )
            },
            Operation::Suspend { caller, borrower } => answer(
                suspend_outcome(self.admin, caller, self.line(borrower)),
            ),
            Operation::Close { caller, borrower } => answer(
                close_outcome(self.admin, caller, self.line(borrower), borrower),
            ),
            Operation::MarkDefaulted { caller, borrower } => answer(
                default_outcome(self.admin, caller, self.line(borrower)),
            ),
            Operation::AdvanceTo { now } => Ok(()),
        }
    }
}

impl View for Ledger {
    type V = LedgerView;

    closed spec fn view(&self) -> LedgerView {
        LedgerView {
            admin: lifecycle::identity_view(self.admin),
            lines: self.lines@,
            events: events_view(self.events@),
            timestamp: self.timestamp,
        }
    }
}

impl Ledger {
    /// No borrower has two records.
    pub closed spec fn inv(&self) -> bool {
        self.lines.inv()
    }

    pub proof fn lemma_keyed(&self)
        requires
            self.inv(),
        ensures
            self@.keyed(),
    {
        self.lines.lemma_keyed();
    }

    /// A ledger with no administrator, no record and no event, at time zero.
    pub fn new() -> (r: Ledger)
        ensures
            r.inv(),
            r@ == (LedgerView {
                admin: None,
                lines: Map::empty(),
                events: Seq::empty(),
                timestamp: 0,
            }),
    {
        let r = Ledger {
            admin: None,
            lines: CreditLineStore::new(),
            events: Vec::new(),
            timestamp: 0,
        };
        proof {
            assert(events_view(r.events@) =~= Seq::<EventView>::empty());
        }
        r
    }

    pub fn timestamp(&self) -> (r: u64)
        ensures
            r == self@.timestamp,
    {
        self.timestamp
    }

    /// Moves the time forward to `now`; a time in the past is ignored.
    pub fn advance_to(&mut self, now: u64)
        requires
            old(self).inv(),
        ensures
            final(self).inv(),
            final(self)@ == old(self)@.step((Operation::AdvanceTo { now })),
    {
        if now > self.timestamp {
            self.timestamp = now;
        }
    }

    /// The administrator on file, if one was set.
    pub fn admin(&self) -> (r: Option<Identity>)
        ensures
            lifecycle::identity_view(r) == self@.admin,
    {
        match &self.admin {
            Some(a) => Some(a.clone()),
            None => None,
        }
    }

    /// The events published so far, oldest first.
    pub fn events(&self) -> (r: &Vec<Event>)
        ensures
            events_view(r@) == self@.events,
    {
        &self.events
    }

    fn commit(&mut self, decision: Result<(CreditLineData, Event), CreditError>) -> (r: Result<
        (),
        CreditError,
    >)
        requires
            old(self).inv(),
        ensures
            final(self).inv(),
            match decision {
                Ok((line, event)) => r == Ok::<(), CreditError>(()) && final(self)@ == old(
                    self,
                )@.commit(
                    Ok((line@, event@)),
                ),
                Err(e) => r == Err::<(), CreditError>(e) && final(self)@ == old(self)@,
            },
    {
        match decision {
            Ok((line, event)) => {
                let ghost before = self.events@;
                let ghost ev = event;
                self.lines.put(line);
                self.events.push(event);
                proof {
                    assert(events_view(self.events@) =~= events_view(before).push(ev@));
                }
                Ok(())
            },
            Err(e) => Err(e),
        }
    }
}

/// The credit-line operations. Each one loads the borrower's record,
/// authorizes the caller, validates, and then stores and publishes, or
/// fails and leaves the ledger as it was.
pub struct Credit;

impl Credit {
    /// Sets the administrator. Anyone may call it, once: with an
    /// administrator on file it fails with `Configuration` and changes
    /// nothing.
    pub fn init(env: &mut Ledger, admin: Identity) -> (r: Result<(), CreditError>)
        requires
            old(env).inv(),
        ensures
            final(env).inv(),
            final(env)@ == old(env)@.step(
                (Operation::Init {
                    admin: admin@,
                }),
            ),
            r == old(env)@.reply(
                (Operation::Init {
                    admin: admin@,
                }),
            ),
    {
        match lifecycle::init(&env.admin, admin) {
            Ok(a) => {
                env.admin = Some(a);
                Ok(())
            },
            Err(e) => Err(e),
        }
    }

    /// Opens a credit line for `borrower`: active, with nothing owed, and
    /// publishes the `opened` snapshot. Fails with `Configuration` while no
    /// administrator is set, with `Authorization` unless `caller` is the
    /// administrator, and with `AlreadyExists` where the borrower has a
    /// record.
    pub fn open_credit_line(
        env: &mut Ledger,
        caller: &Identity,
        borrower: Identity,
        credit_limit: i128,
        interest_rate_bps: u32,
        risk_score: u32,
    ) -> (r: Result<(), CreditError>)
        requires
            old(env).inv(),
        ensures
            final(env).inv(),
            final(env)@ == old(env)@.step(
                (Operation::Open {
                    caller: caller@,
                    borrower: borrower@,
                    credit_limit,
                    interest_rate_bps,
                    risk_score,
                }),
            ),
            r == old(env)@.reply(
                (Operation::Open {
                    caller: caller@,
                    borrower: borrower@,
                    credit_limit,
                    interest_rate_bps,
                    risk_score,
                }),
            ),
    {
        let existing = env.lines.get(&borrower);
        let decision = lifecycle::open(
            &env.admin,
            caller,
            existing,
            borrower,
            credit_limit,
            interest_rate_bps,
            risk_score,
        );
        env.commit(decision)
    }

    /// Draws `amount` on the borrower's line and publishes the draw with the
    /// new amount owed and the ledger's time. Fails with `NotFound` without
    /// a record, with `Authorization` unless `caller` is the borrower, and
    /// with `InsufficientLimit` where the line is not active, the amount is
    /// not positive, or the amount owed would pass the limit.
    pub fn draw_credit(env: &mut Ledger, caller: &Identity, borrower: Identity, amount: i128) -> (r:
        Result<(), CreditError>)
        requires
            old(env).inv(),
        ensures
            final(env).inv(),
            final(env)@ == old(env)@.step(
                (Operation::Draw {
                    caller: caller@,
                    borrower: borrower@,
                    amount,
                }),
            ),
            r == old(env)@.reply(
                (Operation::Draw {
                    caller: caller@,
                    borrower: borrower@,
                    amount,
                }),
            ),
    {
        let existing = env.lines.get(&borrower);
        let decision = lifecycle::draw(caller, existing, &borrower, amount, env.timestamp);
        env.commit(decision)
    }

    /// Repays `amount` on the borrower's line: the amount owed goes down by
    /// it and stops at zero. Publishes the repayment with the ledger's time.
    /// Fails with `NotFound` without a record and with `Authorization`
    /// unless `caller` is the borrower. No interest is accrued.
    pub fn repay_credit(env: &mut Ledger, caller: &Identity, borrower: Identity, amount: i128) -> (r:
        Result<(), CreditError>)
        requires
            old(env).inv(),
            amount > 0,
        ensures
            final(env).inv(),
            final(env)@ == old(env)@.step(
                (Operation::Repay {
                    caller: caller@,
                    borrower: borrower@,
                    amount,
                }),
            ),
            r == old(env)@.reply(
                (Operation::Repay {
                    caller: caller@,
                    borrower: borrower@,
                    amount,
                }),
            ),
    {
        let existing = env.lines.get(&borrower);
        let decision = lifecycle::repay(caller, existing, &borrower, amount, env.timestamp);
        env.commit(decision)
    }

    /// Replaces limit, rate and score of the borrower's line; status and the
    /// amount owed stay, and nothing is published. Fails with `NotFound`
    /// without a record, then as the administrator's gate does.
    pub fn update_risk_parameters(
        env: &mut Ledger,
        caller: &Identity,
        borrower: Identity,
        credit_limit: i128,
        interest_rate_bps: u32,
        risk_score: u32,
    ) -> (r: Result<(), CreditError>)
        requires
            old(env).inv(),
        ensures
            final(env).inv(),
            final(env)@ == old(env)@.step(
                (Operation::Update {
                    caller: caller@,
                    borrower: borrower@,
                    credit_limit,
                    interest_rate_bps,
                    risk_score,
                }),
            ),
            r == old(env)@.reply(
                (Operation::Update {
                    caller: caller@,
                    borrower: borrower@,
                    credit_limit,
                    interest_rate_bps,
                    risk_score,
                }),
            ),
    {
        let existing = env.lines.get(&borrower);
        match lifecycle::update(
            &env.admin,
            caller,
            existing,
            credit_limit,
            interest_rate_bps,
            risk_score,
        ) {
            Ok(line) => {
                env.lines.put(line);
                Ok(())
            },
            Err(e) => Err(e),
        }
    }

    /// Sets the status of the borrower's line to `Suspended`, whatever it
    /// was, and publishes the `suspend` snapshot. Fails with `NotFound`
    /// without a record, then as the administrator's gate does.
    pub fn suspend_credit_line(env: &mut Ledger, caller: &Identity, borrower: Identity) -> (r:
        Result<(), CreditError>)
        requires
            old(env).inv(),
        ensures
            final(env).inv(),
            final(env)@ == old(env)@.step(
                (Operation::Suspend {
                    caller: caller@,
                    borrower: borrower@,
                }),
            ),
            r == old(env)@.reply(
                (Operation::Suspend {
                    caller: caller@,
                    borrower: borrower@,
                }),
            ),
    {
        let existing = env.lines.get(&borrower);
        let decision = lifecycle::suspend(&env.admin, caller, existing);
        env.commit(decision)
    }

    /// Sets the status of the borrower's line to `Closed`, whatever it was,
    /// and publishes the `closed` snapshot. The borrower may ask once
    /// nothing is owed; anyone else must pass the administrator's gate.
    /// Fails with `NotFound` without a record.
    pub fn close_credit_line(env: &mut Ledger, caller: &Identity, borrower: Identity) -> (r:
        Result<(), CreditError>)
        requires
            old(env).inv(),
        ensures
            final(env).inv(),
            final(env)@ == old(env)@.step(
                (Operation::Close {
                    caller: caller@,
                    borrower: borrower@,
                }),
            ),
            r == old(env)@.reply(
                (Operation::Close {
                    caller: caller@,
                    borrower: borrower@,
                }),
            ),
    {
        let existing = env.lines.get(&borrower);
        let decision = lifecycle::close(&env.admin, caller, existing, &borrower);
        env.commit(decision)
    }

    /// Sets the status of the borrower's line to `Defaulted`, whatever it
    /// was, and publishes the `default` snapshot. Fails with `NotFound`
    /// without a record, then as the administrator's gate does.
    pub fn default_credit_line(env: &mut Ledger, caller: &Identity, borrower: Identity) -> (r:
        Result<(), CreditError>)
        requires
            old(env).inv(),
        ensures
            final(env).inv(),
            final(env)@ == old(env)@.step(
                (Operation::MarkDefaulted {
                    caller: caller@,
                    borrower: borrower@,
                }),
            ),
            r == old(env)@.reply(
                (Operation::MarkDefaulted {
                    caller: caller@,
                    borrower: borrower@,
                }),
            ),
    {
        let existing = env.lines.get(&borrower);
        let decision = lifecycle::default(&env.admin, caller, existing);
        env.commit(decision)
    }

    /// The borrower's record, or `None` where there is none. Anyone may ask.
    pub fn get_credit_line(env: &Ledger, borrower: Identity) -> (r: Option<CreditLineData>)
        requires
            env.inv(),
        ensures
            lifecycle::line_view(r) == env@.line(borrower@),
    {
        env.lines.get(&borrower)
    }
}

} // verus!
