//! The rules of the lifecycle, as functions from what is on file to what is
//! to be written: each takes the administrator on file, the caller, and the
//! borrower's record if there is one, and answers with the record to store
//! and the event to publish, or with the reason why nothing is to happen.
//! Every operation loads first, then authorizes, then validates.

use crate::error::CreditError;
use crate::identity::Identity;
use crate::types::{
    CreditDrawEvent, CreditLineData, CreditLineEvent, CreditLineView, CreditRepayEvent,
    CreditStatus, Event, EventType, EventView,
};
use vstd::prelude::*;

verus! {

pub open spec fn identity_view(identity: Option<Identity>) -> Option<Seq<u8>> {
    match identity {
        Some(i) => Some(i@),
        None => None,
    }
}

pub open spec fn line_view(line: Option<CreditLineData>) -> Option<CreditLineView> {
    match line {
        Some(l) => Some(l@),
        None => None,
    }
}

/// The caller must be the administrator on file.
pub open spec fn admin_check(admin: Option<Seq<u8>>, caller: Seq<u8>) -> Result<(), CreditError> {
    match admin {
        None => Err(CreditError::Configuration),
        Some(a) => if a == caller {
            Ok(())
        } else {
            Err(CreditError::Authorization)
        },
    }
}

/// The caller must be the borrower.
pub open spec fn self_check(caller: Seq<u8>, borrower: Seq<u8>) -> Result<(), CreditError> {
    if caller == borrower {
        Ok(())
    } else {
        Err(CreditError::Authorization)
    }
}

/// A borrower may close a line on which nothing is owed; anyone else must be
/// the administrator.
pub open spec fn close_check(
    admin: Option<Seq<u8>>,
    caller: Seq<u8>,
    borrower: Seq<u8>,
    utilized_amount: i128,
) -> Result<(), CreditError> {
    if caller == borrower && utilized_amount == 0 {
        Ok(())
    } else {
        admin_check(admin, caller)
    }
}

/// The record that a new credit line starts with.
pub open spec fn opened_line(
    borrower: Seq<u8>,
    credit_limit: i128,
    interest_rate_bps: u32,
    risk_score: u32,
) -> CreditLineView {
    CreditLineView {
        borrower,
        credit_limit,
        utilized_amount: 0,
        interest_rate_bps,
        risk_score,
        status: CreditStatus::Active,
    }
}

/// The snapshot that a lifecycle transition publishes of the record it wrote.
pub open spec fn line_event(event_type: EventType, line: CreditLineView) -> EventView {
    EventView::Line {
        event_type,
        borrower: line.borrower,
        status: line.status,
        credit_limit: line.credit_limit,
        interest_rate_bps: line.interest_rate_bps,
        risk_score: line.risk_score,
    }
}

/// The amount owed after a repayment: never below zero.
pub open spec fn repaid(utilized_amount: i128, amount: i128) -> i128 {
    if utilized_amount - amount <= 0 {
        0
    } else {
        (utilized_amount - amount) as i128
    }
}

pub open spec fn open_outcome(
    admin: Option<Seq<u8>>,
    caller: Seq<u8>,
    existing: Option<CreditLineView>,
    borrower: Seq<u8>,
    credit_limit: i128,
    interest_rate_bps: u32,
    risk_score: u32,
) -> Result<(CreditLineView, EventView), CreditError> {
    match admin_check(admin, caller) {
        Err(e) => Err(e),
        Ok(_) => if existing is Some {
            Err(CreditError::AlreadyExists)
        } else {
            let line = opened_line(borrower, credit_limit, interest_rate_bps, risk_score);
            Ok((line, line_event(EventType::Opened, line)))
        },
    }
}

pub open spec fn draw_outcome(
    caller: Seq<u8>,
    existing: Option<CreditLineView>,
    borrower: Seq<u8>,
    amount: i128,
    timestamp: u64,
) -> Result<(CreditLineView, EventView), CreditError> {
    match existing {
        None => Err(CreditError::NotFound),
        Some(line) => if caller != borrower {
            Err(CreditError::Authorization)
        } else if line.status != CreditStatus::Active || amount <= 0 || line.utilized_amount
            + amount > line.credit_limit {
            Err(CreditError::InsufficientLimit)
        } else {
            let new_utilized = (line.utilized_amount + amount) as i128;
            Ok(
                (
                    CreditLineView { utilized_amount: new_utilized, ..line },
                    EventView::Draw { borrower: line.borrower, amount, new_utilized, timestamp },
                ),
            )
        },
    }
}

pub open spec fn repay_outcome(
    caller: Seq<u8>,
    existing: Option<CreditLineView>,
    borrower: Seq<u8>,
    amount: i128,
    timestamp: u64,
) -> Result<(CreditLineView, EventView), CreditError> {
    match existing {
        None => Err(CreditError::NotFound),
        Some(line) => if caller != borrower {
            Err(CreditError::Authorization)
        } else {
            let new_utilized = repaid(line.utilized_amount, amount);
            Ok(
                (
                    CreditLineView { utilized_amount: new_utilized, ..line },
                    EventView::Repay { borrower: line.borrower, amount, new_utilized, timestamp },
                ),
            )
        },
    }
}

pub open spec fn update_outcome(
    admin: Option<Seq<u8>>,
    caller: Seq<u8>,
    existing: Option<CreditLineView>,
    credit_limit: i128,
    interest_rate_bps: u32,
    risk_score: u32,
) -> Result<CreditLineView, CreditError> {
    match existing {
        None => Err(CreditError::NotFound),
        Some(line) => match admin_check(admin, caller) {
            Err(e) => Err(e),
            Ok(_) => Ok(CreditLineView { credit_limit, interest_rate_bps, risk_score, ..line }),
        },
    }
}

/// The record with its status set, and the snapshot of it, once `allowed`
/// has let the caller through.
pub open spec fn status_outcome(
    allowed: Result<(), CreditError>,
    line: CreditLineView,
    status: CreditStatus,
    event_type: EventType,
) -> Result<(CreditLineView, EventView), CreditError> {
    match allowed {
        Err(e) => Err(e),
        Ok(_) => {
            let next = CreditLineView { status, ..line };
            Ok((next, line_event(event_type, next)))
        },
    }
}

pub open spec fn suspend_outcome(
    admin: Option<Seq<u8>>,
    caller: Seq<u8>,
    existing: Option<CreditLineView>,
) -> Result<(CreditLineView, EventView), CreditError> {
    match existing {
        None => Err(CreditError::NotFound),
        Some(line) => status_outcome(
            admin_check(admin, caller),
            line,
            CreditStatus::Suspended,
            EventType::Suspend,
        ),
    }
}

pub open spec fn close_outcome(
    admin: Option<Seq<u8>>,
    caller: Seq<u8>,
    existing: Option<CreditLineView>,
    borrower: Seq<u8>,
) -> Result<(CreditLineView, EventView), CreditError> {
    match existing {
        None => Err(CreditError::NotFound),
        Some(line) => status_outcome(
            close_check(admin, caller, borrower, line.utilized_amount),
            line,
            CreditStatus::Closed,
            EventType::Closed,
        ),
    }
}

pub open spec fn default_outcome(
    admin: Option<Seq<u8>>,
    caller: Seq<u8>,
    existing: Option<CreditLineView>,
) -> Result<(CreditLineView, EventView), CreditError> {
    match existing {
        None => Err(CreditError::NotFound),
        Some(line) => status_outcome(
            admin_check(admin, caller),
            line,
            CreditStatus::Defaulted,
            EventType::Default,
        ),
    }
}

/// The decision `r` is the one that `outcome` asks for.
pub open spec fn agrees(
    r: Result<(CreditLineData, Event), CreditError>,
    outcome: Result<(CreditLineView, EventView), CreditError>,
) -> bool {
    match r {
        Ok((line, event)) => outcome == Ok::<(CreditLineView, EventView), CreditError>(
            (line@, event@),
        ),
        Err(e) => outcome == Err::<(CreditLineView, EventView), CreditError>(e),
    }
}

/// Setting the administrator: once, and never again.
pub fn init(current: &Option<Identity>, admin: Identity) -> (r: Result<Identity, CreditError>)
    ensures
        match r {
            Ok(a) => current is None && a@ == admin@,
            Err(e) => current is Some && e == CreditError::Configuration,
        },
{
    if current.is_some() {
        Err(CreditError::Configuration)
    } else {
        Ok(admin)
    }
}

pub fn require_admin(admin: &Option<Identity>, caller: &Identity) -> (r: Result<(), CreditError>)
    ensures
        r == admin_check(identity_view(*admin), caller@),
{
    match admin {
        None => Err(CreditError::Configuration),
        Some(a) => if a.same(caller) {
            Ok(())
        } else {
            Err(CreditError::Authorization)
        },
    }
}

pub fn require_self(caller: &Identity, borrower: &Identity) -> (r: Result<(), CreditError>)
    ensures
        r == self_check(caller@, borrower@),
{
    if caller.same(borrower) {
        Ok(())
    } else {
        Err(CreditError::Authorization)
    }
}

fn require_closer(
    admin: &Option<Identity>,
    caller: &Identity,
    borrower: &Identity,
    utilized_amount: i128,
) -> (r: Result<(), CreditError>)
    ensures
        r == close_check(identity_view(*admin), caller@, borrower@, utilized_amount),
{
    if utilized_amount == 0 && caller.same(borrower) {
        Ok(())
    } else {
        require_admin(admin, caller)
    }
}

fn with_status(
    allowed: Result<(), CreditError>,
    line: CreditLineData,
    status: CreditStatus,
    event_type: EventType,
) -> (r: Result<(CreditLineData, Event), CreditError>)
    ensures
        agrees(r, status_outcome(allowed, line@, status, event_type)),
{
    match allowed {
        Err(e) => Err(e),
        Ok(_) => {
            let event = CreditLineEvent {
                event_type,
                borrower: line.borrower.clone(),
                status,
                credit_limit: line.credit_limit,
                interest_rate_bps: line.interest_rate_bps,
                risk_score: line.risk_score,
            };
            let next = CreditLineData {
                borrower: line.borrower,
                credit_limit: line.credit_limit,
                utilized_amount: line.utilized_amount,
                interest_rate_bps: line.interest_rate_bps,
                risk_score: line.risk_score,
                status,
            };
            Ok((next, Event::Line(event)))
        },
    }
}

/// Opening: the administrator alone, and only for a borrower without a
/// record. The line starts active, with nothing owed.
pub fn open(
    admin: &Option<Identity>,
    caller: &Identity,
    existing: Option<CreditLineData>,
    borrower: Identity,
    credit_limit: i128,
    interest_rate_bps: u32,
    risk_score: u32,
) -> (r: Result<(CreditLineData, Event), CreditError>)
    ensures
        agrees(
            r,
            open_outcome(
                identity_view(*admin),
                caller@,
                line_view(existing),
                borrower@,
                credit_limit,
                interest_rate_bps,
                risk_score,
            ),
        ),
{
    match require_admin(admin, caller) {
        Err(e) => Err(e),
        Ok(_) => {
            if existing.is_some() {
                return Err(CreditError::AlreadyExists);
            }
            let event = CreditLineEvent {
                event_type: EventType::Opened,
                borrower: borrower.clone(),
                status: CreditStatus::Active,
                credit_limit,
                interest_rate_bps,
                risk_score,
            };
            let line = CreditLineData {
                borrower,
                credit_limit,
                utilized_amount: 0,
                interest_rate_bps,
                risk_score,
                status: CreditStatus::Active,
            };
            Ok((line, Event::Line(event)))
        },
    }
}

/// Drawing: the borrower alone, on an active line, a positive amount that
/// fits under the limit together with what is owed already.
pub fn draw(
    caller: &Identity,
    existing: Option<CreditLineData>,
    borrower: &Identity,
    amount: i128,
    timestamp: u64,
) -> (r: Result<(CreditLineData, Event), CreditError>)
    ensures
        agrees(r, draw_outcome(caller@, line_view(existing), borrower@, amount, timestamp)),
{
    match existing {
        None => Err(CreditError::NotFound),
        Some(line) => {
            if !caller.same(borrower) {
                return Err(CreditError::Authorization);
            }
            if !matches!(line.status, CreditStatus::Active) || amount <= 0 {
                return Err(CreditError::InsufficientLimit);
            }
            match line.utilized_amount.checked_add(amount) {
                None => Err(CreditError::InsufficientLimit),
                Some(new_utilized) => {
                    if new_utilized > line.credit_limit {
                        return Err(CreditError::InsufficientLimit);
                    }
                    let event = CreditDrawEvent {
                        borrower: line.borrower.clone(),
                        amount,
                        new_utilized,
                        timestamp,
                    };
                    let next = CreditLineData {
                        borrower: line.borrower,
                        credit_limit: line.credit_limit,
                        utilized_amount: new_utilized,
                        interest_rate_bps: line.interest_rate_bps,
                        risk_score: line.risk_score,
                        status: line.status,
                    };
                    Ok((next, Event::Draw(event)))
                },
            }
        },
    }
}

/// Repaying: the borrower alone, a positive amount. What is owed goes down
/// by the amount, and stops at zero.
pub fn repay(
    caller: &Identity,
    existing: Option<CreditLineData>,
    borrower: &Identity,
    amount: i128,
    timestamp: u64,
) -> (r: Result<(CreditLineData, Event), CreditError>)
    requires
        amount > 0,
    ensures
        agrees(r, repay_outcome(caller@, line_view(existing), borrower@, amount, timestamp)),
{
    match existing {
        None => Err(CreditError::NotFound),
        Some(line) => {
            if !caller.same(borrower) {
                return Err(CreditError::Authorization);
            }
            let new_utilized: i128 = if line.utilized_amount <= amount {
                0
            } else {
                line.utilized_amount - amount
            };
            let event = CreditRepayEvent {
                borrower: line.borrower.clone(),
                amount,
                new_utilized,
                timestamp,
            };
            let next = CreditLineData {
                borrower: line.borrower,
                credit_limit: line.credit_limit,
                utilized_amount: new_utilized,
                interest_rate_bps: line.interest_rate_bps,
                risk_score: line.risk_score,
                status: line.status,
            };
            Ok((next, Event::Repay(event)))
        },
    }
}

/// New risk parameters: the administrator alone. Status and the amount owed
/// stay; the new limit is not held against what is owed.
pub fn update(
    admin: &Option<Identity>,
    caller: &Identity,
    existing: Option<CreditLineData>,
    credit_limit: i128,
    interest_rate_bps: u32,
    risk_score: u32,
) -> (r: Result<CreditLineData, CreditError>)
    ensures
        match r {
            Ok(line) => update_outcome(
                identity_view(*admin),
                caller@,
                line_view(existing),
                credit_limit,
                interest_rate_bps,
                risk_score,
            ) == Ok::<CreditLineView, CreditError>(line@),
            Err(e) => update_outcome(
                identity_view(*admin),
                caller@,
                line_view(existing),
                credit_limit,
                interest_rate_bps,
                risk_score,
            ) == Err::<CreditLineView, CreditError>(e),
        },
{
    match existing {
        None => Err(CreditError::NotFound),
        Some(line) => match require_admin(admin, caller) {
            Err(e) => Err(e),
            Ok(_) => Ok(
                CreditLineData {
                    borrower: line.borrower,
                    credit_limit,
                    utilized_amount: line.utilized_amount,
                    interest_rate_bps,
                    risk_score,
                    status: line.status,
                },
            ),
        },
    }
}

/// Suspending: the administrator alone, whatever the status was.
pub fn suspend(admin: &Option<Identity>, caller: &Identity, existing: Option<CreditLineData>) -> (r:
    Result<(CreditLineData, Event), CreditError>)
    ensures
        agrees(r, suspend_outcome(identity_view(*admin), caller@, line_view(existing))),
{
    match existing {
        None => Err(CreditError::NotFound),
        Some(line) => with_status(
            require_admin(admin, caller),
            line,
            CreditStatus::Suspended,
            EventType::Suspend,
        ),
    }
}

/// Closing: the administrator, or the borrower once nothing is owed.
pub fn close(
    admin: &Option<Identity>,
    caller: &Identity,
    existing: Option<CreditLineData>,
    borrower: &Identity,
) -> (r: Result<(CreditLineData, Event), CreditError>)
    ensures
        agrees(
            r,
            close_outcome(identity_view(*admin), caller@, line_view(existing), borrower@),
        ),
{
    match existing {
        None => Err(CreditError::NotFound),
        Some(line) => {
            let allowed = require_closer(admin, caller, borrower, line.utilized_amount);
            with_status(allowed, line, CreditStatus::Closed, EventType::Closed)
        },
    }
}

/// Marking as defaulted: the administrator alone, whatever the status was.
pub fn default(admin: &Option<Identity>, caller: &Identity, existing: Option<CreditLineData>) -> (r:
    Result<(CreditLineData, Event), CreditError>)
    ensures
        agrees(r, default_outcome(identity_view(*admin), caller@, line_view(existing))),
{
    match existing {
        None => Err(CreditError::NotFound),
        Some(line) => with_status(
            require_admin(admin, caller),
            line,
            CreditStatus::Defaulted,
            EventType::Default,
        ),
    }
}

} // verus!
