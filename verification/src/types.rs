use crate::identity::Identity;
use vstd::prelude::*;

verus! {

/// Where a credit line stands in its life.
#[derive(Clone, Copy, Debug, PartialEq, Eq, Structural)]
pub enum CreditStatus {
    Active,
    Suspended,
    Defaulted,
    Closed,
}

impl CreditStatus {
    /// The transitions that the lifecycle is meant to have: an active line
    /// may be suspended, closed or defaulted; a suspended one closed,
    /// defaulted or reinstated; a defaulted one closed; a closed one stays
    /// closed.
    pub open spec fn may_become(self, next: CreditStatus) -> bool {
        match self {
            CreditStatus::Active => next is Suspended || next is Closed || next is Defaulted,
            CreditStatus::Suspended => next is Closed || next is Defaulted || next is Active,
            CreditStatus::Defaulted => next is Closed,
            CreditStatus::Closed => false,
        }
    }

    /// Whether a line in this status is meant to go to `next`. The
    /// operations do not ask: they write the status they are called for.
    pub fn can_become(self, next: CreditStatus) -> (r: bool)
        ensures
            r == self.may_become(next),
    {
        match self {
            CreditStatus::Active => !matches!(next, CreditStatus::Active),
            CreditStatus::Suspended => !matches!(next, CreditStatus::Suspended),
            CreditStatus::Defaulted => matches!(next, CreditStatus::Closed),
            CreditStatus::Closed => false,
        }
    }
}

/// The record kept for one borrower.
#[derive(Debug, PartialEq, Eq)]
pub struct CreditLineData {
    pub borrower: Identity,
    pub credit_limit: i128,
    pub utilized_amount: i128,
    pub interest_rate_bps: u32,
    pub risk_score: u32,
    pub status: CreditStatus,
}

/// What a `CreditLineData` is, with the borrower as plain bytes.
pub struct CreditLineView {
    pub borrower: Seq<u8>,
    pub credit_limit: i128,
    pub utilized_amount: i128,
    pub interest_rate_bps: u32,
    pub risk_score: u32,
    pub status: CreditStatus,
}

impl View for CreditLineData {
    type V = CreditLineView;

    open spec fn view(&self) -> CreditLineView {
        CreditLineView {
            borrower: self.borrower@,
            credit_limit: self.credit_limit,
            utilized_amount: self.utilized_amount,
            interest_rate_bps: self.interest_rate_bps,
            risk_score: self.risk_score,
            status: self.status,
        }
    }
}

impl CreditLineView {
    /// The amount owed is neither negative nor over the limit.
    pub open spec fn within_limit(self) -> bool {
        0 <= self.utilized_amount <= self.credit_limit
    }
}

impl Clone for CreditLineData {
    fn clone(&self) -> (r: CreditLineData)
        ensures
            r@ == self@,
    {
        CreditLineData {
            borrower: self.borrower.clone(),
            credit_limit: self.credit_limit,
            utilized_amount: self.utilized_amount,
            interest_rate_bps: self.interest_rate_bps,
            risk_score: self.risk_score,
            status: self.status,
        }
    }
}

/// Which lifecycle transition an event reports.
#[derive(Clone, Copy, Debug, PartialEq, Eq, Structural)]
pub enum EventType {
    Opened,
    Suspend,
    Closed,
    Default,
}

impl EventType {
    /// The short name under which observers find events of this type.
    pub open spec fn name_spec(self) -> Seq<char> {
        match self {
            EventType::Opened => "opened"@,
            EventType::Suspend => "suspend"@,
            EventType::Closed => "closed"@,
            EventType::Default => "default"@,
        }
    }

    pub fn name(self) -> (r: &'static str)
        ensures
            r@ == self.name_spec(),
    {
        match self {
            EventType::Opened => "opened",
            EventType::Suspend => "suspend",
            EventType::Closed => "closed",
            EventType::Default => "default",
        }
    }
}

/// Snapshot of a credit line at the moment of a lifecycle transition.
#[derive(Debug, PartialEq, Eq)]
pub struct CreditLineEvent {
    pub event_type: EventType,
    pub borrower: Identity,
    pub status: CreditStatus,
    pub credit_limit: i128,
    pub interest_rate_bps: u32,
    pub risk_score: u32,
}

/// A draw that was granted.
#[derive(Debug, PartialEq, Eq)]
pub struct CreditDrawEvent {
    pub borrower: Identity,
    pub amount: i128,
    pub new_utilized: i128,
    pub timestamp: u64,
}

/// A repayment that was taken.
#[derive(Debug, PartialEq, Eq)]
pub struct CreditRepayEvent {
    pub borrower: Identity,
    pub amount: i128,
    pub new_utilized: i128,
    pub timestamp: u64,
}

/// One entry of the append-only event log.
#[derive(Debug, PartialEq, Eq)]
pub enum Event {
    Line(CreditLineEvent),
    Draw(CreditDrawEvent),
    Repay(CreditRepayEvent),
}

/// What an `Event` is, with the borrower as plain bytes.
pub enum EventView {
    Line {
        event_type: EventType,
        borrower: Seq<u8>,
        status: CreditStatus,
        credit_limit: i128,
        interest_rate_bps: u32,
        risk_score: u32,
    },
    Draw { borrower: Seq<u8>, amount: i128, new_utilized: i128, timestamp: u64 },
    Repay { borrower: Seq<u8>, amount: i128, new_utilized: i128, timestamp: u64 },
}

impl View for CreditLineEvent {
    type V = EventView;

    open spec fn view(&self) -> EventView {
        EventView::Line {
            event_type: self.event_type,
            borrower: self.borrower@,
            status: self.status,
            credit_limit: self.credit_limit,
            interest_rate_bps: self.interest_rate_bps,
            risk_score: self.risk_score,
        }
    }
}

impl View for CreditDrawEvent {
    type V = EventView;

    open spec fn view(&self) -> EventView {
        EventView::Draw {
            borrower: self.borrower@,
            amount: self.amount,
            new_utilized: self.new_utilized,
            timestamp: self.timestamp,
        }
    }
}

impl View for CreditRepayEvent {
    type V = EventView;

    open spec fn view(&self) -> EventView {
        EventView::Repay {
            borrower: self.borrower@,
            amount: self.amount,
            new_utilized: self.new_utilized,
            timestamp: self.timestamp,
        }
    }
}

impl View for Event {
    type V = EventView;

    open spec fn view(&self) -> EventView {
        match self {
            Event::Line(e) => e@,
            Event::Draw(e) => e@,
            Event::Repay(e) => e@,
        }
    }
}

} // verus!
