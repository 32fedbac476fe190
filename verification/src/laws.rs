//! What holds of the operations together, stated over the ledger's view and
//! proved from the definitions that the operations' contracts use.

use crate::contract::{LedgerView, Operation};
use crate::error::CreditError;
use crate::lifecycle::opened_line;
use crate::types::{CreditLineView, CreditStatus};
use vstd::prelude::*;

verus! {

/// The ledger after the calls `ops`, made in order.
pub open spec fn run(s: LedgerView, ops: Seq<Operation>) -> LedgerView
    decreases ops.len(),
{
    if ops.len() == 0 {
        s
    } else {
        run(s, ops.drop_last()).step(ops.last())
    }
}

/// The call at position `i` of `ops`, made from `s`, succeeded.
pub open spec fn succeeded(s: LedgerView, ops: Seq<Operation>, i: int) -> bool {
    run(s, ops.take(i)).reply(ops[i]) is Ok
}

/// The call opens a credit line for `borrower`.
pub open spec fn opens(op: Operation, borrower: Seq<u8>) -> bool {
    op is Open && op.target() == Some(borrower)
}

/// The call is a draw or a repayment.
pub open spec fn moves_funds(op: Operation) -> bool {
    op is Draw || op is Repay
}

/// No call takes a record away, moves it to another borrower, or gives a
/// borrower a second one.
pub proof fn step_keeps_records_keyed(s: LedgerView, op: Operation)
    requires
        s.keyed(),
    ensures
        s.step(op).keyed(),
{
}

pub proof fn run_keeps_records_keyed(s: LedgerView, ops: Seq<Operation>)
    requires
        s.keyed(),
    ensures
        run(s, ops).keyed(),
    decreases ops.len(),
{
    if ops.len() > 0 {
        run_keeps_records_keyed(s, ops.drop_last());
        step_keeps_records_keyed(run(s, ops.drop_last()), ops.last());
    }
}

/// A call that fails leaves the whole ledger as it was.
pub proof fn failure_changes_nothing(s: LedgerView, op: Operation)
    requires
        s.reply(op) is Err,
    ensures
        s.step(op) == s,
{
}

/// A call leaves the records of every borrower but its own untouched.
pub proof fn other_borrowers_untouched(s: LedgerView, op: Operation, other: Seq<u8>)
    requires
        s.keyed(),
        op.target() != Some(other),
    ensures
        s.step(op).line(other) == s.line(other),
{
}

/// A borrower without a record has none after any call, unless the call
/// opened a line for that borrower and succeeded.
pub proof fn only_open_creates(s: LedgerView, op: Operation, borrower: Seq<u8>)
    requires
        s.keyed(),
        s.line(borrower) is None,
        !(opens(op, borrower) && s.reply(op) is Ok),
    ensures
        s.step(op).line(borrower) is None,
{
}

/// A borrower with a record has one after any call: records are never
/// removed.
pub proof fn records_stay(s: LedgerView, op: Operation, borrower: Seq<u8>)
    requires
        s.keyed(),
        s.line(borrower) is Some,
    ensures
        s.step(op).line(borrower) is Some,
{
}

/// From a ledger without records, a borrower has no record as long as no
/// call that opens a line for that borrower has succeeded.
pub proof fn no_record_before_open(s: LedgerView, ops: Seq<Operation>, borrower: Seq<u8>)
    requires
        s.lines == Map::<Seq<u8>, CreditLineView>::empty(),
        forall|i: int| 0 <= i < ops.len() && opens(ops[i], borrower) ==> !succeeded(s, ops, i),
    ensures
        run(s, ops).line(borrower) is None,
    decreases ops.len(),
{
    if ops.len() > 0 {
        let front = ops.drop_last();
        let n = front.len() as int;
        assert forall|i: int| 0 <= i < front.len() && opens(front[i], borrower) implies !succeeded(
            s,
            front,
            i,
        ) by {
            assert(front.take(i) =~= ops.take(i));
            assert(!succeeded(s, ops, i));
        }
        no_record_before_open(s, front, borrower);
        run_keeps_records_keyed(s, front);
        assert(ops.take(n) =~= front);
        assert(opens(ops[n], borrower) ==> !succeeded(s, ops, n));
        only_open_creates(run(s, front), ops.last(), borrower);
    }
}

/// Once a call that opens a line for a borrower has succeeded, the borrower
/// has a record after every later call.
pub proof fn record_after_open(s: LedgerView, ops: Seq<Operation>, borrower: Seq<u8>, i: int)
    requires
        s.keyed(),
        0 <= i < ops.len(),
        opens(ops[i], borrower),
        succeeded(s, ops, i),
    ensures
        run(s, ops).line(borrower) is Some,
    decreases ops.len(),
{
    let front = ops.drop_last();
    run_keeps_records_keyed(s, front);
    if i == ops.len() - 1 {
        assert(ops.take(i) =~= front);
    } else {
        assert(front.take(i) =~= ops.take(i));
        assert(succeeded(s, front, i));
        record_after_open(s, front, borrower, i);
        records_stay(run(s, front), ops.last(), borrower);
    }
}

/// A successful opening leaves exactly the record asked for: the limit,
/// rate and score that were given, nothing owed, and status active.
pub proof fn open_records_what_was_asked(
    s: LedgerView,
    caller: Seq<u8>,
    borrower: Seq<u8>,
    credit_limit: i128,
    interest_rate_bps: u32,
    risk_score: u32,
)
    requires
        s.reply(
            (Operation::Open { caller, borrower, credit_limit, interest_rate_bps, risk_score }),
        ) is Ok,
    ensures
        s.step(
            (Operation::Open { caller, borrower, credit_limit, interest_rate_bps, risk_score }),
        ).line(borrower) == Some(
            (CreditLineView {
                borrower,
                credit_limit,
                utilized_amount: 0,
                interest_rate_bps,
                risk_score,
                status: CreditStatus::Active,
            }),
        ),
        s.admin == Some(caller),
        s.line(borrower) is None,
{
}

/// Opening succeeds exactly when the administrator asks for a borrower
/// that has no record.
pub proof fn open_succeeds_iff(
    s: LedgerView,
    caller: Seq<u8>,
    borrower: Seq<u8>,
    credit_limit: i128,
    interest_rate_bps: u32,
    risk_score: u32,
)
    ensures
        s.reply(
            (Operation::Open { caller, borrower, credit_limit, interest_rate_bps, risk_score }),
        ) is Ok <==> s.admin == Some(caller) && s.line(borrower) is None,
{
}

/// A draw for a borrower without a record fails with `NotFound`, whoever
/// asks, and leaves the ledger as it was.
pub proof fn draw_without_record(s: LedgerView, caller: Seq<u8>, borrower: Seq<u8>, amount: i128)
    requires
        s.line(borrower) is None,
    ensures
        s.reply((Operation::Draw { caller, borrower, amount })) == Err::<(), CreditError>(
            CreditError::NotFound,
        ),
        s.step((Operation::Draw { caller, borrower, amount })) == s,
{
}

/// A draw or a repayment, granted or not, keeps what a borrower owes
/// between zero and the limit.
pub proof fn movement_stays_within_limit(s: LedgerView, op: Operation, borrower: Seq<u8>)
    requires
        s.keyed(),
        moves_funds(op),
        op.admissible(),
        s.line(borrower) is Some,
        s.line(borrower)->Some_0.within_limit(),
    ensures
        s.step(op).line(borrower) is Some,
        s.step(op).line(borrower)->Some_0.within_limit(),
        s.step(op).line(borrower)->Some_0.credit_limit == s.line(borrower)->Some_0.credit_limit,
{
}

/// Over any sequence of draws and repayments, what a borrower owes stays
/// between zero and the limit, provided it was there at the start.
pub proof fn movements_stay_within_limit(s: LedgerView, ops: Seq<Operation>, borrower: Seq<u8>)
    requires
        s.keyed(),
        forall|i: int| 0 <= i < ops.len() ==> moves_funds(#[trigger] ops[i]) && ops[i].admissible(),
        s.line(borrower) is Some,
        s.line(borrower)->Some_0.within_limit(),
    ensures
        run(s, ops).line(borrower) is Some,
        run(s, ops).line(borrower)->Some_0.within_limit(),
    decreases ops.len(),
{
    if ops.len() > 0 {
        let front = ops.drop_last();
        assert forall|i: int| 0 <= i < front.len() implies moves_funds(#[trigger] front[i])
            && front[i].admissible() by {
            assert(front[i] == ops[i]);
        }
        movements_stay_within_limit(s, front, borrower);
        run_keeps_records_keyed(s, front);
        movement_stays_within_limit(run(s, front), ops.last(), borrower);
    }
}

/// A line opened with a limit that is not negative starts within it.
pub proof fn opened_line_is_within_limit(
    borrower: Seq<u8>,
    credit_limit: i128,
    interest_rate_bps: u32,
    risk_score: u32,
)
    requires
        credit_limit >= 0,
    ensures
        opened_line(borrower, credit_limit, interest_rate_bps, risk_score).within_limit(),
{
}

/// The call sets the status of a record and nothing else of it.
pub open spec fn status_call(op: Operation) -> bool {
    op is Suspend || op is Close || op is MarkDefaulted
}

/// The status that a status call writes.
pub open spec fn written_status(op: Operation) -> CreditStatus {
    match op {
        Operation::Suspend { .. } => CreditStatus::Suspended,
        Operation::Close { .. } => CreditStatus::Closed,
        _ => CreditStatus::Defaulted,
    }
}

/// Suspending, closing and marking as defaulted fail with `NotFound` for a
/// borrower without a record, whoever asks, and change nothing.
pub proof fn status_call_without_record(s: LedgerView, op: Operation)
    requires
        status_call(op),
        s.line(op.target()->Some_0) is None,
    ensures
        s.reply(op) == Err::<(), CreditError>(CreditError::NotFound),
        s.step(op) == s,
{
}

/// Asked by the administrator for a borrower with a record, suspending,
/// closing and marking as defaulted succeed: the record gets the status of
/// the call and keeps everything else, and a second such call leaves the
/// same record.
pub proof fn status_call_by_admin(s: LedgerView, op: Operation, caller: Seq<u8>, borrower: Seq<u8>)
    requires
        s.keyed(),
        op == (Operation::Suspend { caller, borrower }) || op == (Operation::Close {
            caller,
            borrower,
        }) || op == (Operation::MarkDefaulted { caller, borrower }),
        s.admin == Some(caller),
        s.line(borrower) is Some,
    ensures
        s.reply(op) is Ok,
        s.step(op).line(borrower) == Some(
            (CreditLineView { status: written_status(op), ..s.line(borrower)->Some_0 }),
        ),
        s.step(op).reply(op) is Ok,
        s.step(op).step(op).line(borrower) == s.step(op).line(borrower),
{
}

/// A borrower may close the own line exactly when nothing is owed on it,
/// unless the borrower is the administrator too.
pub proof fn close_by_borrower(s: LedgerView, borrower: Seq<u8>)
    requires
        s.keyed(),
        s.line(borrower) is Some,
        s.admin != Some(borrower),
    ensures
        s.reply((Operation::Close { caller: borrower, borrower })) is Ok <==> s.line(
            borrower,
        )->Some_0.utilized_amount == 0,
{
}

/// New risk parameters asked for by anyone but the administrator on file
/// are refused with `Authorization`, and the ledger stays as it was.
pub proof fn update_by_other_than_admin(
    s: LedgerView,
    caller: Seq<u8>,
    borrower: Seq<u8>,
    credit_limit: i128,
    interest_rate_bps: u32,
    risk_score: u32,
)
    requires
        s.line(borrower) is Some,
        s.admin is Some,
        s.admin != Some(caller),
    ensures
        s.reply(
            (Operation::Update { caller, borrower, credit_limit, interest_rate_bps, risk_score }),
        ) == Err::<(), CreditError>(CreditError::Authorization),
        s.step(
            (Operation::Update { caller, borrower, credit_limit, interest_rate_bps, risk_score }),
        ) == s,
{
}

/// New risk parameters from the administrator replace limit, rate and score
/// and keep the borrower, the amount owed and the status.
pub proof fn update_by_admin(
    s: LedgerView,
    caller: Seq<u8>,
    borrower: Seq<u8>,
    credit_limit: i128,
    interest_rate_bps: u32,
    risk_score: u32,
)
    requires
        s.keyed(),
        s.line(borrower) is Some,
        s.admin == Some(caller),
    ensures
        s.reply(
            (Operation::Update { caller, borrower, credit_limit, interest_rate_bps, risk_score }),
        ) is Ok,
        s.step(
            (Operation::Update { caller, borrower, credit_limit, interest_rate_bps, risk_score }),
        ).line(borrower) == Some(
            (CreditLineView {
                credit_limit,
                interest_rate_bps,
                risk_score,
                ..s.line(borrower)->Some_0
            }),
        ),
{
}

/// In the intended lifecycle a closed line goes nowhere, no status leads to
/// itself, and every other status can still be closed.
pub proof fn closed_is_terminal(from: CreditStatus, next: CreditStatus)
    ensures
        !CreditStatus::Closed.may_become(next),
        !from.may_become(from),
        from != CreditStatus::Closed ==> from.may_become(CreditStatus::Closed),
{
}

/// The administrator is set once: no call changes one that is on file.
pub proof fn admin_is_set_once(s: LedgerView, op: Operation)
    requires
        s.admin is Some,
    ensures
        s.step(op).admin == s.admin,
{
}

/// The event log only grows, and the time never goes back.
pub proof fn log_grows_and_time_advances(s: LedgerView, op: Operation)
    ensures
        s.events.is_prefix_of(s.step(op).events),
        s.step(op).timestamp >= s.timestamp,
{
}

} // verus!
