use credit_line::lifecycle;
use credit_line::{
    Credit, CreditDrawEvent, CreditError, CreditLineData, CreditLineEvent, CreditLineStore,
    CreditRepayEvent, CreditStatus, Event, EventType, Identity, Ledger,
};

fn who(name: &str) -> Identity {
    Identity::new(name.as_bytes().to_vec())
}

fn opened(limit: i128) -> (Ledger, Identity, Identity) {
    let admin = who("admin");
    let borrower = who("borrower");
    let mut env = Ledger::new();
    Credit::init(&mut env, admin.clone()).unwrap();
    Credit::open_credit_line(&mut env, &admin, borrower.clone(), limit, 300, 70).unwrap();
    (env, admin, borrower)
}

fn line(utilized: i128, limit: i128, status: CreditStatus) -> CreditLineData {
    CreditLineData {
        borrower: who("borrower"),
        credit_limit: limit,
        utilized_amount: utilized,
        interest_rate_bps: 300,
        risk_score: 70,
        status,
    }
}

#[test]
fn identities_are_compared_by_their_bytes() {
    assert!(who("alice").same(&who("alice")));
    assert!(!who("alice").same(&who("alicf")));
    assert!(!who("alice").same(&who("alic")));
    assert!(!who("").same(&who("a")));
    assert!(who("").same(&who("")));
    let copy = who("alice").clone();
    assert_eq!(copy.bytes, b"alice".to_vec());
}

#[test]
fn event_types_have_their_short_names() {
    assert_eq!(EventType::Opened.name(), "opened");
    assert_eq!(EventType::Suspend.name(), "suspend");
    assert_eq!(EventType::Closed.name(), "closed");
    assert_eq!(EventType::Default.name(), "default");
}

#[test]
fn store_answers_none_then_the_record_put() {
    let mut store = CreditLineStore::new();
    assert_eq!(store.get(&who("borrower")), None);
    store.put(line(0, 10, CreditStatus::Active));
    assert_eq!(store.get(&who("borrower")), Some(line(0, 10, CreditStatus::Active)));
    assert_eq!(store.get(&who("other")), None);
}

#[test]
fn store_put_replaces_the_borrowers_record_only() {
    let mut store = CreditLineStore::new();
    let mut other = line(1, 2, CreditStatus::Suspended);
    other.borrower = who("other");
    store.put(line(0, 10, CreditStatus::Active));
    store.put(other.clone());
    store.put(line(5, 20, CreditStatus::Closed));
    assert_eq!(store.get(&who("borrower")), Some(line(5, 20, CreditStatus::Closed)));
    assert_eq!(store.get(&who("other")), Some(other));
}

#[test]
fn no_record_before_a_line_is_opened() {
    let admin = who("admin");
    let mut env = Ledger::new();
    assert_eq!(Credit::get_credit_line(&env, who("borrower")), None);
    Credit::init(&mut env, admin.clone()).unwrap();
    assert_eq!(Credit::get_credit_line(&env, who("borrower")), None);
    assert_eq!(
        Credit::open_credit_line(&mut env, &who("stranger"), who("borrower"), 10, 1, 1),
        Err(CreditError::Authorization)
    );
    assert_eq!(Credit::get_credit_line(&env, who("borrower")), None);
    Credit::open_credit_line(&mut env, &admin, who("other"), 10, 1, 1).unwrap();
    assert_eq!(Credit::get_credit_line(&env, who("borrower")), None);
    Credit::open_credit_line(&mut env, &admin, who("borrower"), 10, 1, 1).unwrap();
    assert!(Credit::get_credit_line(&env, who("borrower")).is_some());
    Credit::close_credit_line(&mut env, &admin, who("borrower")).unwrap();
    assert!(Credit::get_credit_line(&env, who("borrower")).is_some());
}

#[test]
fn init_twice_is_a_configuration_error() {
    let mut env = Ledger::new();
    assert_eq!(env.admin(), None);
    assert_eq!(Credit::init(&mut env, who("admin")), Ok(()));
    assert_eq!(Credit::init(&mut env, who("usurper")), Err(CreditError::Configuration));
    assert_eq!(env.admin(), Some(who("admin")));
}

#[test]
fn open_before_init_is_a_configuration_error() {
    let mut env = Ledger::new();
    assert_eq!(
        Credit::open_credit_line(&mut env, &who("admin"), who("borrower"), 10, 1, 1),
        Err(CreditError::Configuration)
    );
    assert_eq!(Credit::get_credit_line(&env, who("borrower")), None);
    assert_eq!(env.events().len(), 0);
}

#[test]
fn open_twice_is_refused_and_keeps_the_first_record() {
    let (mut env, admin, borrower) = opened(1000);
    Credit::draw_credit(&mut env, &borrower, borrower.clone(), 10).unwrap();
    let events = env.events().len();
    assert_eq!(
        Credit::open_credit_line(&mut env, &admin, borrower.clone(), 5, 6, 7),
        Err(CreditError::AlreadyExists)
    );
    assert_eq!(Credit::get_credit_line(&env, borrower), Some(line(10, 1000, CreditStatus::Active)));
    assert_eq!(env.events().len(), events);
}

#[test]
fn open_publishes_a_snapshot_of_the_new_line() {
    let (env, _admin, borrower) = opened(1000);
    assert_eq!(
        env.events(),
        &vec![Event::Line(CreditLineEvent {
            event_type: EventType::Opened,
            borrower,
            status: CreditStatus::Active,
            credit_limit: 1000,
            interest_rate_bps: 300,
            risk_score: 70,
        })]
    );
}

#[test]
fn draw_without_a_record_is_not_found_and_changes_nothing() {
    let admin = who("admin");
    let mut env = Ledger::new();
    Credit::init(&mut env, admin).unwrap();
    assert_eq!(
        Credit::draw_credit(&mut env, &who("borrower"), who("borrower"), 10),
        Err(CreditError::NotFound)
    );
    assert_eq!(
        Credit::draw_credit(&mut env, &who("stranger"), who("borrower"), 10),
        Err(CreditError::NotFound)
    );
    assert_eq!(Credit::get_credit_line(&env, who("borrower")), None);
    assert_eq!(env.events().len(), 0);
}

#[test]
fn draw_adds_to_what_is_owed_up_to_the_limit() {
    let (mut env, _admin, borrower) = opened(1000);
    env.advance_to(42);
    assert_eq!(Credit::draw_credit(&mut env, &borrower, borrower.clone(), 400), Ok(()));
    assert_eq!(Credit::get_credit_line(&env, borrower.clone()).unwrap().utilized_amount, 400);
    assert_eq!(
        Credit::draw_credit(&mut env, &borrower, borrower.clone(), 601),
        Err(CreditError::InsufficientLimit)
    );
    assert_eq!(Credit::get_credit_line(&env, borrower.clone()).unwrap().utilized_amount, 400);
    assert_eq!(Credit::draw_credit(&mut env, &borrower, borrower.clone(), 600), Ok(()));
    assert_eq!(
        Credit::get_credit_line(&env, borrower.clone()),
        Some(line(1000, 1000, CreditStatus::Active))
    );
    assert_eq!(
        env.events()[2],
        Event::Draw(CreditDrawEvent {
            borrower: borrower.clone(),
            amount: 600,
            new_utilized: 1000,
            timestamp: 42
        })
    );
    assert_eq!(env.events().len(), 3);
    assert_eq!(
        Credit::draw_credit(&mut env, &borrower, borrower.clone(), 1),
        Err(CreditError::InsufficientLimit)
    );
}

#[test]
fn draw_of_nothing_or_less_is_refused() {
    let (mut env, _admin, borrower) = opened(1000);
    assert_eq!(
        Credit::draw_credit(&mut env, &borrower, borrower.clone(), 0),
        Err(CreditError::InsufficientLimit)
    );
    assert_eq!(
        Credit::draw_credit(&mut env, &borrower, borrower.clone(), -5),
        Err(CreditError::InsufficientLimit)
    );
    assert_eq!(
        Credit::draw_credit(&mut env, &borrower, borrower.clone(), i128::MIN),
        Err(CreditError::InsufficientLimit)
    );
    assert_eq!(Credit::get_credit_line(&env, borrower).unwrap().utilized_amount, 0);
    assert_eq!(env.events().len(), 1);
}

#[test]
fn draw_that_would_overflow_is_refused() {
    let (mut env, _admin, borrower) = opened(i128::MAX);
    Credit::draw_credit(&mut env, &borrower, borrower.clone(), i128::MAX).unwrap();
    assert_eq!(
        Credit::draw_credit(&mut env, &borrower, borrower.clone(), 1),
        Err(CreditError::InsufficientLimit)
    );
    assert_eq!(Credit::get_credit_line(&env, borrower).unwrap().utilized_amount, i128::MAX);
}

#[test]
fn draw_by_another_identity_is_an_authorization_error() {
    let (mut env, admin, borrower) = opened(1000);
    assert_eq!(
        Credit::draw_credit(&mut env, &admin, borrower.clone(), 10),
        Err(CreditError::Authorization)
    );
    assert_eq!(Credit::get_credit_line(&env, borrower).unwrap().utilized_amount, 0);
}

#[test]
fn draw_on_a_line_that_is_not_active_is_refused() {
    let (mut env, admin, borrower) = opened(1000);
    Credit::suspend_credit_line(&mut env, &admin, borrower.clone()).unwrap();
    assert_eq!(
        Credit::draw_credit(&mut env, &borrower, borrower.clone(), 10),
        Err(CreditError::InsufficientLimit)
    );
    assert_eq!(
        Credit::get_credit_line(&env, borrower),
        Some(line(0, 1000, CreditStatus::Suspended))
    );
}

#[test]
fn repay_lowers_what_is_owed_and_stops_at_zero() {
    let (mut env, _admin, borrower) = opened(1000);
    env.advance_to(7);
    Credit::draw_credit(&mut env, &borrower, borrower.clone(), 500).unwrap();
    assert_eq!(Credit::repay_credit(&mut env, &borrower, borrower.clone(), 200), Ok(()));
    assert_eq!(Credit::get_credit_line(&env, borrower.clone()).unwrap().utilized_amount, 300);
    assert_eq!(
        env.events()[2],
        Event::Repay(CreditRepayEvent {
            borrower: borrower.clone(),
            amount: 200,
            new_utilized: 300,
            timestamp: 7
        })
    );
    assert_eq!(Credit::repay_credit(&mut env, &borrower, borrower.clone(), 301), Ok(()));
    assert_eq!(
        Credit::get_credit_line(&env, borrower.clone()),
        Some(line(0, 1000, CreditStatus::Active))
    );
    assert_eq!(Credit::repay_credit(&mut env, &borrower, borrower.clone(), i128::MAX), Ok(()));
    assert_eq!(Credit::get_credit_line(&env, borrower).unwrap().utilized_amount, 0);
}

#[test]
fn repay_errors() {
    let (mut env, admin, borrower) = opened(1000);
    assert_eq!(
        Credit::repay_credit(&mut env, &who("nobody"), who("nobody"), 1),
        Err(CreditError::NotFound)
    );
    assert_eq!(
        Credit::repay_credit(&mut env, &admin, borrower, 1),
        Err(CreditError::Authorization)
    );
    assert_eq!(env.events().len(), 1);
}

#[test]
fn draws_and_repayments_stay_between_zero_and_the_limit() {
    let (mut env, _admin, borrower) = opened(100);
    let amounts: [i128; 8] = [60, 50, 40, 30, 100, 1, 99, 100];
    for (i, amount) in amounts.iter().enumerate() {
        if i % 2 == 0 {
            let _ = Credit::draw_credit(&mut env, &borrower, borrower.clone(), *amount);
        } else {
            let _ = Credit::repay_credit(&mut env, &borrower, borrower.clone(), *amount);
        }
        let now = Credit::get_credit_line(&env, borrower.clone()).unwrap();
        assert!(0 <= now.utilized_amount && now.utilized_amount <= now.credit_limit);
    }
    assert_eq!(Credit::get_credit_line(&env, borrower).unwrap().utilized_amount, 0);
}

#[test]
fn status_calls_keep_the_rest_of_the_record_and_repeat_without_change() {
    let (mut env, admin, borrower) = opened(1000);
    Credit::draw_credit(&mut env, &borrower, borrower.clone(), 10).unwrap();

    Credit::suspend_credit_line(&mut env, &admin, borrower.clone()).unwrap();
    assert_eq!(
        Credit::get_credit_line(&env, borrower.clone()),
        Some(line(10, 1000, CreditStatus::Suspended))
    );
    Credit::suspend_credit_line(&mut env, &admin, borrower.clone()).unwrap();
    assert_eq!(
        Credit::get_credit_line(&env, borrower.clone()),
        Some(line(10, 1000, CreditStatus::Suspended))
    );

    Credit::default_credit_line(&mut env, &admin, borrower.clone()).unwrap();
    assert_eq!(
        Credit::get_credit_line(&env, borrower.clone()),
        Some(line(10, 1000, CreditStatus::Defaulted))
    );

    Credit::close_credit_line(&mut env, &admin, borrower.clone()).unwrap();
    Credit::close_credit_line(&mut env, &admin, borrower.clone()).unwrap();
    assert_eq!(
        Credit::get_credit_line(&env, borrower.clone()),
        Some(line(10, 1000, CreditStatus::Closed))
    );
    assert_eq!(
        env.events()[env.events().len() - 1],
        Event::Line(CreditLineEvent {
            event_type: EventType::Closed,
            borrower,
            status: CreditStatus::Closed,
            credit_limit: 1000,
            interest_rate_bps: 300,
            risk_score: 70,
        })
    );
}

#[test]
fn status_calls_without_a_record_are_not_found() {
    let admin = who("admin");
    let mut env = Ledger::new();
    Credit::init(&mut env, admin.clone()).unwrap();
    assert_eq!(
        Credit::suspend_credit_line(&mut env, &admin, who("borrower")),
        Err(CreditError::NotFound)
    );
    assert_eq!(
        Credit::close_credit_line(&mut env, &who("stranger"), who("borrower")),
        Err(CreditError::NotFound)
    );
    assert_eq!(
        Credit::default_credit_line(&mut env, &admin, who("borrower")),
        Err(CreditError::NotFound)
    );
    assert_eq!(
        Credit::update_risk_parameters(&mut env, &admin, who("borrower"), 1, 2, 3),
        Err(CreditError::NotFound)
    );
    assert_eq!(env.events().len(), 0);
}

#[test]
fn status_calls_by_others_are_authorization_errors() {
    let (mut env, _admin, borrower) = opened(1000);
    assert_eq!(
        Credit::suspend_credit_line(&mut env, &borrower, borrower.clone()),
        Err(CreditError::Authorization)
    );
    assert_eq!(
        Credit::default_credit_line(&mut env, &who("stranger"), borrower.clone()),
        Err(CreditError::Authorization)
    );
    assert_eq!(
        Credit::close_credit_line(&mut env, &who("stranger"), borrower.clone()),
        Err(CreditError::Authorization)
    );
    assert_eq!(Credit::get_credit_line(&env, borrower), Some(line(0, 1000, CreditStatus::Active)));
}

#[test]
fn borrower_may_close_only_when_nothing_is_owed() {
    let (mut env, admin, borrower) = opened(1000);
    Credit::draw_credit(&mut env, &borrower, borrower.clone(), 10).unwrap();
    assert_eq!(
        Credit::close_credit_line(&mut env, &borrower, borrower.clone()),
        Err(CreditError::Authorization)
    );
    assert_eq!(
        Credit::get_credit_line(&env, borrower.clone()).unwrap().status,
        CreditStatus::Active
    );
    Credit::repay_credit(&mut env, &borrower, borrower.clone(), 10).unwrap();
    assert_eq!(Credit::close_credit_line(&mut env, &borrower, borrower.clone()), Ok(()));
    assert_eq!(
        Credit::get_credit_line(&env, borrower.clone()).unwrap().status,
        CreditStatus::Closed
    );

    let second = who("second");
    Credit::open_credit_line(&mut env, &admin, second.clone(), 50, 1, 1).unwrap();
    Credit::draw_credit(&mut env, &second, second.clone(), 50).unwrap();
    assert_eq!(Credit::close_credit_line(&mut env, &admin, second.clone()), Ok(()));
    assert_eq!(Credit::get_credit_line(&env, second).unwrap().status, CreditStatus::Closed);
}

#[test]
fn update_by_another_identity_leaves_the_record() {
    let (mut env, _admin, borrower) = opened(1000);
    assert_eq!(
        Credit::update_risk_parameters(&mut env, &borrower, borrower.clone(), 1, 2, 3),
        Err(CreditError::Authorization)
    );
    assert_eq!(Credit::get_credit_line(&env, borrower), Some(line(0, 1000, CreditStatus::Active)));
    assert_eq!(env.events().len(), 1);
}

#[test]
fn update_keeps_status_and_what_is_owed_and_publishes_nothing() {
    let (mut env, admin, borrower) = opened(1000);
    Credit::draw_credit(&mut env, &borrower, borrower.clone(), 700).unwrap();
    Credit::suspend_credit_line(&mut env, &admin, borrower.clone()).unwrap();
    let events = env.events().len();
    Credit::update_risk_parameters(&mut env, &admin, borrower.clone(), 500, 450, 90).unwrap();
    assert_eq!(
        Credit::get_credit_line(&env, borrower),
        Some(CreditLineData {
            borrower: who("borrower"),
            credit_limit: 500,
            utilized_amount: 700,
            interest_rate_bps: 450,
            risk_score: 90,
            status: CreditStatus::Suspended,
        })
    );
    assert_eq!(env.events().len(), events);
}

#[test]
fn two_borrowers_do_not_touch_each_other() {
    let (mut env, admin, first) = opened(1000);
    let second = who("second");
    Credit::open_credit_line(&mut env, &admin, second.clone(), 2000, 400, 80).unwrap();
    Credit::draw_credit(&mut env, &second, second.clone(), 1500).unwrap();
    Credit::suspend_credit_line(&mut env, &admin, second.clone()).unwrap();
    assert_eq!(Credit::get_credit_line(&env, first), Some(line(0, 1000, CreditStatus::Active)));
    assert_eq!(
        Credit::get_credit_line(&env, second),
        Some(CreditLineData {
            borrower: who("second"),
            credit_limit: 2000,
            utilized_amount: 1500,
            interest_rate_bps: 400,
            risk_score: 80,
            status: CreditStatus::Suspended,
        })
    );
}

#[test]
fn time_only_moves_forward() {
    let mut env = Ledger::new();
    assert_eq!(env.timestamp(), 0);
    env.advance_to(10);
    assert_eq!(env.timestamp(), 10);
    env.advance_to(5);
    assert_eq!(env.timestamp(), 10);
    env.advance_to(u64::MAX);
    assert_eq!(env.timestamp(), u64::MAX);
}

#[test]
fn gate_checks() {
    let admin = Some(who("admin"));
    assert_eq!(lifecycle::require_admin(&admin, &who("admin")), Ok(()));
    assert_eq!(lifecycle::require_admin(&admin, &who("other")), Err(CreditError::Authorization));
    assert_eq!(lifecycle::require_admin(&None, &who("admin")), Err(CreditError::Configuration));
    assert_eq!(lifecycle::require_self(&who("a"), &who("a")), Ok(()));
    assert_eq!(lifecycle::require_self(&who("a"), &who("b")), Err(CreditError::Authorization));
}

#[test]
fn decisions_on_plain_values() {
    let admin = Some(who("admin"));
    let borrower = who("borrower");
    assert_eq!(
        lifecycle::open(&admin, &who("admin"), None, who("borrower"), 9, 8, 7),
        Ok((
            CreditLineData {
                borrower: who("borrower"),
                credit_limit: 9,
                utilized_amount: 0,
                interest_rate_bps: 8,
                risk_score: 7,
                status: CreditStatus::Active,
            },
            Event::Line(CreditLineEvent {
                event_type: EventType::Opened,
                borrower: who("borrower"),
                status: CreditStatus::Active,
                credit_limit: 9,
                interest_rate_bps: 8,
                risk_score: 7,
            })
        ))
    );
    assert_eq!(
        lifecycle::draw(&borrower, Some(line(3, 10, CreditStatus::Active)), &borrower, 7, 5),
        Ok((
            line(10, 10, CreditStatus::Active),
            Event::Draw(CreditDrawEvent {
                borrower: who("borrower"),
                amount: 7,
                new_utilized: 10,
                timestamp: 5
            })
        ))
    );
    assert_eq!(
        lifecycle::draw(&borrower, Some(line(3, 10, CreditStatus::Active)), &borrower, 8, 5),
        Err(CreditError::InsufficientLimit)
    );
    assert_eq!(
        lifecycle::repay(&borrower, Some(line(3, 10, CreditStatus::Defaulted)), &borrower, 2, 5),
        Ok((
            line(1, 10, CreditStatus::Defaulted),
            Event::Repay(CreditRepayEvent {
                borrower: who("borrower"),
                amount: 2,
                new_utilized: 1,
                timestamp: 5
            })
        ))
    );
    assert_eq!(
        lifecycle::update(&admin, &who("admin"), Some(line(3, 10, CreditStatus::Closed)), 1, 2, 3),
        Ok(CreditLineData {
            borrower: who("borrower"),
            credit_limit: 1,
            utilized_amount: 3,
            interest_rate_bps: 2,
            risk_score: 3,
            status: CreditStatus::Closed,
        })
    );
    assert_eq!(
        lifecycle::suspend(&admin, &who("admin"), Some(line(3, 10, CreditStatus::Closed)))
            .map(|(l, _)| l),
        Ok(line(3, 10, CreditStatus::Suspended))
    );
    assert_eq!(
        lifecycle::default(&admin, &who("admin"), Some(line(3, 10, CreditStatus::Active)))
            .map(|(l, _)| l),
        Ok(line(3, 10, CreditStatus::Defaulted))
    );
    assert_eq!(
        lifecycle::close(&None, &borrower, Some(line(0, 10, CreditStatus::Active)), &borrower)
            .map(|(l, _)| l),
        Ok(line(0, 10, CreditStatus::Closed))
    );
    assert_eq!(
        lifecycle::close(&None, &borrower, Some(line(1, 10, CreditStatus::Active)), &borrower),
        Err(CreditError::Configuration)
    );
    assert_eq!(lifecycle::suspend(&admin, &who("admin"), None), Err(CreditError::NotFound));
}

#[test]
fn intended_transitions() {
    let all = [
        CreditStatus::Active,
        CreditStatus::Suspended,
        CreditStatus::Defaulted,
        CreditStatus::Closed,
    ];
    let allowed = [
        [false, true, true, true],
        [true, false, true, true],
        [false, false, false, true],
        [false, false, false, false],
    ];
    for (i, from) in all.iter().enumerate() {
        for (j, next) in all.iter().enumerate() {
            assert_eq!(from.can_become(*next), allowed[i][j], "{:?} -> {:?}", from, next);
        }
    }
}

#[test]
fn administrator_is_decided_once() {
    assert_eq!(lifecycle::init(&None, who("admin")), Ok(who("admin")));
    assert_eq!(
        lifecycle::init(&Some(who("admin")), who("other")),
        Err(CreditError::Configuration)
    );
}
