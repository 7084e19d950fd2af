use bridger::feemarket::{
    max_valid_range_end, DarwiniaRelayStrategy, DecideAction, DecidePhase, FeeMarketOrder, OrderVerdict,
    PriorRelayer, MAX_DECIDE_ATTEMPTS,
};

const LANE: [u8; 4] = *b"dacr";

fn relayer(id: u8, start: u32, end: u32) -> PriorRelayer {
    PriorRelayer { id: [id; 32], valid_range_start: start, valid_range_end: end }
}

#[test]
fn missing_order_is_skipped() {
    let strategy = DarwiniaRelayStrategy::new([1; 32]);
    assert_eq!(strategy.judge_order(&None), OrderVerdict::Skip);
}

#[test]
fn order_without_relayers_is_relayed() {
    let strategy = DarwiniaRelayStrategy::new([1; 32]);
    let order = Some(FeeMarketOrder { relayers: vec![] });
    assert_eq!(strategy.judge_order(&order), OrderVerdict::Relay);
}

#[test]
fn assigned_relayer_relays() {
    let strategy = DarwiniaRelayStrategy::new([2; 32]);
    let order = Some(FeeMarketOrder { relayers: vec![relayer(1, 0, 10), relayer(2, 10, 20)] });
    assert_eq!(strategy.judge_order(&order), OrderVerdict::Relay);
    assert!(strategy.is_assigned_relayer(&order.unwrap().relayers));
}

#[test]
fn unassigned_relayer_waits_for_timeout() {
    let strategy = DarwiniaRelayStrategy::new([9; 32]);
    let order = Some(FeeMarketOrder { relayers: vec![relayer(1, 0, 30), relayer(2, 30, 50), relayer(3, 50, 40)] });
    assert_eq!(strategy.judge_order(&order), OrderVerdict::RelayAfter(50));
}

#[test]
fn accounts_differing_in_last_byte_are_distinct() {
    let mut id = [5u8; 32];
    id[31] = 6;
    let strategy = DarwiniaRelayStrategy::new([5; 32]);
    let relayers = vec![PriorRelayer { id, valid_range_start: 0, valid_range_end: 1 }];
    assert!(!strategy.is_assigned_relayer(&relayers));
    assert_eq!(strategy.account(), [5; 32]);
}

#[test]
fn max_end_of_ranges() {
    assert_eq!(max_valid_range_end(&vec![]), 0);
    assert_eq!(max_valid_range_end(&vec![relayer(1, 0, 7), relayer(2, 0, 3)]), 7);
}

#[test]
fn decision_after_timeout() {
    let strategy = DarwiniaRelayStrategy::new([9; 32]);
    let order = Some(FeeMarketOrder { relayers: vec![relayer(1, 0, 30)] });
    let (mut session, action) = strategy.begin_decision(LANE, 42);
    assert_eq!(action, DecideAction::QueryOrder { lane: LANE, nonce: 42 });
    assert_eq!(session.on_order(&order), DecideAction::QueryBestFinalized);
    assert_eq!(session.on_best_finalized(31), DecideAction::Decided(true));
    assert_eq!(session.phase, DecidePhase::Finished(true));

    let (mut session, _) = strategy.begin_decision(LANE, 42);
    session.on_order(&order);
    assert_eq!(session.on_best_finalized(30), DecideAction::Decided(false));
}

#[test]
fn decision_without_order() {
    let strategy = DarwiniaRelayStrategy::new([9; 32]);
    let (mut session, _) = strategy.begin_decision(LANE, 42);
    assert_eq!(session.on_order(&None), DecideAction::Decided(false));
}

#[test]
fn decision_gives_up_after_five_attempts() {
    let strategy = DarwiniaRelayStrategy::new([9; 32]);
    let (mut session, _) = strategy.begin_decision(LANE, 42);
    let mut queries = 1;
    loop {
        match session.on_query_failed(false) {
            DecideAction::QueryOrder { lane, nonce } => {
                assert_eq!((lane, nonce), (LANE, 42));
                queries += 1
            },
            DecideAction::Decided(d) => {
                assert!(!d);
                break;
            },
            other => panic!("unexpected {:?}", other),
        }
    }
    assert_eq!(queries, MAX_DECIDE_ATTEMPTS);
    assert_eq!(session.attempts, 5);
}

#[test]
fn connection_error_reconnects_then_retries() {
    let strategy = DarwiniaRelayStrategy::new([9; 32]);
    let (mut session, _) = strategy.begin_decision(LANE, 42);
    assert_eq!(session.on_query_failed(true), DecideAction::Reconnect);
    assert_eq!(session.phase, DecidePhase::AwaitReconnect);
    assert_eq!(session.on_reconnected(), DecideAction::QueryOrder { lane: LANE, nonce: 42 });
    assert_eq!(session.attempts, 2);
    let order = Some(FeeMarketOrder { relayers: vec![relayer(9, 0, 1)] });
    assert_eq!(session.on_order(&order), DecideAction::Decided(true));
}
