use bridger::error::BridgerError;
use bridger::relay::{
    create_pangolin_account, create_pangoro_account, plan_message_relays, relay_service_outcome, thread_join_failure, relay_roles, BridgeChain,
    RelayAction, RelayDirection, RelayOutcome, RelaySession, RelayStage,
};

#[test]
fn plan_has_both_directions_per_lane() {
    let plan = plan_message_relays(&vec![[0, 0, 0, 0], [1, 2, 3, 4]]);
    assert_eq!(plan.len(), 4);
    assert_eq!(plan[0].lane, [0, 0, 0, 0]);
    assert_eq!(plan[0].direction, RelayDirection::PangolinToPangoro);
    assert_eq!(plan[1].lane, [0, 0, 0, 0]);
    assert_eq!(plan[1].direction, RelayDirection::PangoroToPangolin);
    assert_eq!(plan[3].lane, [1, 2, 3, 4]);
    assert_eq!(plan[3].direction, RelayDirection::PangoroToPangolin);
}

#[test]
fn account_creation_is_unsupported() {
    let msg = "Account creation is not supported by this bridge".to_string();
    assert_eq!(create_pangolin_account(&[0; 32]), Err(BridgerError::Custom(msg.clone())));
    assert_eq!(create_pangoro_account(&[0; 32]), Err(BridgerError::Custom(msg)));
}

#[test]
fn service_outcome() {
    assert_eq!(relay_service_outcome(true), Ok(()));
    assert_eq!(
        relay_service_outcome(false),
        Err(BridgerError::Custom("Failed to start relay service".to_string()))
    );
}

#[test]
fn relay_without_fund_accounts() {
    let (mut s, a) = RelaySession::start(vec![[0, 0, 0, 1]], false);
    assert!(matches!(a, RelayAction::PrepareClients));
    match s.on_prepared(true) {
        RelayAction::BuildMessageRelays(plan) => assert_eq!(plan.len(), 2),
        _ => panic!(),
    }
    assert!(matches!(s.on_relays_built(), RelayAction::ExposeMetrics));
    assert!(matches!(s.on_metrics_exposed(None), RelayAction::RunMessageRelays));
    assert!(matches!(s.on_relays_finished(true), RelayAction::Done(RelayOutcome::Completed)));
    assert_eq!(s.stage(), RelayStage::Finished);
}

#[test]
fn relay_failures() {
    let (mut s, _) = RelaySession::start(vec![], false);
    assert!(matches!(s.on_prepared(false), RelayAction::Done(RelayOutcome::Propagate)));

    let (mut s, _) = RelaySession::start(vec![], false);
    s.on_prepared(true);
    s.on_relays_built();
    match s.on_metrics_exposed(Some("boom".to_string())) {
        RelayAction::Done(RelayOutcome::Failed(e)) => assert_eq!(e, BridgerError::Custom("boom".to_string())),
        _ => panic!(),
    }

    let (mut s, _) = RelaySession::start(vec![], false);
    s.on_prepared(true);
    s.on_relays_built();
    s.on_metrics_exposed(None);
    match s.on_relays_finished(false) {
        RelayAction::Done(RelayOutcome::Failed(e)) => {
            assert_eq!(e, BridgerError::Custom("Failed to start relay".to_string()))
        },
        _ => panic!(),
    }
}

#[test]
fn fund_accounts_checked_on_both_chains() {
    let (mut s, _) = RelaySession::start(vec![[9, 9, 9, 9]], true);
    assert!(matches!(s.on_prepared(true), RelayAction::QueryFundAccount(BridgeChain::Pangolin)));
    assert!(matches!(s.on_fund_account(&[1; 32], false), RelayAction::QueryFundAccount(BridgeChain::Pangoro)));
    assert!(matches!(s.on_fund_account(&[1; 32], false), RelayAction::BuildMessageRelays(_)));
}

#[test]
fn missing_fund_account_fails() {
    let (mut s, _) = RelaySession::start(vec![[9, 9, 9, 9]], true);
    s.on_prepared(true);
    s.on_fund_account(&[1; 32], false);
    match s.on_fund_account(&[1; 32], true) {
        RelayAction::Done(RelayOutcome::Failed(e)) => assert_eq!(
            e,
            BridgerError::Custom("Account creation is not supported by this bridge".to_string())
        ),
        _ => panic!(),
    }
}

#[test]
fn join_failure_message() {
    assert_eq!(thread_join_failure(), BridgerError::Custom("Failed to join thread handle".to_string()));
}

#[test]
fn roles_of_each_direction() {
    let there = relay_roles(RelayDirection::PangolinToPangoro);
    assert_eq!(there.source, BridgeChain::Pangolin);
    assert_eq!(there.target, BridgeChain::Pangoro);
    assert_eq!(there.source_to_target_headers, RelayDirection::PangolinToPangoro);
    assert_eq!(there.target_to_source_headers, RelayDirection::PangoroToPangolin);
    assert_eq!(there.strategy, BridgeChain::Pangolin);
    let back = relay_roles(RelayDirection::PangoroToPangolin);
    assert_eq!(back.source, BridgeChain::Pangoro);
    assert_eq!(back.target, BridgeChain::Pangolin);
    assert_eq!(back.source_to_target_headers, RelayDirection::PangoroToPangolin);
    assert_eq!(back.target_to_source_headers, RelayDirection::PangolinToPangoro);
    assert_eq!(back.strategy, BridgeChain::Pangoro);
}
