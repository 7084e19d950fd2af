//! The headers-and-messages relay between the Pangolin and Pangoro chains.
//!
//! Starting the relay connects to both chains, may check and create the
//! relayers fund accounts, runs one message relay per lane and direction
//! and exposes metrics; all of that is work on the network. The decisions
//! between those steps are a session that hands out the next step and takes
//! its answer.
use vstd::prelude::*;
use crate::error::{BridgerError, BridgerErrorView};

verus! {

/// The two chains of the bridge.
#[derive(Clone, Copy, Debug, PartialEq, Eq)]
pub enum BridgeChain {
    Pangolin,
    Pangoro,
}

/// The direction messages are relayed in.
#[derive(Clone, Copy, Debug, PartialEq, Eq)]
pub enum RelayDirection {
    PangolinToPangoro,
    PangoroToPangolin,
}

/// One message relay: a lane and a direction.
#[derive(Clone, Copy, Debug)]
pub struct MessageRelay {
    pub lane: [u8; 4],
    pub direction: RelayDirection,
}

/// Who plays which part in a message relay.
#[derive(Clone, Copy, Debug, PartialEq, Eq)]
pub struct RelayRoles {
    /// The chain the messages come from; its client and signer are the
    /// relay's source client and signer.
    pub source: BridgeChain,
    /// The chain the messages go to; its client and signer are the relay's
    /// target client and signer.
    pub target: BridgeChain,
    /// The on-demand header relay that carries headers from source to target.
    pub source_to_target_headers: RelayDirection,
    /// The on-demand header relay that carries headers from target to source.
    pub target_to_source_headers: RelayDirection,
    /// The chain whose client, and whose signer's account, the relay
    /// strategy uses.
    pub strategy: BridgeChain,
}

/// The roles in a message relay in `direction`: the source and target are
/// the direction's ends, the header relays run with the messages and back,
/// and the relay strategy belongs to the source chain.
pub open spec fn relay_roles_of(direction: RelayDirection) -> RelayRoles {
    match direction {
        RelayDirection::PangolinToPangoro => RelayRoles {
            source: BridgeChain::Pangolin,
            target: BridgeChain::Pangoro,
            source_to_target_headers: RelayDirection::PangolinToPangoro,
            target_to_source_headers: RelayDirection::PangoroToPangolin,
            strategy: BridgeChain::Pangolin,
        },
        RelayDirection::PangoroToPangolin => RelayRoles {
            source: BridgeChain::Pangoro,
            target: BridgeChain::Pangolin,
            source_to_target_headers: RelayDirection::PangoroToPangolin,
            target_to_source_headers: RelayDirection::PangolinToPangoro,
            strategy: BridgeChain::Pangoro,
        },
    }
}

/// The roles in a message relay in `direction`.
pub fn relay_roles(direction: RelayDirection) -> (res: RelayRoles)
    ensures
        res == relay_roles_of(direction),
{
    match direction {
        RelayDirection::PangolinToPangoro => RelayRoles {
            source: BridgeChain::Pangolin,
            target: BridgeChain::Pangoro,
            source_to_target_headers: RelayDirection::PangolinToPangoro,
            target_to_source_headers: RelayDirection::PangoroToPangolin,
            strategy: BridgeChain::Pangolin,
        },
        RelayDirection::PangoroToPangolin => RelayRoles {
            source: BridgeChain::Pangoro,
            target: BridgeChain::Pangolin,
            source_to_target_headers: RelayDirection::PangoroToPangolin,
            target_to_source_headers: RelayDirection::PangolinToPangoro,
            strategy: BridgeChain::Pangoro,
        },
    }
}

/// The message relays for the lanes: for each lane in order, first from
/// Pangolin to Pangoro, then back.
pub open spec fn message_relay_plan(lanes: Seq<[u8; 4]>) -> Seq<MessageRelay>
    decreases lanes.len(),
{
    if lanes.len() == 0 {
        Seq::empty()
    } else {
        message_relay_plan(lanes.drop_last()) + seq![
            MessageRelay { lane: lanes.last(), direction: RelayDirection::PangolinToPangoro },
            MessageRelay { lane: lanes.last(), direction: RelayDirection::PangoroToPangolin },
        ]
    }
}

/// The message relays for the lanes, both directions of each lane.
pub fn plan_message_relays(lanes: &Vec<[u8; 4]>) -> (res: Vec<MessageRelay>)
    ensures
        res@ == message_relay_plan(lanes@),
{
    let mut relays: Vec<MessageRelay> = Vec::new();
    let mut i: usize = 0;
    while i < lanes.len()
        invariant
            0 <= i <= lanes.len(),
            relays@ == message_relay_plan(lanes@.take(i as int)),
        decreases lanes.len() - i,
    {
        let lane = lanes[i];
        relays.push(MessageRelay { lane, direction: RelayDirection::PangolinToPangoro });
        relays.push(MessageRelay { lane, direction: RelayDirection::PangoroToPangolin });
        assert(lanes@.take(i as int + 1).drop_last() =~= lanes@.take(i as int));
        assert(relays@ =~= message_relay_plan(lanes@.take(i as int + 1)));
        i = i + 1;
    }
    assert(lanes@.take(i as int) =~= lanes@);
    relays
}

/// The message of the error for a fund account that cannot be created.
pub open spec fn account_creation_unsupported() -> BridgerErrorView {
    BridgerErrorView::Custom("Account creation is not supported by this bridge"@)
}

/// Creates the relayers fund account on Pangolin: this bridge does not
/// support it, and always fails.
pub fn create_pangolin_account(account_id: &[u8; 32]) -> (res: Result<(), BridgerError>)
    ensures
        res matches Err(e) && e@ == account_creation_unsupported(),
{
    Err(BridgerError::Custom(String::from_str("Account creation is not supported by this bridge")))
}

/// Creates the relayers fund account on Pangoro: this bridge does not
/// support it, and always fails.
pub fn create_pangoro_account(account_id: &[u8; 32]) -> (res: Result<(), BridgerError>)
    ensures
        res matches Err(e) && e@ == account_creation_unsupported(),
{
    Err(BridgerError::Custom(String::from_str("Account creation is not supported by this bridge")))
}

/// The result of the relay service's task, given whether starting the
/// relay succeeded.
pub fn relay_service_outcome(start_succeeded: bool) -> (res: Result<(), BridgerError>)
    ensures
        start_succeeded ==> res is Ok,
        !start_succeeded ==> (res matches Err(e) && e@ == BridgerErrorView::Custom("Failed to start relay service"@)),
{
    if start_succeeded {
        Ok(())
    } else {
        Err(BridgerError::Custom(String::from_str("Failed to start relay service")))
    }
}

/// The error for a relay thread that could not be joined.
pub fn thread_join_failure() -> (res: BridgerError)
    ensures
        res@ == BridgerErrorView::Custom("Failed to join thread handle"@),
{
    BridgerError::Custom(String::from_str("Failed to join thread handle"))
}

/// Where a relay session stands.
#[derive(Clone, Copy, Debug, PartialEq, Eq)]
pub enum RelayStage {
    /// Connecting to both chains and loading the signers.
    Prepare,
    /// Checking the relayers fund account on a chain.
    CheckFundAccount(BridgeChain),
    /// Setting up the message relays.
    BuildRelays,
    /// Exposing the metrics.
    ExposeMetrics,
    /// Running the message relays until the first one ends.
    RunRelays,
    /// Over.
    Finished,
}

/// How a relay session ended.
pub enum RelayOutcome {
    /// The relays ran and the first to end succeeded.
    Completed,
    /// A step failed; its own error is the session's error.
    Propagate,
    /// The session failed with this error.
    Failed(BridgerError),
}

/// The contents of a `RelayOutcome`.
pub enum RelayOutcomeView {
    Completed,
    Propagate,
    Failed(BridgerErrorView),
}

/// The step a relay session asks for next.
pub enum RelayAction {
    /// Connect to both chains, load the signers, the transaction
    /// mortalities and the metrics parameters.
    PrepareClients,
    /// Query the balance of the relayers fund account on the chain.
    QueryFundAccount(BridgeChain),
    /// Set up the header relays and these message relays.
    BuildMessageRelays(Vec<MessageRelay>),
    /// Expose the metrics.
    ExposeMetrics,
    /// Run the message relays until the first one ends.
    RunMessageRelays,
    /// The session is over.
    Done(RelayOutcome),
}

/// The contents of a `RelayAction`.
pub enum RelayActionView {
    PrepareClients,
    QueryFundAccount(BridgeChain),
    BuildMessageRelays(Seq<MessageRelay>),
    ExposeMetrics,
    RunMessageRelays,
    Done(RelayOutcomeView),
}

impl View for RelayAction {
    type V = RelayActionView;

    open spec fn view(&self) -> RelayActionView {
        match self {
            RelayAction::PrepareClients => RelayActionView::PrepareClients,
            RelayAction::QueryFundAccount(c) => RelayActionView::QueryFundAccount(*c),
            RelayAction::BuildMessageRelays(r) => RelayActionView::BuildMessageRelays(r@),
            RelayAction::ExposeMetrics => RelayActionView::ExposeMetrics,
            RelayAction::RunMessageRelays => RelayActionView::RunMessageRelays,
            RelayAction::Done(o) => RelayActionView::Done(
                match o {
                    RelayOutcome::Completed => RelayOutcomeView::Completed,
                    RelayOutcome::Propagate => RelayOutcomeView::Propagate,
                    RelayOutcome::Failed(e) => RelayOutcomeView::Failed(e@),
                },
            ),
        }
    }
}

/// Setting up the relays, for these lanes.
pub open spec fn build_step(lanes: Seq<[u8; 4]>) -> (RelayStage, RelayActionView) {
    (RelayStage::BuildRelays, RelayActionView::BuildMessageRelays(message_relay_plan(lanes)))
}

/// Connecting ended: on failure the session ends with that failure; else
/// the fund accounts are checked first if asked for, Pangolin's first.
pub open spec fn after_prepared(create_fund_accounts: bool, lanes: Seq<[u8; 4]>, succeeded: bool) -> (RelayStage, RelayActionView) {
    if !succeeded {
        (RelayStage::Finished, RelayActionView::Done(RelayOutcomeView::Propagate))
    } else if create_fund_accounts {
        (
            RelayStage::CheckFundAccount(BridgeChain::Pangolin),
            RelayActionView::QueryFundAccount(BridgeChain::Pangolin),
        )
    } else {
        build_step(lanes)
    }
}

/// The balance of a fund account was queried: a chain that reports the
/// account as missing gets it created, which fails; otherwise (any other
/// answer, an error included) the session moves on.
pub open spec fn after_fund_account(stage: RelayStage, lanes: Seq<[u8; 4]>, missing: bool) -> (RelayStage, RelayActionView) {
    if missing {
        (RelayStage::Finished, RelayActionView::Done(RelayOutcomeView::Failed(account_creation_unsupported())))
    } else if stage == RelayStage::CheckFundAccount(BridgeChain::Pangolin) {
        (
            RelayStage::CheckFundAccount(BridgeChain::Pangoro),
            RelayActionView::QueryFundAccount(BridgeChain::Pangoro),
        )
    } else {
        build_step(lanes)
    }
}

/// Exposing the metrics ended; `failure` is the rendering of its error.
pub open spec fn after_metrics_exposed(failure: Option<Seq<char>>) -> (RelayStage, RelayActionView) {
    match failure {
        Some(text) => (RelayStage::Finished, RelayActionView::Done(RelayOutcomeView::Failed(BridgerErrorView::Custom(text)))),
        None => (RelayStage::RunRelays, RelayActionView::RunMessageRelays),
    }
}

/// The first message relay ended.
pub open spec fn after_relays_finished(succeeded: bool) -> (RelayStage, RelayActionView) {
    if succeeded {
        (RelayStage::Finished, RelayActionView::Done(RelayOutcomeView::Completed))
    } else {
        (
            RelayStage::Finished,
            RelayActionView::Done(RelayOutcomeView::Failed(BridgerErrorView::Custom("Failed to start relay"@))),
        )
    }
}

/// A run of the headers-and-messages relay.
pub struct RelaySession {
    lanes: Vec<[u8; 4]>,
    create_fund_accounts: bool,
    stage: RelayStage,
}

impl RelaySession {
    /// The lanes to relay.
    pub closed spec fn lanes_view(&self) -> Seq<[u8; 4]> {
        self.lanes@
    }

    /// Whether the relayers fund accounts are to be created.
    pub closed spec fn creates_fund_accounts(&self) -> bool {
        self.create_fund_accounts
    }

    /// Where the session stands.
    pub closed spec fn stage_view(&self) -> RelayStage {
        self.stage
    }

    /// Starts a relay of `lanes`; the first step connects to the chains.
    pub fn start(lanes: Vec<[u8; 4]>, create_fund_accounts: bool) -> (res: (RelaySession, RelayAction))
        ensures
            res.0.lanes_view() == lanes@,
            res.0.creates_fund_accounts() == create_fund_accounts,
            res.0.stage_view() == RelayStage::Prepare,
            res.1@ == RelayActionView::PrepareClients,
    {
        (RelaySession { lanes, create_fund_accounts, stage: RelayStage::Prepare }, RelayAction::PrepareClients)
    }

    /// Where the session stands.
    pub fn stage(&self) -> (res: RelayStage)
        ensures
            res == self.stage_view(),
    {
        self.stage
    }

    fn build(&mut self) -> (res: RelayAction)
        ensures
            final(self).lanes_view() == old(self).lanes_view(),
            final(self).creates_fund_accounts() == old(self).creates_fund_accounts(),
            (final(self).stage_view(), res@) == build_step(old(self).lanes_view()),
    {
        self.stage = RelayStage::BuildRelays;
        RelayAction::BuildMessageRelays(plan_message_relays(&self.lanes))
    }

    /// Connecting to the chains ended.
    pub fn on_prepared(&mut self, succeeded: bool) -> (res: RelayAction)
        requires
            old(self).stage_view() == RelayStage::Prepare,
        ensures
            final(self).lanes_view() == old(self).lanes_view(),
            final(self).creates_fund_accounts() == old(self).creates_fund_accounts(),
            (final(self).stage_view(), res@) == after_prepared(
                old(self).creates_fund_accounts(),
                old(self).lanes_view(),
                succeeded,
            ),
    {
        if !succeeded {
            self.stage = RelayStage::Finished;
            RelayAction::Done(RelayOutcome::Propagate)
        } else if self.create_fund_accounts {
            self.stage = RelayStage::CheckFundAccount(BridgeChain::Pangolin);
            RelayAction::QueryFundAccount(BridgeChain::Pangolin)
        } else {
            self.build()
        }
    }

    /// The balance of the fund account `account_id` on the chain being
    /// checked was queried; `missing` tells whether the chain answered that
    /// the account does not exist.
    pub fn on_fund_account(&mut self, account_id: &[u8; 32], missing: bool) -> (res: RelayAction)
        requires
            old(self).stage_view() is CheckFundAccount,
        ensures
            final(self).lanes_view() == old(self).lanes_view(),
            final(self).creates_fund_accounts() == old(self).creates_fund_accounts(),
            (final(self).stage_view(), res@) == after_fund_account(old(self).stage_view(), old(self).lanes_view(), missing),
    {
        let chain = match self.stage {
            RelayStage::CheckFundAccount(c) => c,
            _ => BridgeChain::Pangoro,
        };
        if missing {
            let created = match chain {
                BridgeChain::Pangolin => create_pangolin_account(account_id),
                BridgeChain::Pangoro => create_pangoro_account(account_id),
            };
            match created {
                Err(e) => {
                    self.stage = RelayStage::Finished;
                    return RelayAction::Done(RelayOutcome::Failed(e));
                },
                Ok(()) => {},
            }
        }
        match chain {
            BridgeChain::Pangolin => {
                self.stage = RelayStage::CheckFundAccount(BridgeChain::Pangoro);
                RelayAction::QueryFundAccount(BridgeChain::Pangoro)
            },
            BridgeChain::Pangoro => self.build(),
        }
    }

    /// The header and message relays are set up.
    pub fn on_relays_built(&mut self) -> (res: RelayAction)
        requires
            old(self).stage_view() == RelayStage::BuildRelays,
        ensures
            final(self).lanes_view() == old(self).lanes_view(),
            final(self).creates_fund_accounts() == old(self).creates_fund_accounts(),
            final(self).stage_view() == RelayStage::ExposeMetrics,
            res@ == RelayActionView::ExposeMetrics,
    {
        self.stage = RelayStage::ExposeMetrics;
        RelayAction::ExposeMetrics
    }

    /// Exposing the metrics ended; `failure` is the rendering of its error.
    pub fn on_metrics_exposed(&mut self, failure: Option<String>) -> (res: RelayAction)
        requires
            old(self).stage_view() == RelayStage::ExposeMetrics,
        ensures
            final(self).lanes_view() == old(self).lanes_view(),
            final(self).creates_fund_accounts() == old(self).creates_fund_accounts(),
            (final(self).stage_view(), res@) == after_metrics_exposed(
                match failure {
                    Some(t) => Some(t@),
                    None => None,
                },
            ),
    {
        match failure {
            Some(text) => {
                self.stage = RelayStage::Finished;
                RelayAction::Done(RelayOutcome::Failed(BridgerError::Custom(text)))
            },
            None => {
                self.stage = RelayStage::RunRelays;
                RelayAction::RunMessageRelays
            },
        }
    }

    /// The first of the message relays ended.
    pub fn on_relays_finished(&mut self, succeeded: bool) -> (res: RelayAction)
        requires
            old(self).stage_view() == RelayStage::RunRelays,
        ensures
            final(self).lanes_view() == old(self).lanes_view(),
            final(self).creates_fund_accounts() == old(self).creates_fund_accounts(),
            (final(self).stage_view(), res@) == after_relays_finished(succeeded),
    {
        self.stage = RelayStage::Finished;
        if succeeded {
            RelayAction::Done(RelayOutcome::Completed)
        } else {
            RelayAction::Done(RelayOutcome::Failed(BridgerError::Custom(String::from_str("Failed to start relay"))))
        }
    }
}

/// Both directions of every lane are relayed, one relay each, lane by lane:
/// the plan has two relays per lane, the relay from Pangolin to Pangoro
/// first.
pub proof fn law_relay_plan_covers_every_lane_both_ways(lanes: Seq<[u8; 4]>)
    ensures
        message_relay_plan(lanes).len() == 2 * lanes.len(),
        forall|i: int| 0 <= i < lanes.len() ==> {
            &&& (#[trigger] message_relay_plan(lanes)[2 * i]).lane == lanes[i]
            &&& message_relay_plan(lanes)[2 * i].direction == RelayDirection::PangolinToPangoro
            &&& message_relay_plan(lanes)[2 * i + 1].lane == lanes[i]
            &&& message_relay_plan(lanes)[2 * i + 1].direction == RelayDirection::PangoroToPangolin
        },
    decreases lanes.len(),
{
    if lanes.len() > 0 {
        let rest = lanes.drop_last();
        law_relay_plan_covers_every_lane_both_ways(rest);
        let plan = message_relay_plan(lanes);
        let rest_plan = message_relay_plan(rest);
        assert forall|i: int| 0 <= i < lanes.len() implies {
            &&& (#[trigger] plan[2 * i]).lane == lanes[i]
            &&& plan[2 * i].direction == RelayDirection::PangolinToPangoro
            &&& plan[2 * i + 1].lane == lanes[i]
            &&& plan[2 * i + 1].direction == RelayDirection::PangoroToPangolin
        } by {
            if i < lanes.len() - 1 {
                assert(rest[i] == lanes[i]);
                assert(plan[2 * i] == rest_plan[2 * i]);
                assert(plan[2 * i + 1] == rest_plan[2 * i + 1]);
            }
        }
    }
}

/// A relayers fund account that a chain reports missing cannot be created
/// by this bridge: the session then ends with that error and starts no
/// relay.
pub proof fn law_missing_fund_account_stops_relay(stage: RelayStage, lanes: Seq<[u8; 4]>)
    requires
        stage is CheckFundAccount,
    ensures
        after_fund_account(stage, lanes, true) == (
            RelayStage::Finished,
            RelayActionView::Done(RelayOutcomeView::Failed(account_creation_unsupported())),
        ),
{
}

/// How far a session is from its end.
pub open spec fn relay_measure(stage: RelayStage) -> nat {
    match stage {
        RelayStage::Prepare => 5,
        RelayStage::CheckFundAccount(BridgeChain::Pangolin) => 4,
        RelayStage::CheckFundAccount(BridgeChain::Pangoro) => 3,
        RelayStage::BuildRelays => 2,
        RelayStage::ExposeMetrics => 1,
        RelayStage::RunRelays => 0,
        RelayStage::Finished => 0,
    }
}

/// A relay session always ends: every answer either ends it or moves it
/// strictly forward, and the fund accounts are only checked when asked for.
pub proof fn law_relay_session_always_ends(
    stage: RelayStage,
    create_fund_accounts: bool,
    lanes: Seq<[u8; 4]>,
    answer: bool,
    failure: Option<Seq<char>>,
)
    ensures
        ({
            let (t, a) = after_prepared(create_fund_accounts, lanes, answer);
            &&& (t == RelayStage::Finished || relay_measure(t) < relay_measure(RelayStage::Prepare))
            &&& (t is CheckFundAccount ==> create_fund_accounts)
        }),
        stage is CheckFundAccount ==> {
            let (t, a) = after_fund_account(stage, lanes, answer);
            t == RelayStage::Finished || relay_measure(t) < relay_measure(stage)
        },
        after_metrics_exposed(failure).0 == RelayStage::Finished || relay_measure(after_metrics_exposed(failure).0)
            < relay_measure(RelayStage::ExposeMetrics),
        after_relays_finished(answer).0 == RelayStage::Finished,
{
}

/// The two directions of a lane are mirror images: the source and target
/// swap, and so do the header relays; a relay never has one chain at both
/// ends, its headers go the way its messages go, and its strategy is the
/// source chain's.
pub proof fn law_relay_roles_are_mirrored()
    ensures
        forall|d: RelayDirection| {
            let r = #[trigger] relay_roles_of(d);
            &&& r.source != r.target
            &&& r.source_to_target_headers == d
            &&& r.target_to_source_headers != d
            &&& r.strategy == r.source
        },
        relay_roles_of(RelayDirection::PangoroToPangolin).source == relay_roles_of(RelayDirection::PangolinToPangoro).target,
        relay_roles_of(RelayDirection::PangoroToPangolin).target == relay_roles_of(RelayDirection::PangolinToPangoro).source,
        relay_roles_of(RelayDirection::PangoroToPangolin).source_to_target_headers == relay_roles_of(
            RelayDirection::PangolinToPangoro,
        ).target_to_source_headers,
{
}


/// A session whose connecting fails ends at once with that failure, whether
/// or not the fund accounts were to be created; a session that connects
/// checks Pangolin's fund account first exactly when asked to, and
/// otherwise goes straight to setting up the relays.
pub proof fn law_failed_connection_ends_session(create_fund_accounts: bool, lanes: Seq<[u8; 4]>)
    ensures
        after_prepared(create_fund_accounts, lanes, false) == (
            RelayStage::Finished,
            RelayActionView::Done(RelayOutcomeView::Propagate),
        ),
        create_fund_accounts ==> after_prepared(create_fund_accounts, lanes, true) == (
            RelayStage::CheckFundAccount(BridgeChain::Pangolin),
            RelayActionView::QueryFundAccount(BridgeChain::Pangolin),
        ),
        !create_fund_accounts ==> after_prepared(create_fund_accounts, lanes, true).0 == RelayStage::BuildRelays,
{
}

} // verus!
