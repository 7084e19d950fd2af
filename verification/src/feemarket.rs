//! The fee-market relay strategy of the Darwinia chain: whether this
//! relayer delivers a message nonce.
//!
//! Deciding takes answers from the chain (the order of the nonce, the best
//! finalized block) and may fail and be retried; the decisions are a
//! session that hands out the next query and takes its answer.
use vstd::prelude::*;

verus! {

/// How many times the strategy tries to reach a decision before it gives up.
pub const MAX_DECIDE_ATTEMPTS: u32 = 5;

/// A relayer assigned to an order, with the range of blocks in which it is
/// expected to deliver (`valid_range_start .. valid_range_end`).
#[derive(Clone, Copy, Debug)]
pub struct PriorRelayer {
    pub id: [u8; 32],
    pub valid_range_start: u32,
    pub valid_range_end: u32,
}

/// The fee-market order of a message nonce: its assigned relayers.
#[derive(Clone, Debug)]
pub struct FeeMarketOrder {
    pub relayers: Vec<PriorRelayer>,
}

/// What the order of a nonce says about relaying it.
#[derive(Clone, Copy, Debug, PartialEq, Eq)]
pub enum OrderVerdict {
    /// Do not relay: there is no order for the nonce.
    Skip,
    /// Relay: nobody is assigned, or this relayer is.
    Relay,
    /// Relay only if the best finalized block is past this block, the
    /// latest end of the relayers' ranges.
    RelayAfter(u32),
}

/// The relayers of an order, if there is one.
pub open spec fn order_view(order: Option<FeeMarketOrder>) -> Option<Seq<PriorRelayer>> {
    match order {
        Some(o) => Some(o.relayers@),
        None => None,
    }
}

/// The latest end of the relayers' ranges, 0 when there are none.
pub open spec fn max_range_end(relayers: Seq<PriorRelayer>) -> u32
    decreases relayers.len(),
{
    if relayers.len() == 0 {
        0
    } else {
        let rest = max_range_end(relayers.drop_last());
        if relayers.last().valid_range_end > rest {
            relayers.last().valid_range_end
        } else {
            rest
        }
    }
}

/// Whether `account` is one of the assigned relayers.
pub open spec fn is_assigned(relayers: Seq<PriorRelayer>, account: Seq<u8>) -> bool {
    exists|i: int| 0 <= i < relayers.len() && (#[trigger] relayers[i]).id@ == account
}

/// What the order says to the relayer `account`.
pub open spec fn order_verdict(account: Seq<u8>, order: Option<Seq<PriorRelayer>>) -> OrderVerdict {
    match order {
        None => OrderVerdict::Skip,
        Some(relayers) => if relayers.len() == 0 || is_assigned(relayers, account) {
            OrderVerdict::Relay
        } else {
            OrderVerdict::RelayAfter(max_range_end(relayers))
        },
    }
}

/// The decision for the order, given the best finalized block (which is
/// only asked for when the verdict depends on it).
pub open spec fn relay_decision(account: Seq<u8>, order: Option<Seq<PriorRelayer>>, best_finalized: u32) -> bool {
    match order_verdict(account, order) {
        OrderVerdict::Skip => false,
        OrderVerdict::Relay => true,
        OrderVerdict::RelayAfter(end) => best_finalized > end,
    }
}

/// Whether two accounts are the same.
fn same_account(a: &[u8; 32], b: &[u8; 32]) -> (res: bool)
    ensures
        res == (a@ == b@),
{
    let mut i: usize = 0;
    while i < 32
        invariant
            0 <= i <= 32,
            a@.len() == 32,
            b@.len() == 32,
            forall|j: int| 0 <= j < i ==> a@[j] == b@[j],
        decreases 32 - i,
    {
        if a[i] != b[i] {
            return false;
        }
        i = i + 1;
    }
    assert(a@ =~= b@);
    true
}

/// The latest end of the relayers' ranges, 0 when there are none.
pub fn max_valid_range_end(relayers: &Vec<PriorRelayer>) -> (res: u32)
    ensures
        res == max_range_end(relayers@),
{
    let mut maximum: u32 = 0;
    let mut i: usize = 0;
    while i < relayers.len()
        invariant
            0 <= i <= relayers.len(),
            maximum == max_range_end(relayers@.take(i as int)),
        decreases relayers.len() - i,
    {
        assert(relayers@.take(i as int + 1).drop_last() =~= relayers@.take(i as int));
        if relayers[i].valid_range_end > maximum {
            maximum = relayers[i].valid_range_end;
        }
        i = i + 1;
    }
    assert(relayers@.take(i as int) =~= relayers@);
    maximum
}

/// The relay strategy of one relayer on the Darwinia fee market.
#[derive(Clone, Debug)]
pub struct DarwiniaRelayStrategy {
    account: [u8; 32],
}

impl DarwiniaRelayStrategy {
    /// The relayer's account.
    pub closed spec fn account_view(&self) -> Seq<u8> {
        self.account@
    }

    /// The strategy of the relayer `account`.
    pub fn new(account: [u8; 32]) -> (res: DarwiniaRelayStrategy)
        ensures
            res.account_view() == account@,
    {
        DarwiniaRelayStrategy { account }
    }

    /// The relayer's account.
    pub fn account(&self) -> (res: [u8; 32])
        ensures
            res@ == self.account_view(),
    {
        self.account
    }

    /// Whether this relayer is one of the assigned relayers.
    pub fn is_assigned_relayer(&self, relayers: &Vec<PriorRelayer>) -> (res: bool)
        ensures
            res == is_assigned(relayers@, self.account_view()),
    {
        assigned_to(&self.account, relayers)
    }

    /// What the order of a nonce says about relaying it.
    pub fn judge_order(&self, order: &Option<FeeMarketOrder>) -> (res: OrderVerdict)
        ensures
            res == order_verdict(self.account_view(), order_view(*order)),
    {
        verdict_for(&self.account, order)
    }

    /// Starts deciding whether to relay the message `nonce` of `lane`: the
    /// session and its first query, the order of that nonce.
    pub fn begin_decision(&self, lane: [u8; 4], nonce: u64) -> (res: (DecideSession, DecideAction))
        ensures
            res.0.account@ == self.account_view(),
            res.0.lane == lane,
            res.0.nonce == nonce,
            res.0.attempts == 1,
            res.0.phase == DecidePhase::AwaitOrder,
            res.1 == (DecideAction::QueryOrder { lane, nonce }),
            res.0.wf(),
    {
        (
            DecideSession { account: self.account, lane, nonce, attempts: 1, phase: DecidePhase::AwaitOrder },
            DecideAction::QueryOrder { lane, nonce },
        )
    }
}

/// Whether `account` is one of the assigned relayers.
fn assigned_to(account: &[u8; 32], relayers: &Vec<PriorRelayer>) -> (res: bool)
    ensures
        res == is_assigned(relayers@, account@),
{
    let mut i: usize = 0;
    while i < relayers.len()
        invariant
            0 <= i <= relayers.len(),
            forall|j: int| 0 <= j < i ==> relayers@[j].id@ != account@,
        decreases relayers.len() - i,
    {
        if same_account(&relayers[i].id, account) {
            assert(relayers@[i as int].id@ == account@);
            return true;
        }
        i = i + 1;
    }
    false
}

/// What the order of a nonce says to the relayer `account`.
fn verdict_for(account: &[u8; 32], order: &Option<FeeMarketOrder>) -> (res: OrderVerdict)
    ensures
        res == order_verdict(account@, order_view(*order)),
{
    match order {
        None => OrderVerdict::Skip,
        Some(o) => {
            if o.relayers.len() == 0 {
                OrderVerdict::Relay
            } else if assigned_to(account, &o.relayers) {
                OrderVerdict::Relay
            } else {
                OrderVerdict::RelayAfter(max_valid_range_end(&o.relayers))
            }
        },
    }
}

/// Where a decision stands.
#[derive(Clone, Copy, Debug, PartialEq, Eq)]
pub enum DecidePhase {
    /// Waiting for the order of the nonce.
    AwaitOrder,
    /// Waiting for the best finalized block, to compare with this block.
    AwaitBestFinalized(u32),
    /// Waiting for the connection to the chain to be made again.
    AwaitReconnect,
    /// Decided.
    Finished(bool),
}

/// What the caller does next for a decision.
#[derive(Clone, Copy, Debug, PartialEq, Eq)]
pub enum DecideAction {
    /// Fetch the fee-market order of message `nonce` of `lane`.
    QueryOrder { lane: [u8; 4], nonce: u64 },
    /// Fetch the number of the best finalized block.
    QueryBestFinalized,
    /// Connect to the chain again.
    Reconnect,
    /// The decision: relay the nonce or not.
    Decided(bool),
}

/// A decision in progress: whose it is, for which message, how many
/// attempts it has begun and what it waits for.
#[derive(Clone, Copy, Debug)]
pub struct DecideSession {
    pub account: [u8; 32],
    pub lane: [u8; 4],
    pub nonce: u64,
    pub attempts: u32,
    pub phase: DecidePhase,
}

impl DecideSession {
    /// At least one and at most `MAX_DECIDE_ATTEMPTS` attempts were begun.
    pub open spec fn wf(&self) -> bool {
        1 <= self.attempts <= MAX_DECIDE_ATTEMPTS
    }

    /// The session in `phase`, with the same account and attempts.
    pub open spec fn with_phase(self, phase: DecidePhase) -> DecideSession {
        DecideSession { account: self.account, lane: self.lane, nonce: self.nonce, attempts: self.attempts, phase }
    }
}

/// The session decided `decision`.
pub open spec fn spec_finish(s: DecideSession, decision: bool) -> (DecideSession, DecideAction) {
    (s.with_phase(DecidePhase::Finished(decision)), DecideAction::Decided(decision))
}

/// The attempt failed: begin another one, or give up and do not relay
/// after `MAX_DECIDE_ATTEMPTS` attempts.
pub open spec fn spec_retry(s: DecideSession) -> (DecideSession, DecideAction) {
    if s.attempts >= MAX_DECIDE_ATTEMPTS {
        spec_finish(s, false)
    } else {
        (
            DecideSession {
                account: s.account,
                lane: s.lane,
                nonce: s.nonce,
                attempts: (s.attempts + 1) as u32,
                phase: DecidePhase::AwaitOrder,
            },
            DecideAction::QueryOrder { lane: s.lane, nonce: s.nonce },
        )
    }
}

/// The order of the nonce arrived.
pub open spec fn spec_on_order(s: DecideSession, order: Option<Seq<PriorRelayer>>) -> (DecideSession, DecideAction) {
    match order_verdict(s.account@, order) {
        OrderVerdict::Skip => spec_finish(s, false),
        OrderVerdict::Relay => spec_finish(s, true),
        OrderVerdict::RelayAfter(end) => (
            s.with_phase(DecidePhase::AwaitBestFinalized(end)),
            DecideAction::QueryBestFinalized,
        ),
    }
}

/// The best finalized block arrived.
pub open spec fn spec_on_best_finalized(s: DecideSession, best_finalized: u32) -> (DecideSession, DecideAction)
    recommends
        s.phase is AwaitBestFinalized,
{
    match s.phase {
        DecidePhase::AwaitBestFinalized(end) => spec_finish(s, best_finalized > end),
        _ => spec_finish(s, false),
    }
}

/// A query to the chain failed; a connection error asks for a reconnect
/// before the next attempt.
pub open spec fn spec_on_query_failed(s: DecideSession, connection_error: bool) -> (DecideSession, DecideAction) {
    if connection_error {
        (s.with_phase(DecidePhase::AwaitReconnect), DecideAction::Reconnect)
    } else {
        spec_retry(s)
    }
}

/// The reconnect ended, whether or not it succeeded.
pub open spec fn spec_on_reconnected(s: DecideSession) -> (DecideSession, DecideAction) {
    spec_retry(s)
}

impl DecideSession {
    fn retry(&mut self) -> (res: DecideAction)
        requires
            old(self).wf(),
        ensures
            (*final(self), res) == spec_retry(*old(self)),
            final(self).wf(),
    {
        if self.attempts >= MAX_DECIDE_ATTEMPTS {
            self.phase = DecidePhase::Finished(false);
            DecideAction::Decided(false)
        } else {
            self.attempts = self.attempts + 1;
            self.phase = DecidePhase::AwaitOrder;
            DecideAction::QueryOrder { lane: self.lane, nonce: self.nonce }
        }
    }

    /// The order of the nonce arrived (`None` when the chain has none).
    pub fn on_order(&mut self, order: &Option<FeeMarketOrder>) -> (res: DecideAction)
        requires
            old(self).wf(),
            old(self).phase == DecidePhase::AwaitOrder,
        ensures
            (*final(self), res) == spec_on_order(*old(self), order_view(*order)),
            final(self).wf(),
    {
        match verdict_for(&self.account, order) {
            OrderVerdict::Skip => {
                self.phase = DecidePhase::Finished(false);
                DecideAction::Decided(false)
            },
            OrderVerdict::Relay => {
                self.phase = DecidePhase::Finished(true);
                DecideAction::Decided(true)
            },
            OrderVerdict::RelayAfter(end) => {
                self.phase = DecidePhase::AwaitBestFinalized(end);
                DecideAction::QueryBestFinalized
            },
        }
    }

    /// The number of the best finalized block arrived.
    pub fn on_best_finalized(&mut self, best_finalized: u32) -> (res: DecideAction)
        requires
            old(self).wf(),
            old(self).phase is AwaitBestFinalized,
        ensures
            (*final(self), res) == spec_on_best_finalized(*old(self), best_finalized),
            final(self).wf(),
    {
        let end = match self.phase {
            DecidePhase::AwaitBestFinalized(end) => end,
            _ => 0,
        };
        let decision = best_finalized > end;
        self.phase = DecidePhase::Finished(decision);
        DecideAction::Decided(decision)
    }

    /// The query for the order or for the best finalized block failed;
    /// `connection_error` tells whether the chain client lost its connection.
    pub fn on_query_failed(&mut self, connection_error: bool) -> (res: DecideAction)
        requires
            old(self).wf(),
            old(self).phase == DecidePhase::AwaitOrder || old(self).phase is AwaitBestFinalized,
        ensures
            (*final(self), res) == spec_on_query_failed(*old(self), connection_error),
            final(self).wf(),
    {
        if connection_error {
            self.phase = DecidePhase::AwaitReconnect;
            DecideAction::Reconnect
        } else {
            self.retry()
        }
    }

    /// The reconnect to the chain ended, successfully or not.
    pub fn on_reconnected(&mut self) -> (res: DecideAction)
        requires
            old(self).wf(),
            old(self).phase == DecidePhase::AwaitReconnect,
        ensures
            (*final(self), res) == spec_on_reconnected(*old(self)),
            final(self).wf(),
    {
        self.retry()
    }
}

/// Every range ends at or before `max_range_end`, which is 0 or the end
/// of one of the ranges.
proof fn lemma_max_range_end(relayers: Seq<PriorRelayer>)
    ensures
        forall|i: int| 0 <= i < relayers.len() ==> (#[trigger] relayers[i]).valid_range_end <= max_range_end(relayers),
        max_range_end(relayers) == 0 || exists|i: int|
            0 <= i < relayers.len() && (#[trigger] relayers[i]).valid_range_end == max_range_end(relayers),
    decreases relayers.len(),
{
    if relayers.len() > 0 {
        let rest = relayers.drop_last();
        lemma_max_range_end(rest);
        assert forall|i: int| 0 <= i < relayers.len() implies (#[trigger] relayers[i]).valid_range_end <= max_range_end(relayers) by {
            if i < relayers.len() - 1 {
                assert(rest[i] == relayers[i]);
            }
        }
        if max_range_end(relayers) != 0 {
            if relayers.last().valid_range_end > max_range_end(rest) {
                assert(relayers[relayers.len() - 1].valid_range_end == max_range_end(relayers));
            } else {
                let k = choose|k: int| 0 <= k < rest.len() && (#[trigger] rest[k]).valid_range_end == max_range_end(rest);
                assert(relayers[k] == rest[k]);
            }
        }
    }
}

/// An assigned relayer always relays the nonce: the fee market slashes the
/// deposit of an assigned relayer that does not deliver.
pub proof fn law_assigned_relayer_relays(account: Seq<u8>, relayers: Seq<PriorRelayer>, best_finalized: u32)
    requires
        is_assigned(relayers, account),
    ensures
        order_verdict(account, Some(relayers)) == OrderVerdict::Relay,
        relay_decision(account, Some(relayers), best_finalized),
{
}

/// An order without assigned relayers is relayed by everyone.
pub proof fn law_unassigned_order_relayed_by_all(account: Seq<u8>, best_finalized: u32)
    ensures
        relay_decision(account, Some(Seq::<PriorRelayer>::empty()), best_finalized),
{
}

/// A nonce without an order is not relayed.
pub proof fn law_missing_order_not_relayed(account: Seq<u8>, best_finalized: u32)
    ensures
        order_verdict(account, None) == OrderVerdict::Skip,
        !relay_decision(account, None, best_finalized),
{
}

/// A relayer that is not assigned relays a nonce exactly when the best
/// finalized block is past the end of every assigned relayer's range: when
/// the order has timed out.
pub proof fn law_unassigned_relayer_relays_only_timed_out_orders(
    account: Seq<u8>,
    relayers: Seq<PriorRelayer>,
    best_finalized: u32,
)
    requires
        relayers.len() > 0,
        !is_assigned(relayers, account),
    ensures
        relay_decision(account, Some(relayers), best_finalized) <==> forall|i: int|
            0 <= i < relayers.len() ==> (#[trigger] relayers[i]).valid_range_end < best_finalized,
{
    lemma_max_range_end(relayers);
    if forall|i: int| 0 <= i < relayers.len() ==> (#[trigger] relayers[i]).valid_range_end < best_finalized {
        if max_range_end(relayers) != 0 {
            let k = choose|k: int| 0 <= k < relayers.len() && (#[trigger] relayers[k]).valid_range_end == max_range_end(relayers);
            assert(relayers[k].valid_range_end < best_finalized);
        } else {
            assert(relayers[0].valid_range_end < best_finalized);
        }
    }
}

/// How far a session is from its end: attempts left, then the step in the
/// current attempt.
pub open spec fn decide_measure(s: DecideSession) -> nat {
    let rank: nat = match s.phase {
        DecidePhase::AwaitOrder => 2,
        DecidePhase::AwaitBestFinalized(_) => 1,
        _ => 0,
    };
    ((MAX_DECIDE_ATTEMPTS - s.attempts) * 3 + rank) as nat
}

/// A decision never takes more than `MAX_DECIDE_ATTEMPTS` attempts and
/// always ends: every answer that a session accepts either decides or
/// brings it strictly closer to its end, and after the last attempt fails
/// the nonce is not relayed.
pub proof fn law_decision_always_ends(
    s: DecideSession,
    order: Option<Seq<PriorRelayer>>,
    best_finalized: u32,
    connection_error: bool,
)
    requires
        s.wf(),
    ensures
        s.phase == DecidePhase::AwaitOrder ==> {
            let (t, a) = spec_on_order(s, order);
            t.wf() && (a is Decided || decide_measure(t) < decide_measure(s))
        },
        s.phase is AwaitBestFinalized ==> spec_on_best_finalized(s, best_finalized).1 is Decided,
        (s.phase == DecidePhase::AwaitOrder || s.phase is AwaitBestFinalized) ==> {
            let (t, a) = spec_on_query_failed(s, connection_error);
            t.wf() && (a is Decided || decide_measure(t) < decide_measure(s))
        },
        s.phase == DecidePhase::AwaitReconnect ==> {
            let (t, a) = spec_on_reconnected(s);
            t.wf() && (a is Decided || decide_measure(t) < decide_measure(s))
        },
        s.attempts == MAX_DECIDE_ATTEMPTS ==> spec_retry(s).1 == DecideAction::Decided(false),
{
}

/// Each attempt asks for the order of the session's own message (its lane
/// and nonce), and asks for the best finalized block only when the order
/// exists, has assigned relayers, and this relayer is not one of them.
pub proof fn law_queries_are_for_the_session_message(s: DecideSession, order: Option<Seq<PriorRelayer>>)
    requires
        s.wf(),
    ensures
        spec_retry(s).1 is QueryOrder ==> spec_retry(s).1 == (DecideAction::QueryOrder { lane: s.lane, nonce: s.nonce }),
        spec_on_order(s, order).1 == DecideAction::QueryBestFinalized <==> (order matches Some(relayers) && relayers.len()
            > 0 && !is_assigned(relayers, s.account@)),
{
}


/// What a session decides on the order it receives, in terms of the order
/// itself: no order is not relayed; an order without relayers, or one that
/// assigns this relayer, is relayed at once; any other order asks for the
/// best finalized block, and is then relayed exactly when that block is past
/// the end of every assigned relayer's range.
pub proof fn law_session_decides_on_the_order(
    s: DecideSession,
    relayers: Seq<PriorRelayer>,
    best_finalized: u32,
)
    requires
        s.wf(),
        s.phase == DecidePhase::AwaitOrder,
    ensures
        spec_on_order(s, None).1 == DecideAction::Decided(false),
        spec_on_order(s, None).0.phase == DecidePhase::Finished(false),
        relayers.len() == 0 ==> spec_on_order(s, Some(relayers)).1 == DecideAction::Decided(true),
        relayers.len() == 0 ==> spec_on_order(s, Some(relayers)).0.phase == DecidePhase::Finished(true),
        (exists|i: int| 0 <= i < relayers.len() && (#[trigger] relayers[i]).id@ == s.account@) ==> spec_on_order(
            s,
            Some(relayers),
        ).1 == DecideAction::Decided(true),
        (relayers.len() > 0 && forall|i: int| 0 <= i < relayers.len() ==> (#[trigger] relayers[i]).id@ != s.account@)
            ==> {
            let (t, a) = spec_on_order(s, Some(relayers));
            &&& a == DecideAction::QueryBestFinalized
            &&& t.phase is AwaitBestFinalized
            &&& t.attempts == s.attempts
            &&& spec_on_best_finalized(t, best_finalized).1 == DecideAction::Decided(
                forall|i: int| 0 <= i < relayers.len() ==> (#[trigger] relayers[i]).valid_range_end < best_finalized,
            )
        },
{
    if relayers.len() > 0 && forall|i: int| 0 <= i < relayers.len() ==> (#[trigger] relayers[i]).id@ != s.account@ {
        law_unassigned_relayer_relays_only_timed_out_orders(s.account@, relayers, best_finalized);
    }
}

} // verus!
