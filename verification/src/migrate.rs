//! The second migration of the darwinia-ethereum bridge's state store:
//! scanner positions and flags move from the old keys to the per-tracker
//! keys, affirm positions move under `affirm.`, and the old keys go away.
//!
//! The store is on disk, so each stage names the key it reads; once the
//! value is read, the stage gives the writes and deletes to make, in
//! order, and moves on.
use vstd::prelude::*;

verus! {

/// A JSON number as the store gives it back.
#[derive(Clone, Copy, Debug, PartialEq, Eq)]
pub enum JsonNumber {
    /// A number that fits in `u64`.
    PosInt(u64),
    /// A negative integer.
    NegInt(i64),
    /// A number with a fraction or an exponent.
    Float,
}

/// A JSON value read from the store, as far as the migration looks at it.
#[derive(Clone, Debug)]
pub enum StoredValue {
    Null,
    Bool(bool),
    Number(JsonNumber),
    String(String),
    Array,
    Object,
}

/// The contents of a `StoredValue`.
pub enum StoredValueView {
    Null,
    Bool(bool),
    Number(JsonNumber),
    String(Seq<char>),
    Array,
    Object,
}

impl View for StoredValue {
    type V = StoredValueView;

    open spec fn view(&self) -> StoredValueView {
        match self {
            StoredValue::Null => StoredValueView::Null,
            StoredValue::Bool(b) => StoredValueView::Bool(*b),
            StoredValue::Number(n) => StoredValueView::Number(*n),
            StoredValue::String(s) => StoredValueView::String(s@),
            StoredValue::Array => StoredValueView::Array,
            StoredValue::Object => StoredValueView::Object,
        }
    }
}

/// A value the migration writes.
#[derive(Clone, Copy, Debug, PartialEq, Eq)]
pub enum PutValue {
    U64(u64),
    Bool(bool),
}

/// A change to the store.
#[derive(Clone, Debug)]
pub enum KvOp {
    Put(String, PutValue),
    Delete(String),
}

/// The contents of a `KvOp`.
pub enum KvOpView {
    Put(Seq<char>, PutValue),
    Delete(Seq<char>),
}

impl View for KvOp {
    type V = KvOpView;

    open spec fn view(&self) -> KvOpView {
        match self {
            KvOp::Put(k, v) => KvOpView::Put(k@, *v),
            KvOp::Delete(k) => KvOpView::Delete(k@),
        }
    }
}

/// The stages of the migration, in order.
#[derive(Clone, Copy, Debug, PartialEq, Eq)]
pub enum MigrationStage {
    EthereumFinish,
    EthereumRunning,
    EthereumCleanup,
    DarwiniaFinish,
    DarwiniaCleanup,
    AffirmTarget,
    AffirmRelayed,
    Done,
}

/// The namespace of the bridge's state in the store.
pub open spec fn migration_namespace() -> Seq<char> {
    "task-darwinia-ethereum"@
}

/// The value read, if any.
pub open spec fn read_view(read: Option<StoredValue>) -> Option<StoredValueView> {
    match read {
        Some(v) => Some(v@),
        None => None,
    }
}

/// The stage after `stage`.
pub open spec fn next_stage(stage: MigrationStage) -> MigrationStage {
    match stage {
        MigrationStage::EthereumFinish => MigrationStage::EthereumRunning,
        MigrationStage::EthereumRunning => MigrationStage::EthereumCleanup,
        MigrationStage::EthereumCleanup => MigrationStage::DarwiniaFinish,
        MigrationStage::DarwiniaFinish => MigrationStage::DarwiniaCleanup,
        MigrationStage::DarwiniaCleanup => MigrationStage::AffirmTarget,
        MigrationStage::AffirmTarget => MigrationStage::AffirmRelayed,
        MigrationStage::AffirmRelayed => MigrationStage::Done,
        MigrationStage::Done => MigrationStage::Done,
    }
}

/// The key a stage reads, if it reads one.
pub open spec fn stage_read_key(stage: MigrationStage) -> Option<Seq<char>> {
    match stage {
        MigrationStage::EthereumFinish => Some("scan.ethereum.finish"@),
        MigrationStage::EthereumRunning => Some("scan.ethereum.running"@),
        MigrationStage::DarwiniaFinish => Some("scan.darwinia.finish"@),
        MigrationStage::AffirmTarget => Some("target"@),
        MigrationStage::AffirmRelayed => Some("relayed"@),
        _ => None,
    }
}

/// Whether the value is a JSON number.
pub open spec fn is_number(v: StoredValueView) -> bool {
    v is Number
}

/// The value as a `u64`, if it is a number that fits.
pub open spec fn as_u64(v: StoredValueView) -> Option<u64> {
    match v {
        StoredValueView::Number(JsonNumber::PosInt(n)) => Some(n),
        _ => None,
    }
}

/// Whether the value says that a scanner was running: `true`, or the text
/// `"true"`.
pub open spec fn is_running(v: StoredValueView) -> bool {
    match v {
        StoredValueView::Bool(b) => b,
        StoredValueView::String(s) => s == "true"@,
        _ => false,
    }
}

/// Whether a stage can take the value read: the ethereum scanner's finished
/// block, when it is a number, must fit in `u64`.
pub open spec fn stage_accepts(stage: MigrationStage, read: Option<StoredValueView>) -> bool {
    stage == MigrationStage::EthereumFinish ==> match read {
        Some(v) => is_number(v) ==> as_u64(v) is Some,
        None => true,
    }
}

/// Moving a position under a new key: written when the old value is a
/// number (0 when it does not fit in `u64`), then the old key deleted.
pub open spec fn move_position(read: Option<StoredValueView>, old_key: Seq<char>, new_key: Seq<char>) -> Seq<KvOpView> {
    match read {
        Some(v) => {
            let put = if is_number(v) {
                seq![KvOpView::Put(new_key, PutValue::U64(
                    match as_u64(v) {
                        Some(n) => n,
                        None => 0,
                    },
                ))]
            } else {
                Seq::<KvOpView>::empty()
            };
            put + seq![KvOpView::Delete(old_key)]
        },
        None => Seq::empty(),
    }
}

/// The changes a stage makes, given the value it read.
pub open spec fn stage_ops(stage: MigrationStage, read: Option<StoredValueView>) -> Seq<KvOpView> {
    match stage {
        MigrationStage::EthereumFinish => match read {
            Some(v) => if is_number(v) {
                let n = as_u64(v)->0;
                seq![
                    KvOpView::Put("scan.ethereum.redeem.current"@, PutValue::U64(n)),
                    KvOpView::Put("scan.ethereum.check.current"@, PutValue::U64(n)),
                    KvOpView::Put("scan.ethereum.affirm.current"@, PutValue::U64(n)),
                ]
            } else {
                Seq::empty()
            },
            None => Seq::empty(),
        },
        MigrationStage::EthereumRunning => match read {
            Some(v) => if is_running(v) {
                seq![
                    KvOpView::Put("scan.ethereum.redeem.running"@, PutValue::Bool(true)),
                    KvOpView::Put("scan.ethereum.check.running"@, PutValue::Bool(true)),
                    KvOpView::Put("scan.ethereum.affirm.running"@, PutValue::Bool(true)),
                ]
            } else {
                Seq::empty()
            },
            None => Seq::empty(),
        },
        MigrationStage::EthereumCleanup => seq![
            KvOpView::Delete("scan.ethereum.running"@),
            KvOpView::Delete("scan.ethereum.finish"@),
            KvOpView::Delete("scan.ethereum.current"@),
            KvOpView::Delete("scan.ethereum.next"@),
            KvOpView::Delete("scan.ethereum.skipped"@),
            KvOpView::Delete("scan.ethereum.fast_mode"@),
        ],
        MigrationStage::DarwiniaFinish => match read {
            Some(v) => if is_number(v) {
                seq![KvOpView::Put("scan.darwinia.current"@, PutValue::U64(
                    match as_u64(v) {
                        Some(n) => n,
                        None => 0,
                    },
                ))]
            } else {
                Seq::empty()
            },
            None => Seq::empty(),
        },
        MigrationStage::DarwiniaCleanup => seq![
            KvOpView::Delete("scan.darwinia.finish"@),
            KvOpView::Delete("scan.darwinia.next"@),
            KvOpView::Delete("scan.darwinia.skipped"@),
            KvOpView::Delete("scan.darwinia.fast_mode"@),
        ],
        MigrationStage::AffirmTarget => move_position(read, "target"@, "affirm.target"@),
        MigrationStage::AffirmRelayed => move_position(read, "relayed"@, "affirm.relayed"@),
        MigrationStage::Done => Seq::empty(),
    }
}

/// The changes, by their contents.
pub open spec fn ops_view(ops: Seq<KvOp>) -> Seq<KvOpView> {
    ops.map_values(|op: KvOp| op@)
}

fn put(key: &str, value: PutValue) -> (res: KvOp)
    ensures
        res@ == KvOpView::Put(key@, value),
{
    KvOp::Put(String::from_str(key), value)
}

fn delete(key: &str) -> (res: KvOp)
    ensures
        res@ == KvOpView::Delete(key@),
{
    KvOp::Delete(String::from_str(key))
}

/// Whether the text is `"true"`.
fn is_true_text(s: &String) -> (res: bool)
    ensures
        res == (s@ == "true"@),
{
    let t = String::from_str("true");
    s.eq(&t)
}

/// The value as a `u64`, if it is a number that fits.
pub fn stored_as_u64(v: &StoredValue) -> (res: Option<u64>)
    ensures
        res == as_u64(v@),
{
    match v {
        StoredValue::Number(JsonNumber::PosInt(n)) => Some(*n),
        _ => None,
    }
}

/// Whether the value says that a scanner was running.
pub fn stored_is_running(v: &StoredValue) -> (res: bool)
    ensures
        res == is_running(v@),
{
    match v {
        StoredValue::Bool(b) => *b,
        StoredValue::String(s) => is_true_text(s),
        _ => false,
    }
}

fn move_position_ops(read: &Option<StoredValue>, old_key: &str, new_key: &str) -> (res: Vec<KvOp>)
    ensures
        ops_view(res@) == move_position(read_view(*read), old_key@, new_key@),
{
    let mut ops: Vec<KvOp> = Vec::new();
    match read {
        Some(v) => {
            match v {
                StoredValue::Number(_) => {
                    let n = match stored_as_u64(v) {
                        Some(n) => n,
                        None => 0,
                    };
                    ops.push(put(new_key, PutValue::U64(n)));
                },
                _ => {},
            }
            ops.push(delete(old_key));
        },
        None => {},
    }
    assert(ops_view(ops@) =~= move_position(read_view(*read), old_key@, new_key@));
    ops
}

/// The migration of the bridge's state, stage by stage.
pub struct MigrationV2 {
    stage: MigrationStage,
}

impl MigrationV2 {
    /// The current stage.
    pub closed spec fn stage_view(&self) -> MigrationStage {
        self.stage
    }

    /// A migration at its first stage.
    pub fn new() -> (res: MigrationV2)
        ensures
            res.stage_view() == MigrationStage::EthereumFinish,
    {
        MigrationV2 { stage: MigrationStage::EthereumFinish }
    }

    /// The namespace of the bridge's state in the store.
    pub fn namespace() -> (res: &'static str)
        ensures
            res@ == migration_namespace(),
    {
        "task-darwinia-ethereum"
    }

    /// The current stage.
    pub fn stage(&self) -> (res: MigrationStage)
        ensures
            res == self.stage_view(),
    {
        self.stage
    }

    /// Whether every stage has run.
    pub fn is_done(&self) -> (res: bool)
        ensures
            res == (self.stage_view() == MigrationStage::Done),
    {
        match self.stage {
            MigrationStage::Done => true,
            _ => false,
        }
    }

    /// The key the current stage reads, if it reads one.
    pub fn read_key(&self) -> (res: Option<String>)
        ensures
            match res {
                Some(k) => stage_read_key(self.stage_view()) == Some(k@),
                None => stage_read_key(self.stage_view()) is None,
            },
    {
        match self.stage {
            MigrationStage::EthereumFinish => Some(String::from_str("scan.ethereum.finish")),
            MigrationStage::EthereumRunning => Some(String::from_str("scan.ethereum.running")),
            MigrationStage::DarwiniaFinish => Some(String::from_str("scan.darwinia.finish")),
            MigrationStage::AffirmTarget => Some(String::from_str("target")),
            MigrationStage::AffirmRelayed => Some(String::from_str("relayed")),
            _ => None,
        }
    }

    /// Whether the current stage can take the value read.
    pub fn accepts(&self, read: &Option<StoredValue>) -> (res: bool)
        ensures
            res == stage_accepts(self.stage_view(), read_view(*read)),
    {
        match self.stage {
            MigrationStage::EthereumFinish => match read {
                Some(StoredValue::Number(n)) => match n {
                    JsonNumber::PosInt(_) => true,
                    _ => false,
                },
                _ => true,
            },
            _ => true,
        }
    }

    /// Runs the current stage on the value it read (`None` when the key is
    /// absent or the stage reads none): the changes to make, in order; the
    /// migration moves to the next stage.
    pub fn advance(&mut self, read: &Option<StoredValue>) -> (res: Vec<KvOp>)
        requires
            stage_accepts(old(self).stage_view(), read_view(*read)),
        ensures
            ops_view(res@) == stage_ops(old(self).stage_view(), read_view(*read)),
            final(self).stage_view() == next_stage(old(self).stage_view()),
    {
        let mut ops: Vec<KvOp> = Vec::new();
        match self.stage {
            MigrationStage::EthereumFinish => {
                self.stage = MigrationStage::EthereumRunning;
                match read {
                    Some(v) => match v {
                        StoredValue::Number(JsonNumber::PosInt(n)) => {
                            let last_block = *n;
                            ops.push(put("scan.ethereum.redeem.current", PutValue::U64(last_block)));
                            ops.push(put("scan.ethereum.check.current", PutValue::U64(last_block)));
                            ops.push(put("scan.ethereum.affirm.current", PutValue::U64(last_block)));
                        },
                        _ => {},
                    },
                    None => {},
                }
            },
            MigrationStage::EthereumRunning => {
                self.stage = MigrationStage::EthereumCleanup;
                match read {
                    Some(v) => {
                        if stored_is_running(v) {
                            ops.push(put("scan.ethereum.redeem.running", PutValue::Bool(true)));
                            ops.push(put("scan.ethereum.check.running", PutValue::Bool(true)));
                            ops.push(put("scan.ethereum.affirm.running", PutValue::Bool(true)));
                        }
                    },
                    None => {},
                }
            },
            MigrationStage::EthereumCleanup => {
                self.stage = MigrationStage::DarwiniaFinish;
                ops.push(delete("scan.ethereum.running"));
                ops.push(delete("scan.ethereum.finish"));
                ops.push(delete("scan.ethereum.current"));
                ops.push(delete("scan.ethereum.next"));
                ops.push(delete("scan.ethereum.skipped"));
                ops.push(delete("scan.ethereum.fast_mode"));
            },
            MigrationStage::DarwiniaFinish => {
                self.stage = MigrationStage::DarwiniaCleanup;
                match read {
                    Some(v) => match v {
                        StoredValue::Number(_) => {
                            let n = match stored_as_u64(v) {
                                Some(n) => n,
                                None => 0,
                            };
                            ops.push(put("scan.darwinia.current", PutValue::U64(n)));
                        },
                        _ => {},
                    },
                    None => {},
                }
            },
            MigrationStage::DarwiniaCleanup => {
                self.stage = MigrationStage::AffirmTarget;
                ops.push(delete("scan.darwinia.finish"));
                ops.push(delete("scan.darwinia.next"));
                ops.push(delete("scan.darwinia.skipped"));
                ops.push(delete("scan.darwinia.fast_mode"));
            },
            MigrationStage::AffirmTarget => {
                self.stage = MigrationStage::AffirmRelayed;
                ops = move_position_ops(read, "target", "affirm.target");
            },
            MigrationStage::AffirmRelayed => {
                self.stage = MigrationStage::Done;
                ops = move_position_ops(read, "relayed", "affirm.relayed");
            },
            MigrationStage::Done => {},
        }
        assert(ops_view(ops@) =~= stage_ops(old(self).stage_view(), read_view(*read)));
        ops
    }
}

/// The value the store gives back for a value the migration wrote.
pub open spec fn put_value_view(v: PutValue) -> StoredValueView {
    match v {
        PutValue::U64(n) => StoredValueView::Number(JsonNumber::PosInt(n)),
        PutValue::Bool(b) => StoredValueView::Bool(b),
    }
}

/// The store after one change.
pub open spec fn apply_op(store: Map<Seq<char>, StoredValueView>, op: KvOpView) -> Map<Seq<char>, StoredValueView> {
    match op {
        KvOpView::Put(k, v) => store.insert(k, put_value_view(v)),
        KvOpView::Delete(k) => store.remove(k),
    }
}

/// The store after the changes, made in order.
pub open spec fn apply_ops(store: Map<Seq<char>, StoredValueView>, ops: Seq<KvOpView>) -> Map<Seq<char>, StoredValueView>
    decreases ops.len(),
{
    if ops.len() == 0 {
        store
    } else {
        apply_ops(apply_op(store, ops[0]), ops.drop_first())
    }
}

/// What a read of `key` gives back from the store.
pub open spec fn read_store(store: Map<Seq<char>, StoredValueView>, key: Option<Seq<char>>) -> Option<StoredValueView> {
    match key {
        Some(k) => if store.contains_key(k) {
            Some(store[k])
        } else {
            None
        },
        None => None,
    }
}

/// How many stages are left.
pub open spec fn stages_left(stage: MigrationStage) -> nat {
    match stage {
        MigrationStage::EthereumFinish => 7,
        MigrationStage::EthereumRunning => 6,
        MigrationStage::EthereumCleanup => 5,
        MigrationStage::DarwiniaFinish => 4,
        MigrationStage::DarwiniaCleanup => 3,
        MigrationStage::AffirmTarget => 2,
        MigrationStage::AffirmRelayed => 1,
        MigrationStage::Done => 0,
    }
}

/// The store after the migration runs from `stage` on, each stage reading
/// its key from the store as the earlier stages left it.
pub open spec fn run_from(stage: MigrationStage, store: Map<Seq<char>, StoredValueView>) -> Map<Seq<char>, StoredValueView>
    decreases stages_left(stage),
{
    if stage == MigrationStage::Done {
        store
    } else {
        let after = apply_ops(store, stage_ops(stage, read_store(store, stage_read_key(stage))));
        run_from(next_stage(stage), after)
    }
}

/// The store after the whole migration.
pub open spec fn migrate_store(store: Map<Seq<char>, StoredValueView>) -> Map<Seq<char>, StoredValueView> {
    run_from(MigrationStage::EthereumFinish, store)
}

/// The keys that the migration retires.
pub open spec fn legacy_keys() -> Seq<Seq<char>> {
    seq![
        "scan.ethereum.running"@,
        "scan.ethereum.finish"@,
        "scan.ethereum.current"@,
        "scan.ethereum.next"@,
        "scan.ethereum.skipped"@,
        "scan.ethereum.fast_mode"@,
        "scan.darwinia.finish"@,
        "scan.darwinia.next"@,
        "scan.darwinia.skipped"@,
        "scan.darwinia.fast_mode"@,
        "target"@,
        "relayed"@,
    ]
}

/// A store holds none of the retired keys exactly when it holds none of
/// them by name.
proof fn lemma_legacy_keys_spelled(store: Map<Seq<char>, StoredValueView>)
    ensures
        (forall|i: int| 0 <= i < legacy_keys().len() ==> !store.contains_key(#[trigger] legacy_keys()[i])) <==> (
            !store.contains_key("scan.ethereum.running"@) &&
            !store.contains_key("scan.ethereum.finish"@) &&
            !store.contains_key("scan.ethereum.current"@) &&
            !store.contains_key("scan.ethereum.next"@) &&
            !store.contains_key("scan.ethereum.skipped"@) &&
            !store.contains_key("scan.ethereum.fast_mode"@) &&
            !store.contains_key("scan.darwinia.finish"@) &&
            !store.contains_key("scan.darwinia.next"@) &&
            !store.contains_key("scan.darwinia.skipped"@) &&
            !store.contains_key("scan.darwinia.fast_mode"@) &&
            !store.contains_key("target"@) &&
            !store.contains_key("relayed"@)),
{
    let keys = legacy_keys();
    assert(keys[0] == "scan.ethereum.running"@);
    assert(keys[1] == "scan.ethereum.finish"@);
    assert(keys[2] == "scan.ethereum.current"@);
    assert(keys[3] == "scan.ethereum.next"@);
    assert(keys[4] == "scan.ethereum.skipped"@);
    assert(keys[5] == "scan.ethereum.fast_mode"@);
    assert(keys[6] == "scan.darwinia.finish"@);
    assert(keys[7] == "scan.darwinia.next"@);
    assert(keys[8] == "scan.darwinia.skipped"@);
    assert(keys[9] == "scan.darwinia.fast_mode"@);
    assert(keys[10] == "target"@);
    assert(keys[11] == "relayed"@);
}

/// After the migration none of the retired keys is left in the store,
/// whatever the store held (as long as the ethereum scanner's finished
/// block, when it is a number, fits in `u64`).
pub proof fn law_migration_retires_legacy_keys(store: Map<Seq<char>, StoredValueView>)
    requires
        stage_accepts(MigrationStage::EthereumFinish, read_store(store, stage_read_key(MigrationStage::EthereumFinish))),
    ensures
        forall|i: int| 0 <= i < legacy_keys().len() ==> !migrate_store(store).contains_key(#[trigger] legacy_keys()[i]),
{
    let (s1, s2, s3, s4, s5, s6, s7) = lemma_migration_stages(store);
    reveal_with_fuel(apply_ops, 7);
    lemma_key_facts();
    lemma_legacy_keys_spelled(s7);
}

/// The migration carries the positions and flags over to their new keys:
/// the ethereum scanner's finished block becomes the current block of the
/// redeem, check and affirm trackers; a running ethereum scanner marks the
/// three trackers running; the darwinia scanner's finished block becomes
/// its current block; the affirm target and relayed block move under
/// `affirm.` (a number that does not fit in `u64` becomes 0).
pub proof fn law_migration_carries_positions(store: Map<Seq<char>, StoredValueView>)
    requires
        stage_accepts(MigrationStage::EthereumFinish, read_store(store, stage_read_key(MigrationStage::EthereumFinish))),
    ensures
        store.contains_key("scan.ethereum.finish"@) && is_number(store["scan.ethereum.finish"@]) ==> {
            let v = put_value_view(PutValue::U64(as_u64(store["scan.ethereum.finish"@])->0));
            &&& migrate_store(store).contains_key("scan.ethereum.redeem.current"@)
            &&& migrate_store(store)["scan.ethereum.redeem.current"@] == v
            &&& migrate_store(store).contains_key("scan.ethereum.check.current"@)
            &&& migrate_store(store)["scan.ethereum.check.current"@] == v
            &&& migrate_store(store).contains_key("scan.ethereum.affirm.current"@)
            &&& migrate_store(store)["scan.ethereum.affirm.current"@] == v
        },
        store.contains_key("scan.ethereum.running"@) && is_running(store["scan.ethereum.running"@]) ==> {
            let v = StoredValueView::Bool(true);
            &&& migrate_store(store).contains_key("scan.ethereum.redeem.running"@)
            &&& migrate_store(store)["scan.ethereum.redeem.running"@] == v
            &&& migrate_store(store).contains_key("scan.ethereum.check.running"@)
            &&& migrate_store(store)["scan.ethereum.check.running"@] == v
            &&& migrate_store(store).contains_key("scan.ethereum.affirm.running"@)
            &&& migrate_store(store)["scan.ethereum.affirm.running"@] == v
        },
        store.contains_key("scan.darwinia.finish"@) && is_number(store["scan.darwinia.finish"@]) ==> {
            &&& migrate_store(store).contains_key("scan.darwinia.current"@)
            &&& migrate_store(store)["scan.darwinia.current"@] == put_value_view(PutValue::U64(
                match as_u64(store["scan.darwinia.finish"@]) {
                    Some(n) => n,
                    None => 0,
                },
            ))
        },
        store.contains_key("target"@) && is_number(store["target"@]) ==> {
            &&& migrate_store(store).contains_key("affirm.target"@)
            &&& migrate_store(store)["affirm.target"@] == put_value_view(PutValue::U64(
                match as_u64(store["target"@]) {
                    Some(n) => n,
                    None => 0,
                },
            ))
        },
        store.contains_key("relayed"@) && is_number(store["relayed"@]) ==> {
            &&& migrate_store(store).contains_key("affirm.relayed"@)
            &&& migrate_store(store)["affirm.relayed"@] == put_value_view(PutValue::U64(
                match as_u64(store["relayed"@]) {
                    Some(n) => n,
                    None => 0,
                },
            ))
        },
{
    let (s1, s2, s3, s4, s5, s6, s7) = lemma_migration_stages(store);
    reveal_with_fuel(apply_ops, 7);
    lemma_key_facts();
    assert(s1.contains_key("scan.ethereum.running"@) == store.contains_key("scan.ethereum.running"@));
    assert(s1.contains_key("scan.ethereum.running"@) ==> s1["scan.ethereum.running"@] == store["scan.ethereum.running"@]);
    assert(s3.contains_key("scan.darwinia.finish"@) == store.contains_key("scan.darwinia.finish"@));
    assert(s3.contains_key("scan.darwinia.finish"@) ==> s3["scan.darwinia.finish"@] == store["scan.darwinia.finish"@]);
    assert(s5.contains_key("target"@) == store.contains_key("target"@));
    assert(s5.contains_key("target"@) ==> s5["target"@] == store["target"@]);
    assert(s6.contains_key("relayed"@) == store.contains_key("relayed"@));
    assert(s6.contains_key("relayed"@) ==> s6["relayed"@] == store["relayed"@]);
}

/// Lengths and characters that tell the store's keys apart.
proof fn lemma_key_facts()
    ensures
        "scan.ethereum.running"@.len() == 21,
        "scan.ethereum.running"@[5] == 'e',
        "scan.ethereum.running"@[14] == 'r',
        "scan.ethereum.finish"@.len() == 20,
        "scan.ethereum.finish"@[5] == 'e',
        "scan.ethereum.current"@.len() == 21,
        "scan.ethereum.current"@[5] == 'e',
        "scan.ethereum.current"@[14] == 'c',
        "scan.ethereum.next"@.len() == 18,
        "scan.ethereum.next"@[5] == 'e',
        "scan.ethereum.skipped"@.len() == 21,
        "scan.ethereum.skipped"@[5] == 'e',
        "scan.ethereum.skipped"@[14] == 's',
        "scan.ethereum.fast_mode"@.len() == 23,
        "scan.ethereum.fast_mode"@[5] == 'e',
        "scan.ethereum.redeem.current"@.len() == 28,
        "scan.ethereum.redeem.current"@[14] == 'r',
        "scan.ethereum.redeem.current"@[21] == 'c',
        "scan.ethereum.check.current"@.len() == 27,
        "scan.ethereum.check.current"@[20] == 'c',
        "scan.ethereum.affirm.current"@.len() == 28,
        "scan.ethereum.affirm.current"@[14] == 'a',
        "scan.ethereum.affirm.current"@[21] == 'c',
        "scan.ethereum.redeem.running"@.len() == 28,
        "scan.ethereum.redeem.running"@[14] == 'r',
        "scan.ethereum.redeem.running"@[21] == 'r',
        "scan.ethereum.check.running"@.len() == 27,
        "scan.ethereum.check.running"@[20] == 'r',
        "scan.ethereum.affirm.running"@.len() == 28,
        "scan.ethereum.affirm.running"@[14] == 'a',
        "scan.ethereum.affirm.running"@[21] == 'r',
        "scan.darwinia.finish"@.len() == 20,
        "scan.darwinia.finish"@[5] == 'd',
        "scan.darwinia.next"@.len() == 18,
        "scan.darwinia.next"@[5] == 'd',
        "scan.darwinia.skipped"@.len() == 21,
        "scan.darwinia.skipped"@[5] == 'd',
        "scan.darwinia.skipped"@[14] == 's',
        "scan.darwinia.fast_mode"@.len() == 23,
        "scan.darwinia.fast_mode"@[5] == 'd',
        "scan.darwinia.current"@.len() == 21,
        "scan.darwinia.current"@[5] == 'd',
        "scan.darwinia.current"@[14] == 'c',
        "target"@.len() == 6,
        "relayed"@.len() == 7,
        "affirm.target"@.len() == 13,
        "affirm.relayed"@.len() == 14,
{
    reveal_strlit("scan.ethereum.running");
    reveal_strlit("scan.ethereum.finish");
    reveal_strlit("scan.ethereum.current");
    reveal_strlit("scan.ethereum.next");
    reveal_strlit("scan.ethereum.skipped");
    reveal_strlit("scan.ethereum.fast_mode");
    reveal_strlit("scan.ethereum.redeem.current");
    reveal_strlit("scan.ethereum.check.current");
    reveal_strlit("scan.ethereum.affirm.current");
    reveal_strlit("scan.ethereum.redeem.running");
    reveal_strlit("scan.ethereum.check.running");
    reveal_strlit("scan.ethereum.affirm.running");
    reveal_strlit("scan.darwinia.finish");
    reveal_strlit("scan.darwinia.next");
    reveal_strlit("scan.darwinia.skipped");
    reveal_strlit("scan.darwinia.fast_mode");
    reveal_strlit("scan.darwinia.current");
    reveal_strlit("target");
    reveal_strlit("relayed");
    reveal_strlit("affirm.target");
    reveal_strlit("affirm.relayed");
}

/// The stores between the stages of the migration.
proof fn lemma_migration_stages(store: Map<Seq<char>, StoredValueView>) -> (res: (
    Map<Seq<char>, StoredValueView>,
    Map<Seq<char>, StoredValueView>,
    Map<Seq<char>, StoredValueView>,
    Map<Seq<char>, StoredValueView>,
    Map<Seq<char>, StoredValueView>,
    Map<Seq<char>, StoredValueView>,
    Map<Seq<char>, StoredValueView>,
))
    ensures
        res.0 == apply_ops(store, stage_ops(MigrationStage::EthereumFinish, read_store(store, Some("scan.ethereum.finish"@)))),
        res.1 == apply_ops(res.0, stage_ops(MigrationStage::EthereumRunning, read_store(res.0, Some("scan.ethereum.running"@)))),
        res.2 == apply_ops(res.1, stage_ops(MigrationStage::EthereumCleanup, None)),
        res.3 == apply_ops(res.2, stage_ops(MigrationStage::DarwiniaFinish, read_store(res.2, Some("scan.darwinia.finish"@)))),
        res.4 == apply_ops(res.3, stage_ops(MigrationStage::DarwiniaCleanup, None)),
        res.5 == apply_ops(res.4, stage_ops(MigrationStage::AffirmTarget, read_store(res.4, Some("target"@)))),
        res.6 == apply_ops(res.5, stage_ops(MigrationStage::AffirmRelayed, read_store(res.5, Some("relayed"@)))),
        migrate_store(store) == res.6,
{
    reveal_with_fuel(run_from, 8);
    let s1 = apply_ops(store, stage_ops(MigrationStage::EthereumFinish, read_store(store, Some("scan.ethereum.finish"@))));
    let s2 = apply_ops(s1, stage_ops(MigrationStage::EthereumRunning, read_store(s1, Some("scan.ethereum.running"@))));
    let s3 = apply_ops(s2, stage_ops(MigrationStage::EthereumCleanup, None));
    let s4 = apply_ops(s3, stage_ops(MigrationStage::DarwiniaFinish, read_store(s3, Some("scan.darwinia.finish"@))));
    let s5 = apply_ops(s4, stage_ops(MigrationStage::DarwiniaCleanup, None));
    let s6 = apply_ops(s5, stage_ops(MigrationStage::AffirmTarget, read_store(s5, Some("target"@))));
    let s7 = apply_ops(s6, stage_ops(MigrationStage::AffirmRelayed, read_store(s6, Some("relayed"@))));
    (s1, s2, s3, s4, s5, s6, s7)
}

/// The store after one stage, which reads its key from the store as it is.
pub open spec fn stage_step(stage: MigrationStage, store: Map<Seq<char>, StoredValueView>) -> Map<Seq<char>, StoredValueView> {
    apply_ops(store, stage_ops(stage, read_store(store, stage_read_key(stage))))
}

/// The ethereum scanner's part of the migration: its finished block, its
/// running flag, then the removal of its old keys.
pub open spec fn migrate_ethereum(store: Map<Seq<char>, StoredValueView>) -> Map<Seq<char>, StoredValueView> {
    stage_step(
        MigrationStage::EthereumCleanup,
        stage_step(MigrationStage::EthereumRunning, stage_step(MigrationStage::EthereumFinish, store)),
    )
}

/// The darwinia scanner's part of the migration.
pub open spec fn migrate_darwinia(store: Map<Seq<char>, StoredValueView>) -> Map<Seq<char>, StoredValueView> {
    stage_step(MigrationStage::DarwiniaCleanup, stage_step(MigrationStage::DarwiniaFinish, store))
}

/// The affirm positions' part of the migration.
pub open spec fn migrate_affirm(store: Map<Seq<char>, StoredValueView>) -> Map<Seq<char>, StoredValueView> {
    stage_step(MigrationStage::AffirmRelayed, stage_step(MigrationStage::AffirmTarget, store))
}

/// The whole migration is its three parts in order.
pub proof fn law_migration_is_its_parts(store: Map<Seq<char>, StoredValueView>)
    ensures
        migrate_store(store) == migrate_affirm(migrate_darwinia(migrate_ethereum(store))),
{
    let _ = lemma_migration_stages(store);
}

/// Running the ethereum part a second time changes nothing.
pub proof fn law_ethereum_migration_is_idempotent(store: Map<Seq<char>, StoredValueView>)
    requires
        stage_accepts(MigrationStage::EthereumFinish, read_store(store, stage_read_key(MigrationStage::EthereumFinish))),
    ensures
        stage_accepts(
            MigrationStage::EthereumFinish,
            read_store(migrate_ethereum(store), stage_read_key(MigrationStage::EthereumFinish)),
        ),
        migrate_ethereum(migrate_ethereum(store)) == migrate_ethereum(store),
{
    reveal_with_fuel(apply_ops, 7);
    lemma_key_facts();
    let t = migrate_ethereum(store);
    assert(!t.contains_key("scan.ethereum.finish"@));
    assert(!t.contains_key("scan.ethereum.running"@));
    let t1 = stage_step(MigrationStage::EthereumFinish, t);
    let t2 = stage_step(MigrationStage::EthereumRunning, t1);
    assert(t1 == t);
    assert(t2 == t);
    assert(stage_step(MigrationStage::EthereumCleanup, t) =~= t);
}

/// Running the darwinia part a second time changes nothing.
pub proof fn law_darwinia_migration_is_idempotent(store: Map<Seq<char>, StoredValueView>)
    ensures
        migrate_darwinia(migrate_darwinia(store)) == migrate_darwinia(store),
{
    reveal_with_fuel(apply_ops, 7);
    lemma_key_facts();
    let t = migrate_darwinia(store);
    assert(!t.contains_key("scan.darwinia.finish"@));
    assert(stage_step(MigrationStage::DarwiniaFinish, t) == t);
    assert(stage_step(MigrationStage::DarwiniaCleanup, t) =~= t);
}

/// Running the affirm part a second time changes nothing.
pub proof fn law_affirm_migration_is_idempotent(store: Map<Seq<char>, StoredValueView>)
    ensures
        migrate_affirm(migrate_affirm(store)) == migrate_affirm(store),
{
    reveal_with_fuel(apply_ops, 7);
    lemma_key_facts();
    let t = migrate_affirm(store);
    assert(!t.contains_key("target"@));
    assert(!t.contains_key("relayed"@));
    assert(stage_step(MigrationStage::AffirmTarget, t) == t);
    assert(stage_step(MigrationStage::AffirmRelayed, t) == t);
}

/// Running the whole migration a second time changes nothing.
pub proof fn law_migration_is_idempotent(store: Map<Seq<char>, StoredValueView>)
    requires
        stage_accepts(MigrationStage::EthereumFinish, read_store(store, stage_read_key(MigrationStage::EthereumFinish))),
    ensures
        migrate_store(migrate_store(store)) == migrate_store(store),
{
    let t = migrate_store(store);
    law_migration_retires_legacy_keys(store);
    law_migration_is_its_parts(t);
    reveal_with_fuel(apply_ops, 7);
    lemma_legacy_keys_spelled(t);
    assert(migrate_ethereum(t) =~= t);
    assert(migrate_darwinia(t) =~= t);
    assert(migrate_affirm(t) =~= t);
}


/// The running flags are written only for a scanner stored as running: the
/// value `true` or the text `"true"`. For any other value of the old flag
/// (`false`, `"false"`, another text, a number, nothing) the stage writes
/// nothing; for those two it writes the three tracker flags as `true`.
pub proof fn law_running_flags_only_for_running_scanner(read: Option<StoredValueView>)
    ensures
        stage_ops(MigrationStage::EthereumRunning, read).len() > 0 ==> (read == Some(StoredValueView::Bool(true))
            || read == Some(StoredValueView::String("true"@))),
        (read == Some(StoredValueView::Bool(true)) || read == Some(StoredValueView::String("true"@))) ==> stage_ops(
            MigrationStage::EthereumRunning,
            read,
        ) == seq![
            KvOpView::Put("scan.ethereum.redeem.running"@, PutValue::Bool(true)),
            KvOpView::Put("scan.ethereum.check.running"@, PutValue::Bool(true)),
            KvOpView::Put("scan.ethereum.affirm.running"@, PutValue::Bool(true)),
        ],
{
}

} // verus!
