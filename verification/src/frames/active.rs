//! Incremental physical-native budgets owned by the activation stack.
//!
//! The stack keeps its cost and its per-family depths up to date on every
//! push, pop and mark.  `wf` says that they are what a scan of the visible
//! records would give, and that the published depth is their number.
use vstd::prelude::*;
use crate::error::Error;
use crate::value::ObjectRef;

verus! {

/// Number of families whose nesting is counted separately.
pub const FAMILY_COUNT: usize = 14;

/// Identity of one activation record.
#[derive(Clone, Copy, Debug, PartialEq, Eq, Structural)]
pub struct ActiveFrameToken(pub u64);

/// How a native body is entered.
#[derive(Clone, Copy, Debug, PartialEq, Eq, Structural)]
pub enum NativeCProto {
    Generic,
    Constructor,
    Getter,
    Setter,
    IteratorNext,
}

/// A native function together with the facts that the virtual machine reads of it.
#[derive(Clone, Copy, Debug, PartialEq, Eq, Structural)]
pub struct NativeFunctionId {
    pub code: u32,
    pub cproto: NativeCProto,
    /// Whether the body runs in the calling realm instead of the defining one.
    pub uses_calling_realm: bool,
    /// Whether a direct call may be selected without the general entry.
    pub registered: bool,
    /// Share of the native stack budget that one activation takes.
    pub weight: usize,
    /// Family whose nesting depth the activation counts towards.
    pub family: Option<usize>,
    /// Whether the activation stays out of backtraces.
    pub hidden: bool,
}

#[derive(Clone, Copy, Debug, PartialEq, Eq, Structural)]
pub enum ActiveFrameKind {
    Bytecode { pc: usize, strict: bool },
    Native { target: NativeFunctionId, actual_arg_count: usize, readable_arg_count: usize },
}

#[derive(Clone, Copy, Debug, PartialEq, Eq, Structural)]
pub struct ActiveFrameRecord {
    pub token: ActiveFrameToken,
    pub function: ObjectRef,
    pub realm: usize,
    pub kind: ActiveFrameKind,
    pub native_continuation: bool,
    pub backtrace_hidden: bool,
}

proof fn scan_push(records: Seq<ActiveFrameRecord>, record: ActiveFrameRecord)
    ensures
        ActiveFrames::scan_cost(records.push(record)) == ActiveFrames::scan_cost(records) + ActiveFrames::record_cost(record),
        forall|f: int|
            ActiveFrames::scan_family(records.push(record), f) == ActiveFrames::scan_family(records, f) + (if ActiveFrames::record_in_family(
                record,
                f,
            ) {
                1nat
            } else {
                0nat
            }),
{
    assert(records.push(record).drop_last() =~= records);
}

proof fn scan_update(records: Seq<ActiveFrameRecord>, i: int, record: ActiveFrameRecord, f: int)
    requires
        0 <= i < records.len(),
    ensures
        ActiveFrames::scan_cost(records.update(i, record)) == ActiveFrames::scan_cost(records) - ActiveFrames::record_cost(records[i])
            + ActiveFrames::record_cost(record),
        ActiveFrames::scan_family(records.update(i, record), f) == ActiveFrames::scan_family(records, f) - (
        if ActiveFrames::record_in_family(records[i], f) {
            1int
        } else {
            0int
        }) + (if ActiveFrames::record_in_family(record, f) {
            1int
        } else {
            0int
        }),
    decreases records.len(),
{
    let updated = records.update(i, record);
    if i == records.len() - 1 {
        assert(updated.drop_last() =~= records.drop_last());
    } else {
        assert(updated.drop_last() =~= records.drop_last().update(i, record));
        scan_update(records.drop_last(), i, record, f);
    }
}

proof fn scan_family_bound(records: Seq<ActiveFrameRecord>, family: int)
    ensures
        ActiveFrames::scan_family(records, family) <= records.len(),
    decreases records.len(),
{
    if records.len() > 0 {
        scan_family_bound(records.drop_last(), family);
    }
}

proof fn scan_member(records: Seq<ActiveFrameRecord>, i: int, f: int)
    requires
        0 <= i < records.len(),
    ensures
        ActiveFrames::record_cost(records[i]) <= ActiveFrames::scan_cost(records),
        ActiveFrames::record_in_family(records[i], f) ==> ActiveFrames::scan_family(records, f) >= 1,
    decreases records.len(),
{
    if i < records.len() - 1 {
        scan_member(records.drop_last(), i, f);
    }
}

/// The activation stack.  The newest native record may be held outside the
/// vector; observers see one sequence.
pub struct ActiveFrames {
    records: Vec<ActiveFrameRecord>,
    pending_native: Option<ActiveFrameRecord>,
    depth: usize,
    native_cost: usize,
    families: Vec<usize>,
}

impl View for ActiveFrames {
    type V = Seq<ActiveFrameRecord>;

    closed spec fn view(&self) -> Seq<ActiveFrameRecord> {
        match self.pending_native {
            Some(record) => self.records@.push(record),
            None => self.records@,
        }
    }
}

impl ActiveFrames {
    pub open spec fn cut(records: Seq<ActiveFrameRecord>, depth: int) -> Seq<ActiveFrameRecord> {
        if depth < records.len() {
            records.take(depth)
        } else {
            records
        }
    }

    /// Publishing the program counter of the newest record.
    pub open spec fn pc_published(
        records: Seq<ActiveFrameRecord>,
        token: ActiveFrameToken,
        pc: usize,
    ) -> (Seq<ActiveFrameRecord>, Result<(), Error>) {
        if records.len() == 0 || records.last().token != token {
            (records, Err(Error::broken("active bytecode frame is not current")))
        } else {
            match records.last().kind {
                ActiveFrameKind::Bytecode { strict, .. } => (
                    records.update(
                        records.len() - 1,
                        ActiveFrameRecord {
                            kind: ActiveFrameKind::Bytecode { pc, strict },
                            ..records.last()
                        },
                    ),
                    Ok(()),
                ),
                _ => (records, Err(Error::broken("active frame is not a bytecode frame"))),
            }
        }
    }

    /// Where `retire` cuts: at `depth` if the token stands there, else at the
    /// first record with the token, else at `depth`.
    pub open spec fn retire_position(
        records: Seq<ActiveFrameRecord>,
        token: ActiveFrameToken,
        depth: int,
    ) -> int {
        if 0 <= depth < records.len() && records[depth].token == token {
            depth
        } else {
            match ActiveFrames::position_from(records, token, 0) {
                Some(p) => p,
                None => depth,
            }
        }
    }

    pub open spec fn scan_cost(records: Seq<ActiveFrameRecord>) -> nat
        decreases records.len(),
    {
        if records.len() == 0 {
            0
        } else {
            ActiveFrames::scan_cost(records.drop_last()) + ActiveFrames::record_cost(records.last())
        }
    }

    pub open spec fn scan_family(records: Seq<ActiveFrameRecord>, family: int) -> nat
        decreases records.len(),
    {
        if records.len() == 0 {
            0
        } else {
            ActiveFrames::scan_family(records.drop_last(), family) + (if ActiveFrames::record_in_family(records.last(), family) {
                1nat
            } else {
                0nat
            })
        }
    }

    /// Budget share of one record: continuations and bytecode frames take none.
    pub open spec fn record_cost(record: ActiveFrameRecord) -> nat {
        if record.native_continuation {
            0
        } else {
            match record.kind {
                ActiveFrameKind::Native { target, .. } => target.weight as nat,
                _ => 0,
            }
        }
    }

    /// Whether one record counts towards `family`.
    pub open spec fn record_in_family(record: ActiveFrameRecord, family: int) -> bool {
        !record.native_continuation && (record.kind matches ActiveFrameKind::Native { target, .. }
            && target.family matches Some(f) && f == family)
    }

    /// The record names no family, or one that is counted.
    pub open spec fn record_valid(record: ActiveFrameRecord) -> bool {
        record.kind matches ActiveFrameKind::Native { target, .. } ==> (target.family matches Some(f)
            ==> f < FAMILY_COUNT)
    }

    /// First position of a record with this token, looking from `from`.
    pub open spec fn position_from(
        records: Seq<ActiveFrameRecord>,
        token: ActiveFrameToken,
        from: int,
    ) -> Option<int>
        decreases records.len() - from,
    {
        if from < 0 || from >= records.len() {
            None
        } else if records[from].token == token {
            Some(from)
        } else {
            ActiveFrames::position_from(records, token, from + 1)
        }
    }

    pub closed spec fn cost_field(&self) -> nat {
        self.native_cost as nat
    }

    /// The depth counted for each family.
    pub closed spec fn family_depths(&self) -> Seq<usize> {
        self.families@
    }

    pub closed spec fn depth_field(&self) -> nat {
        self.depth as nat
    }

    /// Whether the newest record is a native one held outside the vector.
    pub closed spec fn tail_is_lazy(&self) -> bool {
        self.pending_native is Some
    }

    pub closed spec fn shape(&self) -> bool {
        self.families@.len() == FAMILY_COUNT
    }

    /// Counters agree with a scan and the published depth with the length.
    pub open spec fn wf(&self) -> bool {
        &&& self.shape()
        &&& self.depth_field() == self@.len()
        &&& self.cost_field() == ActiveFrames::scan_cost(self@)
        &&& forall|f: int|
            0 <= f < FAMILY_COUNT ==> #[trigger] self.family_depths()[f] == ActiveFrames::scan_family(self@, f)
        &&& forall|i: int| 0 <= i < self@.len() ==> ActiveFrames::record_valid(#[trigger] self@[i])
    }

    /// The budget in use is a machine number.
    pub proof fn cost_fits(&self)
        requires
            self.wf(),
        ensures
            ActiveFrames::scan_cost(self@) <= usize::MAX,
    {
    }

    /// The newest record, to be changed in place.
    pub fn last_mut(&mut self) -> (r: Option<&mut ActiveFrameRecord>)
        ensures
            match r {
                Some(record) => {
                    &&& old(self)@.len() > 0
                    &&& *record == old(self)@.last()
                    &&& final(self)@ == old(self)@.update(old(self)@.len() - 1, *final(record))
                },
                None => old(self)@.len() == 0 && final(self)@ == old(self)@,
            },
            final(self).depth_field() == old(self).depth_field(),
            final(self).cost_field() == old(self).cost_field(),
            final(self).family_depths() == old(self).family_depths(),
            final(self).tail_is_lazy() == old(self).tail_is_lazy(),
    {
        if self.pending_native.is_some() {
            self.pending_native.as_mut()
        } else {
            self.records.last_mut()
        }
    }

    /// An empty stack whose published depth starts at zero.
    pub fn with_depth() -> (r: Self)
        ensures
            r.wf(),
            r@ == Seq::<ActiveFrameRecord>::empty(),
            !r.tail_is_lazy(),
    {
        let mut families: Vec<usize> = Vec::new();
        let mut i: usize = 0;
        while i < FAMILY_COUNT
            invariant
                i <= FAMILY_COUNT,
                families@.len() == i,
                forall|j: int| 0 <= j < i ==> families@[j] == 0,
            decreases FAMILY_COUNT - i,
        {
            families.push(0);
            i = i + 1;
        }
        ActiveFrames {
            records: Vec::new(),
            pending_native: None,
            depth: 0,
            native_cost: 0,
            families,
        }
    }

    pub fn len(&self) -> (r: usize)
        requires
            self.wf(),
        ensures
            r == self@.len(),
    {
        match self.pending_native {
            Some(_) => self.records.len() + 1,
            None => self.records.len(),
        }
    }

    pub fn is_empty(&self) -> (r: bool)
        requires
            self.wf(),
        ensures
            r == (self@.len() == 0),
    {
        self.len() == 0
    }

    /// Whether the newest record is still outside the vector.
    pub fn has_lazy_tail(&self) -> (r: bool)
        ensures
            r == self.tail_is_lazy(),
    {
        self.pending_native.is_some()
    }

    /// The depth shared with observers outside the stack.
    pub fn published_depth(&self) -> (r: usize)
        requires
            self.wf(),
        ensures
            r == self@.len(),
    {
        self.depth
    }

    pub fn get(&self, index: usize) -> (r: Option<&ActiveFrameRecord>)
        ensures
            match r {
                Some(record) => index < self@.len() && *record == self@[index as int],
                None => index >= self@.len(),
            },
    {
        if index == self.records.len() {
            match &self.pending_native {
                Some(record) => Some(record),
                None => None,
            }
        } else if index < self.records.len() {
            Some(&self.records[index])
        } else {
            None
        }
    }

    /// Replace the record at `index` without touching what it is charged.
    pub fn get_mut(&mut self, index: usize) -> (r: Option<&mut ActiveFrameRecord>)
        ensures
            match r {
                Some(record) => {
                    &&& index < old(self)@.len()
                    &&& *record == old(self)@[index as int]
                    &&& final(self)@ == old(self)@.update(index as int, *final(record))
                },
                None => index >= old(self)@.len() && final(self)@ == old(self)@,
            },
            final(self).cost_field() == old(self).cost_field(),
            final(self).depth_field() == old(self).depth_field(),
            final(self).shape() == old(self).shape(),
            final(self).tail_is_lazy() == old(self).tail_is_lazy(),
            final(self).family_depths() == old(self).family_depths(),
    {
        if index == self.records.len() {
            match &mut self.pending_native {
                Some(record) => Some(record),
                None => None,
            }
        } else if index < self.records.len() {
            Some(&mut self.records[index])
        } else {
            None
        }
    }

    pub fn last(&self) -> (r: Option<&ActiveFrameRecord>)
        ensures
            match r {
                Some(record) => self@.len() > 0 && *record == self@.last(),
                None => self@.len() == 0,
            },
    {
        match &self.pending_native {
            Some(record) => Some(record),
            None => {
                if self.records.len() == 0 {
                    None
                } else {
                    Some(&self.records[self.records.len() - 1])
                }
            },
        }
    }

    /// The records from the oldest to the newest.
    pub fn to_vec(&self) -> (r: Vec<ActiveFrameRecord>)
        ensures
            r@ == self@,
    {
        let mut out: Vec<ActiveFrameRecord> = Vec::new();
        let mut i: usize = 0;
        while i < self.records.len()
            invariant
                i <= self.records@.len(),
                out@ == self.records@.take(i as int),
            decreases self.records@.len() - i,
        {
            out.push(self.records[i]);
            i = i + 1;
        }
        proof {
            assert(self.records@.take(self.records@.len() as int) =~= self.records@);
        }
        match self.pending_native {
            Some(record) => {
                out.push(record);
            },
            None => {},
        }
        out
    }

    /// Snapshot for walking the stack.
    pub fn iter(&self) -> (r: Vec<ActiveFrameRecord>)
        ensures
            r@ == self@,
    {
        self.to_vec()
    }

    /// Move a lazily held native record into the vector.
    pub fn materialize_native_tail(&mut self)
        ensures
            final(self)@ == old(self)@,
            !final(self).tail_is_lazy(),
            final(self).cost_field() == old(self).cost_field(),
            final(self).depth_field() == old(self).depth_field(),
            final(self).shape() == old(self).shape(),
            final(self).family_depths() == old(self).family_depths(),
    {
        match self.pending_native {
            Some(record) => {
                self.pending_native = None;
                self.records.push(record);
            },
            None => {},
        }
    }

    pub fn native_cost(&self) -> (r: usize)
        requires
            self.wf(),
        ensures
            r == ActiveFrames::scan_cost(self@),
    {
        self.native_cost
    }

    pub fn native_family_depth(&self, family: usize) -> (r: usize)
        requires
            self.wf(),
            family < FAMILY_COUNT,
        ensures
            r == ActiveFrames::scan_family(self@, family as int),
    {
        assert(self.family_depths()[family as int] == ActiveFrames::scan_family(self@, family as int));
        self.families[family]
    }

    /// Add or remove what one record is charged; the records stay as they are.
    pub fn charge(&mut self, record: ActiveFrameRecord, add: bool)
        requires
            old(self).shape(),
            ActiveFrames::record_valid(record),
            add ==> old(self).cost_field() + ActiveFrames::record_cost(record) <= usize::MAX,
            add ==> forall|f: int|
                0 <= f < FAMILY_COUNT && ActiveFrames::record_in_family(record, f) ==> (
                #[trigger] old(self).family_depths()[f]) < usize::MAX,
            !add ==> ActiveFrames::record_cost(record) <= old(self).cost_field(),
            !add ==> forall|f: int|
                0 <= f < FAMILY_COUNT && ActiveFrames::record_in_family(record, f) ==> (
                #[trigger] old(self).family_depths()[f]) >= 1,
        ensures
            final(self)@ == old(self)@,
            final(self).shape(),
            final(self).depth_field() == old(self).depth_field(),
            final(self).tail_is_lazy() == old(self).tail_is_lazy(),
            final(self).cost_field() == (if add {
                old(self).cost_field() + ActiveFrames::record_cost(record)
            } else {
                (old(self).cost_field() - ActiveFrames::record_cost(record)) as nat
            }),
            forall|f: int|
                0 <= f < FAMILY_COUNT ==> #[trigger] final(self).family_depths()[f] == (
                if ActiveFrames::record_in_family(record, f) {
                    if add {
                        old(self).family_depths()[f] + 1
                    } else {
                        old(self).family_depths()[f] - 1
                    }
                } else {
                    old(self).family_depths()[f] as int
                }),
    {
        if record.native_continuation {
            return;
        }
        match record.kind {
            ActiveFrameKind::Native { target, .. } => {
                if add {
                    self.native_cost = self.native_cost + target.weight;
                } else {
                    self.native_cost = self.native_cost - target.weight;
                }
                match target.family {
                    Some(family) => {
                        proof {
                            assert(ActiveFrames::record_in_family(record, family as int));
                            assert(old(self).family_depths()[family as int] == self.families@[family as int]);
                        }
                        let count: usize = self.families[family];
                        if add {
                            self.families.set(family, count + 1);
                        } else {
                            self.families.set(family, count - 1);
                        }
                    },
                    None => {},
                }
            },
            _ => {},
        }
    }

    /// Push a native record that stays outside the vector until something follows it.
    pub fn push_lazy_native(&mut self, record: ActiveFrameRecord)
        requires
            old(self).wf(),
            ActiveFrames::record_valid(record),
            old(self)@.len() < usize::MAX,
            ActiveFrames::scan_cost(old(self)@) + ActiveFrames::record_cost(record) <= usize::MAX,
        ensures
            final(self).wf(),
            final(self)@ == old(self)@.push(record),
            final(self).tail_is_lazy(),
    {
        let ghost before = self@;
        proof {
            assert forall|f: int| ActiveFrames::scan_family(before, f) <= before.len() by {
                scan_family_bound(before, f);
            }
            scan_push(before, record);
        }
        self.materialize_native_tail();
        self.pending_native = Some(record);
        self.depth = self.records.len() + 1;
        self.charge(record, true);
    }

    pub fn push(&mut self, record: ActiveFrameRecord)
        requires
            old(self).wf(),
            ActiveFrames::record_valid(record),
            old(self)@.len() < usize::MAX,
            ActiveFrames::scan_cost(old(self)@) + ActiveFrames::record_cost(record) <= usize::MAX,
        ensures
            final(self).wf(),
            final(self)@ == old(self)@.push(record),
            !final(self).tail_is_lazy(),
    {
        let ghost before = self@;
        proof {
            assert forall|f: int| ActiveFrames::scan_family(before, f) <= before.len() by {
                scan_family_bound(before, f);
            }
            scan_push(before, record);
        }
        self.materialize_native_tail();
        self.records.push(record);
        self.depth = self.records.len();
        self.charge(record, true);
    }

    pub fn pop(&mut self) -> (r: Option<ActiveFrameRecord>)
        requires
            old(self).wf(),
        ensures
            final(self).wf(),
            match r {
                Some(record) => old(self)@.len() > 0 && record == old(self)@.last() && final(self)@
                    == old(self)@.drop_last(),
                None => old(self)@.len() == 0 && final(self)@ == old(self)@,
            },
    {
        let ghost before = self@;
        let record = match self.pending_native {
            Some(record) => {
                self.pending_native = None;
                record
            },
            None => match self.records.pop() {
                Some(record) => record,
                None => {
                    assert(self@ =~= before);
                    assert(self.family_depths() == old(self).family_depths());
                    return None;
                },
            },
        };
        proof {
            assert(self@ =~= before.drop_last());
            assert(before.drop_last().push(record) =~= before);
            scan_push(before.drop_last(), record);
            assert forall|f: int| ActiveFrames::record_in_family(record, f) implies ActiveFrames::scan_family(before, f)
                >= 1 by {
                scan_member(before, before.len() - 1, f);
            }
            assert(self.family_depths() == old(self).family_depths());
        }
        self.depth = self.records.len();
        self.charge(record, false);
        Some(record)
    }

    pub fn truncate(&mut self, depth: usize)
        requires
            old(self).wf(),
        ensures
            final(self).wf(),
            final(self)@ == ActiveFrames::cut(old(self)@, depth as int),
    {
        let ghost before = self@;
        let mut length: usize = self.len();
        while length > depth
            invariant
                self.wf(),
                length == self@.len(),
                length <= before.len(),
                self@ == before.take(length as int),
                before.len() > depth || length == before.len(),
                before.len() > depth ==> length >= depth,
            decreases length,
        {
            self.pop();
            length = length - 1;
            proof {
                assert(before.take(length as int + 1).drop_last() =~= before.take(length as int));
            }
        }
        proof {
            assert(before.take(before.len() as int) =~= before);
        }
    }

    /// Exempt one native record from the budget: its continuation no longer
    /// occupies the native stack.
    pub fn mark_native_continuation(&mut self, depth: usize, token: ActiveFrameToken)
        requires
            old(self).wf(),
            depth < old(self)@.len(),
            old(self)@[depth as int].token == token,
        ensures
            final(self).wf(),
            final(self)@ == old(self)@.update(
                depth as int,
                ActiveFrameRecord { native_continuation: true, ..old(self)@[depth as int] },
            ),
    {
        let ghost before = self@;
        let record = match self.get(depth) {
            Some(record) => *record,
            None => {
                return;
            },
        };
        proof {
            let marked = ActiveFrameRecord { native_continuation: true, ..record };
            scan_member(before, depth as int, 0);
            scan_update(before, depth as int, marked, 0);
            assert forall|f: int| ActiveFrames::record_in_family(record, f) implies ActiveFrames::scan_family(before, f)
                >= 1 by {
                scan_member(before, depth as int, f);
            }
            assert forall|f: int|
                ActiveFrames::scan_family(before.update(depth as int, marked), f) == ActiveFrames::scan_family(before, f) - (
                if ActiveFrames::record_in_family(record, f) {
                    1int
                } else {
                    0int
                }) by {
                scan_update(before, depth as int, marked, f);
            }
        }
        self.charge(record, false);
        match self.get_mut(depth) {
            Some(slot) => {
                slot.native_continuation = true;
            },
            None => {},
        }
    }

    /// Publish the program counter of the newest record.
    pub fn set_current_pc(&mut self, token: ActiveFrameToken, pc: usize) -> (r: Result<(), Error>)
        requires
            old(self).wf(),
        ensures
            final(self).wf(),
            (final(self)@, r) == ActiveFrames::pc_published(old(self)@, token, pc),
    {
        let ghost before = self@;
        let length: usize = self.len();
        let record = match self.last() {
            Some(record) => *record,
            None => {
                return Err(Error::broken("active bytecode frame is not current"));
            },
        };
        if record.token != token {
            return Err(Error::broken("active bytecode frame is not current"));
        }
        match record.kind {
            ActiveFrameKind::Bytecode { strict, .. } => {
                let ghost updated = ActiveFrameRecord {
                    kind: ActiveFrameKind::Bytecode { pc, strict },
                    ..record
                };
                proof {
                    scan_update(before, before.len() - 1, updated, 0);
                    assert forall|f: int|
                        ActiveFrames::scan_family(before.update(before.len() - 1, updated), f) == ActiveFrames::scan_family(
                            before,
                            f,
                        ) by {
                        scan_update(before, before.len() - 1, updated, f);
                    }
                }
                match self.get_mut(length - 1) {
                    Some(slot) => {
                        slot.kind = ActiveFrameKind::Bytecode { pc, strict };
                    },
                    None => {},
                }
                Ok(())
            },
            _ => Err(Error::broken("active frame is not a bytecode frame")),
        }
    }

    /// First position of a record with this token.
    pub fn position(&self, token: ActiveFrameToken) -> (r: Option<usize>)
        requires
            self.wf(),
        ensures
            match r {
                Some(p) => ActiveFrames::position_from(self@, token, 0) == Some(p as int),
                None => ActiveFrames::position_from(self@, token, 0) is None,
            },
    {
        let length: usize = self.len();
        let mut i: usize = 0;
        while i < length
            invariant
                self.wf(),
                length == self@.len(),
                i <= length,
                ActiveFrames::position_from(self@, token, 0) == ActiveFrames::position_from(self@, token, i as int),
            decreases length - i,
        {
            match self.get(i) {
                Some(record) => {
                    if record.token == token {
                        return Some(i);
                    }
                },
                None => {},
            }
            i = i + 1;
        }
        None
    }

    /// Remove the record with this token and everything above it.
    pub fn retire(&mut self, token: ActiveFrameToken, depth: usize)
        requires
            old(self).wf(),
        ensures
            final(self).wf(),
            final(self)@ == ActiveFrames::cut(old(self)@, ActiveFrames::retire_position(old(self)@, token, depth as int)),
    {
        let here = match self.get(depth) {
            Some(record) => record.token == token,
            None => false,
        };
        let position: usize = if here {
            depth
        } else {
            match self.position(token) {
                Some(p) => p,
                None => depth,
            }
        };
        self.truncate(position);
    }
}

/// A copy publishes its depth on its own.
impl Clone for ActiveFrames {
    fn clone(&self) -> (r: Self)
        ensures
            r@ == self@,
            r.tail_is_lazy() == self.tail_is_lazy(),
            self.wf() ==> r.wf(),
    {
        let mut records: Vec<ActiveFrameRecord> = Vec::new();
        let mut i: usize = 0;
        while i < self.records.len()
            invariant
                i <= self.records@.len(),
                records@ == self.records@.take(i as int),
            decreases self.records@.len() - i,
        {
            records.push(self.records[i]);
            i = i + 1;
        }
        let mut families: Vec<usize> = Vec::new();
        let mut f: usize = 0;
        while f < self.families.len()
            invariant
                f <= self.families@.len(),
                families@ == self.families@.take(f as int),
            decreases self.families@.len() - f,
        {
            families.push(self.families[f]);
            f = f + 1;
        }
        assert(records@ =~= self.records@);
        assert(families@ =~= self.families@);
        let copy = ActiveFrames {
            records,
            pending_native: self.pending_native,
            depth: self.depth,
            native_cost: self.native_cost,
            families,
        };
        assert(copy.family_depths() =~= self.family_depths());
        assert(copy@ =~= self@);
        copy
    }
}

/// The native budget: a native activation adds its weight and counts towards its
/// family, whatever stands below; code and continuations add nothing.
pub proof fn only_native_bodies_take_budget(
    records: Seq<ActiveFrameRecord>,
    record: ActiveFrameRecord,
    family: int,
)
    ensures
        ActiveFrames::scan_cost(Seq::<ActiveFrameRecord>::empty()) == 0,
        record.kind is Bytecode || record.native_continuation ==> ActiveFrames::scan_cost(
            records.push(record),
        ) == ActiveFrames::scan_cost(records) && ActiveFrames::scan_family(
            records.push(record),
            family,
        ) == ActiveFrames::scan_family(records, family),
        record.kind matches ActiveFrameKind::Native { target, .. } ==> !record.native_continuation
            ==> {
            &&& ActiveFrames::scan_cost(records.push(record)) == ActiveFrames::scan_cost(records)
                + target.weight
            &&& ActiveFrames::scan_family(records.push(record), family)
                == ActiveFrames::scan_family(records, family) + if target.family is Some
                && target.family->Some_0 == family {
                1int
            } else {
                0
            }
        },
{
    assert(records.push(record).drop_last() =~= records);
}

proof fn first_tokens(records: Seq<ActiveFrameRecord>, token: ActiveFrameToken, from: int)
    requires
        0 <= from,
    ensures
        match ActiveFrames::position_from(records, token, from) {
            Some(p) => from <= p < records.len() && records[p].token == token && forall|i: int|
                from <= i < p ==> (#[trigger] records[i]).token != token,
            None => forall|i: int|
                from <= i < records.len() ==> (#[trigger] records[i]).token != token,
        },
    decreases records.len() - from,
{
    if from < records.len() && records[from].token != token {
        first_tokens(records, token, from + 1);
    }
}

/// Retiring a record removes it and everything above it and leaves everything
/// below, wherever the record was believed to stand.
pub proof fn retirement_removes_the_record(
    records: Seq<ActiveFrameRecord>,
    token: ActiveFrameToken,
    depth: int,
    at: int,
)
    requires
        0 <= at < records.len(),
        records[at].token == token,
        forall|i: int, j: int|
            0 <= i < j < records.len() ==> (#[trigger] records[i]).token != (
            #[trigger] records[j]).token,
    ensures
        ActiveFrames::cut(records, ActiveFrames::retire_position(records, token, depth))
            == records.take(at),
{
    first_tokens(records, token, 0);
    match ActiveFrames::position_from(records, token, 0) {
        Some(p) => {
            if p != at {
                assert(records[p].token == records[at].token);
            }
        },
        None => {},
    }
    if 0 <= depth < records.len() && records[depth].token == token && depth != at {
        assert(records[depth].token == records[at].token);
    }
}

/// Publishing a program counter changes that counter of the newest code record
/// and nothing else; records of other calls and native records refuse it.
pub proof fn counters_are_published_in_the_newest(
    records: Seq<ActiveFrameRecord>,
    token: ActiveFrameToken,
    pc: usize,
)
    ensures
        ({
            let (after, r) = ActiveFrames::pc_published(records, token, pc);
            &&& after.len() == records.len()
            &&& forall|i: int| 0 <= i < records.len() - 1 ==> after[i] == records[i]
            &&& r is Ok <==> records.len() > 0 && records.last().token == token && records.last().kind
                is Bytecode
            &&& r is Err ==> after == records
            &&& r is Ok ==> (after.last().kind matches ActiveFrameKind::Bytecode { pc: shown, strict }
                && shown == pc && strict == records.last().kind->strict) && after.last().token
                == token && after.last().function == records.last().function && after.last().realm
                == records.last().realm && after.last().backtrace_hidden
                == records.last().backtrace_hidden && after.last().native_continuation
                == records.last().native_continuation
        }),
{
}

} // verus!
