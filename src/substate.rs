//! The nested substate stack of call frames.

use vstd::prelude::*;

use crate::outcome::{log_views, ExitError, Log, LogView};
use crate::types::{H160, H256};

verus! {

/// Per-frame execution metadata: the frame's gas budget, whether it runs in a
/// static (read-only) context, and its call depth (`None` for the root frame).
#[derive(Clone, Copy, Debug, PartialEq, Eq)]
pub struct StackSubstateMetadata {
    pub gas_limit: u64,
    pub is_static: bool,
    pub depth: Option<usize>,
}

impl StackSubstateMetadata {
    /// Metadata of a root frame with the given gas budget.
    pub fn new(gas_limit: u64) -> (r: StackSubstateMetadata)
        ensures
            r == (StackSubstateMetadata { gas_limit, is_static: false, depth: None }),
    {
        StackSubstateMetadata { gas_limit, is_static: false, depth: None }
    }

    /// Metadata of a child frame: its own gas budget, static if asked or if the
    /// parent is, one level deeper.
    pub open spec fn child_spec(self, gas_limit: u64, is_static: bool) -> StackSubstateMetadata {
        StackSubstateMetadata {
            gas_limit,
            is_static: is_static || self.is_static,
            depth: match self.depth {
                None => Some(0usize),
                Some(d) => Some((d + 1) as usize),
            },
        }
    }

    pub fn spit_child(&self, gas_limit: u64, is_static: bool) -> (r: StackSubstateMetadata)
        requires
            self.depth matches Some(d) ==> d < usize::MAX,
        ensures
            r == self.child_spec(gas_limit, is_static),
    {
        let depth = match self.depth {
            None => Some(0usize),
            Some(d) => Some(d + 1),
        };
        StackSubstateMetadata { gas_limit, is_static: is_static || self.is_static, depth }
    }
}

/// What a frame holds, as the contracts see it.
pub struct FrameView {
    pub metadata: StackSubstateMetadata,
    pub deletes: Set<H160>,
    pub logs: Seq<LogView>,
}

/// One call frame: its metadata, the addresses it marked for deletion (each
/// once), and the logs it emitted, in order.
pub struct SubstateFrame {
    pub metadata: StackSubstateMetadata,
    pub deletes: Vec<H160>,
    pub logs: Vec<Log>,
}

impl SubstateFrame {
    pub open spec fn view(&self) -> FrameView {
        FrameView {
            metadata: self.metadata,
            deletes: Set::new(|a: H160| self.deletes@.contains(a)),
            logs: log_views(self.logs@),
        }
    }

    pub open spec fn wf(&self) -> bool {
        self.deletes@.no_duplicates()
    }
}

/// The frame after entering a call, with the given metadata.
pub open spec fn fresh_frame(metadata: StackSubstateMetadata) -> FrameView {
    FrameView { metadata, deletes: Set::empty(), logs: Seq::empty() }
}

/// The frames after entering a call from the current frame.
pub open spec fn enter_spec(s: Seq<FrameView>, gas_limit: u64, is_static: bool) -> Seq<FrameView> {
    s.push(fresh_frame(s.last().metadata.child_spec(gas_limit, is_static)))
}

/// The parent frame after a child commits: the child's logs follow the
/// parent's, and the child's deletions join the parent's.
pub open spec fn commit_into(parent: FrameView, child: FrameView) -> FrameView {
    FrameView {
        metadata: parent.metadata,
        deletes: parent.deletes.union(child.deletes),
        logs: parent.logs + child.logs,
    }
}

/// The parent frame after a child reverts or is discarded: the child's logs
/// follow the parent's, and the child's deletions are dropped.
pub open spec fn revert_into(parent: FrameView, child: FrameView) -> FrameView {
    FrameView { metadata: parent.metadata, deletes: parent.deletes, logs: parent.logs + child.logs }
}

/// The frames after the current frame commits; `None` at the root.
pub open spec fn commit_spec(s: Seq<FrameView>) -> Option<Seq<FrameView>> {
    if s.len() < 2 {
        None
    } else {
        let n = s.len() - 1;
        Some(s.drop_last().update(n - 1, commit_into(s[n - 1], s[n])))
    }
}

/// The frames after the current frame reverts or is discarded; `None` at the root.
pub open spec fn revert_spec(s: Seq<FrameView>) -> Option<Seq<FrameView>> {
    if s.len() < 2 {
        None
    } else {
        let n = s.len() - 1;
        Some(s.drop_last().update(n - 1, revert_into(s[n - 1], s[n])))
    }
}

/// Whether some frame, from the current one up to the root, marked `address`.
pub open spec fn deleted_spec(s: Seq<FrameView>, address: H160) -> bool {
    exists|i: int| 0 <= i < s.len() && #[trigger] s[i].deletes.contains(address)
}

/// The frames after the current frame marks `address` for deletion.
pub open spec fn set_deleted_spec(s: Seq<FrameView>, address: H160) -> Seq<FrameView> {
    s.update(
        s.len() - 1,
        FrameView {
            metadata: s.last().metadata,
            deletes: s.last().deletes.insert(address),
            logs: s.last().logs,
        },
    )
}

/// The frames after the current frame emits `log`.
pub open spec fn log_spec(s: Seq<FrameView>, log: LogView) -> Seq<FrameView> {
    s.update(
        s.len() - 1,
        FrameView { metadata: s.last().metadata, deletes: s.last().deletes, logs: s.last().logs.push(log) },
    )
}

/// Whether `v` holds `a`.
fn contains_address(v: &Vec<H160>, a: &H160) -> (r: bool)
    ensures
        r == v@.contains(*a),
{
    let mut i: usize = 0;
    while i < v.len()
        invariant
            i <= v@.len(),
            forall|j: int| 0 <= j < i ==> v@[j] != *a,
        decreases v@.len() - i,
    {
        if v[i].same(a) {
            assert(v@[i as int] == *a);
            return true;
        }
        i = i + 1;
    }
    false
}

/// Adds `a` to `v` unless it is there already.
fn insert_address(v: &mut Vec<H160>, a: H160)
    requires
        old(v)@.no_duplicates(),
    ensures
        final(v)@.no_duplicates(),
        forall|b: H160| #[trigger] final(v)@.contains(b) <==> (old(v)@.contains(b) || b == a),
{
    if !contains_address(v, &a) {
        let ghost o = v@;
        v.push(a);
        assert forall|b: H160| v@.contains(b) <==> (o.contains(b) || b == a) by {
            if o.contains(b) {
                let j = choose|j: int| 0 <= j < o.len() && #[trigger] o[j] == b;
                assert(v@[j] == b);
            }
            if b == a {
                assert(v@[o.len() as int] == b);
            }
        }
    }
}

/// Adds to `dst` each address of `src` that it does not hold yet.
fn merge_addresses(dst: &mut Vec<H160>, src: &Vec<H160>)
    requires
        old(dst)@.no_duplicates(),
    ensures
        final(dst)@.no_duplicates(),
        forall|b: H160| #[trigger] final(dst)@.contains(b) <==> (old(dst)@.contains(b) || src@.contains(b)),
{
    let ghost d0 = dst@;
    let mut i: usize = 0;
    while i < src.len()
        invariant
            0 <= i <= src@.len(),
            dst@.no_duplicates(),
            forall|b: H160|
                #[trigger] dst@.contains(b) <==> (d0.contains(b) || src@.subrange(0, i as int).contains(b)),
        decreases src@.len() - i,
    {
        let a = src[i];
        insert_address(dst, a);
        assert forall|b: H160|
            #[trigger] src@.subrange(0, i + 1).contains(b) <==> (src@.subrange(0, i as int).contains(b)
                || b == a) by {
            if src@.subrange(0, i + 1).contains(b) {
                let j = choose|j: int| 0 <= j < i + 1 && #[trigger] src@.subrange(0, i + 1)[j] == b;
                if j < i {
                    assert(src@.subrange(0, i as int)[j] == b);
                }
            }
            if src@.subrange(0, i as int).contains(b) {
                let j = choose|j: int| 0 <= j < i && #[trigger] src@.subrange(0, i as int)[j] == b;
                assert(src@.subrange(0, i + 1)[j] == b);
            }
            if b == a {
                assert(src@.subrange(0, i + 1)[i as int] == b);
            }
        }
        i = i + 1;
    }
    assert(src@.subrange(0, src@.len() as int) =~= src@);
}

/// The nested substate stack: one frame per call level, the last one current.
pub struct SubstrateStackSubstate {
    current: SubstateFrame,
    parents: Vec<SubstateFrame>,
}

impl View for SubstrateStackSubstate {
    type V = Seq<FrameView>;

    /// The frames from the root to the current one.
    closed spec fn view(&self) -> Seq<FrameView> {
        self.parents@.map_values(|f: SubstateFrame| f.view()).push(self.current.view())
    }
}

impl SubstrateStackSubstate {
    /// Frames are free of duplicate deletions, and depths count from the root.
    pub closed spec fn wf(&self) -> bool {
        &&& self.current.wf()
        &&& forall|i: int| 0 <= i < self.parents@.len() ==> (#[trigger] self.parents@[i]).wf()
        &&& forall|i: int|
            0 <= i < self@.len() ==> (#[trigger] self@[i]).metadata.depth == (if i == 0 {
                None
            } else {
                Some((i - 1) as usize)
            })
    }

    /// A well-formed stack has its root frame.
    pub proof fn lemma_wf_has_root(&self)
        requires
            self.wf(),
        ensures
            self@.len() >= 1,
            self@[0].metadata.depth is None,
    {
    }

    /// A stack of one root frame.
    pub fn new(metadata: StackSubstateMetadata) -> (r: SubstrateStackSubstate)
        requires
            metadata.depth is None,
        ensures
            r.wf(),
            r@ == seq![fresh_frame(metadata)],
    {
        let r = SubstrateStackSubstate {
            current: SubstateFrame { metadata, deletes: Vec::new(), logs: Vec::new() },
            parents: Vec::new(),
        };
        assert(r.current.view().deletes =~= Set::empty());
        assert(r.current.view().logs =~= Seq::empty());
        assert(r@ =~= seq![fresh_frame(metadata)]);
        r
    }

    /// Metadata of the current frame.
    pub fn metadata(&self) -> (r: &StackSubstateMetadata)
        ensures
            *r == self@.last().metadata,
    {
        &self.current.metadata
    }

    /// Metadata of the current frame, to be updated in place.
    pub fn metadata_mut(&mut self) -> (r: &mut StackSubstateMetadata)
        ensures
            *r == old(self)@.last().metadata,
            final(self)@ == old(self)@.update(
                old(self)@.len() - 1,
                FrameView {
                    metadata: *final(r),
                    deletes: old(self)@.last().deletes,
                    logs: old(self)@.last().logs,
                },
            ),
            old(self).wf() && final(r).depth == old(self)@.last().metadata.depth
                ==> final(self).wf(),
    {
        &mut self.current.metadata
    }

    /// Pushes a child frame with the given budget and static flag.
    pub fn enter(&mut self, gas_limit: u64, is_static: bool)
        requires
            old(self).wf(),
        ensures
            final(self).wf(),
            final(self)@ == enter_spec(old(self)@, gas_limit, is_static),
    {
        let ghost s = self@;
        let plen = self.parents.len();
        let ghost n = plen as int;
        assert(s[n] == self.current.view());
        assert(s[n].metadata.depth == (if n == 0 {
            None
        } else {
            Some((n - 1) as usize)
        }));
        let metadata = self.current.metadata.spit_child(gas_limit, is_static);
        let mut entering = SubstateFrame { metadata, deletes: Vec::new(), logs: Vec::new() };
        core::mem::swap(&mut entering, &mut self.current);
        self.parents.push(entering);
        assert(self.current.view().deletes =~= Set::empty());
        assert(self.current.view().logs =~= Seq::empty());
        assert(self.parents@.map_values(|f: SubstateFrame| f.view()) =~= s);
        assert(self@ =~= enter_spec(s, gas_limit, is_static));
        assert forall|i: int| 0 <= i < self.parents@.len() implies (
        #[trigger] self.parents@[i]).wf() by {
            if i < n {
                assert(self.parents@[i] == old(self).parents@[i]);
            }
        }
        assert forall|i: int| 0 <= i < self@.len() implies (#[trigger] self@[i]).metadata.depth == (
        if i == 0 {
            None
        } else {
            Some((i - 1) as usize)
        }) by {
            if i < s.len() {
                assert(self@[i] == s[i]);
            }
        }
    }

    /// Pops the current frame into its parent.
    fn pop_into_parent(&mut self, keep_deletes: bool)
        requires
            old(self).wf(),
            old(self)@.len() >= 2,
        ensures
            final(self).wf(),
            final(self)@ == (if keep_deletes {
                commit_spec(old(self)@)
            } else {
                revert_spec(old(self)@)
            })->Some_0,
    {
        let ghost s = self@;
        let ghost n = self.parents@.len() as int;
        assert(s[n] == self.current.view());
        assert(s[n - 1] == self.parents@[n - 1].view());
        let mut exited = self.parents.pop().unwrap();
        assert(exited.wf());
        core::mem::swap(&mut exited, &mut self.current);
        let ghost child_deletes = exited.deletes@;
        let ghost parent_logs = self.current.logs@;
        let ghost child_logs = exited.logs@;
        self.current.logs.append(&mut exited.logs);
        assert(log_views(self.current.logs@) =~= log_views(parent_logs) + log_views(child_logs));
        let ghost parent_deletes = self.current.deletes@;
        if keep_deletes {
            merge_addresses(&mut self.current.deletes, &exited.deletes);
        }
        let ghost t = (if keep_deletes {
            commit_spec(s)
        } else {
            revert_spec(s)
        })->Some_0;
        assert(s[n - 1].deletes == Set::new(|a: H160| parent_deletes.contains(a)));
        assert(s[n].deletes == Set::new(|a: H160| child_deletes.contains(a)));
        if keep_deletes {
            assert(t[n - 1].deletes == s[n - 1].deletes.union(s[n].deletes));
            assert(exited.deletes@ == child_deletes);
            assert forall|a: H160| #[trigger] self.current.deletes@.contains(a) <==> (
            parent_deletes.contains(a) || child_deletes.contains(a)) by {}
            assert(self.current.view().deletes =~= s[n - 1].deletes.union(s[n].deletes));
        } else {
            assert(t[n - 1].deletes == s[n - 1].deletes);
            assert(self.current.deletes@ == parent_deletes);
            assert(self.current.view().deletes =~= s[n - 1].deletes);
        }
        assert(self@ =~= t);
        assert forall|i: int| 0 <= i < self.parents@.len() implies (
        #[trigger] self.parents@[i]).wf() by {
            assert(self.parents@[i] == old(self).parents@[i]);
        }
        assert forall|i: int| 0 <= i < self@.len() implies (#[trigger] self@[i]).metadata.depth == (
        if i == 0 {
            None
        } else {
            Some((i - 1) as usize)
        }) by {
            assert(self@[i].metadata == s[i].metadata);
        }
    }

    /// Pops the current frame, keeping its logs and deletions in the parent;
    /// the parent's metadata stays as it was: how a child's gas use is charged
    /// to its parent is the interpreter's own bookkeeping, not this stack's.
    /// fails at the root frame.
    pub fn exit_commit(&mut self) -> (r: Result<(), ExitError>)
        requires
            old(self).wf(),
        ensures
            final(self).wf(),
            r is Ok <==> commit_spec(old(self)@) is Some,
            r is Ok ==> final(self)@ == commit_spec(old(self)@)->Some_0,
            r is Err ==> final(self)@ == old(self)@,
    {
        if self.parents.len() == 0 {
            return Err(ExitError::Other("Cannot commit on root substate"));
        }
        self.pop_into_parent(true);
        Ok(())
    }

    /// Pops the current frame after a revert, keeping its logs but dropping its
    /// deletions; fails at the root frame.
    pub fn exit_revert(&mut self) -> (r: Result<(), ExitError>)
        requires
            old(self).wf(),
        ensures
            final(self).wf(),
            r is Ok <==> revert_spec(old(self)@) is Some,
            r is Ok ==> final(self)@ == revert_spec(old(self)@)->Some_0,
            r is Err ==> final(self)@ == old(self)@,
    {
        if self.parents.len() == 0 {
            return Err(ExitError::Other("Cannot revert on root substate"));
        }
        self.pop_into_parent(false);
        Ok(())
    }

    /// Pops the current frame after a failure, keeping its logs but dropping its
    /// deletions; fails at the root frame.
    pub fn exit_discard(&mut self) -> (r: Result<(), ExitError>)
        requires
            old(self).wf(),
        ensures
            final(self).wf(),
            r is Ok <==> revert_spec(old(self)@) is Some,
            r is Ok ==> final(self)@ == revert_spec(old(self)@)->Some_0,
            r is Err ==> final(self)@ == old(self)@,
    {
        if self.parents.len() == 0 {
            return Err(ExitError::Other("Cannot discard on root substate"));
        }
        self.pop_into_parent(false);
        Ok(())
    }

    /// Whether the current frame or any frame above it marked `address`.
    pub fn deleted(&self, address: H160) -> (r: bool)
        ensures
            r == deleted_spec(self@, address),
    {
        let ghost s = self@;
        let ghost n = self.parents@.len() as int;
        assert(s[n] == self.current.view());
        if contains_address(&self.current.deletes, &address) {
            assert(s[n].deletes.contains(address));
            return true;
        }
        let mut i: usize = 0;
        while i < self.parents.len()
            invariant
                i <= n,
                n == self.parents@.len(),
                s == self@,
                forall|j: int| 0 <= j < i ==> !(#[trigger] s[j]).deletes.contains(address),
            decreases n - i,
        {
            assert(s[i as int] == self.parents@[i as int].view());
            if contains_address(&self.parents[i].deletes, &address) {
                assert(s[i as int].deletes.contains(address));
                return true;
            }
            i = i + 1;
        }
        assert(!deleted_spec(s, address)) by {
            if deleted_spec(s, address) {
                let j = choose|j: int| 0 <= j < s.len() && #[trigger] s[j].deletes.contains(address);
                assert(j < n || j == n);
            }
        }
        false
    }

    /// Marks `address` for deletion in the current frame.
    pub fn set_deleted(&mut self, address: H160)
        requires
            old(self).wf(),
        ensures
            final(self).wf(),
            final(self)@ == set_deleted_spec(old(self)@, address),
    {
        let ghost s = self@;
        insert_address(&mut self.current.deletes, address);
        assert(self.current.view().deletes =~= s.last().deletes.insert(address));
        assert(self@ =~= set_deleted_spec(s, address));
        assert forall|i: int| 0 <= i < self@.len() implies (#[trigger] self@[i]).metadata.depth == (
        if i == 0 {
            None
        } else {
            Some((i - 1) as usize)
        }) by {
            assert(self@[i].metadata == s[i].metadata);
        }
    }

    /// Appends a log record to the current frame.
    pub fn log(&mut self, address: H160, topics: Vec<H256>, data: Vec<u8>)
        requires
            old(self).wf(),
        ensures
            final(self).wf(),
            final(self)@ == log_spec(old(self)@, LogView { address, topics: topics@, data: data@ }),
    {
        let ghost s = self@;
        let ghost lv = LogView { address, topics: topics@, data: data@ };
        self.current.logs.push(Log { address, topics, data });
        assert(log_views(self.current.logs@) =~= s.last().logs.push(lv));
        assert(self@ =~= log_spec(s, lv));
        assert forall|i: int| 0 <= i < self@.len() implies (#[trigger] self@[i]).metadata.depth == (
        if i == 0 {
            None
        } else {
            Some((i - 1) as usize)
        }) by {
            assert(self@[i].metadata == s[i].metadata);
        }
    }

    /// Logs of the current frame.
    pub fn current_logs(&self) -> (r: Vec<Log>)
        ensures
            log_views(r@) == self@.last().logs,
    {
        crate::outcome::copy_logs(&self.current.logs)
    }

    /// Deletions of the current frame.
    pub fn current_deletes(&self) -> (r: Vec<H160>)
        requires
            self.wf(),
        ensures
            r@.no_duplicates(),
            forall|a: H160| #[trigger] r@.contains(a) <==> self@.last().deletes.contains(a),
    {
        let mut r: Vec<H160> = Vec::new();
        let mut i: usize = 0;
        while i < self.current.deletes.len()
            invariant
                i <= self.current.deletes@.len(),
                r@ == self.current.deletes@.subrange(0, i as int),
            decreases self.current.deletes@.len() - i,
        {
            r.push(self.current.deletes[i]);
            i = i + 1;
            assert(r@ =~= self.current.deletes@.subrange(0, i as int));
        }
        assert(r@ =~= self.current.deletes@);
        r
    }
}

/// Every entered frame is closed by exactly one of commit, revert or discard:
/// each of them, right after an `enter`, succeeds and returns the stack to its
/// former depth with the parent's metadata current again. At the root frame
/// each of them fails.
pub proof fn lemma_nesting_balance(s: Seq<FrameView>, gas_limit: u64, is_static: bool)
    requires
        s.len() >= 1,
    ensures
        commit_spec(enter_spec(s, gas_limit, is_static)) is Some,
        commit_spec(enter_spec(s, gas_limit, is_static))->Some_0.len() == s.len(),
        commit_spec(enter_spec(s, gas_limit, is_static))->Some_0.last().metadata == s.last().metadata,
        revert_spec(enter_spec(s, gas_limit, is_static)) is Some,
        revert_spec(enter_spec(s, gas_limit, is_static))->Some_0.len() == s.len(),
        revert_spec(enter_spec(s, gas_limit, is_static))->Some_0.last().metadata == s.last().metadata,
        s.len() == 1 ==> commit_spec(s) is None && revert_spec(s) is None,
{
}

/// A reverted or discarded child surfaces in its parent the logs that it emitted,
/// after the parent's own, and drops every deletion that it marked.
pub proof fn lemma_revert_keeps_logs_drops_deletes(s: Seq<FrameView>)
    requires
        s.len() >= 2,
    ensures
        revert_spec(s)->Some_0.last().logs == s[s.len() - 2].logs + s.last().logs,
        revert_spec(s)->Some_0.last().deletes == s[s.len() - 2].deletes,
{
}

/// The frame-level scenario: a child emits `log`, marks `address`, and reverts;
/// the parent then holds `log` after its own logs, and its deletions are as
/// before the call.
pub proof fn lemma_revert_scenario(
    s: Seq<FrameView>,
    gas_limit: u64,
    is_static: bool,
    log: LogView,
    address: H160,
)
    requires
        s.len() >= 1,
    ensures
        ({
            let after = revert_spec(
                set_deleted_spec(log_spec(enter_spec(s, gas_limit, is_static), log), address),
            )->Some_0;
            &&& after.len() == s.len()
            &&& after.last().logs == s.last().logs.push(log)
            &&& after.last().deletes == s.last().deletes
        }),
{
    let t = set_deleted_spec(log_spec(enter_spec(s, gas_limit, is_static), log), address);
    assert(t.last().logs =~= seq![log]);
    assert(revert_spec(t)->Some_0.last().logs =~= s.last().logs.push(log));
}

/// A deletion marked in any frame is seen from that frame and from every frame
/// entered below it, whether or not the marking frame has committed.
pub proof fn lemma_deletion_inheritance(
    s: Seq<FrameView>,
    i: int,
    address: H160,
    gas_limit: u64,
    is_static: bool,
)
    requires
        0 <= i < s.len(),
        s[i].deletes.contains(address),
    ensures
        deleted_spec(s, address),
        deleted_spec(enter_spec(s, gas_limit, is_static), address),
{
    assert(enter_spec(s, gas_limit, is_static)[i] == s[i]);
}

} // verus!
