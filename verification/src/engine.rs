//! The interception decision engine: applicability filter, policy
//! evaluation, per-core event emission, and verdict composition.

use vstd::prelude::*;

use crate::event::{spec_stored_path, store_path, SuidEvent};
use crate::policy::{policy_decision, spec_policy_decision, Config, PolicyStore};

verus! {

/// Permission-denied errno; `-EACCES` is the denying verdict.
pub const EACCES: i32 = 13;

/// Bad-address errno; `-EFAULT` is returned when the configuration
/// singleton is missing (the engine fails closed).
pub const EFAULT: i32 = 14;

pub const S_IFMT: u16 = 0o170000;

pub const S_IFREG: u16 = 0o100000;

pub const S_ISUID: u16 = 0o4000;

pub open spec fn spec_isreg(mode: u16) -> bool {
    mode & S_IFMT == S_IFREG
}

pub open spec fn spec_isuid(mode: u16) -> bool {
    mode & S_ISUID != 0
}

/// The applicability filter: only a regular file with the set-user-ID bit
/// is of interest.
pub open spec fn spec_should_trace(mode: u16) -> bool {
    spec_isreg(mode) && spec_isuid(mode)
}

pub fn s_isreg(mode: u16) -> (r: bool)
    ensures
        r == spec_isreg(mode),
{
    (mode & S_IFMT) == S_IFREG
}

pub fn s_isuid(mode: u16) -> (r: bool)
    ensures
        r == spec_isuid(mode),
{
    (mode & S_ISUID) != 0
}

pub fn should_trace(mode: u16) -> (r: bool)
    ensures
        r == spec_should_trace(mode),
{
    s_isreg(mode) && s_isuid(mode)
}

/// The user identifier packed into the low half of the kernel's combined
/// uid/gid value.
pub open spec fn spec_uid_of_raw(raw: u64) -> u32 {
    (raw % 0x100000000) as u32
}

/// The group identifier packed into the high half of the kernel's combined
/// uid/gid value.
pub open spec fn spec_gid_of_raw(raw: u64) -> u32 {
    (raw / 0x100000000) as u32
}

/// Identity extraction: the invoking process's real uid and gid, as the
/// kernel hands them out packed into one 64-bit value, uid in the low half
/// and gid in the high half.
pub fn split_uid_gid(raw: u64) -> (ids: (u32, u32))
    ensures
        ids.0 == spec_uid_of_raw(raw),
        ids.1 == spec_gid_of_raw(raw),
{
    let uid = raw as u32;
    let gid = (raw >> 32) as u32;
    proof {
        assert((raw as u32) == (raw % 0x100000000) as u32) by (bit_vector);
        assert(((raw >> 32) as u32) == (raw / 0x100000000) as u32) by (bit_vector);
    }
    (uid, gid)
}

/// The event emission pipeline: one scratch slot per core, and one bounded
/// ring-buffer partition per core. A slot is written only by an evaluation
/// running on its own core, which is what makes concurrent evaluations
/// race-free; a full partition drops the record, never the verdict.
pub struct EventPipeline {
    pub slots: Vec<SuidEvent>,
    pub queues: Vec<Vec<SuidEvent>>,
    pub capacity: usize,
}

impl EventPipeline {
    pub open spec fn wf(&self) -> bool {
        &&& self.slots@.len() == self.queues@.len()
        &&& forall|i: int| 0 <= i < self.slots@.len() ==> (#[trigger] self.slots@[i]).wf()
        &&& forall|i: int|
            0 <= i < self.queues@.len() ==> (#[trigger] self.queues@[i])@.len()
                <= self.capacity
        &&& forall|i: int, j: int|
            0 <= i < self.queues@.len() && 0 <= j < self.queues@[i]@.len() ==> (
            #[trigger] self.queues@[i]@[j]).wf()
    }

    /// One scratch slot and one ring partition per core, all empty.
    pub fn new(num_cores: usize, capacity: usize) -> (p: EventPipeline)
        ensures
            p.wf(),
            p.slots@.len() == num_cores,
            p.queues@.len() == num_cores,
            p.capacity == capacity,
            forall|i: int| 0 <= i < num_cores ==> (#[trigger] p.queues@[i])@.len() == 0,
    {
        let mut slots: Vec<SuidEvent> = Vec::new();
        let mut queues: Vec<Vec<SuidEvent>> = Vec::new();
        let mut i: usize = 0;
        while i < num_cores
            invariant
                0 <= i <= num_cores,
                slots@.len() == i,
                queues@.len() == i,
                forall|k: int| 0 <= k < i ==> (#[trigger] slots@[k]).wf(),
                forall|k: int| 0 <= k < i ==> (#[trigger] queues@[k])@.len() == 0,
            decreases num_cores - i,
        {
            slots.push(SuidEvent::empty());
            queues.push(Vec::new());
            i = i + 1;
        }
        EventPipeline { slots, queues, capacity }
    }

    pub fn num_cores(&self) -> (n: usize)
        ensures
            n == self.slots@.len(),
    {
        self.slots.len()
    }
}

/// How one emission changes the pipeline: only `core`'s slot and partition
/// are touched; the slot takes the invocation's identifiers and verdict and,
/// when the pathname was readable, its (possibly truncated) bytes; the
/// record is appended to `core`'s partition unless that partition is full,
/// in which case it is dropped.
pub open spec fn spec_submit_effect(
    pre: EventPipeline,
    post: EventPipeline,
    core: int,
    uid: u32,
    gid: u32,
    denied: bool,
    src: Option<Seq<u8>>,
) -> bool {
    &&& post.capacity == pre.capacity
    &&& post.slots@.len() == pre.slots@.len()
    &&& post.queues@.len() == pre.queues@.len()
    &&& forall|i: int|
        0 <= i < pre.slots@.len() && i != core ==> post.slots@[i] == pre.slots@[i]
    &&& forall|i: int|
        0 <= i < pre.queues@.len() && i != core ==> post.queues@[i] == pre.queues@[i]
    &&& post.slots@[core].uid == uid
    &&& post.slots@[core].gid == gid
    &&& post.slots@[core].denied == denied
    &&& match src {
        Some(s) => {
            &&& post.slots@[core].path@ == spec_stored_path(pre.slots@[core].path@, s)
            &&& if pre.queues@[core]@.len() < pre.capacity {
                &&& post.queues@[core]@.len() == pre.queues@[core]@.len() + 1
                &&& forall|j: int|
                    0 <= j < pre.queues@[core]@.len() ==> post.queues@[core]@[j]
                        == pre.queues@[core]@[j]
                &&& post.queues@[core]@.last().uid == uid
                &&& post.queues@[core]@.last().gid == gid
                &&& post.queues@[core]@.last().denied == denied
                &&& post.queues@[core]@.last().path@ == spec_stored_path(
                    pre.slots@[core].path@,
                    s,
                )
            } else {
                post.queues@[core] == pre.queues@[core]
            }
        },
        None => {
            &&& post.slots@[core].path@ == pre.slots@[core].path@
            &&& post.queues@[core] == pre.queues@[core]
        },
    }
}

impl EventPipeline {
    /// Stage one audit record in `core`'s scratch slot and publish it to
    /// `core`'s ring partition. `src` is the pathname as read from process
    /// memory; `None` models a failed read, which drops only the record.
    pub fn submit_event(
        &mut self,
        core: usize,
        uid: u32,
        gid: u32,
        denied: bool,
        src: Option<&Vec<u8>>,
    ) -> (r: Result<(), i32>)
        requires
            old(self).wf(),
            core < old(self).slots@.len(),
        ensures
            final(self).wf(),
            spec_submit_effect(
                *old(self),
                *final(self),
                core as int,
                uid,
                gid,
                denied,
                (match src {
                    Some(s) => Some(s@),
                    None => None,
                }),
            ),
            r == (match src {
                Some(_) => Ok::<(), i32>(()),
                None => Err::<(), i32>(-1i32),
            }),
    {
        match src {
            None => {
                let stale = self.slots[core].path.clone();
                proof {
                    assert(stale@ =~= old(self).slots@[core as int].path@);
                }
                self.slots.set(core, SuidEvent { path: stale, uid, gid, denied });
                Err(-1)
            },
            Some(s) => {
                let mut path = self.slots[core].path.clone();
                proof {
                    assert(path@ =~= old(self).slots@[core as int].path@);
                }
                store_path(&mut path, s);
                let published = path.clone();
                proof {
                    assert(published@ =~= path@);
                }
                self.slots.set(core, SuidEvent { path, uid, gid, denied });
                if self.queues[core].len() < self.capacity {
                    let record = SuidEvent { path: published, uid, gid, denied };
                    self.queues[core].push(record);
                }
                Ok(())
            },
        }
    }
}

/// Verdict composition: a prior denial is propagated unchanged; otherwise
/// dry-run always allows; otherwise a denied verdict returns `-EACCES` and
/// anything else allows.
pub open spec fn spec_verdict_code(prev_ret: i32, dry_run: bool, denied: bool) -> i32 {
    if prev_ret != 0 {
        prev_ret
    } else if dry_run {
        0
    } else if denied {
        (-EACCES) as i32
    } else {
        0
    }
}

/// The checkpoint's full result: no opinion (0) when the target is not a
/// set-user-ID regular file; fail closed with `-EFAULT` when the
/// configuration singleton is missing; otherwise the composed verdict.
pub open spec fn spec_checkpoint_result(
    config: Option<Config>,
    allow: Set<u32>,
    deny: Set<u32>,
    mode: u16,
    uid: u32,
    prev_ret: i32,
) -> Result<i32, i32> {
    if !spec_should_trace(mode) {
        Ok(0)
    } else {
        match config {
            None => Err((-EFAULT) as i32),
            Some(c) => Ok(
                spec_verdict_code(prev_ret, c.dry_run, spec_policy_decision(uid, c, allow, deny)),
            ),
        }
    }
}

/// The single code the checkpoint hands back to the kernel, with the error
/// path collapsed into it.
pub open spec fn spec_checkpoint_code(
    config: Option<Config>,
    allow: Set<u32>,
    deny: Set<u32>,
    mode: u16,
    uid: u32,
    prev_ret: i32,
) -> i32 {
    match spec_checkpoint_result(config, allow, deny, mode, uid, prev_ret) {
        Ok(code) => code,
        Err(code) => code,
    }
}

/// One evaluation of the security checkpoint on `core`: filter on the
/// target's mode bits, fetch the configuration (failing closed if absent),
/// evaluate the policy, emit the audit record best-effort, and compose the
/// verdict. An emission failure never alters the returned code.
pub fn try_bprm_check_security(
    store: &PolicyStore,
    pipeline: &mut EventPipeline,
    core: usize,
    mode: u16,
    uid: u32,
    gid: u32,
    prev_ret: i32,
    path_src: Option<&Vec<u8>>,
) -> (r: Result<i32, i32>)
    requires
        old(pipeline).wf(),
        core < old(pipeline).slots@.len(),
    ensures
        final(pipeline).wf(),
        r == spec_checkpoint_result(
            store.config,
            store.allowlist@,
            store.denylist@,
            mode,
            uid,
            prev_ret,
        ),
        (!spec_should_trace(mode) || store.config is None) ==> *final(pipeline) == *old(
            pipeline,
        ),
        (spec_should_trace(mode) && store.config is Some) ==> spec_submit_effect(
            *old(pipeline),
            *final(pipeline),
            core as int,
            uid,
            gid,
            spec_policy_decision(uid, store.config->Some_0, store.allowlist@, store.denylist@),
            (match path_src {
                Some(s) => Some(s@),
                None => None,
            }),
        ),
{
    // Filter on the event
    if !should_trace(mode) {
        return Ok(0);
    }
    // Fetch configuration; fail closed if it is missing
    let config = match &store.config {
        Some(c) => *c,
        None => {
            return Err(-EFAULT);
        },
    };
    let denied = policy_decision(uid, &config, &store.allowlist, &store.denylist);
    // Emission is best-effort: its result never reaches the verdict
    let _ = pipeline.submit_event(core, uid, gid, denied, path_src);
    // Forward previous return, if any
    if prev_ret != 0 {
        return Ok(prev_ret);
    }
    if config.dry_run {
        return Ok(0);
    }
    // Enforce policy
    if denied {
        Ok(-EACCES)
    } else {
        Ok(0)
    }
}

/// The checkpoint as the kernel sees it: one code, allow (0), a denial, or
/// a fail-closed error.
pub fn bprm_check_security(
    store: &PolicyStore,
    pipeline: &mut EventPipeline,
    core: usize,
    mode: u16,
    uid: u32,
    gid: u32,
    prev_ret: i32,
    path_src: Option<&Vec<u8>>,
) -> (code: i32)
    requires
        old(pipeline).wf(),
        core < old(pipeline).slots@.len(),
    ensures
        final(pipeline).wf(),
        code == spec_checkpoint_code(
            store.config,
            store.allowlist@,
            store.denylist@,
            mode,
            uid,
            prev_ret,
        ),
        (!spec_should_trace(mode) || store.config is None) ==> *final(pipeline) == *old(
            pipeline,
        ),
        (spec_should_trace(mode) && store.config is Some) ==> spec_submit_effect(
            *old(pipeline),
            *final(pipeline),
            core as int,
            uid,
            gid,
            spec_policy_decision(uid, store.config->Some_0, store.allowlist@, store.denylist@),
            (match path_src {
                Some(s) => Some(s@),
                None => None,
            }),
        ),
{
    match try_bprm_check_security(store, pipeline, core, mode, uid, gid, prev_ret, path_src) {
        Ok(ret) => ret,
        Err(ret) => ret,
    }
}

/// Dry-run: when no prior denial is being propagated and the configuration
/// is present, the checkpoint returns allow (0) whatever the computed
/// verdict; the verdict recorded in the audit record does not depend on the
/// dry-run flag at all.
pub proof fn lemma_dry_run_allows(
    config: Config,
    allow: Set<u32>,
    deny: Set<u32>,
    mode: u16,
    uid: u32,
)
    requires
        config.dry_run,
    ensures
        spec_checkpoint_code(Some(config), allow, deny, mode, uid, 0) == 0,
        forall|other: Config|
            other.use_allowlist == config.use_allowlist && other.use_denylist
                == config.use_denylist ==> spec_policy_decision(uid, other, allow, deny)
                == spec_policy_decision(uid, config, allow, deny),
{
}

/// A nonzero prior result is propagated unchanged, whatever the computed
/// verdict and whatever the dry-run flag, whenever the checkpoint applies
/// at all (the target is a set-user-ID regular file and the configuration
/// is present).
pub proof fn lemma_prior_result_propagates(
    config: Config,
    allow: Set<u32>,
    deny: Set<u32>,
    mode: u16,
    uid: u32,
    prev_ret: i32,
)
    requires
        prev_ret != 0,
        spec_should_trace(mode),
    ensures
        spec_checkpoint_result(Some(config), allow, deny, mode, uid, prev_ret) == Ok::<
            i32,
            i32,
        >(prev_ret),
{
}

/// A chain of emissions, one per core: step `k` of the chain is an emission
/// on core `k` with the `k`-th invocation's inputs, and the pathname read
/// succeeds at every step.
pub open spec fn spec_emission_chain(
    ps: Seq<EventPipeline>,
    uids: Seq<u32>,
    gids: Seq<u32>,
    denieds: Seq<bool>,
    srcs: Seq<Seq<u8>>,
    n: int,
) -> bool {
    &&& ps.len() == n + 1
    &&& uids.len() == n
    &&& gids.len() == n
    &&& denieds.len() == n
    &&& srcs.len() == n
    &&& ps[0].slots@.len() == n
    &&& ps[0].queues@.len() == n
    &&& ps[0].capacity >= 1
    &&& forall|i: int| 0 <= i < n ==> (#[trigger] ps[0].queues@[i])@.len() == 0
    &&& forall|k: int|
        0 <= k < n ==> spec_submit_effect(
            ps[k],
            #[trigger] ps[k + 1],
            k,
            uids[k],
            gids[k],
            denieds[k],
            Some(srcs[k]),
        )
}

/// After the first `k` steps of an emission chain: every core below `k`
/// holds exactly its own record, and every core from `k` up is untouched.
proof fn lemma_emission_chain_prefix(
    ps: Seq<EventPipeline>,
    uids: Seq<u32>,
    gids: Seq<u32>,
    denieds: Seq<bool>,
    srcs: Seq<Seq<u8>>,
    n: int,
    k: int,
)
    requires
        spec_emission_chain(ps, uids, gids, denieds, srcs, n),
        0 <= k <= n,
    ensures
        ps[k].capacity == ps[0].capacity,
        ps[k].slots@.len() == n,
        ps[k].queues@.len() == n,
        forall|i: int|
            0 <= i < k ==> (#[trigger] ps[k].queues@[i])@.len() == 1
                && ps[k].queues@[i]@[0].uid == uids[i] && ps[k].queues@[i]@[0].gid == gids[i]
                && ps[k].queues@[i]@[0].denied == denieds[i]
                && ps[k].queues@[i]@[0].path@ == spec_stored_path(
                ps[0].slots@[i].path@,
                srcs[i],
            ),
        forall|i: int|
            k <= i < n ==> (#[trigger] ps[k].slots@[i]) == ps[0].slots@[i] && ps[k].queues@[i]
                == ps[0].queues@[i],
    decreases k,
{
    if k > 0 {
        lemma_emission_chain_prefix(ps, uids, gids, denieds, srcs, n, k - 1);
        let k0 = k - 1;
        assert(ps[k0 + 1] == ps[k]);
        assert(spec_submit_effect(
            ps[k - 1],
            ps[k],
            k - 1,
            uids[k - 1],
            gids[k - 1],
            denieds[k - 1],
            Some(srcs[k - 1]),
        ));
        assert(ps[k - 1].queues@[k - 1] == ps[0].queues@[k - 1]);
        assert(ps[k - 1].queues@[k - 1]@.len() == 0);
        assert(ps[k].queues@[k - 1]@.len() == 1);
        assert(ps[k].queues@[k - 1]@.last() == ps[k].queues@[k - 1]@[0]);
    }
}

/// N concurrent evaluations on N distinct cores produce exactly N audit
/// records, one per core, and no field of any record comes from another
/// core's invocation: each record carries its own core's identifiers,
/// verdict, and pathname.
pub proof fn lemma_concurrent_evaluations(
    ps: Seq<EventPipeline>,
    uids: Seq<u32>,
    gids: Seq<u32>,
    denieds: Seq<bool>,
    srcs: Seq<Seq<u8>>,
    n: int,
)
    requires
        spec_emission_chain(ps, uids, gids, denieds, srcs, n),
    ensures
        forall|i: int|
            0 <= i < n ==> (#[trigger] ps[n].queues@[i])@.len() == 1
                && ps[n].queues@[i]@[0].uid == uids[i] && ps[n].queues@[i]@[0].gid == gids[i]
                && ps[n].queues@[i]@[0].denied == denieds[i]
                && ps[n].queues@[i]@[0].path@ == spec_stored_path(
                ps[0].slots@[i].path@,
                srcs[i],
            ),
{
    lemma_emission_chain_prefix(ps, uids, gids, denieds, srcs, n, n);
}

/// Core isolation: two emissions on distinct cores land in distinct slots
/// and distinct partitions, and each record carries exactly the fields of
/// its own invocation - no field of one shows up in the other.
pub proof fn lemma_core_isolation(
    p0: EventPipeline,
    p1: EventPipeline,
    p2: EventPipeline,
    core_a: int,
    core_b: int,
    uid_a: u32,
    gid_a: u32,
    denied_a: bool,
    src_a: Seq<u8>,
    uid_b: u32,
    gid_b: u32,
    denied_b: bool,
    src_b: Seq<u8>,
)
    requires
        0 <= core_a < p0.slots@.len(),
        0 <= core_b < p0.slots@.len(),
        0 <= core_a < p0.queues@.len(),
        0 <= core_b < p0.queues@.len(),
        core_a != core_b,
        spec_submit_effect(p0, p1, core_a, uid_a, gid_a, denied_a, Some(src_a)),
        spec_submit_effect(p1, p2, core_b, uid_b, gid_b, denied_b, Some(src_b)),
    ensures
        p2.slots@[core_a].uid == uid_a,
        p2.slots@[core_a].gid == gid_a,
        p2.slots@[core_a].denied == denied_a,
        p2.slots@[core_a].path@ == spec_stored_path(p0.slots@[core_a].path@, src_a),
        p2.slots@[core_b].uid == uid_b,
        p2.slots@[core_b].gid == gid_b,
        p2.slots@[core_b].denied == denied_b,
        p2.slots@[core_b].path@ == spec_stored_path(p0.slots@[core_b].path@, src_b),
        p0.queues@[core_a]@.len() < p0.capacity ==> p2.queues@[core_a]@.last().uid == uid_a
            && p2.queues@[core_a]@.last().denied == denied_a
            && p2.queues@[core_a]@.last().path@ == spec_stored_path(
            p0.slots@[core_a].path@,
            src_a,
        ),
        p1.queues@[core_b]@.len() < p1.capacity ==> p2.queues@[core_b]@.last().uid == uid_b
            && p2.queues@[core_b]@.last().denied == denied_b
            && p2.queues@[core_b]@.last().path@ == spec_stored_path(
            p1.slots@[core_b].path@,
            src_b,
        ),
{
}

} // verus!
