//! Shared policy state: the configuration singleton, the identity
//! allow/deny sets, and the per-uid policy decision.

use vstd::prelude::*;

verus! {

/// Runtime configuration: which list modes are active and whether verdicts
/// are enforced or only audited.
#[derive(Clone, Copy, PartialEq, Eq, Structural, Debug)]
pub struct Config {
    pub use_allowlist: bool,
    pub use_denylist: bool,
    pub dry_run: bool,
}

/// A set of user identifiers supporting a membership test. Keys are unique;
/// there are no ordering semantics.
pub struct IdentitySet {
    ids: Vec<u32>,
}

impl View for IdentitySet {
    type V = Set<u32>;

    closed spec fn view(&self) -> Set<u32> {
        self.ids@.to_set()
    }
}

impl IdentitySet {
    /// Keys are stored once each.
    pub closed spec fn wf(&self) -> bool {
        forall|i: int, j: int|
            0 <= i < j < self.ids@.len() ==> self.ids@[i] != self.ids@[j]
    }

    pub fn new() -> (s: IdentitySet)
        ensures
            s.wf(),
            s@ == Set::<u32>::empty(),
    {
        let s = IdentitySet { ids: Vec::new() };
        proof {
            assert(s@ =~= Set::<u32>::empty());
        }
        s
    }

    pub fn contains(&self, uid: u32) -> (r: bool)
        ensures
            r == self@.contains(uid),
    {
        let n = self.ids.len();
        let mut i: usize = 0;
        while i < n
            invariant
                n == self.ids@.len(),
                0 <= i <= n,
                forall|k: int| 0 <= k < i ==> self.ids@[k] != uid,
            decreases n - i,
        {
            if self.ids[i] == uid {
                return true;
            }
            i = i + 1;
        }
        proof {
            assert(!self.ids@.contains(uid));
        }
        false
    }

    pub fn insert(&mut self, uid: u32)
        requires
            old(self).wf(),
        ensures
            final(self).wf(),
            final(self)@ == old(self)@.insert(uid),
    {
        if !self.contains(uid) {
            self.ids.push(uid);
            proof {
                let pre = old(self).ids@;
                assert forall|x: u32| self@.contains(x) implies old(self)@.insert(uid).contains(
                    x,
                ) by {
                    let k = choose|k: int| 0 <= k < self.ids@.len() && self.ids@[k] == x;
                    if k < pre.len() {
                        assert(pre[k] == x);
                    }
                }
                assert forall|x: u32| old(self)@.insert(uid).contains(x) implies self@.contains(
                    x,
                ) by {
                    if x == uid {
                        assert(self.ids@[pre.len() as int] == uid);
                    } else {
                        let k = choose|k: int| 0 <= k < pre.len() && pre[k] == x;
                        assert(self.ids@[k] == x);
                    }
                }
                assert(self@ =~= old(self)@.insert(uid));
            }
        } else {
            proof {
                assert(self@ =~= old(self)@.insert(uid));
            }
        }
    }

    /// Build a set holding exactly the given identifiers.
    pub fn from_ids(ids: &Vec<u32>) -> (s: IdentitySet)
        ensures
            s.wf(),
            s@ == ids@.to_set(),
    {
        let mut s = IdentitySet::new();
        let n = ids.len();
        let mut i: usize = 0;
        while i < n
            invariant
                n == ids@.len(),
                0 <= i <= n,
                s.wf(),
                s@ == ids@.subrange(0, i as int).to_set(),
            decreases n - i,
        {
            let ghost pre = s@;
            s.insert(ids[i]);
            proof {
                assert forall|x: u32| s@.contains(x) implies ids@.subrange(
                    0,
                    i + 1 as int,
                ).to_set().contains(x) by {
                    if pre.contains(x) {
                        assert(ids@.subrange(0, i as int).contains(x));
                        let k = choose|k: int|
                            0 <= k < i && ids@.subrange(0, i as int)[k] == x;
                        assert(ids@.subrange(0, i + 1 as int)[k] == x);
                    } else {
                        assert(x == ids@[i as int]);
                        assert(ids@.subrange(0, i + 1 as int)[i as int] == x);
                    }
                }
                assert forall|x: u32| ids@.subrange(0, i + 1 as int).to_set().contains(x)
                    implies s@.contains(x) by {
                    let k = choose|k: int|
                        0 <= k < i + 1 && #[trigger] ids@.subrange(0, i + 1 as int)[k] == x;
                    if k < i {
                        assert(ids@.subrange(0, i as int)[k] == x);
                    }
                }
                assert(s@ =~= ids@.subrange(0, i + 1 as int).to_set());
            }
            i = i + 1;
        }
        proof {
            assert(ids@.subrange(0, n as int) =~= ids@);
        }
        s
    }
}

/// The shared policy state as the decision engine sees it: the
/// configuration singleton (absent until the control plane writes it) and
/// the two identity sets.
pub struct PolicyStore {
    pub config: Option<Config>,
    pub allowlist: IdentitySet,
    pub denylist: IdentitySet,
}

impl PolicyStore {
    pub open spec fn wf(&self) -> bool {
        self.allowlist.wf() && self.denylist.wf()
    }

    /// Populate the policy state from the control plane's inputs: a
    /// non-empty allow list switches allow-list mode on, a non-empty deny
    /// list switches deny-list mode on.
    pub fn from_args(allowed_uids: &Vec<u32>, denied_uids: &Vec<u32>, dry_run: bool) -> (s:
        PolicyStore)
        ensures
            s.wf(),
            s.config == Some(
                Config {
                    use_allowlist: allowed_uids@.len() > 0,
                    use_denylist: denied_uids@.len() > 0,
                    dry_run,
                },
            ),
            s.allowlist@ == allowed_uids@.to_set(),
            s.denylist@ == denied_uids@.to_set(),
    {
        let config = Config {
            use_allowlist: allowed_uids.len() > 0,
            use_denylist: denied_uids.len() > 0,
            dry_run,
        };
        let allowlist = IdentitySet::from_ids(allowed_uids);
        let denylist = IdentitySet::from_ids(denied_uids);
        PolicyStore { config: Some(config), allowlist, denylist }
    }
}

/// Decide, for one execution attempt, whether the invoking user is denied.
///
/// Root is always permitted. With allow-listing active, absence from the
/// allow-set denies. With deny-listing active, presence in the deny-set
/// denies, and can only add a denial on top of the allow-list result.
/// With neither mode active, nothing is denied.
pub open spec fn spec_policy_decision(
    uid: u32,
    config: Config,
    allow: Set<u32>,
    deny: Set<u32>,
) -> bool {
    if uid == 0 {
        false
    } else {
        (config.use_allowlist && !allow.contains(uid)) || (config.use_denylist
            && deny.contains(uid))
    }
}

/// Returns true if the execution attempt is to be denied, otherwise false.
pub fn policy_decision(
    uid: u32,
    config: &Config,
    allowlist: &IdentitySet,
    denylist: &IdentitySet,
) -> (denied: bool)
    ensures
        denied == spec_policy_decision(uid, *config, allowlist@, denylist@),
{
    let mut denied = false;

    // root is a special case
    if uid == 0 {
        return false;
    }

    // Apply allowlist
    if config.use_allowlist && allowlist.contains(uid) {
        denied = false;
    } else if config.use_allowlist {
        denied = true;
    }

    // Apply denylist
    if config.use_denylist && denylist.contains(uid) {
        denied = true;
    }

    denied
}

/// Root (uid 0) is never denied, whatever the configuration and whatever the
/// two sets hold.
pub proof fn lemma_root_always_allowed(config: Config, allow: Set<u32>, deny: Set<u32>)
    ensures
        !spec_policy_decision(0, config, allow, deny),
{
}

/// A non-root user absent from the allow-set is denied whenever allow-list
/// mode is on; the deny-list, whatever its mode and contents, cannot undo
/// that denial.
pub proof fn lemma_allowlist_absence_denies(
    uid: u32,
    config: Config,
    allow: Set<u32>,
    deny: Set<u32>,
)
    requires
        uid != 0,
        config.use_allowlist,
        !allow.contains(uid),
    ensures
        spec_policy_decision(uid, config, allow, deny),
{
}

/// Deny-listing can only add denials: switching it on never turns a denial
/// computed from the allow-list into an allow.
pub proof fn lemma_denylist_only_adds_denials(
    uid: u32,
    off: Config,
    on: Config,
    allow: Set<u32>,
    deny: Set<u32>,
)
    requires
        off.use_allowlist == on.use_allowlist,
        !off.use_denylist,
        on.use_denylist,
    ensures
        spec_policy_decision(uid, off, allow, deny) ==> spec_policy_decision(
            uid,
            on,
            allow,
            deny,
        ),
{
}

/// With both list modes off, no user is ever denied.
pub proof fn lemma_no_modes_never_denies(
    uid: u32,
    config: Config,
    allow: Set<u32>,
    deny: Set<u32>,
)
    requires
        !config.use_allowlist,
        !config.use_denylist,
    ensures
        !spec_policy_decision(uid, config, allow, deny),
{
}

} // verus!
