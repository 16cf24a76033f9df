use suidsnoop::engine::{
    bprm_check_security, should_trace, split_uid_gid, s_isreg, s_isuid, EventPipeline,
};
use suidsnoop::event::PATH_CAP;
use suidsnoop::policy::{policy_decision, Config, IdentitySet, PolicyStore};

const SUID_REG_MODE: u16 = 0o104755;
const PLAIN_REG_MODE: u16 = 0o100755;
const SUID_DIR_MODE: u16 = 0o44755;

fn set_of(ids: &[u32]) -> IdentitySet {
    let v: Vec<u32> = ids.to_vec();
    IdentitySet::from_ids(&v)
}

#[test]
fn mode_filters() {
    assert!(s_isreg(SUID_REG_MODE));
    assert!(s_isuid(SUID_REG_MODE));
    assert!(should_trace(SUID_REG_MODE));
    assert!(s_isreg(PLAIN_REG_MODE));
    assert!(!s_isuid(PLAIN_REG_MODE));
    assert!(!should_trace(PLAIN_REG_MODE));
    assert!(!s_isreg(SUID_DIR_MODE));
    assert!(!should_trace(SUID_DIR_MODE));
}

#[test]
fn identity_extraction_splits_the_packed_value() {
    assert_eq!(split_uid_gid(0x0000_0064_0000_03E8), (1000, 100));
    assert_eq!(split_uid_gid(0), (0, 0));
    assert_eq!(split_uid_gid(u64::MAX), (u32::MAX, u32::MAX));
}

#[test]
fn root_is_never_denied() {
    let config = Config { use_allowlist: true, use_denylist: true, dry_run: false };
    let allow = set_of(&[]);
    let deny = set_of(&[0, 5]);
    assert!(!policy_decision(0, &config, &allow, &deny));
}

#[test]
fn allowlist_absence_denies_even_outside_denylist() {
    let config = Config { use_allowlist: true, use_denylist: true, dry_run: false };
    let allow = set_of(&[1000]);
    let deny = set_of(&[7777]);
    // 2000 is absent from both lists: the allow-list absence alone denies.
    assert!(policy_decision(2000, &config, &allow, &deny));
}

#[test]
fn no_modes_never_denies() {
    let config = Config { use_allowlist: false, use_denylist: false, dry_run: false };
    let allow = set_of(&[]);
    let deny = set_of(&[]);
    assert!(!policy_decision(2000, &config, &allow, &deny));
    assert!(!policy_decision(0, &config, &allow, &deny));
}

#[test]
fn denylist_presence_denies() {
    let config = Config { use_allowlist: false, use_denylist: true, dry_run: false };
    let allow = set_of(&[]);
    let deny = set_of(&[1000]);
    assert!(policy_decision(1000, &config, &allow, &deny));
    assert!(!policy_decision(1001, &config, &allow, &deny));
}

#[test]
fn identity_set_membership() {
    let mut s = IdentitySet::new();
    assert!(!s.contains(4));
    s.insert(4);
    s.insert(4);
    s.insert(9);
    assert!(s.contains(4));
    assert!(s.contains(9));
    assert!(!s.contains(5));
}

#[test]
fn from_args_derives_modes() {
    let allowed: Vec<u32> = vec![1000, 1001];
    let denied: Vec<u32> = Vec::new();
    let store = PolicyStore::from_args(&allowed, &denied, true);
    let config = store.config.unwrap();
    assert!(config.use_allowlist);
    assert!(!config.use_denylist);
    assert!(config.dry_run);
    assert!(store.allowlist.contains(1001));
    assert!(!store.denylist.contains(1000));
}

#[test]
fn allowed_uid_end_to_end() {
    let allowed: Vec<u32> = vec![1000];
    let denied: Vec<u32> = Vec::new();
    let store = PolicyStore::from_args(&allowed, &denied, false);
    let mut pipe = EventPipeline::new(1, 16);
    let path = b"/usr/bin/sudo".to_vec();
    let code = bprm_check_security(&store, &mut pipe, 0, SUID_REG_MODE, 1000, 1000, 0, Some(&path));
    assert_eq!(code, 0);
    assert_eq!(pipe.queues[0].len(), 1);
    assert_eq!(pipe.queues[0][0].uid, 1000);
    assert!(!pipe.queues[0][0].denied);
}

#[test]
fn denied_uid_end_to_end() {
    let allowed: Vec<u32> = Vec::new();
    let denied: Vec<u32> = vec![1000];
    let store = PolicyStore::from_args(&allowed, &denied, false);
    let mut pipe = EventPipeline::new(1, 16);
    let path = b"/usr/bin/sudo".to_vec();
    let code = bprm_check_security(&store, &mut pipe, 0, SUID_REG_MODE, 1000, 1000, 0, Some(&path));
    assert_eq!(code, -13);
    assert_eq!(pipe.queues[0].len(), 1);
    assert_eq!(pipe.queues[0][0].uid, 1000);
    assert!(pipe.queues[0][0].denied);
}

#[test]
fn dry_run_allows_but_audits_denial() {
    let allowed: Vec<u32> = vec![1000];
    let denied: Vec<u32> = Vec::new();
    let store = PolicyStore::from_args(&allowed, &denied, true);
    let mut pipe = EventPipeline::new(1, 16);
    let path = b"/usr/bin/passwd".to_vec();
    let code = bprm_check_security(&store, &mut pipe, 0, SUID_REG_MODE, 2000, 2000, 0, Some(&path));
    assert_eq!(code, 0);
    assert_eq!(pipe.queues[0].len(), 1);
    assert_eq!(pipe.queues[0][0].uid, 2000);
    assert!(pipe.queues[0][0].denied);
}

#[test]
fn prior_result_propagates() {
    let allowed: Vec<u32> = vec![1000];
    let denied: Vec<u32> = Vec::new();
    // dry-run is on, and uid 1000 is allowed: the engine's own verdict would
    // be allow either way, yet the prior result must come back unchanged.
    let store = PolicyStore::from_args(&allowed, &denied, true);
    let mut pipe = EventPipeline::new(1, 16);
    let path = b"/usr/bin/sudo".to_vec();
    let code = bprm_check_security(&store, &mut pipe, 0, SUID_REG_MODE, 1000, 1000, -1, Some(&path));
    assert_eq!(code, -1);
}

#[test]
fn non_suid_execution_gets_no_opinion() {
    let allowed: Vec<u32> = Vec::new();
    let denied: Vec<u32> = vec![1000];
    let store = PolicyStore::from_args(&allowed, &denied, false);
    let mut pipe = EventPipeline::new(1, 16);
    let path = b"/bin/ls".to_vec();
    let code = bprm_check_security(&store, &mut pipe, 0, PLAIN_REG_MODE, 1000, 1000, 0, Some(&path));
    assert_eq!(code, 0);
    assert_eq!(pipe.queues[0].len(), 0);
}

#[test]
fn missing_config_fails_closed() {
    let store = PolicyStore {
        config: None,
        allowlist: IdentitySet::new(),
        denylist: IdentitySet::new(),
    };
    let mut pipe = EventPipeline::new(1, 16);
    let path = b"/usr/bin/sudo".to_vec();
    let code = bprm_check_security(&store, &mut pipe, 0, SUID_REG_MODE, 1000, 1000, 0, Some(&path));
    assert_eq!(code, -14);
    assert_eq!(pipe.queues[0].len(), 0);
}

#[test]
fn path_read_failure_drops_only_the_record() {
    let allowed: Vec<u32> = Vec::new();
    let denied: Vec<u32> = vec![1000];
    let store = PolicyStore::from_args(&allowed, &denied, false);
    let mut pipe = EventPipeline::new(1, 16);
    let code = bprm_check_security(&store, &mut pipe, 0, SUID_REG_MODE, 1000, 1000, 0, None);
    assert_eq!(code, -13);
    assert_eq!(pipe.queues[0].len(), 0);
    // The scratch slot still took the invocation's identifiers.
    assert_eq!(pipe.slots[0].uid, 1000);
}

#[test]
fn long_path_is_truncated_and_terminated() {
    let allowed: Vec<u32> = Vec::new();
    let denied: Vec<u32> = Vec::new();
    let store = PolicyStore::from_args(&allowed, &denied, false);
    let mut pipe = EventPipeline::new(1, 16);
    let path = vec![b'a'; PATH_CAP + 100];
    let code = bprm_check_security(&store, &mut pipe, 0, SUID_REG_MODE, 1000, 1000, 0, Some(&path));
    assert_eq!(code, 0);
    let record = &pipe.queues[0][0];
    assert_eq!(record.path.len(), PATH_CAP);
    for i in 0..PATH_CAP - 1 {
        assert_eq!(record.path[i], b'a');
    }
    assert_eq!(record.path[PATH_CAP - 1], 0);
}

#[test]
fn short_path_is_terminated_at_its_length() {
    let allowed: Vec<u32> = Vec::new();
    let denied: Vec<u32> = Vec::new();
    let store = PolicyStore::from_args(&allowed, &denied, false);
    let mut pipe = EventPipeline::new(1, 16);
    let path = b"/bin/su".to_vec();
    bprm_check_security(&store, &mut pipe, 0, SUID_REG_MODE, 1000, 1000, 0, Some(&path));
    let record = &pipe.queues[0][0];
    assert_eq!(&record.path[..7], b"/bin/su");
    assert_eq!(record.path[7], 0);
}

#[test]
fn concurrent_cores_do_not_cross_contaminate() {
    let allowed: Vec<u32> = vec![1000];
    let denied: Vec<u32> = Vec::new();
    let store = PolicyStore::from_args(&allowed, &denied, false);
    let num_cores = 4;
    let mut pipe = EventPipeline::new(num_cores, 16);
    let paths: Vec<Vec<u8>> = (0..num_cores)
        .map(|c| format!("/usr/bin/tool{}", c).into_bytes())
        .collect();
    for core in 0..num_cores {
        let uid = 1000 + core as u32;
        bprm_check_security(
            &store,
            &mut pipe,
            core,
            SUID_REG_MODE,
            uid,
            uid,
            0,
            Some(&paths[core]),
        );
    }
    for core in 0..num_cores {
        assert_eq!(pipe.queues[core].len(), 1);
        let record = &pipe.queues[core][0];
        assert_eq!(record.uid, 1000 + core as u32);
        assert_eq!(record.denied, core != 0);
        let expected = &paths[core];
        assert_eq!(&record.path[..expected.len()], &expected[..]);
        assert_eq!(record.path[expected.len()], 0);
    }
}

#[test]
fn full_partition_drops_the_record() {
    let allowed: Vec<u32> = Vec::new();
    let denied: Vec<u32> = Vec::new();
    let store = PolicyStore::from_args(&allowed, &denied, false);
    let mut pipe = EventPipeline::new(1, 1);
    let path_a = b"/usr/bin/first".to_vec();
    let path_b = b"/usr/bin/second".to_vec();
    bprm_check_security(&store, &mut pipe, 0, SUID_REG_MODE, 1, 1, 0, Some(&path_a));
    let code = bprm_check_security(&store, &mut pipe, 0, SUID_REG_MODE, 2, 2, 0, Some(&path_b));
    // Publication failure is invisible to the verdict.
    assert_eq!(code, 0);
    assert_eq!(pipe.queues[0].len(), 1);
    assert_eq!(pipe.queues[0][0].uid, 1);
}
