use xnote_sync::auth::{expand_home, key_candidate, resolve_auth, AuthStrategy};
use xnote_sync::changes::{
    added_file_diff, build_sync_status, classify, collect_local_changes, ChangeKind, DirectoryFile,
    StatusEntry,
};
use xnote_sync::config::GitSyncConfig;
use xnote_sync::error::SyncError;
use xnote_sync::history::{commit_list, commit_time_text, remote_commit_list, RawCommit};
use xnote_sync::init::{plan_clone_merge, plan_initialize, RepositorySetup};
use xnote_sync::pull::{plan_merge_commit, plan_pull, PullMode, PullPlan, RemoteTip};
use xnote_sync::push::{classify_push, PushDecision, PushOutcome, PushRetry, MAX_PUSH_ATTEMPTS};
use xnote_sync::replay::{MergeOutcome, Replay, ReplayAction};
use xnote_sync::sync::{finish_sync, GitSyncManager};

fn config(auth: &str) -> GitSyncConfig {
    GitSyncConfig {
        enabled: true,
        repository_url: "https://example.com/notes.git".to_string(),
        branch: "main".to_string(),
        username: Some("ann".to_string()),
        password: Some("SECRET-REDACTED".to_string()),
        ssh_key_path: Some("~/.ssh/id_ed25519".to_string()),
        auth_type: auth.to_string(),
    }
}

fn entry(path: &str, flags: [bool; 5], content: Option<&str>) -> StatusEntry {
    StatusEntry {
        path: path.to_string(),
        wt_new: flags[0],
        index_new: flags[1],
        wt_modified: flags[2],
        index_modified: flags[3],
        wt_deleted: flags[4],
        content: content.map(|c| c.to_string()),
    }
}

fn raw(id: &str, summary: Option<&str>, author: Option<&str>, seconds: i64) -> RawCommit {
    RawCommit {
        id: id.to_string(),
        summary: summary.map(|s| s.to_string()),
        author: author.map(|s| s.to_string()),
        seconds,
    }
}

#[test]
fn basic_auth_needs_both_parts() {
    let key = Some("/home/ann/.ssh/id_ed25519".to_string());
    match resolve_auth(&config("basic"), &None, &key, false) {
        AuthStrategy::Basic { username, password } => {
            assert_eq!(username, "ann");
            assert_eq!(password, "SECRET-REDACTED");
        }
        other => panic!("unexpected {:?}", other),
    }
    let mut c = config("basic");
    c.password = None;
    assert!(matches!(resolve_auth(&c, &None, &key, true), AuthStrategy::NoAuth));
}

#[test]
fn ssh_auth_prefers_existing_key() {
    let home = Some("/home/ann".to_string());
    let key = key_candidate(&config("ssh"), &home);
    assert_eq!(key.as_deref(), Some("/home/ann/.ssh/id_ed25519"));
    match resolve_auth(&config("ssh"), &None, &key, true) {
        AuthStrategy::SshKey { username, key_path } => {
            assert_eq!(username, "git");
            assert_eq!(key_path, "/home/ann/.ssh/id_ed25519");
        }
        other => panic!("unexpected {:?}", other),
    }
    match resolve_auth(&config("ssh"), &Some("deploy".to_string()), &key, false) {
        AuthStrategy::SshAgent { username } => assert_eq!(username, "deploy"),
        other => panic!("unexpected {:?}", other),
    }
    let mut c = config("ssh");
    c.ssh_key_path = Some(String::new());
    assert!(key_candidate(&c, &home).is_none());
    assert!(matches!(resolve_auth(&c, &None, &key_candidate(&c, &home), true), AuthStrategy::SshAgent { .. }));
    c.ssh_key_path = None;
    assert!(key_candidate(&c, &home).is_none());
    assert!(matches!(resolve_auth(&c, &None, &None, true), AuthStrategy::SshAgent { .. }));
    c.ssh_key_path = Some("/keys/id".to_string());
    assert_eq!(key_candidate(&c, &home).as_deref(), Some("/keys/id"));
}

#[test]
fn other_auth_types_are_anonymous() {
    assert!(matches!(resolve_auth(&config("none"), &None, &None, true), AuthStrategy::NoAuth));
    assert!(matches!(resolve_auth(&config("token"), &None, &None, true), AuthStrategy::NoAuth));
}

#[test]
fn home_expansion() {
    let home = Some("/home/ann".to_string());
    assert_eq!(expand_home("~/.ssh/key", &home), "/home/ann/.ssh/key");
    assert_eq!(expand_home("~/.ssh/key", &None), "~/.ssh/key");
    assert_eq!(expand_home("/etc/key", &home), "/etc/key");
    assert_eq!(expand_home("~user/key", &home), "~user/key");
}

#[test]
fn replay_clean_rebase_moves_branch_last() {
    // the walk lists local commits newest first
    let mut r = Replay::start("main".to_string(), "R".to_string(), vec!["L2".to_string(), "L1".to_string()]);
    match r.next_action() {
        ReplayAction::Replay { commit, parent } => {
            assert_eq!(commit, "L1");
            assert_eq!(parent, "R");
        }
        other => panic!("unexpected {:?}", other),
    }
    r.record(MergeOutcome::Clean { new_commit: "L1'".to_string() });
    match r.next_action() {
        ReplayAction::Replay { commit, parent } => {
            assert_eq!(commit, "L2");
            assert_eq!(parent, "L1'");
        }
        other => panic!("unexpected {:?}", other),
    }
    r.record(MergeOutcome::Clean { new_commit: "L2'".to_string() });
    match r.next_action() {
        ReplayAction::UpdateBranch { reference, target } => {
            assert_eq!(reference, "refs/heads/main");
            assert_eq!(target, "L2'");
        }
        other => panic!("unexpected {:?}", other),
    }
    assert_eq!(r.created, vec!["L1'".to_string(), "L2'".to_string()]);
    assert_eq!(r.outcome().unwrap(), "L2'");
}

#[test]
fn replay_conflict_never_updates_branch() {
    let mut r = Replay::start("main".to_string(), "R".to_string(), vec!["L2".to_string(), "L1".to_string()]);
    r.record(MergeOutcome::Clean { new_commit: "L1'".to_string() });
    r.record(MergeOutcome::Conflict { paths: vec!["a.md".to_string()] });
    r.record(MergeOutcome::Clean { new_commit: "ignored".to_string() });
    match r.next_action() {
        ReplayAction::Abort { reference, commit } => {
            assert_eq!(reference, "refs/heads/main");
            assert_eq!(commit, "L2");
        }
        other => panic!("unexpected {:?}", other),
    }
    match r.outcome() {
        Err(SyncError::Conflict { commit, paths }) => {
            assert_eq!(commit, "L2");
            assert_eq!(paths, vec!["a.md".to_string()]);
        }
        other => panic!("unexpected {:?}", other),
    }
}

#[test]
fn replay_of_nothing_updates_to_onto() {
    let r = Replay::start("dev".to_string(), "R".to_string(), vec![]);
    match r.next_action() {
        ReplayAction::UpdateBranch { reference, target } => {
            assert_eq!(reference, "refs/heads/dev");
            assert_eq!(target, "R");
        }
        other => panic!("unexpected {:?}", other),
    }
}

#[test]
fn pull_fast_forwards_when_only_behind() {
    let tip = RemoteTip { id: "R".to_string(), ahead: 0, behind: 3 };
    for mode in [PullMode::Merge, PullMode::Rebase] {
        match plan_pull("main", Some(tip.clone()), mode).unwrap() {
            PullPlan::FastForward { reference, target } => {
                assert_eq!(reference, "refs/heads/main");
                assert_eq!(target, "R");
            }
            other => panic!("unexpected {:?}", other),
        }
    }
}

#[test]
fn pull_plans_by_divergence() {
    let up = RemoteTip { id: "R".to_string(), ahead: 2, behind: 0 };
    assert!(matches!(plan_pull("main", Some(up), PullMode::Rebase).unwrap(), PullPlan::UpToDate));
    let both = RemoteTip { id: "R".to_string(), ahead: 1, behind: 1 };
    assert!(matches!(plan_pull("main", Some(both.clone()), PullMode::Rebase).unwrap(), PullPlan::Rebase { .. }));
    assert!(matches!(plan_pull("main", Some(both), PullMode::Merge).unwrap(), PullPlan::Merge { .. }));
    match plan_pull("main", None, PullMode::Merge) {
        Err(SyncError::RepositoryState { message }) => assert!(message.contains("origin/main")),
        other => panic!("unexpected {:?}", other),
    }
}

#[test]
fn merge_commit_or_conflict() {
    let m = plan_merge_commit("main", "L", "R", vec![]).unwrap();
    assert_eq!(m.parents, vec!["L".to_string(), "R".to_string()]);
    assert_eq!(m.message, "Merge remote changes from main");
    match plan_merge_commit("main", "L", "R", vec!["x.md".to_string()]) {
        Err(SyncError::Conflict { commit, paths }) => {
            assert_eq!(commit, "R");
            assert_eq!(paths, vec!["x.md".to_string()]);
        }
        other => panic!("unexpected {:?}", other),
    }
}

#[test]
fn push_classification() {
    assert!(matches!(classify_push(None, false, None), PushOutcome::Accepted));
    assert!(matches!(
        classify_push(Some("cannot push because a reference that you are trying to update on the remote contains commits that are not present locally (NotFastForward)".to_string()), false, None),
        PushOutcome::NonFastForward
    ));
    assert!(matches!(
        classify_push(None, false, Some("cannot push non-fastforwardable reference".to_string())),
        PushOutcome::NonFastForward
    ));
    match classify_push(None, false, Some("hook declined".to_string())) {
        PushOutcome::Failed { error: SyncError::Network { message } } => assert_eq!(message, "push rejected: hook declined"),
        other => panic!("unexpected {:?}", other),
    }
    match classify_push(Some("401".to_string()), true, None) {
        PushOutcome::Failed { error: SyncError::Authentication { message } } => assert_eq!(message, "401"),
        other => panic!("unexpected {:?}", other),
    }
    assert!(matches!(
        classify_push(Some("timeout".to_string()), false, None),
        PushOutcome::Failed { error: SyncError::Network { .. } }
    ));
}

#[test]
fn push_succeeds_on_third_attempt() {
    let mut p = PushRetry::new();
    assert!(matches!(p.observe(PushOutcome::NonFastForward), PushDecision::RebaseAndRetry));
    assert!(matches!(p.observe(PushOutcome::NonFastForward), PushDecision::RebaseAndRetry));
    assert!(matches!(p.observe(PushOutcome::Accepted), PushDecision::Done));
    assert!(p.succeeded && p.finished);
    assert_eq!(p.attempts, 3);
}

#[test]
fn push_fails_after_three_rejections() {
    let mut p = PushRetry::new();
    assert!(matches!(p.observe(PushOutcome::NonFastForward), PushDecision::RebaseAndRetry));
    assert!(matches!(p.observe(PushOutcome::NonFastForward), PushDecision::RebaseAndRetry));
    assert!(matches!(p.observe(PushOutcome::NonFastForward), PushDecision::GiveUp { .. }));
    assert!(p.finished && !p.succeeded);
    assert_eq!(p.attempts, MAX_PUSH_ATTEMPTS);
    assert!(matches!(p.observe(PushOutcome::Accepted), PushDecision::GiveUp { .. }));
    assert!(!p.succeeded);
}

#[test]
fn push_other_failure_is_not_retried() {
    let mut p = PushRetry::new();
    let e = SyncError::Authentication { message: "denied".to_string() };
    match p.observe(PushOutcome::Failed { error: e }) {
        PushDecision::GiveUp { error: SyncError::Authentication { message } } => assert_eq!(message, "denied"),
        other => panic!("unexpected {:?}", other),
    }
    assert_eq!(p.attempts, 1);
    let mut q = PushRetry::new();
    q.observe(PushOutcome::NonFastForward);
    let err = q.rebase_failed(SyncError::Io { message: "disk".to_string() });
    assert!(matches!(err, SyncError::Io { .. }));
    assert!(q.finished && !q.succeeded);
}

#[test]
fn classify_precedence() {
    assert_eq!(classify(&entry("a", [true, false, false, false, false], None)), Some(ChangeKind::Added));
    assert_eq!(classify(&entry("a", [false, true, true, false, false], None)), Some(ChangeKind::Added));
    assert_eq!(classify(&entry("a", [false, false, false, true, true], None)), Some(ChangeKind::Modified));
    assert_eq!(classify(&entry("a", [false, false, false, false, true], None)), Some(ChangeKind::Deleted));
    assert_eq!(classify(&entry("a", [false; 5], None)), None);
}

#[test]
fn added_diff_text() {
    let d = added_file_diff("n.md", &Some("one\ntwo\n".to_string()));
    assert_eq!(d, "--- /dev/null\n+++ n.md\n@@ -0,0 +1,2 @@\n+one\n+two\n");
    assert_eq!(added_file_diff("n.md", &None), "New file: n.md");
    assert_eq!(added_file_diff("e.md", &Some(String::new())), "--- /dev/null\n+++ e.md\n@@ -0,0 +1,0 @@\n");
}

#[test]
fn added_diff_truncates_after_fifty_lines() {
    let text: String = (1..=123).map(|i| format!("l{}\n", i)).collect();
    let d = added_file_diff("big.md", &Some(text));
    assert!(d.starts_with("--- /dev/null\n+++ big.md\n@@ -0,0 +1,123 @@\n+l1\n"));
    assert!(d.contains("+l50\n"));
    assert!(!d.contains("+l51\n"));
    assert!(d.ends_with("+l50\n... and 73 more lines\n"));
    assert_eq!(d.lines().filter(|l| l.starts_with('+') && !l.starts_with("+++")).count(), 50);
}

#[test]
fn change_list_and_status_agree() {
    let entries = vec![
        entry("new.md", [true, false, false, false, false], Some("hi")),
        entry("mod.md", [false, false, true, false, false], Some("x")),
        entry("gone.md", [false, false, false, false, true], None),
        entry("clean.md", [false; 5], Some("c")),
    ];
    let files = vec![];
    let changes = collect_local_changes(&entries, &files);
    assert_eq!(changes.len(), 3);
    assert_eq!(changes[0].status, "added");
    assert_eq!(changes[0].diff_content, "--- /dev/null\n+++ new.md\n@@ -0,0 +1,1 @@\n+hi\n");
    assert_eq!(changes[0].local_content.as_deref(), Some("hi"));
    assert_eq!(changes[1].status, "modified");
    assert_eq!(changes[1].diff_content, "Modified file: mod.md (detailed diff not implemented yet)");
    assert_eq!(changes[2].status, "deleted");
    assert_eq!(changes[2].diff_content, "File deleted: gone.md");
    assert!(changes[2].remote_content.is_none());
    let status = build_sync_status(&entries, &files, 4, None);
    assert_eq!(status.local_changes, changes.len());
    assert_eq!(status.remote_changes, 4);
    assert!(!status.is_syncing && !status.has_conflicts);
}

#[test]
fn untracked_notes_fill_an_empty_scan() {
    let entries = vec![entry("clean.md", [false; 5], None)];
    let files = vec![
        DirectoryFile { name: "fresh.md".to_string(), is_file: true, in_index: false, content: Some("a\nb".to_string()) },
        DirectoryFile { name: "known.md".to_string(), is_file: true, in_index: true, content: None },
        DirectoryFile { name: "notes.txt".to_string(), is_file: true, in_index: false, content: None },
        DirectoryFile { name: ".md".to_string(), is_file: true, in_index: false, content: None },
        DirectoryFile { name: "dir.md".to_string(), is_file: false, in_index: false, content: None },
    ];
    let changes = collect_local_changes(&entries, &files);
    assert_eq!(changes.len(), 1);
    assert_eq!(changes[0].file_path, "fresh.md");
    assert_eq!(changes[0].status, "added");
    assert_eq!(changes[0].diff_content, "--- /dev/null\n+++ fresh.md\n@@ -0,0 +1,2 @@\n+a\n+b\n");
    assert_eq!(build_sync_status(&entries, &files, 0, None).local_changes, 1);
    let scanned = vec![entry("x.md", [false, false, true, false, false], None)];
    assert_eq!(collect_local_changes(&scanned, &files).len(), 1);
    assert_eq!(collect_local_changes(&scanned, &files)[0].file_path, "x.md");
}

#[test]
fn commit_time_is_rfc3339() {
    assert_eq!(commit_time_text(0), "1970-01-01T00:00:00+00:00");
    assert_eq!(commit_time_text(1_700_000_000), "2023-11-14T22:13:20+00:00");
}

#[test]
fn commit_listing_limits_and_fallbacks() {
    let walk: Vec<RawCommit> = (0..15).map(|i| raw(&format!("c{}", i), Some("msg"), Some("ann"), 60 * i)).collect();
    assert_eq!(commit_list(&walk, 5).len(), 5);
    assert_eq!(commit_list(&walk, 50).len(), 15);
    assert_eq!(remote_commit_list(3, &walk).len(), 10);
    assert_eq!(remote_commit_list(0, &walk).len(), 0);
    let odd = vec![raw("c", None, None, 86_400)];
    let l = commit_list(&odd, 1);
    assert_eq!(l[0].title, "No message");
    assert_eq!(l[0].author, "Unknown");
    assert_eq!(l[0].id, "c");
    assert_eq!(l[0].time, "1970-01-02T00:00:00+00:00");
}

#[test]
fn initialize_plans() {
    let url = "https://example.com/n.git".to_string();
    let p = plan_initialize(false, false, &url);
    assert!(p.create_directory);
    assert!(matches!(p.setup, RepositorySetup::CloneInto { ref url } if url == "https://example.com/n.git"));
    assert!(matches!(plan_initialize(true, false, &String::new()).setup, RepositorySetup::InitEmpty));
    let q = plan_initialize(true, true, &url);
    assert!(!q.create_directory);
    assert!(matches!(q.setup, RepositorySetup::AlreadyInitialized));
}

#[test]
fn clone_merge_keeps_existing_files() {
    let scratch = vec![".git".to_string(), "a.md".to_string(), "b.md".to_string(), "attachments".to_string()];
    let existing = vec!["a.md".to_string(), "mine.md".to_string()];
    let copy = plan_clone_merge(true, &scratch, &existing).unwrap();
    assert_eq!(copy, vec!["b.md".to_string(), "attachments".to_string()]);
    assert!(matches!(plan_clone_merge(false, &scratch, &existing), Err(SyncError::RepositoryState { .. })));
}

#[test]
fn manager_names() {
    let m = GitSyncManager::new("/data/notes".to_string(), config("none"));
    assert_eq!(m.remote_branch(), "origin/main");
    assert_eq!(m.local_branch_ref(), "refs/heads/main");
    assert_eq!(m.push_refspec(), "refs/heads/main:refs/heads/main");
    assert_eq!(m.git_dir(), "/data/notes/.git");
    assert_eq!(m.scratch_clone_dir(), "/data/notes/.tmp_clone");
    assert!(m.get_last_sync_time().is_none());
}

#[test]
fn sync_results() {
    let ok = finish_sync(Ok(2), vec![]).unwrap();
    assert!(ok.success);
    assert_eq!(ok.changes_pushed, 2);
    assert_eq!(ok.changes_pulled, 0);
    assert!(ok.conflicts.is_none());
    let changed = collect_local_changes(&vec![entry("a.md", [false, false, true, false, false], None)], &vec![]);
    let conflict = finish_sync(Err(SyncError::Conflict { commit: "c".to_string(), paths: vec!["a.md".to_string()] }), changed).unwrap();
    assert!(!conflict.success);
    assert_eq!(conflict.changes_pushed, 0);
    assert_eq!(conflict.changes_pulled, 0);
    assert_eq!(conflict.conflicts.unwrap()[0].file_path, "a.md");
    assert!(matches!(finish_sync(Err(SyncError::Network { message: "down".to_string() }), vec![]), Err(SyncError::Network { .. })));
}

#[test]
fn sync_rebases_unpushed_commit_onto_new_remote_commit() {
    // a.md committed locally as A (unpushed); the remote gained B adding b.md
    let tip = RemoteTip { id: "B".to_string(), ahead: 1, behind: 1 };
    let onto = match plan_pull("main", Some(tip), PullMode::Rebase).unwrap() {
        PullPlan::Rebase { onto } => onto,
        other => panic!("unexpected {:?}", other),
    };
    let mut replay = Replay::start("main".to_string(), onto, vec!["A".to_string()]);
    match replay.next_action() {
        ReplayAction::Replay { commit, parent } => {
            assert_eq!(commit, "A");
            assert_eq!(parent, "B");
        }
        other => panic!("unexpected {:?}", other),
    }
    // disjoint files merge cleanly
    replay.record(MergeOutcome::Clean { new_commit: "A'".to_string() });
    assert!(matches!(replay.next_action(), ReplayAction::UpdateBranch { ref target, .. } if target == "A'"));
    let pushed = replay.created.len();
    let mut push = PushRetry::new();
    assert!(matches!(push.observe(classify_push(None, false, None)), PushDecision::Done));
    let result = finish_sync(Ok(pushed), vec![]).unwrap();
    assert!(result.success);
    assert_eq!(result.changes_pushed, 1);
    assert_eq!(result.changes_pulled, 0);
    // afterwards the tree is clean and the remote holds A'
    let after = build_sync_status(&vec![], &vec![], 0, None);
    assert_eq!(after.local_changes, 0);
    assert_eq!(after.remote_changes, 0);
}
