use registry_indexer::actor::{
    get_dir_name_from_url, IndexStep, IndexerAction, IndexerActor, IndexerActorArguments,
    IndexerActorMessage, IndexerActorState,
};
use registry_indexer::git::{CommandRun, DiffAction, GitError, GitService};

fn ok(stdout: &[u8]) -> CommandRun {
    CommandRun::Exited { success: true, status: "exit status: 0".to_string(), stdout: stdout.to_vec() }
}

fn failed(stdout: &[u8]) -> CommandRun {
    CommandRun::Exited {
        success: false,
        status: "exit status: 128".to_string(),
        stdout: stdout.to_vec(),
    }
}

fn arguments() -> IndexerActorArguments {
    IndexerActorArguments::new("https://example.com/registry/index.git".to_string(), None)
}

fn fresh() -> IndexerActorState {
    IndexerActor.pre_start(&arguments(), false, &ok(b"")).unwrap()
}

fn diff_of(removed: &str, added: &str) -> Vec<u8> {
    format!(
        "diff --git a/x b/x\n--- a/x\n+++ b/x\n@@ -1 +1 @@\n-{{\"name\":\"{}\"}}\n+{{\"name\":\"{}\"}}\n",
        removed, added
    )
    .into_bytes()
}

/// Runs one whole indexing cycle against a remote whose head is `head` and
/// whose diff against the checkpoint is `diff`.
fn index(state: &mut IndexerActorState, head: Option<&str>, diff: &[u8]) -> Result<Vec<DiffAction>, GitError> {
    match IndexerActor.handle(IndexerActorMessage::Index, state, 1) {
        IndexerAction::RunIndex(command) => assert_eq!(command.args, vec!["fetch", "--all"]),
        other => panic!("unexpected: {:?}", other),
    }
    let resolve = state.fetched(&ok(b""))?;
    assert_eq!(resolve.args, vec!["rev-parse", "FETCH_HEAD"]);
    let run = match head {
        Some(hash) => ok(format!("{}\n", hash).as_bytes()),
        None => failed(b""),
    };
    match state.resolved(&run)? {
        IndexStep::Diff { new_head, command } => {
            assert_eq!(command.args[0], "diff");
            assert_eq!(command.args[2], new_head);
            state.diffed(new_head, &ok(diff))
        }
        _ => Ok(Vec::new()),
    }
}

#[test]
fn directory_names_from_urls() {
    assert_eq!(
        get_dir_name_from_url("https://github.com/rust-lang/crates.io-index.git"),
        "crates.io-index"
    );
    assert_eq!(get_dir_name_from_url("index.git"), "index");
    assert_eq!(get_dir_name_from_url("a/b/.git"), "");
    assert_eq!(get_dir_name_from_url(""), "");
    assert_eq!(get_dir_name_from_url("https://example.com/index"), "https://example.com/index");
    assert_eq!(get_dir_name_from_url("https://example.com/index.git/"), "https://example.com/index.git/");
    assert_eq!(get_dir_name_from_url("https://example.com/ind\u{e9}x.git"), "ind\u{e9}x");
    assert_eq!(get_dir_name_from_url("git"), "git");
}

#[test]
fn arguments_choose_the_directory() {
    assert_eq!(arguments().directory(), "index");
    assert_eq!(arguments().git_url(), "https://example.com/registry/index.git");
    let named = IndexerActorArguments::new("https://example.com/index.git".to_string(), Some("mirror".to_string()));
    assert_eq!(named.directory(), "mirror");
}

#[test]
fn start_without_mirror_clones() {
    let command = IndexerActor.pre_start_command(&arguments(), false).unwrap();
    assert_eq!(
        command.args,
        vec!["clone", "--filter=blob:none", "--bare", "https://example.com/registry/index.git", "index"]
    );
    assert!(command.run_in_parent);
    let state = fresh();
    assert_eq!(state.last_commit_hash(), None);
    assert_eq!(state.last_indexed(), None);
    assert_eq!(state.timer_interval(), None);
    assert_eq!(state.epoch(), 0);
    assert_eq!(state.git_service().repository_path(), "index");
}

#[test]
fn failed_clone_is_fatal() {
    match IndexerActor.pre_start(&arguments(), false, &failed(b"")) {
        Err(GitError::ExitError(message)) => {
            assert_eq!(message, "Git clone command failed with exit status: exit status: 128")
        }
        other => panic!("unexpected: {:?}", other),
    }
    match IndexerActor.pre_start(&arguments(), false, &CommandRun::LaunchFailed("gone".to_string())) {
        Err(GitError::LaunchError(message)) => assert_eq!(message, "gone"),
        other => panic!("unexpected: {:?}", other),
    }
}

#[test]
fn start_with_mirror_seeds_the_checkpoint() {
    let command = IndexerActor.pre_start_command(&arguments(), true).unwrap();
    assert_eq!(command.args, vec!["rev-parse", "FETCH_HEAD"]);
    assert!(!command.run_in_parent);
    let state = IndexerActor.pre_start(&arguments(), true, &ok(b"h0\n")).unwrap();
    assert_eq!(state.last_commit_hash(), Some("h0"));
}

#[test]
fn unresolvable_mirror_head_degrades_to_empty_checkpoint() {
    let state = IndexerActor.pre_start(&arguments(), true, &failed(b"")).unwrap();
    assert_eq!(state.last_commit_hash(), None);
    let state = IndexerActor
        .pre_start(&arguments(), true, &CommandRun::LaunchFailed("gone".to_string()))
        .unwrap();
    assert_eq!(state.last_commit_hash(), None);
}

#[test]
fn index_on_repository_without_commits() {
    let mut state = fresh();
    IndexerActor.handle(IndexerActorMessage::Index, &mut state, 5);
    assert_eq!(state.last_indexed(), Some(5));
    state.fetched(&ok(b"")).unwrap();
    assert!(matches!(state.resolved(&failed(b"")), Ok(IndexStep::NoCommits)));
    assert_eq!(state.last_commit_hash(), None);
    assert_eq!(index(&mut state, None, b"").unwrap(), vec![]);
    assert_eq!(state.last_commit_hash(), None);
}

#[test]
fn first_index_sets_checkpoint_without_events() {
    let mut state = fresh();
    IndexerActor.handle(IndexerActorMessage::Index, &mut state, 5);
    state.fetched(&ok(b"")).unwrap();
    assert!(matches!(state.resolved(&ok(b"h1\n")), Ok(IndexStep::InitialHead)));
    assert_eq!(state.last_commit_hash(), Some("h1"));
    let mut other = fresh();
    assert_eq!(index(&mut other, Some("h1"), b"").unwrap(), vec![]);
    assert_eq!(other.last_commit_hash(), Some("h1"));
}

#[test]
fn checkpoint_follows_the_resolved_head() {
    let mut state = fresh();
    let heads = [Some("h1"), Some("h2"), Some("h2"), None, Some("h3"), Some("h4")];
    for head in heads {
        index(&mut state, head, &diff_of("bar", "foo")).unwrap();
        assert_eq!(state.last_commit_hash(), head);
    }
}

#[test]
fn moved_head_emits_the_events_of_the_diff() {
    let mut state = fresh();
    index(&mut state, Some("h1"), b"").unwrap();
    let events = index(&mut state, Some("h2"), &diff_of("bar", "foo")).unwrap();
    assert_eq!(
        events,
        vec![DiffAction::Remove("bar".to_string()), DiffAction::Add("foo".to_string())]
    );
    assert_eq!(state.last_commit_hash(), Some("h2"));
}

#[test]
fn second_index_without_remote_change_is_silent() {
    let mut state = fresh();
    index(&mut state, Some("h1"), b"").unwrap();
    index(&mut state, Some("h2"), &diff_of("bar", "foo")).unwrap();
    IndexerActor.handle(IndexerActorMessage::Index, &mut state, 9);
    state.fetched(&ok(b"")).unwrap();
    assert!(matches!(state.resolved(&ok(b"h2\n")), Ok(IndexStep::Unchanged)));
    assert_eq!(index(&mut state, Some("h2"), &diff_of("bar", "foo")).unwrap(), vec![]);
    assert_eq!(state.last_commit_hash(), Some("h2"));
}

#[test]
fn regressed_repository_clears_the_checkpoint() {
    let mut state = fresh();
    index(&mut state, Some("h1"), b"").unwrap();
    state.fetched(&ok(b"")).unwrap();
    assert!(matches!(state.resolved(&failed(b"")), Ok(IndexStep::Regressed)));
    assert_eq!(state.last_commit_hash(), None);
}

#[test]
fn failed_translation_keeps_the_checkpoint() {
    let mut state = fresh();
    index(&mut state, Some("h1"), b"").unwrap();
    let broken = b"--- a/x\n+++ b/x\n@@ -0,0 +1 @@\n+not a record\n";
    assert!(matches!(index(&mut state, Some("h2"), broken), Err(GitError::RecordParseError(_))));
    assert_eq!(state.last_commit_hash(), Some("h1"));
    assert!(matches!(index(&mut state, Some("h2"), b"@@ broken\n"), Err(GitError::DiffParseError(_))));
    assert_eq!(state.last_commit_hash(), Some("h1"));
    let events = index(&mut state, Some("h2"), &diff_of("bar", "foo")).unwrap();
    assert_eq!(events.len(), 2);
    assert_eq!(state.last_commit_hash(), Some("h2"));
}

#[test]
fn failed_commands_keep_the_checkpoint() {
    let mut state = fresh();
    index(&mut state, Some("h1"), b"").unwrap();
    assert!(matches!(state.fetched(&failed(b"")), Err(GitError::ExitError(_))));
    assert!(matches!(
        state.resolved(&CommandRun::LaunchFailed("gone".to_string())),
        Err(GitError::LaunchError(_))
    ));
    assert_eq!(state.last_commit_hash(), Some("h1"));
    match state.resolved(&ok(b"h2\n")).unwrap() {
        IndexStep::Diff { new_head, command } => {
            assert_eq!(command.args, vec!["diff", "h1", "h2"]);
            assert!(matches!(state.diffed(new_head, &failed(b"")), Err(GitError::ExitError(_))));
        }
        other => panic!("unexpected: {:?}", other),
    }
    assert_eq!(state.last_commit_hash(), Some("h1"));
}

#[test]
fn start_arms_a_timer_of_a_new_epoch() {
    let mut state = fresh();
    match IndexerActor.handle(IndexerActorMessage::StartAutoIndex(25_000), &mut state, 0) {
        IndexerAction::ArmTimer { interval, epoch } => {
            assert_eq!(interval, 25_000);
            assert_eq!(epoch, 1);
        }
        other => panic!("unexpected: {:?}", other),
    }
    assert_eq!(state.timer_interval(), Some(25_000));
    assert_eq!(state.epoch(), 1);
    match IndexerActor.handle(IndexerActorMessage::StartAutoIndex(10_000), &mut state, 0) {
        IndexerAction::ArmTimer { interval, epoch } => {
            assert_eq!(interval, 10_000);
            assert_eq!(epoch, 2);
        }
        other => panic!("unexpected: {:?}", other),
    }
}

#[test]
fn live_timer_indexes_and_rearms() {
    let mut state = fresh();
    IndexerActor.handle(IndexerActorMessage::StartAutoIndex(25_000), &mut state, 0);
    for _ in 0..3 {
        match IndexerActor.handle(IndexerActorMessage::AutoIndex(25_000, 1), &mut state, 0) {
            IndexerAction::IndexAndArmTimer { interval, epoch } => {
                assert_eq!(interval, 25_000);
                assert_eq!(epoch, 1);
            }
            other => panic!("unexpected: {:?}", other),
        }
    }
    assert_eq!(state.timer_interval(), Some(25_000));
    assert_eq!(state.epoch(), 1);
}

#[test]
fn stale_timer_is_dropped_after_stop_and_restart() {
    let mut state = fresh();
    let first = match IndexerActor.handle(IndexerActorMessage::StartAutoIndex(25_000), &mut state, 0) {
        IndexerAction::ArmTimer { interval, epoch } => IndexerActorMessage::AutoIndex(interval, epoch),
        other => panic!("unexpected: {:?}", other),
    };
    assert!(matches!(
        IndexerActor.handle(IndexerActorMessage::StopAutoIndex, &mut state, 0),
        IndexerAction::Nothing
    ));
    assert_eq!(state.timer_interval(), None);
    assert!(matches!(IndexerActor.handle(first, &mut state, 0), IndexerAction::Nothing));
    let second = match IndexerActor.handle(IndexerActorMessage::StartAutoIndex(25_000), &mut state, 0) {
        IndexerAction::ArmTimer { interval, epoch } => IndexerActorMessage::AutoIndex(interval, epoch),
        other => panic!("unexpected: {:?}", other),
    };
    assert!(matches!(IndexerActor.handle(first, &mut state, 0), IndexerAction::Nothing));
    assert!(matches!(
        IndexerActor.handle(second, &mut state, 0),
        IndexerAction::IndexAndArmTimer { interval: 25_000, epoch: 2 }
    ));
}

#[test]
fn replaced_schedule_drops_the_old_timer() {
    let mut state = fresh();
    IndexerActor.handle(IndexerActorMessage::StartAutoIndex(25_000), &mut state, 0);
    IndexerActor.handle(IndexerActorMessage::StartAutoIndex(10_000), &mut state, 0);
    assert!(matches!(
        IndexerActor.handle(IndexerActorMessage::AutoIndex(25_000, 1), &mut state, 0),
        IndexerAction::Nothing
    ));
    assert!(matches!(
        IndexerActor.handle(IndexerActorMessage::AutoIndex(10_000, 1), &mut state, 0),
        IndexerAction::Nothing
    ));
    assert!(matches!(
        IndexerActor.handle(IndexerActorMessage::AutoIndex(25_000, 2), &mut state, 0),
        IndexerAction::Nothing
    ));
    assert!(matches!(
        IndexerActor.handle(IndexerActorMessage::AutoIndex(10_000, 2), &mut state, 0),
        IndexerAction::IndexAndArmTimer { interval: 10_000, epoch: 2 }
    ));
}

#[test]
fn timer_without_schedule_is_dropped() {
    let mut state = fresh();
    assert!(matches!(
        IndexerActor.handle(IndexerActorMessage::AutoIndex(25_000, 0), &mut state, 0),
        IndexerAction::Nothing
    ));
    assert_eq!(state.last_indexed(), None);
}

fn machine(checkpoint: Option<&str>) -> IndexerActorState {
    IndexerActorState::start(
        GitService::new("mirror".to_string()),
        checkpoint.map(|hash| hash.to_string()),
    )
}

#[test]
fn started_machine_is_idle() {
    let state = machine(Some("h0"));
    assert_eq!(state.last_commit_hash(), Some("h0"));
    assert_eq!(state.last_indexed(), None);
    assert_eq!(state.timer_interval(), None);
    assert_eq!(state.epoch(), 0);
    assert_eq!(state.git_service().repository_path(), "mirror");
}

#[test]
fn observed_head_decides_the_step() {
    let mut state = machine(None);
    assert!(matches!(state.observe_head(None), IndexStep::NoCommits));
    assert_eq!(state.last_commit_hash(), None);

    assert!(matches!(state.observe_head(Some("h1".to_string())), IndexStep::InitialHead));
    assert_eq!(state.last_commit_hash(), Some("h1"));

    assert!(matches!(state.observe_head(Some("h1".to_string())), IndexStep::Unchanged));
    assert_eq!(state.last_commit_hash(), Some("h1"));

    match state.observe_head(Some("h2".to_string())) {
        IndexStep::Diff { new_head, command } => {
            assert_eq!(new_head, "h2");
            assert_eq!(command.program, "git");
            assert_eq!(command.args, vec!["diff", "h1", "h2"]);
            assert!(!command.run_in_parent);
            assert!(command.capture);
        }
        other => panic!("unexpected: {:?}", other),
    }
    assert_eq!(state.last_commit_hash(), Some("h1"));

    assert!(matches!(state.observe_head(None), IndexStep::Regressed));
    assert_eq!(state.last_commit_hash(), None);
}

#[test]
fn finished_diff_moves_the_checkpoint_only_with_events() {
    let mut state = machine(Some("h1"));
    let failed = state.finish_diff(
        "h2".to_string(),
        Err(GitError::RecordParseError("x".to_string())),
    );
    assert!(matches!(failed, Err(GitError::RecordParseError(_))));
    assert_eq!(state.last_commit_hash(), Some("h1"));

    let events = vec![DiffAction::Add("foo".to_string())];
    let done = state.finish_diff("h2".to_string(), Ok(events)).unwrap();
    assert_eq!(done, vec![DiffAction::Add("foo".to_string())]);
    assert_eq!(state.last_commit_hash(), Some("h2"));

    let empty = state.finish_diff("h3".to_string(), Ok(Vec::new())).unwrap();
    assert!(empty.is_empty());
    assert_eq!(state.last_commit_hash(), Some("h3"));
}

#[test]
fn every_start_takes_the_next_epoch() {
    let mut state = machine(None);
    for expected in 1..=3u64 {
        match IndexerActor.handle(IndexerActorMessage::StartAutoIndex(7), &mut state, 0) {
            IndexerAction::ArmTimer { interval: 7, epoch } => assert_eq!(epoch, expected),
            other => panic!("unexpected: {:?}", other),
        }
    }
    assert_eq!(state.epoch(), 3);
}

#[test]
fn replayed_runs_follow_the_head() {
    let mut state = machine(None);
    let none = CommandRun::LaunchFailed("unused".to_string());

    let events = IndexerActor.replay_index(&mut state, 1, &ok(b""), &failed(b""), &none).unwrap();
    assert!(events.is_empty());
    assert_eq!(state.last_commit_hash(), None);
    assert_eq!(state.last_indexed(), Some(1));

    let events = IndexerActor.replay_index(&mut state, 2, &ok(b""), &ok(b"h1\n"), &none).unwrap();
    assert!(events.is_empty());
    assert_eq!(state.last_commit_hash(), Some("h1"));

    let diff = ok(&diff_of("bar", "foo"));
    let events = IndexerActor.replay_index(&mut state, 3, &ok(b""), &ok(b"h2\n"), &diff).unwrap();
    assert_eq!(
        events,
        vec![DiffAction::Remove("bar".to_string()), DiffAction::Add("foo".to_string())]
    );
    assert_eq!(state.last_commit_hash(), Some("h2"));

    let events = IndexerActor.replay_index(&mut state, 4, &ok(b""), &ok(b"h2\n"), &diff).unwrap();
    assert!(events.is_empty());
    assert_eq!(state.last_commit_hash(), Some("h2"));
    assert_eq!(state.last_indexed(), Some(4));
}

#[test]
fn replayed_run_that_fails_keeps_the_checkpoint() {
    let mut state = machine(Some("h1"));
    let diff = ok(&diff_of("bar", "foo"));

    let r = IndexerActor.replay_index(&mut state, 5, &failed(b""), &ok(b"h2\n"), &diff);
    assert!(matches!(r, Err(GitError::ExitError(_))));
    assert_eq!(state.last_commit_hash(), Some("h1"));

    let gone = CommandRun::LaunchFailed("gone".to_string());
    let r = IndexerActor.replay_index(&mut state, 6, &ok(b""), &gone, &diff);
    assert!(matches!(r, Err(GitError::LaunchError(_))));
    assert_eq!(state.last_commit_hash(), Some("h1"));

    let r = IndexerActor.replay_index(&mut state, 7, &ok(b""), &ok(b"h2\n"), &failed(b""));
    assert!(matches!(r, Err(GitError::ExitError(_))));
    assert_eq!(state.last_commit_hash(), Some("h1"));

    let broken = ok(b"--- a/x\n+++ b/x\n@@ -0,0 +1 @@\n+{}\n");
    let r = IndexerActor.replay_index(&mut state, 8, &ok(b""), &ok(b"h2\n"), &broken);
    assert!(matches!(r, Err(GitError::RecordParseError(_))));
    assert_eq!(state.last_commit_hash(), Some("h1"));
    assert_eq!(state.last_indexed(), Some(8));

    let r = IndexerActor.replay_index(&mut state, 9, &ok(b""), &ok(b"h2\n"), &diff);
    assert_eq!(r.unwrap().len(), 2);
    assert_eq!(state.last_commit_hash(), Some("h2"));
}
