//! The indexing state machine: checkpoint, indexing runs and the periodic schedule.
//!
//! The machine performs no I/O. Each function takes what happened (a
//! message, or the run of the command it asked for) and answers with the
//! next state and what to do next; the embedding program runs the commands
//! and the timers.

use vstd::prelude::*;
use vstd::string::*;
use crate::translate::{actions_view, diff_events, translation_view, DiffAction, EventView};
use crate::git::{
    clone_command_spec, diff_command_spec, fetch_command_spec, resolved_commit,
    rev_parse_command_spec, run_failure, CommandRun, GitCommand, GitCommandView, GitError,
    GitErrorView, GitService,
};

verus! {

/// A message to the indexer. Intervals are in milliseconds.
#[derive(Debug, Clone, Copy, PartialEq, Eq, Structural)]
pub enum IndexerActorMessage {
    /// Run one indexing cycle now.
    Index,
    /// A timer armed by the schedule `(interval, epoch)` has fired.
    AutoIndex(u64, u64),
    /// Replace the schedule by one with this interval.
    StartAutoIndex(u64),
    /// Clear the schedule.
    StopAutoIndex,
}

/// What the embedding program has to do after a message was handled.
#[derive(Debug)]
pub enum IndexerAction {
    /// Nothing: the message changed at most the state.
    Nothing,
    /// Run this fetch command and hand its run to [`IndexerActorState::fetched`].
    RunIndex(GitCommand),
    /// After `interval`, deliver `AutoIndex(interval, epoch)`.
    ArmTimer { interval: u64, epoch: u64 },
    /// Deliver `Index` now and, after `interval`, `AutoIndex(interval, epoch)`.
    IndexAndArmTimer { interval: u64, epoch: u64 },
}

/// The mathematical content of an [`IndexerAction`].
pub enum ActionView {
    Nothing,
    RunIndex,
    ArmTimer { interval: u64, epoch: u64 },
    IndexAndArmTimer { interval: u64, epoch: u64 },
}

/// The indexer: the behaviour of the machine, which has no data of its own.
pub struct IndexerActor;

/// The state of the machine: checkpoint, schedule and mirror.
#[derive(Debug)]
pub struct IndexerActorState {
    last_indexed: Option<u64>,
    last_commit_hash: Option<String>,
    timer_interval: Option<u64>,
    epoch: u64,
    git_service: GitService,
}

/// The mathematical content of the indexer's state.
pub struct IndexerView {
    /// When the last indexing run began.
    pub last_indexed: Option<u64>,
    /// The checkpoint: the last commit that was indexed.
    pub checkpoint: Option<Seq<char>>,
    /// The interval of the running schedule, if one is running.
    pub timer: Option<u64>,
    /// The generation of the schedule that was started last.
    pub epoch: u64,
    /// The path of the mirror.
    pub repository: Seq<char>,
}

impl View for IndexerActorState {
    type V = IndexerView;

    closed spec fn view(&self) -> IndexerView {
        IndexerView {
            last_indexed: self.last_indexed,
            checkpoint: match self.last_commit_hash {
                Some(hash) => Some(hash@),
                None => None,
            },
            timer: self.timer_interval,
            epoch: self.epoch,
            repository: self.git_service@,
        }
    }
}

/// A timer armed for `(interval, epoch)` belongs to the schedule that runs now.
pub open spec fn is_live(s: IndexerView, interval: u64, epoch: u64) -> bool {
    s.timer == Some(interval) && s.epoch == epoch
}

/// The state after a message, and the action it asks for.
///
/// Starting a schedule takes the next generation, so that no timer of an
/// earlier schedule is live again; once the generations are used up no
/// further schedule starts.
pub open spec fn handle_spec(s: IndexerView, message: IndexerActorMessage, now: u64) -> (
    IndexerView,
    ActionView,
) {
    match message {
        IndexerActorMessage::Index => (
            IndexerView { last_indexed: Some(now), ..s },
            ActionView::RunIndex,
        ),
        IndexerActorMessage::AutoIndex(interval, epoch) => if is_live(s, interval, epoch) {
            (s, ActionView::IndexAndArmTimer { interval, epoch })
        } else {
            (s, ActionView::Nothing)
        },
        IndexerActorMessage::StartAutoIndex(interval) => if s.epoch < u64::MAX {
            let epoch = (s.epoch + 1) as u64;
            (
                IndexerView { timer: Some(interval), epoch, ..s },
                ActionView::ArmTimer { interval, epoch },
            )
        } else {
            (IndexerView { timer: None, ..s }, ActionView::Nothing)
        },
        IndexerActorMessage::StopAutoIndex => (
            IndexerView { timer: None, ..s },
            ActionView::Nothing,
        ),
    }
}

impl View for IndexerAction {
    type V = ActionView;

    open spec fn view(&self) -> ActionView {
        match self {
            IndexerAction::Nothing => ActionView::Nothing,
            IndexerAction::RunIndex(_) => ActionView::RunIndex,
            IndexerAction::ArmTimer { interval, epoch } => ActionView::ArmTimer {
                interval: *interval,
                epoch: *epoch,
            },
            IndexerAction::IndexAndArmTimer { interval, epoch } => ActionView::IndexAndArmTimer {
                interval: *interval,
                epoch: *epoch,
            },
        }
    }
}

/// What an indexing run has to do once the new head is known.
#[derive(Debug)]
pub enum IndexStep {
    /// Neither a checkpoint nor a head: the repository has no commits.
    NoCommits,
    /// The first head that was seen: it became the checkpoint, nothing is diffed.
    InitialHead,
    /// There was a checkpoint and there is no head any more: the checkpoint was cleared.
    Regressed,
    /// The head is the checkpoint: nothing to index.
    Unchanged,
    /// The head moved: run `command` and hand its run, with `new_head`, to
    /// [`IndexerActorState::diffed`].
    Diff { new_head: String, command: GitCommand },
}

/// The mathematical content of an [`IndexStep`].
pub enum StepView {
    NoCommits,
    InitialHead,
    Regressed,
    Unchanged,
    Diff { new_head: Seq<char>, command: GitCommandView },
}

impl View for IndexStep {
    type V = StepView;

    open spec fn view(&self) -> StepView {
        match self {
            IndexStep::NoCommits => StepView::NoCommits,
            IndexStep::InitialHead => StepView::InitialHead,
            IndexStep::Regressed => StepView::Regressed,
            IndexStep::Unchanged => StepView::Unchanged,
            IndexStep::Diff { new_head, command } => StepView::Diff {
                new_head: new_head@,
                command: command@,
            },
        }
    }
}

/// The step that a checkpoint and a newly resolved head call for.
pub open spec fn index_step(checkpoint: Option<Seq<char>>, head: Option<Seq<char>>) -> StepView {
    match (checkpoint, head) {
        (None, None) => StepView::NoCommits,
        (None, Some(_)) => StepView::InitialHead,
        (Some(_), None) => StepView::Regressed,
        (Some(old_commit), Some(new_commit)) => if old_commit == new_commit {
            StepView::Unchanged
        } else {
            StepView::Diff {
                new_head: new_commit,
                command: diff_command_spec(old_commit, new_commit),
            }
        },
    }
}

/// The checkpoint after a run that resolved `head`: the head, unless a diff
/// was called for and its events could not be produced; then the
/// checkpoint stays.
pub open spec fn checkpoint_after_run(
    checkpoint: Option<Seq<char>>,
    head: Option<Seq<char>>,
    events_produced: bool,
) -> Option<Seq<char>> {
    if index_step(checkpoint, head) is Diff && !events_produced {
        checkpoint
    } else {
        head
    }
}

/// One whole indexing run, from what its commands returned: the state
/// after it and the events it emits.
///
/// The run begins at `now`, fetches, resolves the fetched head and decides
/// by [`index_step`]. It fails where the fetch fails, where the head cannot
/// be resolved, or where a diff is called for and does not give its
/// events; a failed run leaves the checkpoint alone. A run that does not
/// fail leaves the resolved head as the checkpoint, and emits the events of
/// the diff where one was called for, none otherwise. The run of the diff
/// command counts only where a diff is called for.
pub open spec fn index_run(
    s: IndexerView,
    now: u64,
    fetch: CommandRun,
    resolve: CommandRun,
    diff: CommandRun,
) -> (IndexerView, Result<Seq<EventView>, GitErrorView>) {
    let begun = IndexerView { last_indexed: Some(now), ..s };
    if !fetch.succeeded() {
        (begun, Err(run_failure(fetch, "Git fetch command failed with exit status: "@)))
    } else {
        match resolved_commit(resolve) {
            Err(e) => (begun, Err(e)),
            Ok(head) => if index_step(s.checkpoint, head) is Diff {
                match diff_events(diff) {
                    Ok(events) => (IndexerView { checkpoint: head, ..begun }, Ok(events)),
                    Err(e) => (begun, Err(e)),
                }
            } else {
                (IndexerView { checkpoint: head, ..begun }, Ok(Seq::empty()))
            },
        }
    }
}

/// The state of a machine that has just started.
pub open spec fn initial_view(repository: Seq<char>, checkpoint: Option<Seq<char>>) -> IndexerView {
    IndexerView { last_indexed: None, checkpoint, timer: None, epoch: 0, repository }
}

impl IndexerActorState {
    /// When the last indexing run began.
    pub fn last_indexed(&self) -> (at: Option<u64>)
        ensures
            at == self@.last_indexed,
    {
        self.last_indexed
    }

    /// The checkpoint.
    pub fn last_commit_hash(&self) -> (hash: Option<&str>)
        ensures
            self@.checkpoint == match hash {
                Some(text) => Some(text@),
                None => None,
            },
    {
        match &self.last_commit_hash {
            Some(hash) => Some(hash.as_str()),
            None => None,
        }
    }

    /// The interval of the running schedule.
    pub fn timer_interval(&self) -> (interval: Option<u64>)
        ensures
            interval == self@.timer,
    {
        self.timer_interval
    }

    /// The generation of the schedule that was started last.
    pub fn epoch(&self) -> (epoch: u64)
        ensures
            epoch == self@.epoch,
    {
        self.epoch
    }

    /// The mirror.
    pub fn git_service(&self) -> (service: &GitService)
        ensures
            service@ == self@.repository,
    {
        &self.git_service
    }

    /// Second step of an indexing run, after the fetch: where the fetch
    /// succeeded, the command that resolves the fetched head, whose run goes
    /// to [`IndexerActorState::resolved`]; else the run has failed.
    pub fn fetched(&self, run: &CommandRun) -> (r: Result<GitCommand, GitError>)
        ensures
            match r {
                Ok(command) => run.succeeded() && command@ == rev_parse_command_spec(
                    "FETCH_HEAD"@,
                ),
                Err(e) => !run.succeeded() && e@ == run_failure(
                    *run,
                    "Git fetch command failed with exit status: "@,
                ),
            },
    {
        match self.git_service.fetch(run) {
            Ok(()) => Ok(self.git_service.fetch_head_command()),
            Err(e) => Err(e),
        }
    }

    /// A machine that has just started, with the given mirror and
    /// checkpoint.
    pub fn start(git_service: GitService, checkpoint: Option<String>) -> (state: Self)
        ensures
            state@ == initial_view(
                git_service@,
                match checkpoint {
                    Some(hash) => Some(hash@),
                    None => None,
                },
            ),
    {
        IndexerActorState {
            last_indexed: None,
            last_commit_hash: checkpoint,
            timer_interval: None,
            epoch: 0,
            git_service,
        }
    }

    /// Decides what a run has to do now that the remote's head is known:
    /// see [`index_step`]. Where no diff is called for, the run is complete
    /// and the head is the checkpoint; where one is, the checkpoint stays
    /// until [`IndexerActorState::diffed`] has the events.
    pub fn observe_head(&mut self, head: Option<String>) -> (step: IndexStep)
        ensures
            step@ == index_step(
                old(self)@.checkpoint,
                match head {
                    Some(hash) => Some(hash@),
                    None => None,
                },
            ),
            final(self)@ == (IndexerView {
                checkpoint: checkpoint_after_run(
                    old(self)@.checkpoint,
                    match head {
                        Some(hash) => Some(hash@),
                        None => None,
                    },
                    false,
                ),
                ..old(self)@
            }),
    {
        match head {
            None => {
                let step = match &self.last_commit_hash {
                    None => IndexStep::NoCommits,
                    Some(_) => IndexStep::Regressed,
                };
                self.last_commit_hash = None;
                step
            },
            Some(new_commit) => {
                let step = match &self.last_commit_hash {
                    None => None,
                    Some(old_commit) => {
                        if *old_commit == new_commit {
                            Some(IndexStep::Unchanged)
                        } else {
                            Some(
                                IndexStep::Diff {
                                    command: self.git_service.diff_command(
                                        old_commit.as_str(),
                                        new_commit.as_str(),
                                    ),
                                    new_head: new_commit.clone(),
                                },
                            )
                        }
                    },
                };
                match step {
                    None => {
                        self.last_commit_hash = Some(new_commit);
                        IndexStep::InitialHead
                    },
                    Some(step) => step,
                }
            },
        }
    }

    /// Third step of an indexing run: reads the run of the command that
    /// resolves the fetched head and decides by checkpoint and head, as
    /// [`IndexerActorState::observe_head`] does. Where the head could not
    /// be resolved the run has failed and the state is unchanged.
    pub fn resolved(&mut self, run: &CommandRun) -> (r: Result<IndexStep, GitError>)
        ensures
            match resolved_commit(*run) {
                Ok(head) => r matches Ok(step) && step@ == index_step(old(self)@.checkpoint, head)
                    && final(self)@ == (IndexerView {
                    checkpoint: checkpoint_after_run(old(self)@.checkpoint, head, false),
                    ..old(self)@
                }),
                Err(e) => r matches Err(err) && err@ == e && *final(self) == *old(self),
            },
    {
        match self.git_service.get_current_commit_hash_from_fetch_head(run) {
            Ok(head) => Ok(self.observe_head(head)),
            Err(e) => Err(e),
        }
    }

    /// Ends a run that called for a diff, given what the diff came to.
    /// Where the events were produced they are handed on and `new_head`
    /// becomes the checkpoint; else the run has failed, the error is handed
    /// on and the state is unchanged, so that the next run diffs from the
    /// same checkpoint again.
    pub fn finish_diff(
        &mut self,
        new_head: String,
        outcome: Result<Vec<DiffAction>, GitError>,
    ) -> (r: Result<Vec<DiffAction>, GitError>)
        ensures
            r == outcome,
            outcome is Ok ==> final(self)@ == (IndexerView {
                checkpoint: checkpoint_after_run(old(self)@.checkpoint, Some(new_head@), true),
                ..old(self)@
            }),
            outcome is Err ==> *final(self) == *old(self),
    {
        match outcome {
            Ok(events) => {
                self.last_commit_hash = Some(new_head);
                Ok(events)
            },
            Err(e) => Err(e),
        }
    }

    /// Last step of an indexing run that called for a diff: reads the run
    /// of the diff command into events and ends the run as
    /// [`IndexerActorState::finish_diff`] does.
    pub fn diffed(&mut self, new_head: String, run: &CommandRun) -> (r: Result<
        Vec<DiffAction>,
        GitError,
    >)
        ensures
            translation_view(r) == diff_events(*run),
            r is Ok ==> final(self)@ == (IndexerView {
                checkpoint: checkpoint_after_run(old(self)@.checkpoint, Some(new_head@), true),
                ..old(self)@
            }),
            r is Err ==> *final(self) == *old(self),
    {
        let outcome = self.git_service.diff_commits(run);
        self.finish_diff(new_head, outcome)
    }
}

impl IndexerActor {
    /// The command to run before the machine starts: the clone where no
    /// mirror exists yet (none where the directory has no name to clone
    /// into), else the one that resolves the head that was fetched last.
    pub fn pre_start_command(
        &self,
        arguments: &IndexerActorArguments,
        dir_exists: bool,
    ) -> (command: Option<GitCommand>)
        ensures
            dir_exists ==> (command matches Some(c) && c@ == rev_parse_command_spec(
                "FETCH_HEAD"@,
            )),
            !dir_exists ==> (command matches Some(c) ==> exists|dir: Seq<char>|
                c@ == #[trigger] clone_command_spec(arguments.url(), dir)),
    {
        let service = GitService::new(arguments.directory());
        if dir_exists {
            Some(service.fetch_head_command())
        } else {
            service.clone_command(arguments.git_url())
        }
    }

    /// Starts the machine from the run of [`IndexerActor::pre_start_command`].
    ///
    /// With a fresh clone the checkpoint is empty, and a clone that failed
    /// is an error. With an existing mirror the checkpoint is the head that
    /// was fetched last; where that cannot be resolved the machine starts
    /// with an empty checkpoint.
    pub fn pre_start(
        &self,
        arguments: &IndexerActorArguments,
        dir_exists: bool,
        run: &CommandRun,
    ) -> (r: Result<IndexerActorState, GitError>)
        ensures
            dir_exists ==> (r matches Ok(state) && state@ == initial_view(
                arguments.directory_spec(),
                match resolved_commit(*run) {
                    Ok(head) => head,
                    Err(_) => None,
                },
            )),
            !dir_exists && run.succeeded() ==> (r matches Ok(state) && state@ == initial_view(
                arguments.directory_spec(),
                None,
            )),
            !dir_exists && !run.succeeded() ==> (r matches Err(e) && e@ == run_failure(
                *run,
                "Git clone command failed with exit status: "@,
            )),
    {
        let git_service = GitService::new(arguments.directory());
        let checkpoint = if dir_exists {
            match git_service.get_current_commit_hash_from_fetch_head(run) {
                Ok(head) => head,
                Err(_) => None,
            }
        } else {
            match git_service.clone_repository(run) {
                Ok(()) => None,
                Err(e) => {
                    return Err(e);
                },
            }
        };
        Ok(IndexerActorState::start(git_service, checkpoint))
    }

    /// Replays a whole indexing run from what its three commands returned:
    /// see [`index_run`]. It handles `Index` and then takes the steps
    /// [`IndexerActorState::fetched`], [`IndexerActorState::resolved`] and,
    /// where a diff is called for, [`IndexerActorState::diffed`].
    pub fn replay_index(
        &self,
        state: &mut IndexerActorState,
        now: u64,
        fetch: &CommandRun,
        resolve: &CommandRun,
        diff: &CommandRun,
    ) -> (r: Result<Vec<DiffAction>, GitError>)
        ensures
            (final(state)@, translation_view(r)) == index_run(
                old(state)@,
                now,
                *fetch,
                *resolve,
                *diff,
            ),
    {
        let _ = self.handle(IndexerActorMessage::Index, state, now);
        match state.fetched(fetch) {
            Err(e) => {
                return Err(e);
            },
            Ok(_) => {},
        }
        match state.resolved(resolve) {
            Err(e) => Err(e),
            Ok(IndexStep::Diff { new_head, command: _ }) => state.diffed(new_head, diff),
            Ok(_) => {
                let events: Vec<DiffAction> = Vec::new();
                assert(actions_view(events@) =~= Seq::empty());
                Ok(events)
            },
        }
    }

    /// Handles one message at time `now`: see [`handle_spec`]. For `Index`
    /// the action carries the fetch command that begins the run.
    pub fn handle(
        &self,
        message: IndexerActorMessage,
        state: &mut IndexerActorState,
        now: u64,
    ) -> (action: IndexerAction)
        ensures
            (final(state)@, action@) == handle_spec(old(state)@, message, now),
            action matches IndexerAction::RunIndex(command) ==> command@ == fetch_command_spec(),
    {
        match message {
            IndexerActorMessage::Index => {
                state.last_indexed = Some(now);
                IndexerAction::RunIndex(state.git_service.fetch_command())
            },
            IndexerActorMessage::AutoIndex(interval, epoch) => {
                let live = match state.timer_interval {
                    Some(current) => current == interval && state.epoch == epoch,
                    None => false,
                };
                if live {
                    IndexerAction::IndexAndArmTimer { interval, epoch }
                } else {
                    IndexerAction::Nothing
                }
            },
            IndexerActorMessage::StartAutoIndex(interval) => {
                if state.epoch < u64::MAX {
                    state.epoch = state.epoch + 1;
                    state.timer_interval = Some(interval);
                    IndexerAction::ArmTimer { interval, epoch: state.epoch }
                } else {
                    state.timer_interval = None;
                    IndexerAction::Nothing
                }
            },
            IndexerActorMessage::StopAutoIndex => {
                state.timer_interval = None;
                IndexerAction::Nothing
            },
        }
    }
}

/// What the machine is started with: the remote's URL and, if wanted, the
/// directory of the mirror.
pub struct IndexerActorArguments {
    git_url: String,
    dir_name: Option<String>,
}

impl IndexerActorArguments {
    pub fn new(git_url: String, dir_name: Option<String>) -> (arguments: Self)
        ensures
            arguments.url() == git_url@,
            arguments.named_directory() == match dir_name {
                Some(name) => Some(name@),
                None => None,
            },
    {
        Self { git_url, dir_name }
    }

    /// The URL of the remote repository.
    pub closed spec fn url(&self) -> Seq<char> {
        self.git_url@
    }

    /// The directory that was asked for, if one was.
    pub closed spec fn named_directory(&self) -> Option<Seq<char>> {
        match self.dir_name {
            Some(name) => Some(name@),
            None => None,
        }
    }

    /// The directory of the mirror: the one that was asked for, else the one
    /// that the URL names.
    pub open spec fn directory_spec(&self) -> Seq<char> {
        match self.named_directory() {
            Some(name) => name,
            None => dir_name_from_url(self.url()),
        }
    }

    pub fn git_url(&self) -> (url: &str)
        ensures
            url@ == self.url(),
    {
        self.git_url.as_str()
    }

    /// The directory of the mirror.
    pub fn directory(&self) -> (dir: String)
        ensures
            dir@ == self.directory_spec(),
    {
        match &self.dir_name {
            Some(name) => name.clone(),
            None => String::from_str(get_dir_name_from_url(self.git_url.as_str())),
        }
    }
}

/// Where the last segment of a URL begins: behind its last `/`, or at 0.
pub open spec fn last_segment_start(url: Seq<char>) -> int
    decreases url.len(),
{
    if url.len() == 0 {
        0
    } else if url.last() == '/' {
        url.len() as int
    } else {
        last_segment_start(url.drop_last())
    }
}

/// `s` ends with `suffix`.
pub open spec fn ends_with(s: Seq<char>, suffix: Seq<char>) -> bool {
    s.len() >= suffix.len() && s.subrange(s.len() - suffix.len(), s.len() as int) == suffix
}

/// The directory that a URL names: its last segment without the ending
/// `.git`; the whole URL where the last segment does not end so.
pub open spec fn dir_name_from_url(url: Seq<char>) -> Seq<char> {
    let segment = url.subrange(last_segment_start(url), url.len() as int);
    if ends_with(segment, seq!['.', 'g', 'i', 't']) {
        segment.subrange(0, segment.len() - 4)
    } else {
        url
    }
}

/// The last segment starts inside the URL, holds no `/`, and stands at the
/// URL's start or right behind a `/`.
pub proof fn lemma_last_segment_start(url: Seq<char>)
    ensures
        0 <= last_segment_start(url) <= url.len(),
        forall|j: int| last_segment_start(url) <= j < url.len() ==> url[j] != '/',
        last_segment_start(url) == 0 || url[last_segment_start(url) - 1] == '/',
    decreases url.len(),
{
    if url.len() > 0 && url.last() != '/' {
        let front = url.drop_last();
        lemma_last_segment_start(front);
        assert forall|j: int| last_segment_start(url) <= j < url.len() implies url[j] != '/' by {
            if j < front.len() {
                assert(front[j] == url[j]);
            }
        }
        if last_segment_start(url) != 0 {
            assert(front[last_segment_start(url) - 1] == url[last_segment_start(url) - 1]);
        }
    }
}

/// The directory that a URL names: see [`dir_name_from_url`].
pub fn get_dir_name_from_url<'a>(git_url: &'a str) -> (dir: &'a str)
    ensures
        dir@ == dir_name_from_url(git_url@),
{
    let len: usize = git_url.unicode_len();
    let mut start: usize = len;
    assert(git_url@.subrange(0, len as int) =~= git_url@);
    while start > 0 && git_url.get_char(start - 1) != '/'
        invariant
            start <= len,
            len == git_url@.len(),
            last_segment_start(git_url@) == last_segment_start(
                git_url@.subrange(0, start as int),
            ),
        decreases start,
    {
        assert(git_url@.subrange(0, start as int).drop_last() =~= git_url@.subrange(
            0,
            start - 1,
        ));
        start = start - 1;
    }
    assert(git_url@.subrange(0, len as int) =~= git_url@);
    let ghost segment = git_url@.subrange(start as int, len as int);
    if len - start >= 4 && git_url.get_char(len - 4) == '.' && git_url.get_char(len - 3) == 'g'
        && git_url.get_char(len - 2) == 'i' && git_url.get_char(len - 1) == 't' {
        assert(segment.subrange(segment.len() - 4, segment.len() as int) =~= seq![
            '.',
            'g',
            'i',
            't',
        ]);
        assert(segment.subrange(0, segment.len() - 4) =~= git_url@.subrange(
            start as int,
            len - 4,
        ));
        git_url.substring_char(start, len - 4)
    } else {
        assert(!ends_with(segment, seq!['.', 'g', 'i', 't'])) by {
            if ends_with(segment, seq!['.', 'g', 'i', 't']) {
                let tail = segment.subrange(segment.len() - 4, segment.len() as int);
                assert(tail[0] == '.' && tail[1] == 'g' && tail[2] == 'i' && tail[3] == 't');
            }
        }
        git_url
    }
}

/// What one indexing run is given: the time it begins at and the runs of
/// its fetch, rev-parse and diff commands.
pub struct RunInput {
    pub now: u64,
    pub fetch: CommandRun,
    pub resolve: CommandRun,
    pub diff: CommandRun,
}

/// The state after one run with the given input.
pub open spec fn after_run(s: IndexerView, input: RunInput) -> IndexerView {
    index_run(s, input.now, input.fetch, input.resolve, input.diff).0
}

/// The run with the given input does not fail.
pub open spec fn run_succeeds(s: IndexerView, input: RunInput) -> bool {
    index_run(s, input.now, input.fetch, input.resolve, input.diff).1 is Ok
}

/// The state after a series of runs.
pub open spec fn after_runs(s: IndexerView, inputs: Seq<RunInput>) -> IndexerView
    decreases inputs.len(),
{
    if inputs.len() == 0 {
        s
    } else {
        after_run(after_runs(s, inputs.drop_last()), inputs.last())
    }
}

/// None of a series of runs fails.
pub open spec fn runs_succeed(s: IndexerView, inputs: Seq<RunInput>) -> bool
    decreases inputs.len(),
{
    inputs.len() == 0 || (runs_succeed(s, inputs.drop_last()) && run_succeeds(
        after_runs(s, inputs.drop_last()),
        inputs.last(),
    ))
}

/// After any number of runs of which none failed, the checkpoint is the
/// commit that the last run resolved.
pub proof fn lemma_checkpoint_is_last_head(s: IndexerView, inputs: Seq<RunInput>)
    requires
        inputs.len() > 0,
        runs_succeed(s, inputs),
    ensures
        resolved_commit(inputs.last().resolve) == Ok::<_, GitErrorView>(
            after_runs(s, inputs).checkpoint,
        ),
{
}

/// The events that the run with the given input emits: those it hands
/// out where it does not fail, none where it fails.
pub open spec fn run_events(s: IndexerView, input: RunInput) -> Seq<EventView> {
    match index_run(s, input.now, input.fetch, input.resolve, input.diff).1 {
        Ok(events) => events,
        Err(_) => Seq::empty(),
    }
}

/// A second run against an unchanged remote, one that resolves to what
/// the first run resolved, emits no events and leaves the checkpoint where
/// the first run put it.
pub proof fn lemma_second_run_is_silent(s: IndexerView, first: RunInput, second: RunInput)
    requires
        run_succeeds(s, first),
        resolved_commit(second.resolve) == resolved_commit(first.resolve),
    ensures
        run_events(after_run(s, first), second) == Seq::<EventView>::empty(),
        after_run(after_run(s, first), second).checkpoint == after_run(s, first).checkpoint,
        second.fetch.succeeded() ==> run_succeeds(after_run(s, first), second),
{
}

/// A run that fails, wherever it fails, leaves the checkpoint at its value
/// before the run: only the time of the last run has changed.
pub proof fn lemma_failed_run_keeps_checkpoint(s: IndexerView, input: RunInput)
    requires
        !run_succeeds(s, input),
    ensures
        after_run(s, input) == (IndexerView { last_indexed: Some(input.now), ..s }),
        after_run(s, input).checkpoint == s.checkpoint,
{
}

/// The state after a series of messages, each with the time it was
/// handled at.
pub open spec fn handle_all(
    s: IndexerView,
    messages: Seq<(IndexerActorMessage, u64)>,
) -> IndexerView
    decreases messages.len(),
{
    if messages.len() == 0 {
        s
    } else {
        handle_spec(handle_all(s, messages.drop_last()), messages.last().0, messages.last().1).0
    }
}

/// Start, stop, start again with the same interval: the timer that the
/// first start armed triggers nothing, neither after the stop nor after
/// the second start.
pub proof fn lemma_stale_timer_suppressed(s: IndexerView, interval: u64, now: u64)
    ensures
        ({
            let (started, armed) = handle_spec(s, IndexerActorMessage::StartAutoIndex(interval), now);
            let stopped = handle_spec(started, IndexerActorMessage::StopAutoIndex, now).0;
            let restarted = handle_spec(
                stopped,
                IndexerActorMessage::StartAutoIndex(interval),
                now,
            ).0;
            armed matches ActionView::ArmTimer { interval: i, epoch: e } ==> {
                &&& i == interval
                &&& handle_spec(stopped, IndexerActorMessage::AutoIndex(i, e), now) == (
                    stopped,
                    ActionView::Nothing,
                )
                &&& handle_spec(restarted, IndexerActorMessage::AutoIndex(i, e), now) == (
                    restarted,
                    ActionView::Nothing,
                )
            }
        }),
{
}

/// A timer is stale for good: once a schedule was stopped or replaced, no
/// series of further messages makes a timer of that schedule live again.
pub proof fn lemma_stale_timer_stays_stale(
    s: IndexerView,
    interval: u64,
    messages: Seq<(IndexerActorMessage, u64)>,
)
    requires
        s.timer == Some(interval),
        messages.len() > 0,
        messages[0].0 is StopAutoIndex || messages[0].0 is StartAutoIndex,
    ensures
        !is_live(handle_all(s, messages), interval, s.epoch),
        handle_all(s, messages).epoch >= s.epoch,
        handle_all(s, messages).epoch == s.epoch ==> handle_all(s, messages).timer is None,
    decreases messages.len(),
{
    let front = messages.drop_last();
    if front.len() == 0 {
        assert(messages.last() == messages[0]);
    } else {
        assert(front[0] == messages[0]);
        lemma_stale_timer_stays_stale(s, interval, front);
    }
}

} // verus!
