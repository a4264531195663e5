//! From the lines of a diff to change events.

use vstd::prelude::*;
use vstd::string::*;
use crate::diff::{diff_lines_view, parse_diff, tokenize, DiffFault, DiffLine, LineKind};
use crate::git::{check_run, run_failure, CommandRun, GitError, GitErrorView, GitService};
use crate::text::{decode_lossy, json_string_member, string_member, utf8_lossy};

verus! {

/// A change to the registry: a record was added, updated or removed. The
/// text is the record's name.
#[derive(Debug, Hash, PartialEq, Eq)]
pub enum DiffAction {
    Add(String),
    Update(String),
    Remove(String),
}

/// The mathematical content of a [`DiffAction`].
pub enum EventView {
    Add(Seq<char>),
    Update(Seq<char>),
    Remove(Seq<char>),
}

impl View for DiffAction {
    type V = EventView;

    open spec fn view(&self) -> EventView {
        match self {
            DiffAction::Add(name) => EventView::Add(name@),
            DiffAction::Update(name) => EventView::Update(name@),
            DiffAction::Remove(name) => EventView::Remove(name@),
        }
    }
}

/// The contents of a list of events.
pub open spec fn actions_view(events: Seq<DiffAction>) -> Seq<EventView> {
    events.map_values(|event: DiffAction| event@)
}

/// The event of one hunk line, given the name that its record carries:
/// none for a context line; for an added or removed line the addition or
/// removal of that name, and an error that quotes the record where it
/// carries no name.
pub open spec fn change_event_spec(kind: LineKind, name: Option<Seq<char>>, record: Seq<char>) -> Result<
    Option<EventView>,
    GitErrorView,
> {
    match (kind, name) {
        (LineKind::Context, _) => Ok(None),
        (LineKind::Added, Some(name)) => Ok(Some(EventView::Add(name))),
        (LineKind::Removed, Some(name)) => Ok(Some(EventView::Remove(name))),
        (_, None) => Err(GitErrorView::RecordParseError(record)),
    }
}

/// The name that a record carries: the string that it has, as a JSON
/// object, under `name`.
pub open spec fn record_name(record: Seq<char>) -> Option<Seq<char>> {
    match json_string_member(record, "name"@) {
        Some(Some(name)) => Some(name),
        _ => None,
    }
}

/// The event of one hunk line: its content is read as text, the text as a
/// record, and the record's identity is its name.
pub open spec fn line_event(line: (LineKind, Seq<u8>)) -> Result<Option<EventView>, GitErrorView> {
    change_event_spec(line.0, record_name(utf8_lossy(line.1)), utf8_lossy(line.1))
}

/// The events with one more, unless it is among them already.
pub open spec fn with_event(events: Seq<EventView>, event: EventView) -> Seq<EventView> {
    if events.contains(event) {
        events
    } else {
        events.push(event)
    }
}

/// The events of a list of hunk lines: each event once, in the order of
/// first appearance; the error of the first line that has one.
pub open spec fn events_of(lines: Seq<(LineKind, Seq<u8>)>) -> Result<Seq<EventView>, GitErrorView>
    decreases lines.len(),
{
    if lines.len() == 0 {
        Ok(Seq::empty())
    } else {
        match events_of(lines.drop_last()) {
            Err(e) => Err(e),
            Ok(events) => match line_event(lines.last()) {
                Err(e) => Err(e),
                Ok(None) => Ok(events),
                Ok(Some(event)) => Ok(with_event(events, event)),
            },
        }
    }
}

/// The events of a diff text. A text that is no unified diff is an error
/// that quotes the line at fault.
pub open spec fn translate_spec(diff: Seq<u8>) -> Result<Seq<EventView>, GitErrorView> {
    match parse_diff(diff) {
        Err(DiffFault::UnexpectedLine(line)) => Err(GitErrorView::DiffParseError(utf8_lossy(line))),
        Err(DiffFault::UnexpectedEnd) => Err(
            GitErrorView::DiffParseError("unexpected end of diff"@),
        ),
        Ok(lines) => events_of(lines),
    }
}

/// The events that the run of a diff command stands for.
pub open spec fn diff_events(run: CommandRun) -> Result<Seq<EventView>, GitErrorView> {
    if run.succeeded() {
        translate_spec(run.output())
    } else {
        Err(run_failure(run, "Git diff command failed with exit status: "@))
    }
}

/// The mathematical content of the result of a translation.
pub open spec fn translation_view(r: Result<Vec<DiffAction>, GitError>) -> Result<
    Seq<EventView>,
    GitErrorView,
> {
    match r {
        Ok(events) => Ok(actions_view(events@)),
        Err(e) => Err(e@),
    }
}

/// The events of hunk lines hold no event twice, and no update.
pub proof fn lemma_events_distinct(lines: Seq<(LineKind, Seq<u8>)>)
    ensures
        events_of(lines) matches Ok(events) ==> events.no_duplicates() && forall|i: int|
            0 <= i < events.len() ==> !(#[trigger] events[i] is Update),
    decreases lines.len(),
{
    if lines.len() > 0 {
        lemma_events_distinct(lines.drop_last());
    }
}

/// Two events are the same: same kind, same name.
pub fn same_action(a: &DiffAction, b: &DiffAction) -> (same: bool)
    ensures
        same == (a@ == b@),
{
    match (a, b) {
        (DiffAction::Add(x), DiffAction::Add(y)) => *x == *y,
        (DiffAction::Update(x), DiffAction::Update(y)) => *x == *y,
        (DiffAction::Remove(x), DiffAction::Remove(y)) => *x == *y,
        _ => false,
    }
}

/// Appends an event unless the list holds it already.
pub fn push_unique(events: &mut Vec<DiffAction>, event: DiffAction)
    ensures
        actions_view(final(events)@) == with_event(actions_view(old(events)@), event@),
{
    let ghost before = actions_view(events@);
    let mut i: usize = 0;
    while i < events.len()
        invariant
            i <= events.len(),
            *events == *old(events),
            before == actions_view(events@),
            forall|j: int| 0 <= j < i ==> before[j] != event@,
        decreases events.len() - i,
    {
        if same_action(&events[i], &event) {
            assert(before[i as int] == event@);
            return ;
        }
        i = i + 1;
    }
    assert(!before.contains(event@));
    events.push(event);
    assert(actions_view(events@) =~= before.push(event@));
}

/// The event of one hunk line, given the name (if any) that was read from
/// its record: see [`change_event_spec`].
pub fn change_event(kind: LineKind, name: Option<String>, record: String) -> (r: Result<
    Option<DiffAction>,
    GitError,
>)
    ensures
        change_event_spec(
            kind,
            match name {
                Some(text) => Some(text@),
                None => None,
            },
            record@,
        ) == match r {
            Ok(Some(event)) => Ok::<_, GitErrorView>(Some(event@)),
            Ok(None) => Ok(None),
            Err(e) => Err(e@),
        },
{
    match kind {
        LineKind::Context => Ok(None),
        LineKind::Added => match name {
            Some(name) => Ok(Some(DiffAction::Add(name))),
            None => Err(GitError::RecordParseError(record)),
        },
        LineKind::Removed => match name {
            Some(name) => Ok(Some(DiffAction::Remove(name))),
            None => Err(GitError::RecordParseError(record)),
        },
    }
}

/// The events of a list of hunk lines: see [`events_of`].
pub fn collect_events(lines: &Vec<DiffLine>) -> (r: Result<Vec<DiffAction>, GitError>)
    ensures
        translation_view(r) == events_of(diff_lines_view(lines@)),
{
    let ghost all = diff_lines_view(lines@);
    let mut events: Vec<DiffAction> = Vec::new();
    let mut i: usize = 0;
    assert(all.subrange(0, 0) =~= Seq::empty());
    assert(actions_view(events@) =~= Seq::empty());
    while i < lines.len()
        invariant
            i <= lines.len(),
            all == diff_lines_view(lines@),
            events_of(all.subrange(0, i as int)) == Ok::<_, GitErrorView>(actions_view(events@)),
        decreases lines.len() - i,
    {
        let ghost seen = all.subrange(0, i + 1);
        assert(seen.drop_last() =~= all.subrange(0, i as int));
        assert(seen.last() == lines@[i as int]@);
        let line = &lines[i];
        match line.kind {
            LineKind::Context => {},
            _ => {
                let record = decode_lossy(line.content.as_slice());
                let name = match string_member(record.as_str(), "name") {
                    Ok(name) => name,
                    Err(_) => None,
                };
                match change_event(line.kind, name, record) {
                    Err(e) => {
                        proof {
                            lemma_error_stays(all, i + 1);
                        }
                        return Err(e);
                    },
                    Ok(None) => {},
                    Ok(Some(event)) => {
                        push_unique(&mut events, event);
                    },
                }
            },
        }
        i = i + 1;
    }
    assert(all.subrange(0, i as int) =~= all);
    Ok(events)
}

/// An error among the first lines is the error of all the lines.
pub proof fn lemma_error_stays(lines: Seq<(LineKind, Seq<u8>)>, n: int)
    requires
        0 <= n <= lines.len(),
        events_of(lines.subrange(0, n)) is Err,
    ensures
        events_of(lines) == events_of(lines.subrange(0, n)),
    decreases lines.len() - n,
{
    if n == lines.len() {
        assert(lines.subrange(0, n) =~= lines);
    } else {
        let longer = lines.subrange(0, n + 1);
        assert(longer.drop_last() =~= lines.subrange(0, n));
        lemma_error_stays(lines, n + 1);
    }
}

/// Translates the text of a unified diff into change events: one `Add` for
/// each added record and one `Remove` for each removed one, each event
/// once, in the order of first appearance. No event is an `Update`.
pub fn translate(diff: &[u8]) -> (r: Result<Vec<DiffAction>, GitError>)
    ensures
        translation_view(r) == translate_spec(diff@),
        r matches Ok(events) ==> actions_view(events@).no_duplicates() && forall|i: int|
            0 <= i < events@.len() ==> !(#[trigger] events@[i] is Update),
{
    match tokenize(diff) {
        Err(Some(line)) => Err(GitError::DiffParseError(decode_lossy(line.as_slice()))),
        Err(None) => Err(GitError::DiffParseError(String::from_str("unexpected end of diff"))),
        Ok(lines) => {
            proof {
                lemma_events_distinct(diff_lines_view(lines@));
            }
            match collect_events(&lines) {
                Err(e) => Err(e),
                Ok(events) => {
                    assert forall|i: int| 0 <= i < events@.len() implies !(
                    #[trigger] events@[i] is Update) by {
                        assert(actions_view(events@)[i] == events@[i]@);
                    }
                    Ok(events)
                },
            }
        },
    }
}

impl GitService {
    /// Reads the run of a diff command: the change events of its output.
    pub fn diff_commits(&self, run: &CommandRun) -> (r: Result<Vec<DiffAction>, GitError>)
        ensures
            translation_view(r) == diff_events(*run),
    {
        match check_run(run, "Git diff command failed with exit status: ") {
            Err(e) => Err(e),
            Ok(()) => match run {
                CommandRun::Exited { stdout, .. } => translate(stdout.as_slice()),
                CommandRun::LaunchFailed(_) => Ok(Vec::new()),
            },
        }
    }
}

} // verus!
