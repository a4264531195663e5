//! Git commands as plain values, and the reading of what they returned.

use vstd::prelude::*;
pub use crate::translate::DiffAction;
use vstd::string::*;
use crate::lines::{lines_view, text_lines, text_lines_spec};
use crate::text::{decode_lossy, path_file_name, trim, trimmed, utf8_lossy};

verus! {

/// A command line for the git executable.
///
/// `run_in_parent` asks for the parent of the repository directory as the
/// working directory (the repository directory itself does not exist before
/// a clone); otherwise the command runs inside the repository directory.
/// `capture` says that the command's standard output is what the caller
/// wants to read; otherwise the output is only logged.
#[derive(Debug)]
pub struct GitCommand {
    pub program: String,
    pub args: Vec<String>,
    pub run_in_parent: bool,
    pub capture: bool,
}

/// The mathematical content of a [`GitCommand`].
pub struct GitCommandView {
    pub program: Seq<char>,
    pub args: Seq<Seq<char>>,
    pub run_in_parent: bool,
    pub capture: bool,
}

/// The character sequences of a list of strings.
pub open spec fn strings_view(v: Seq<String>) -> Seq<Seq<char>> {
    v.map_values(|s: String| s@)
}

impl View for GitCommand {
    type V = GitCommandView;

    open spec fn view(&self) -> GitCommandView {
        GitCommandView {
            program: self.program@,
            args: strings_view(self.args@),
            run_in_parent: self.run_in_parent,
            capture: self.capture,
        }
    }
}

/// What came back from running a command.
#[derive(Debug)]
pub enum CommandRun {
    /// The program could not be started; the text is the system's message.
    LaunchFailed(String),
    /// The program ran to its end. `status` is the exit status as the system
    /// prints it, `stdout` the bytes the program wrote to standard output.
    Exited { success: bool, status: String, stdout: Vec<u8> },
}

impl CommandRun {
    /// The program was started and exited with status zero.
    pub open spec fn succeeded(&self) -> bool {
        match self {
            CommandRun::LaunchFailed(_) => false,
            CommandRun::Exited { success, .. } => *success,
        }
    }

    /// The bytes written to standard output (empty when nothing was started).
    pub open spec fn output(&self) -> Seq<u8> {
        match self {
            CommandRun::LaunchFailed(_) => Seq::empty(),
            CommandRun::Exited { stdout, .. } => stdout@,
        }
    }
}

/// Why a repository operation failed.
#[derive(Debug)]
pub enum GitError {
    /// The git executable could not be started.
    LaunchError(String),
    /// The git executable ran and exited with a non-zero status.
    ExitError(String),
    /// The text is not a unified diff; the message is the offending line.
    DiffParseError(String),
    /// A changed line is not a record with a string `name`; the message is the line.
    RecordParseError(String),
}

/// The mathematical content of a [`GitError`].
pub enum GitErrorView {
    LaunchError(Seq<char>),
    ExitError(Seq<char>),
    DiffParseError(Seq<char>),
    RecordParseError(Seq<char>),
}

impl View for GitError {
    type V = GitErrorView;

    open spec fn view(&self) -> GitErrorView {
        match self {
            GitError::LaunchError(m) => GitErrorView::LaunchError(m@),
            GitError::ExitError(m) => GitErrorView::ExitError(m@),
            GitError::DiffParseError(m) => GitErrorView::DiffParseError(m@),
            GitError::RecordParseError(m) => GitErrorView::RecordParseError(m@),
        }
    }
}

/// The error that a run which did not succeed stands for: a launch error
/// with the system's message, or an exit error whose message is `prefix`
/// followed by the exit status.
pub open spec fn run_failure(run: CommandRun, prefix: Seq<char>) -> GitErrorView {
    match run {
        CommandRun::LaunchFailed(message) => GitErrorView::LaunchError(message@),
        CommandRun::Exited { status, .. } => GitErrorView::ExitError(prefix + status@),
    }
}

/// `git fetch --all`, inside the repository.
pub open spec fn fetch_command_spec() -> GitCommandView {
    GitCommandView {
        program: "git"@,
        args: seq!["fetch"@, "--all"@],
        run_in_parent: false,
        capture: false,
    }
}

/// `git clone --filter=blob:none --bare <url> <dir>`, in the parent directory.
pub open spec fn clone_command_spec(url: Seq<char>, dir: Seq<char>) -> GitCommandView {
    GitCommandView {
        program: "git"@,
        args: seq!["clone"@, "--filter=blob:none"@, "--bare"@, url, dir],
        run_in_parent: true,
        capture: false,
    }
}

/// `git rev-parse <rev>`, inside the repository.
pub open spec fn rev_parse_command_spec(rev: Seq<char>) -> GitCommandView {
    GitCommandView {
        program: "git"@,
        args: seq!["rev-parse"@, rev],
        run_in_parent: false,
        capture: true,
    }
}

/// `git diff --name-only <c1> <c2>`, inside the repository.
pub open spec fn diff_name_only_command_spec(c1: Seq<char>, c2: Seq<char>) -> GitCommandView {
    GitCommandView {
        program: "git"@,
        args: seq!["diff"@, "--name-only"@, c1, c2],
        run_in_parent: false,
        capture: true,
    }
}

/// `git diff <c1> <c2>`, inside the repository.
pub open spec fn diff_command_spec(c1: Seq<char>, c2: Seq<char>) -> GitCommandView {
    GitCommandView {
        program: "git"@,
        args: seq!["diff"@, c1, c2],
        run_in_parent: false,
        capture: true,
    }
}

/// Reads the exit of a command: success exactly when it was started and
/// exited with status zero, else the error of [`run_failure`].
pub fn check_run(run: &CommandRun, prefix: &str) -> (r: Result<(), GitError>)
    ensures
        match r {
            Ok(()) => run.succeeded(),
            Err(e) => !run.succeeded() && e@ == run_failure(*run, prefix@),
        },
{
    match run {
        CommandRun::LaunchFailed(message) => Err(GitError::LaunchError(message.clone())),
        CommandRun::Exited { success, status, .. } => {
            if *success {
                Ok(())
            } else {
                Err(GitError::ExitError(String::from_str(prefix).concat(status.as_str())))
            }
        },
    }
}

/// The local mirror of a remote repository: the path of its bare clone.
#[derive(Debug)]
pub struct GitService {
    repository_path: String,
}

impl View for GitService {
    type V = Seq<char>;

    closed spec fn view(&self) -> Seq<char> {
        self.repository_path@
    }
}

impl GitService {
    pub fn new(repository_path: String) -> (service: Self)
        ensures
            service@ == repository_path@,
    {
        Self { repository_path }
    }

    /// The path of the bare clone.
    pub fn repository_path(&self) -> (path: &str)
        ensures
            path@ == self@,
    {
        self.repository_path.as_str()
    }

    /// The command that fetches all remotes into the mirror.
    pub fn fetch_command(&self) -> (command: GitCommand)
        ensures
            command@ == fetch_command_spec(),
    {
        let mut args: Vec<String> = Vec::new();
        args.push(String::from_str("fetch"));
        args.push(String::from_str("--all"));
        let command = GitCommand {
            program: String::from_str("git"),
            args,
            run_in_parent: false,
            capture: false,
        };
        assert(command@.args =~= fetch_command_spec().args);
        command
    }

    /// Reads the run of the fetch command.
    pub fn fetch(&self, run: &CommandRun) -> (r: Result<(), GitError>)
        ensures
            match r {
                Ok(()) => run.succeeded(),
                Err(e) => !run.succeeded() && e@ == run_failure(
                    *run,
                    "Git fetch command failed with exit status: "@,
                ),
            },
    {
        check_run(run, "Git fetch command failed with exit status: ")
    }

    /// The command that clones `git_url` into a directory named `dir`.
    pub fn clone_command_into(git_url: &str, dir: &str) -> (command: GitCommand)
        ensures
            command@ == clone_command_spec(git_url@, dir@),
    {
        let mut args: Vec<String> = Vec::new();
        args.push(String::from_str("clone"));
        args.push(String::from_str("--filter=blob:none"));
        args.push(String::from_str("--bare"));
        args.push(String::from_str(git_url));
        args.push(String::from_str(dir));
        let command = GitCommand {
            program: String::from_str("git"),
            args,
            run_in_parent: true,
            capture: false,
        };
        assert(command@.args =~= clone_command_spec(git_url@, dir@).args);
        command
    }

    /// The command that makes the blob-filtered bare clone of `git_url` at
    /// the repository path: it runs in the path's parent and names the
    /// path's last component as its target. There is no such command where
    /// the path has no last component.
    pub fn clone_command(&self, git_url: &str) -> (command: Option<GitCommand>)
        ensures
            command matches Some(c) ==> exists|dir: Seq<char>|
                c@ == #[trigger] clone_command_spec(git_url@, dir),
    {
        Self::clone_command_for(git_url, path_file_name(self.repository_path.as_str()))
    }

    /// The clone command for a repository path whose last component is
    /// `dir`: the command that clones into that directory, and none where
    /// the path has no last component.
    pub fn clone_command_for(git_url: &str, dir: Option<String>) -> (command: Option<GitCommand>)
        ensures
            match dir {
                Some(name) => command matches Some(c) && c@ == clone_command_spec(
                    git_url@,
                    name@,
                ),
                None => command is None,
            },
    {
        match dir {
            Some(name) => Some(Self::clone_command_into(git_url, name.as_str())),
            None => None,
        }
    }

    /// Reads the run of the clone command.
    pub fn clone_repository(&self, run: &CommandRun) -> (r: Result<(), GitError>)
        ensures
            match r {
                Ok(()) => run.succeeded(),
                Err(e) => !run.succeeded() && e@ == run_failure(
                    *run,
                    "Git clone command failed with exit status: "@,
                ),
            },
    {
        check_run(run, "Git clone command failed with exit status: ")
    }

    /// The command that resolves a revision expression to a commit hash.
    pub fn rev_parse_command(&self, rev: &str) -> (command: GitCommand)
        ensures
            command@ == rev_parse_command_spec(rev@),
    {
        let mut args: Vec<String> = Vec::new();
        args.push(String::from_str("rev-parse"));
        args.push(String::from_str(rev));
        let command = GitCommand {
            program: String::from_str("git"),
            args,
            run_in_parent: false,
            capture: true,
        };
        assert(command@.args =~= rev_parse_command_spec(rev@).args);
        command
    }

    /// Reads the run of a rev-parse command: the trimmed output where git
    /// exited with status zero, no commit where it exited otherwise (the
    /// revision does not exist), an error only where git could not be started.
    pub fn get_current_commit_hash_from_rev(&self, run: &CommandRun) -> (r: Result<
        Option<String>,
        GitError,
    >)
        ensures
            commit_view(r) == resolved_commit(*run),
    {
        match run {
            CommandRun::LaunchFailed(message) => Err(GitError::LaunchError(message.clone())),
            CommandRun::Exited { success, stdout, .. } => {
                if *success {
                    let text = decode_lossy(stdout.as_slice());
                    Ok(Some(String::from_str(trim(text.as_str()))))
                } else {
                    Ok(None)
                }
            },
        }
    }

    /// The command that resolves `FETCH_HEAD`, the head that the last fetch
    /// brought.
    pub fn fetch_head_command(&self) -> (command: GitCommand)
        ensures
            command@ == rev_parse_command_spec("FETCH_HEAD"@),
    {
        self.rev_parse_command("FETCH_HEAD")
    }

    /// Reads the run of [`GitService::fetch_head_command`].
    pub fn get_current_commit_hash_from_fetch_head(&self, run: &CommandRun) -> (r: Result<
        Option<String>,
        GitError,
    >)
        ensures
            commit_view(r) == resolved_commit(*run),
    {
        self.get_current_commit_hash_from_rev(run)
    }

    /// The command that lists the files changed between two commits.
    pub fn diff_name_only_command(&self, c1: &str, c2: &str) -> (command: GitCommand)
        ensures
            command@ == diff_name_only_command_spec(c1@, c2@),
    {
        let mut args: Vec<String> = Vec::new();
        args.push(String::from_str("diff"));
        args.push(String::from_str("--name-only"));
        args.push(String::from_str(c1));
        args.push(String::from_str(c2));
        let command = GitCommand {
            program: String::from_str("git"),
            args,
            run_in_parent: false,
            capture: true,
        };
        assert(command@.args =~= diff_name_only_command_spec(c1@, c2@).args);
        command
    }

    /// Reads the run of a name-only diff: the lines of its output, in
    /// order, each read as text.
    pub fn diff_commits_name_only(&self, run: &CommandRun) -> (r: Result<Vec<String>, GitError>)
        ensures
            match r {
                Ok(files) => run.succeeded() && strings_view(files@) == changed_files(
                    run.output(),
                ),
                Err(e) => !run.succeeded() && e@ == run_failure(
                    *run,
                    "Git diff command failed with exit status: "@,
                ),
            },
    {
        match check_run(run, "Git diff command failed with exit status: ") {
            Err(e) => Err(e),
            Ok(()) => match run {
                CommandRun::Exited { stdout, .. } => {
                    let lines = text_lines(stdout.as_slice());
                    let mut files: Vec<String> = Vec::new();
                    let mut i: usize = 0;
                    while i < lines.len()
                        invariant
                            i <= lines.len(),
                            lines_view(lines@) == text_lines_spec(stdout@),
                            files@.len() == i,
                            forall|j: int|
                                0 <= j < i ==> (#[trigger] files@[j])@ == utf8_lossy(lines@[j]@),
                        decreases lines.len() - i,
                    {
                        files.push(decode_lossy(lines[i].as_slice()));
                        i = i + 1;
                    }
                    assert(strings_view(files@) =~= changed_files(stdout@));
                    Ok(files)
                },
                CommandRun::LaunchFailed(_) => Ok(Vec::new()),
            },
        }
    }

    /// The command that prints the unified diff between two commits.
    pub fn diff_command(&self, c1: &str, c2: &str) -> (command: GitCommand)
        ensures
            command@ == diff_command_spec(c1@, c2@),
    {
        let mut args: Vec<String> = Vec::new();
        args.push(String::from_str("diff"));
        args.push(String::from_str(c1));
        args.push(String::from_str(c2));
        let command = GitCommand {
            program: String::from_str("git"),
            args,
            run_in_parent: false,
            capture: true,
        };
        assert(command@.args =~= diff_command_spec(c1@, c2@).args);
        command
    }
}

/// The paths that the output of a name-only diff lists: its lines, each
/// read as text.
pub open spec fn changed_files(output: Seq<u8>) -> Seq<Seq<char>> {
    text_lines_spec(output).map_values(|line: Seq<u8>| utf8_lossy(line))
}

/// What a rev-parse run resolves to: see
/// [`GitService::get_current_commit_hash_from_rev`].
pub open spec fn resolved_commit(run: CommandRun) -> Result<Option<Seq<char>>, GitErrorView> {
    match run {
        CommandRun::LaunchFailed(message) => Err(GitErrorView::LaunchError(message@)),
        CommandRun::Exited { success, stdout, .. } => if success {
            Ok(Some(trimmed(utf8_lossy(stdout@))))
        } else {
            Ok(None)
        },
    }
}

/// The mathematical content of the result of resolving a commit.
pub open spec fn commit_view(r: Result<Option<String>, GitError>) -> Result<
    Option<Seq<char>>,
    GitErrorView,
> {
    match r {
        Ok(Some(hash)) => Ok(Some(hash@)),
        Ok(None) => Ok(None),
        Err(e) => Err(e@),
    }
}

} // verus!
