//! The pull-request submitter: push the branch, then create the pull
//! request. It runs nothing itself. It names the command that is due, and
//! moves on by what that command left behind.

use vstd::prelude::*;
use vstd::string::*;
use crate::command::{run_command, CommandOutput};
use crate::diagnostics::{log_debug, said};
use crate::error::Error;
use crate::text::texts;

verus! {

/// What a pull request is made from. It is put together once, when its
/// description is complete, and handed to one submitter.
#[derive(Debug, PartialEq, Eq)]
pub struct PullRequest {
    pub title: String,
    pub pr_description: String,
    pub base_branch: String,
}

/// A pull request as texts.
pub struct PullRequestView {
    pub title: Seq<char>,
    pub pr_description: Seq<char>,
    pub base_branch: Seq<char>,
}

impl View for PullRequest {
    type V = PullRequestView;

    open spec fn view(&self) -> PullRequestView {
        PullRequestView {
            title: self.title@,
            pr_description: self.pr_description@,
            base_branch: self.base_branch@,
        }
    }
}

/// How far a submission has come.
#[derive(Debug, PartialEq, Eq)]
pub enum Submission {
    /// Nothing has run yet: the push is due.
    Idle,
    /// The branch is upstream: the creation is due.
    Pushed,
    /// The pull request exists; this is what the hosting tool printed.
    Created(String),
    /// The push failed. Nothing was created.
    PushFailed,
    /// The creation failed. The branch stays upstream.
    CreateFailed,
}

/// How far a submission has come, as texts.
pub enum SubmissionView {
    Idle,
    Pushed,
    Created(Seq<char>),
    PushFailed,
    CreateFailed,
}

impl View for Submission {
    type V = SubmissionView;

    open spec fn view(&self) -> SubmissionView {
        match self {
            Submission::Idle => SubmissionView::Idle,
            Submission::Pushed => SubmissionView::Pushed,
            Submission::Created(printed) => SubmissionView::Created(printed@),
            Submission::PushFailed => SubmissionView::PushFailed,
            Submission::CreateFailed => SubmissionView::CreateFailed,
        }
    }
}

/// A submission under way.
#[derive(Debug, PartialEq, Eq)]
pub struct Submitter {
    pub request: PullRequest,
    pub is_debug: bool,
    pub state: Submission,
}

/// A submission under way, as texts.
pub struct SubmitterView {
    pub request: PullRequestView,
    pub is_debug: bool,
    pub state: SubmissionView,
}

impl View for Submitter {
    type V = SubmitterView;

    open spec fn view(&self) -> SubmitterView {
        SubmitterView { request: self.request@, is_debug: self.is_debug, state: self.state@ }
    }
}

/// The command that pushes the current branch and sets its upstream.
pub open spec fn push_command() -> Seq<char> {
    "git push -u origin HEAD"@
}

/// The creation command as the diagnostics show it: a draft from the
/// current branch into the base branch, assigned to the user.
pub open spec fn announced_command(request: PullRequestView) -> Seq<char> {
    "gh pr create -t \""@ + request.title + "\" -b \""@ + request.pr_description + "\" -B "@
        + request.base_branch + " -d -a @me"@
}

/// The creation command as it is run: the announced one and one flag more.
pub open spec fn create_command(request: PullRequestView) -> Seq<char> {
    announced_command(request) + " -o"@
}

/// The text of a command that may be due.
pub open spec fn command_text(command: Option<String>) -> Option<Seq<char>> {
    match command {
        Some(c) => Some(c@),
        None => None,
    }
}

/// What a submission may have come to, as texts.
pub open spec fn result_text(r: Option<Result<String, Error>>) -> Option<Result<Seq<char>, Error>> {
    match r {
        Some(Ok(printed)) => Some(Ok(printed@)),
        Some(Err(e)) => Some(Err(e)),
        None => None,
    }
}

impl SubmitterView {
    /// The submission as it starts.
    pub open spec fn idle(request: PullRequestView, is_debug: bool) -> SubmitterView {
        SubmitterView { request, is_debug, state: SubmissionView::Idle }
    }

    /// The command that is due: the push, then the creation, then none.
    pub open spec fn due(self) -> Option<Seq<char>> {
        match self.state {
            SubmissionView::Idle => Some(push_command()),
            SubmissionView::Pushed => Some(create_command(self.request)),
            _ => None,
        }
    }

    /// What the submission has come to, once it is over.
    pub open spec fn result(self) -> Option<Result<Seq<char>, Error>> {
        match self.state {
            SubmissionView::Created(printed) => Some(Ok(printed)),
            SubmissionView::PushFailed => Some(Err(Error::PushFailed)),
            SubmissionView::CreateFailed => Some(Err(Error::PullRequestCreationFailed)),
            _ => None,
        }
    }

    /// The state after the command that was due has come to `outcome`. A
    /// submission that is over stays as it is.
    pub open spec fn next_state(self, outcome: Result<Seq<char>, Error>) -> SubmissionView {
        match self.state {
            SubmissionView::Idle => match outcome {
                Ok(_) => SubmissionView::Pushed,
                Err(_) => SubmissionView::PushFailed,
            },
            SubmissionView::Pushed => match outcome {
                Ok(printed) => SubmissionView::Created(printed),
                Err(_) => SubmissionView::CreateFailed,
            },
            over => over,
        }
    }

    /// The submission after the command that was due has come to `outcome`.
    pub open spec fn next(self, outcome: Result<Seq<char>, Error>) -> SubmitterView {
        SubmitterView { state: self.next_state(outcome), ..self }
    }

    /// What the move says: after a push that went well, that it did, and
    /// the creation command that follows.
    pub open spec fn lines(self, outcome: Result<Seq<char>, Error>) -> Seq<Seq<char>> {
        if self.state is Idle && outcome is Ok {
            said(
                self.is_debug,
                seq![
                    "Successfully pushed pull request to remote branch"@,
                    announced_command(self.request),
                ],
            )
        } else {
            Seq::empty()
        }
    }
}

/// The creation command up to its last flag.
fn announce(request: &PullRequest) -> (command: String)
    ensures
        command@ == announced_command(request@),
{
    let mut command = "gh pr create -t \"".to_owned();
    command.append(request.title.as_str());
    command.append("\" -b \"");
    command.append(request.pr_description.as_str());
    command.append("\" -B ");
    command.append(request.base_branch.as_str());
    command.append(" -d -a @me");
    command
}

impl PullRequest {
    /// Starts the submission of this pull request. Nothing has run yet; the
    /// push is due.
    pub fn create(&self, is_debug: bool) -> (submitter: Submitter)
        ensures
            submitter@ == SubmitterView::idle(self@, is_debug),
    {
        Submitter {
            request: PullRequest {
                title: self.title.clone(),
                pr_description: self.pr_description.clone(),
                base_branch: self.base_branch.clone(),
            },
            is_debug,
            state: Submission::Idle,
        }
    }
}

/// Starts the submission of a pull request with this title and description
/// into `base_branch`, without diagnostics.
pub fn create_pull_request(title: &str, description: &str, base_branch: &str) -> (submitter:
    Submitter)
    ensures
        submitter@ == SubmitterView::idle(
            PullRequestView {
                title: title@,
                pr_description: description@,
                base_branch: base_branch@,
            },
            false,
        ),
{
    let request = PullRequest {
        title: title.to_owned(),
        pr_description: description.to_owned(),
        base_branch: base_branch.to_owned(),
    };
    request.create(false)
}

impl Submitter {
    /// The command to run next; `None` once the submission is over.
    pub fn command(&self) -> (due: Option<String>)
        ensures
            command_text(due) == self@.due(),
    {
        match &self.state {
            Submission::Idle => Some("git push -u origin HEAD".to_owned()),
            Submission::Pushed => {
                let mut command = announce(&self.request);
                command.append(" -o");
                Some(command)
            },
            _ => None,
        }
    }

    /// What the submission has come to: the text the hosting tool printed,
    /// or the step that failed; `None` while a command is due.
    pub fn result(&self) -> (r: Option<Result<String, Error>>)
        ensures
            result_text(r) == self@.result(),
    {
        match &self.state {
            Submission::Created(printed) => Some(Ok(printed.clone())),
            Submission::PushFailed => Some(Err(Error::PushFailed)),
            Submission::CreateFailed => Some(Err(Error::PullRequestCreationFailed)),
            _ => None,
        }
    }

    /// Moves on by what the command that was due left behind, and gives the
    /// lines to print. A failed push ends the submission before anything is
    /// created; what the creation printed is kept as it is. Once the
    /// submission is over nothing changes any more, and `output` is not
    /// looked at.
    pub fn advance(self, output: CommandOutput) -> (r: (Submitter, Vec<String>))
        requires
            self@.due() is Some ==> output.decodable(),
        ensures
            r.0@ == self@.next(output.outcome()),
            texts(r.1@) == self@.lines(output.outcome()),
    {
        let mut lines: Vec<String> = Vec::new();
        let Submitter { request, is_debug, state } = self;
        let state = match state {
            Submission::Idle => match run_command(output) {
                Ok(_) => {
                    log_debug(
                        &mut lines,
                        "Successfully pushed pull request to remote branch",
                        is_debug,
                    );
                    let announced = announce(&request);
                    log_debug(&mut lines, announced.as_str(), is_debug);
                    Submission::Pushed
                },
                Err(_) => Submission::PushFailed,
            },
            Submission::Pushed => match run_command(output) {
                Ok(printed) => Submission::Created(printed),
                Err(_) => Submission::CreateFailed,
            },
            over => over,
        };
        let moved = Submitter { request, is_debug, state };
        (moved, lines)
    }
}

/// A failed push is the end: the submission is over with `PushFailed`, and
/// no command is due any more, so the creation is never asked for.
pub proof fn lemma_failed_push_ends(submitter: SubmitterView, outcome: Result<Seq<char>, Error>)
    requires
        submitter.state is Idle,
        outcome is Err,
    ensures
        submitter.next(outcome).due() is None,
        submitter.next(outcome).result() == Some(Err::<Seq<char>, Error>(Error::PushFailed)),
{
}

/// After a push and a creation that both went well, the submission has come
/// to what the creation printed, unchanged.
pub proof fn lemma_created_text_kept(
    request: PullRequestView,
    is_debug: bool,
    pushed: Seq<char>,
    printed: Seq<char>,
)
    ensures
        SubmitterView::idle(request, is_debug).next(Ok(pushed)).due() == Some(
            create_command(request),
        ),
        SubmitterView::idle(request, is_debug).next(Ok(pushed)).next(Ok(printed)).result() == Some(
            Ok::<Seq<char>, Error>(printed),
        ),
{
}

/// A submission that is over stays over, whatever it is handed.
pub proof fn lemma_over_stays(submitter: SubmitterView, outcome: Result<Seq<char>, Error>)
    requires
        submitter.due() is None,
    ensures
        submitter.next(outcome) == submitter,
        submitter.lines(outcome) == Seq::<Seq<char>>::empty(),
{
}

} // verus!
