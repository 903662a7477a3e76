//! The generation pipeline: resolve the configuration, collect the commit
//! log, compose the description, submit the pull request, open it. The
//! pipeline names the command that is due and moves on by what the command
//! left behind; it stops at the first stage that fails.

use vstd::prelude::*;
use vstd::string::*;
use crate::command::{run_command, CommandOutput};
use crate::commit_log::{
    collected, commit_log_command, formatted_logs, get_commit_logs, log_command,
};
use crate::config::{env_value, file_text, get_env_value};
use crate::diagnostics::{log_debug, said};
use crate::error::Error;
use crate::submit::{
    command_text, result_text, PullRequest, PullRequestView, Submission, SubmissionView, Submitter,
    SubmitterView,
};
use crate::template::{compose, composed, get_pr_details, rationale, screenshot_table};
use crate::text::texts;

verus! {

/// Where a run stands.
#[derive(Debug, PartialEq, Eq)]
pub enum Stage {
    /// The history command is due.
    Collecting,
    /// The description is composed and the submission is under way.
    Submitting(Submitter),
    /// The pull request exists and is about to be opened; this is what the
    /// hosting tool printed.
    Opening(String),
    /// The run is over: with what the hosting tool printed, or with the
    /// error of the stage that failed.
    Finished(Result<String, Error>),
}

/// Where a run stands, as texts.
pub enum StageView {
    Collecting,
    Submitting(SubmitterView),
    Opening(Seq<char>),
    Finished(Result<Seq<char>, Error>),
}

impl View for Stage {
    type V = StageView;

    open spec fn view(&self) -> StageView {
        match self {
            Stage::Collecting => StageView::Collecting,
            Stage::Submitting(submitter) => StageView::Submitting(submitter@),
            Stage::Opening(printed) => StageView::Opening(printed@),
            Stage::Finished(Ok(printed)) => StageView::Finished(Ok(printed@)),
            Stage::Finished(Err(e)) => StageView::Finished(Err(*e)),
        }
    }
}

/// A run of the generator: what it was started with, after the
/// configuration has been applied, and where it stands.
#[derive(Debug, PartialEq, Eq)]
pub struct Pipeline {
    pub title: String,
    pub extra_description: String,
    /// The branch to merge into.
    pub base_branch: String,
    /// The issue reference, behind its configured prefix.
    pub issue: String,
    pub is_feature_branch: bool,
    pub is_open_url: bool,
    pub is_debug: bool,
    pub stage: Stage,
}

/// A run of the generator, as texts.
pub struct PipelineView {
    pub title: Seq<char>,
    pub extra_description: Seq<char>,
    pub base_branch: Seq<char>,
    pub issue: Seq<char>,
    pub is_feature_branch: bool,
    pub is_open_url: bool,
    pub is_debug: bool,
    pub stage: StageView,
}

impl View for Pipeline {
    type V = PipelineView;

    open spec fn view(&self) -> PipelineView {
        PipelineView {
            title: self.title@,
            extra_description: self.extra_description@,
            base_branch: self.base_branch@,
            issue: self.issue@,
            is_feature_branch: self.is_feature_branch,
            is_open_url: self.is_open_url,
            is_debug: self.is_debug,
            stage: self.stage@,
        }
    }
}

/// A configured value, or `default` where the lookup fails for any reason.
pub open spec fn value_or(looked_up: Result<Seq<char>, Error>, default: Seq<char>) -> Seq<char> {
    match looked_up {
        Ok(value) => value,
        Err(_) => default,
    }
}

/// The branch to merge into: the one asked for; where none is asked for,
/// the one the configuration names under `BASE_BRANCH`; failing that,
/// `main`.
pub open spec fn resolved_base(base_branch: Seq<char>, file: Option<Seq<char>>) -> Seq<char> {
    if base_branch.len() == 0 {
        value_or(env_value(file, "BASE_BRANCH"@), "main"@)
    } else {
        base_branch
    }
}

/// The issue reference: the link behind the prefix that the configuration
/// names under `ISSUE_PREFIX`, or behind nothing.
pub open spec fn resolved_issue(issue_link: Seq<char>, file: Option<Seq<char>>) -> Seq<char> {
    value_or(env_value(file, "ISSUE_PREFIX"@), Seq::empty()) + issue_link
}

/// The command that opens what the hosting tool printed.
pub open spec fn open_command(printed: Seq<char>) -> Seq<char> {
    "open "@ + printed
}

/// The stage that follows a move of the submission. A submission that is
/// over is left: for the opening where the pull request exists and is to be
/// opened, for the end of the run else.
pub open spec fn after_submission(submitter: SubmitterView, is_open_url: bool) -> StageView {
    match submitter.state {
        SubmissionView::Created(printed) => if is_open_url {
            StageView::Opening(printed)
        } else {
            StageView::Finished(Ok(printed))
        },
        SubmissionView::PushFailed => StageView::Finished(Err(Error::PushFailed)),
        SubmissionView::CreateFailed => StageView::Finished(Err(Error::PullRequestCreationFailed)),
        _ => StageView::Submitting(submitter),
    }
}

/// What the run says of a submission that has come to `state`: the error
/// where it failed, and that the pull request exists where nothing is left
/// to do.
pub open spec fn submission_lines(state: SubmissionView, is_open_url: bool, is_debug: bool) -> Seq<
    Seq<char>,
> {
    match state {
        SubmissionView::Created(_) => if is_open_url {
            Seq::empty()
        } else {
            said(is_debug, seq!["Successfully created pull request"@])
        },
        SubmissionView::PushFailed => said(is_debug, seq![Error::PushFailed.message_text()]),
        SubmissionView::CreateFailed => said(
            is_debug,
            seq![Error::PullRequestCreationFailed.message_text()],
        ),
        _ => Seq::empty(),
    }
}

impl PipelineView {
    /// The pull request that this run asks for once the log is collected.
    pub open spec fn request(self, logs: Seq<char>) -> PullRequestView {
        PullRequestView {
            title: self.title,
            pr_description: composed(
                self.issue,
                rationale(self.is_feature_branch),
                logs,
                self.extra_description,
                screenshot_table(self.is_feature_branch),
            ),
            base_branch: self.base_branch,
        }
    }

    /// The run hangs together: a submission is under way only for the pull
    /// request that this run asks for, with the presentation of a log that
    /// is not empty, and only as long as one of its commands is due.
    pub open spec fn wf(self) -> bool {
        match self.stage {
            StageView::Submitting(submitter) => {
                &&& submitter.is_debug == self.is_debug
                &&& submitter.due() is Some
                &&& exists|log: Seq<char>|
                    log.len() > 0 && submitter.request == self.request(#[trigger] formatted_logs(log))
            },
            _ => true,
        }
    }

    /// The command that is due; none once the run is over.
    pub open spec fn due(self) -> Option<Seq<char>> {
        match self.stage {
            StageView::Collecting => Some(log_command(self.base_branch)),
            StageView::Submitting(submitter) => submitter.due(),
            StageView::Opening(printed) => Some(open_command(printed)),
            StageView::Finished(_) => None,
        }
    }

    /// What the run has come to, once it is over.
    pub open spec fn result(self) -> Option<Result<Seq<char>, Error>> {
        match self.stage {
            StageView::Finished(r) => Some(r),
            _ => None,
        }
    }

    /// The stage after the command that was due has come to `outcome`.
    pub open spec fn next_stage(self, outcome: Result<Seq<char>, Error>) -> StageView {
        match self.stage {
            StageView::Collecting => match collected(outcome) {
                Ok(logs) => StageView::Submitting(
                    SubmitterView::idle(self.request(logs), self.is_debug),
                ),
                Err(e) => StageView::Finished(Err(e)),
            },
            StageView::Submitting(submitter) => after_submission(
                submitter.next(outcome),
                self.is_open_url,
            ),
            StageView::Opening(printed) => StageView::Finished(Ok(printed)),
            StageView::Finished(r) => StageView::Finished(r),
        }
    }

    /// The run after the command that was due has come to `outcome`.
    pub open spec fn next(self, outcome: Result<Seq<char>, Error>) -> PipelineView {
        PipelineView { stage: self.next_stage(outcome), ..self }
    }

    /// What the move says, line by line. Without the debug flag it says
    /// nothing.
    pub open spec fn lines(self, outcome: Result<Seq<char>, Error>) -> Seq<Seq<char>> {
        match self.stage {
            StageView::Collecting => match collected(outcome) {
                Ok(_) => said(
                    self.is_debug,
                    seq![
                        "Successfully got commit logs"@,
                        "Successfully prepared pull request description"@,
                    ],
                ),
                Err(e) => said(self.is_debug, seq![e.message_text()]),
            },
            StageView::Submitting(submitter) => submitter.lines(outcome) + submission_lines(
                submitter.next(outcome).state,
                self.is_open_url,
                self.is_debug,
            ),
            StageView::Opening(_) => match outcome {
                Ok(_) => said(self.is_debug, seq!["Successfully created pull request"@]),
                Err(_) => said(
                    self.is_debug,
                    seq![
                        "Failed to open the pull request url"@,
                        "Successfully created pull request"@,
                    ],
                ),
            },
            StageView::Finished(_) => Seq::empty(),
        }
    }
}

/// Starts a run. `env_file` is the text of the configuration file, `None`
/// where there is none. The base branch and the issue prefix are resolved
/// here; a lookup that fails falls back to its default and does not stop
/// the run. Nothing has run yet: the history command is due.
pub fn gen(
    title: &str,
    extra_description: &str,
    base_branch: &str,
    issue_link: &str,
    is_feature_branch: bool,
    is_open_url: bool,
    is_debug: bool,
    env_file: Option<&str>,
) -> (pipeline: Pipeline)
    ensures
        pipeline@ == (PipelineView {
            title: title@,
            extra_description: extra_description@,
            base_branch: resolved_base(base_branch@, file_text(env_file)),
            issue: resolved_issue(issue_link@, file_text(env_file)),
            is_feature_branch,
            is_open_url,
            is_debug,
            stage: StageView::Collecting,
        }),
        pipeline@.wf(),
{
    let env_base_branch = match get_env_value("BASE_BRANCH".to_owned(), env_file) {
        Ok(value) => value,
        Err(_) => "main".to_owned(),
    };
    let base = if base_branch.is_empty() {
        env_base_branch
    } else {
        base_branch.to_owned()
    };
    let issue_prefix = match get_env_value("ISSUE_PREFIX".to_owned(), env_file) {
        Ok(value) => value,
        Err(_) => String::new(),
    };
    let issue = issue_prefix.concat(issue_link);
    Pipeline {
        title: title.to_owned(),
        extra_description: extra_description.to_owned(),
        base_branch: base,
        issue,
        is_feature_branch,
        is_open_url,
        is_debug,
        stage: Stage::Collecting,
    }
}

impl Pipeline {
    /// The command to run next; `None` once the run is over.
    pub fn command(&self) -> (due: Option<String>)
        ensures
            command_text(due) == self@.due(),
    {
        match &self.stage {
            Stage::Collecting => Some(commit_log_command(self.base_branch.as_str())),
            Stage::Submitting(submitter) => submitter.command(),
            Stage::Opening(printed) => {
                let mut command = "open ".to_owned();
                command.append(printed.as_str());
                Some(command)
            },
            Stage::Finished(_) => None,
        }
    }

    /// What the run has come to: what the hosting tool printed for the new
    /// pull request, or the error that stopped the run; `None` while a
    /// command is due.
    pub fn result(&self) -> (r: Option<Result<String, Error>>)
        ensures
            result_text(r) == self@.result(),
    {
        match &self.stage {
            Stage::Finished(Ok(printed)) => Some(Ok(printed.clone())),
            Stage::Finished(Err(e)) => Some(Err(*e)),
            _ => None,
        }
    }

    /// Moves the run on by what the command that was due left behind, and
    /// gives the lines to print. A log that is empty or could not be had
    /// ends the run before anything is pushed. Once the run is over nothing
    /// changes any more, and `output` is not looked at.
    pub fn advance(self, output: CommandOutput) -> (r: (Pipeline, Vec<String>))
        requires
            self@.due() is Some ==> output.decodable(),
        ensures
            r.0@ == self@.next(output.outcome()),
            texts(r.1@) == self@.lines(output.outcome()),
            self@.wf() ==> r.0@.wf(),
    {
        let mut lines: Vec<String> = Vec::new();
        let Pipeline {
            title,
            extra_description,
            base_branch,
            issue,
            is_feature_branch,
            is_open_url,
            is_debug,
            stage,
        } = self;
        let stage = match stage {
            Stage::Collecting => match get_commit_logs(output) {
                Err(e) => {
                    log_debug(&mut lines, e.message().as_str(), is_debug);
                    Stage::Finished(Err(e))
                },
                Ok(logs) => {
                    log_debug(&mut lines, "Successfully got commit logs", is_debug);
                    let details = get_pr_details(is_feature_branch);
                    let pr_description = compose(
                        issue.as_str(),
                        details.0.as_str(),
                        logs.as_str(),
                        extra_description.as_str(),
                        details.1.as_str(),
                    );
                    log_debug(
                        &mut lines,
                        "Successfully prepared pull request description",
                        is_debug,
                    );
                    let pr = PullRequest {
                        title: title.clone(),
                        pr_description,
                        base_branch: base_branch.clone(),
                    };
                    Stage::Submitting(pr.create(is_debug))
                },
            },
            Stage::Submitting(submitter) => {
                let (moved, said_there) = submitter.advance(output);
                lines = said_there;
                leave_submission(moved, is_open_url, is_debug, &mut lines)
            },
            Stage::Opening(printed) => {
                if run_command(output).is_err() {
                    log_debug(&mut lines, "Failed to open the pull request url", is_debug);
                }
                log_debug(&mut lines, "Successfully created pull request", is_debug);
                Stage::Finished(Ok(printed))
            },
            Stage::Finished(r) => Stage::Finished(r),
        };
        let run = Pipeline {
            title,
            extra_description,
            base_branch,
            issue,
            is_feature_branch,
            is_open_url,
            is_debug,
            stage,
        };
        (run, lines)
    }
}

/// The stage that follows a move of the submission, and what the run says
/// of it.
fn leave_submission(
    submitter: Submitter,
    is_open_url: bool,
    is_debug: bool,
    lines: &mut Vec<String>,
) -> (stage: Stage)
    ensures
        stage@ == after_submission(submitter@, is_open_url),
        texts(final(lines)@) == texts(old(lines)@) + submission_lines(
            submitter@.state,
            is_open_url,
            is_debug,
        ),
{
    let stage = match submitter.state {
        Submission::Created(printed) => {
            if is_open_url {
                Stage::Opening(printed)
            } else {
                log_debug(lines, "Successfully created pull request", is_debug);
                Stage::Finished(Ok(printed))
            }
        },
        Submission::PushFailed => {
            log_debug(lines, Error::PushFailed.message().as_str(), is_debug);
            Stage::Finished(Err(Error::PushFailed))
        },
        Submission::CreateFailed => {
            log_debug(lines, Error::PullRequestCreationFailed.message().as_str(), is_debug);
            Stage::Finished(Err(Error::PullRequestCreationFailed))
        },
        state => Stage::Submitting(
            Submitter { request: submitter.request, is_debug: submitter.is_debug, state },
        ),
    };
    stage
}

/// Every move keeps a run together.
pub proof fn lemma_next_wf(run: PipelineView, outcome: Result<Seq<char>, Error>)
    requires
        run.wf(),
    ensures
        run.next(outcome).wf(),
{
}

/// A log that is empty or could not be had ends the run where it stands:
/// the run is over with the collector's error and no command is due, so
/// nothing is pushed and nothing is created.
pub proof fn lemma_no_log_no_push(run: PipelineView, outcome: Result<Seq<char>, Error>)
    requires
        run.stage is Collecting,
        collected(outcome) is Err,
    ensures
        run.next(outcome).due() is None,
        run.next(outcome).result() == Some(Err::<Seq<char>, Error>(collected(outcome)->Err_0)),
{
}

/// A failed push ends the run with `PushFailed`: no command is due any
/// more, so the creation is never asked for.
pub proof fn lemma_failed_push_ends_run(run: PipelineView, outcome: Result<Seq<char>, Error>)
    requires
        run.stage matches StageView::Submitting(submitter) && submitter.state is Idle,
        outcome is Err,
    ensures
        run.next(outcome).due() is None,
        run.next(outcome).result() == Some(Err::<Seq<char>, Error>(Error::PushFailed)),
{
}

/// When the history, the push and the creation all go well, the run comes
/// to what the creation printed, unchanged: at once where the pull request
/// is not to be opened, and else after the opening, however that goes.
pub proof fn lemma_created_text_is_result(
    run: PipelineView,
    log: Seq<char>,
    pushed: Seq<char>,
    printed: Seq<char>,
    opened: Result<Seq<char>, Error>,
)
    requires
        run.stage is Collecting,
        log.len() > 0,
    ensures
        ({
            let created = run.next(Ok(log)).next(Ok(pushed)).next(Ok(printed));
            if run.is_open_url {
                &&& created.due() == Some(open_command(printed))
                &&& created.next(opened).result() == Some(Ok::<Seq<char>, Error>(printed))
            } else {
                created.result() == Some(Ok::<Seq<char>, Error>(printed))
            }
        }),
{
}

/// No run asks for more than four commands: after four moves a run that
/// starts at the history command is over, whatever the commands came to.
pub proof fn lemma_run_ends(
    run: PipelineView,
    first: Result<Seq<char>, Error>,
    second: Result<Seq<char>, Error>,
    third: Result<Seq<char>, Error>,
    fourth: Result<Seq<char>, Error>,
)
    requires
        run.stage is Collecting,
    ensures
        run.next(first).next(second).next(third).next(fourth).due() is None,
{
}

/// A run that is over stays as it is and says nothing more.
pub proof fn lemma_finished_stays(run: PipelineView, outcome: Result<Seq<char>, Error>)
    requires
        run.stage is Finished,
    ensures
        run.next(outcome) == run,
        run.lines(outcome) == Seq::<Seq<char>>::empty(),
{
}

} // verus!
