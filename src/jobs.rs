use vstd::prelude::*;

verus! {

/// Notifications that background git work sends to the user interface.
#[derive(Clone, Copy, Debug, PartialEq, Eq, Structural)]
pub enum AsyncGitNotification {
    Status,
    Diff,
    Log,
    FileLog,
    CommitFiles,
    Tags,
    Push,
    PushTags,
    Pull,
    Blame,
    RemoteTags,
    Fetch,
    Branches,
    TreeFiles,
    CommitFilter,
}

/// Progress of syntax highlighting.
#[derive(Clone, Copy, Debug, PartialEq, Eq, Structural)]
pub enum SyntaxHighlightProgress {
    Progress,
    Done,
}

/// Notifications from the application's own background work.
#[derive(Clone, Copy, Debug, PartialEq, Eq, Structural)]
pub enum AsyncAppNotification {
    SyntaxHighlighting(SyntaxHighlightProgress),
    Notify,
}

/// Any background notification.
#[derive(Clone, Copy, Debug, PartialEq, Eq, Structural)]
pub enum AsyncNotification {
    App(AsyncAppNotification),
    Git(AsyncGitNotification),
}

/// A user name and password for a remote.
#[derive(Clone, Debug)]
pub struct BasicAuthCredential {
    pub username: Option<String>,
    pub password: Option<String>,
}

/// Where a fetch job stands: asked for, with its credentials, or done.
#[derive(Debug)]
pub enum JobState {
    Request(Option<BasicAuthCredential>),
    Response(Result<(), String>),
}

/// A fetch of all remotes of a repository, done once.
#[derive(Debug)]
pub struct AsyncFetchJob {
    pub state: Option<JobState>,
    pub repo: String,
}

impl AsyncFetchJob {
    pub fn new(repo: String, basic_credential: Option<BasicAuthCredential>) -> (r: Self)
        ensures
            r.repo == repo,
            r.state == Some(JobState::Request(basic_credential)),
    {
        AsyncFetchJob { state: Some(JobState::Request(basic_credential)), repo }
    }

    /// The credentials to fetch with, while the fetch has not run yet.
    pub fn pending_request(&self) -> (r: Option<&Option<BasicAuthCredential>>)
        ensures
            match self.state {
                Some(JobState::Request(c)) => r == Some(&c),
                _ => r.is_none(),
            },
    {
        match &self.state {
            Some(JobState::Request(c)) => Some(c),
            _ => None,
        }
    }

    /// Records the outcome of the fetch: a request becomes a response; a
    /// response stays as it was.
    pub fn complete(&mut self, result: Result<(), String>) -> (n: AsyncGitNotification)
        ensures
            n == AsyncGitNotification::Fetch,
            final(self).repo == old(self).repo,
            match old(self).state {
                Some(JobState::Request(_)) => final(self).state == Some(JobState::Response(result)),
                _ => final(self).state == old(self).state,
            },
    {
        let is_request = match &self.state {
            Some(JobState::Request(_)) => true,
            _ => false,
        };
        if is_request {
            self.state = Some(JobState::Response(result));
        }
        AsyncGitNotification::Fetch
    }
}

/// A fetch done by the user's configured external command.
#[derive(Clone, Debug)]
pub struct AsyncFetchAsExternCmdJob {
    pub cmd: String,
}

impl AsyncFetchAsExternCmdJob {
    pub fn new(cmd: String) -> (r: Self)
        ensures
            r.cmd == cmd,
    {
        AsyncFetchAsExternCmdJob { cmd }
    }
}

/// A job for the background job queue.
pub trait AsyncDynJob {
    /// Whether the worker stops after this job.
    fn should_stop(&self) -> bool;
}

/// The job that stops the worker.
#[derive(Clone, Copy, Debug)]
pub struct AsyncStopJob {}

impl AsyncDynJob for AsyncStopJob {
    fn should_stop(&self) -> (r: bool)
        ensures
            r,
    {
        true
    }
}

/// A user's shell command run in the background.
#[derive(Clone, Debug)]
pub struct AsyncJobExternCmd {
    pub cmd: String,
}

impl AsyncJobExternCmd {
    pub fn new(cmd: String) -> (r: Self)
        ensures
            r.cmd == cmd,
    {
        AsyncJobExternCmd { cmd }
    }
}

impl AsyncDynJob for AsyncJobExternCmd {
    fn should_stop(&self) -> (r: bool)
        ensures
            !r,
    {
        false
    }
}

/// What the worker of the job queue does next.
#[derive(Clone, Copy, Debug, PartialEq, Eq, Structural)]
pub enum WorkerAction {
    Continue,
    Exit,
}

/// The background worker of the job queue: one job at a time, in order.
#[derive(Clone, Copy, Debug)]
pub struct AsyncJobList {}

impl AsyncJobList {
    pub fn new() -> (r: Self) {
        AsyncJobList {}
    }

    /// Decides after a job: the worker exits when a job could not be
    /// received, when sending the job's feedback or the wake-up
    /// notification failed, or when the job asks to stop.
    pub fn after_job(
        &self,
        received: bool,
        feedback_sent: bool,
        notified: bool,
        should_stop: bool,
    ) -> (r: WorkerAction)
        ensures
            r == (if received && feedback_sent && notified && !should_stop {
                WorkerAction::Continue
            } else {
                WorkerAction::Exit
            }),
    {
        if !received || !feedback_sent || !notified || should_stop {
            WorkerAction::Exit
        } else {
            WorkerAction::Continue
        }
    }
}

/// Counts kept while talking to a remote.
#[derive(Clone, Debug)]
pub struct CallbackStats {
    /// a reference the remote rejected, and its message
    pub push_rejected_msg: Option<(String, String)>,
}

impl Default for CallbackStats {
    fn default() -> (r: Self)
        ensures
            r.push_rejected_msg.is_none(),
    {
        CallbackStats { push_rejected_msg: None }
    }
}

/// Interval of the ticker, in milliseconds.
pub const TICK_INTERVAL_MS: u64 = 120;
/// Interval of the full refresh, in milliseconds.
pub const UPDATE_INTERVAL_MS: u64 = 5000;

/// Accumulates ticks of the event loop into full refreshes.
#[derive(Clone, Copy, Debug)]
pub struct UpdateTicker {
    pub elapsed: u64,
}

impl UpdateTicker {
    pub fn new() -> (r: Self)
        ensures
            r.elapsed == 0,
    {
        UpdateTicker { elapsed: 0 }
    }

    /// Counts one tick; returns whether a full refresh is due, which it is
    /// once more than the refresh interval has built up.
    pub fn on_tick(&mut self) -> (due: bool)
        requires
            old(self).elapsed <= UPDATE_INTERVAL_MS,
        ensures
            final(self).elapsed <= UPDATE_INTERVAL_MS,
            due == (old(self).elapsed + TICK_INTERVAL_MS > UPDATE_INTERVAL_MS),
            due ==> final(self).elapsed == (old(self).elapsed + TICK_INTERVAL_MS) % (UPDATE_INTERVAL_MS as int),
            !due ==> final(self).elapsed == old(self).elapsed + TICK_INTERVAL_MS,
    {
        self.elapsed = self.elapsed + TICK_INTERVAL_MS;
        if self.elapsed > UPDATE_INTERVAL_MS {
            self.elapsed = self.elapsed % UPDATE_INTERVAL_MS;
            true
        } else {
            false
        }
    }
}

} // verus!
