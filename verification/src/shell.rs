use vstd::prelude::*;
use vstd::string::*;
use crate::block::Block;
use crate::errors::BlockError;
use crate::errors::exit_failure_message;
use crate::errors::no_cache_message;
use crate::errors::spawn_failure_message;
use crate::text::formatted_output;
use crate::text::render_output;

verus! {

/// What one attempt to run the configured command produced, reported back to
/// the widget as plain values by the caller that spawned the process.
pub enum CommandOutcome {
    /// The shell process could not be started; carries the text of the spawn
    /// error.
    SpawnFailed(String),
    /// The process ran to completion: whether its exit status was success,
    /// the text of that status, and the captured standard output.
    Exited { success: bool, status: String, stdout: Vec<u8> },
}

/// The abstract state of a command-driven widget: its immutable
/// configuration and its mutable cache.
pub ghost struct BlockView {
    /// The output template, holding the substitution marker.
    pub template: Seq<char>,
    /// The command text handed verbatim to the shell.
    pub command: Seq<char>,
    /// The preferred refresh interval, in whole seconds.
    pub interval_secs: u64,
    /// The display color, as a packed RGB integer.
    pub color: u32,
    /// The most recent successfully formatted output, if any.
    pub cached: Option<Seq<char>>,
    /// The time of the most recent successful refresh, in milliseconds, if
    /// any.
    pub last_success_ms: Option<u64>,
}

impl BlockView {
    /// Cache and timestamp are set together on success and never cleared:
    /// one is present exactly when the other is.
    pub open spec fn inv(self) -> bool {
        self.cached is Some <==> self.last_success_ms is Some
    }
}

/// Milliseconds elapsed from `last` to `now`, saturating at zero.
pub open spec fn spec_elapsed_ms(last: u64, now: u64) -> int {
    if now >= last {
        now - last
    } else {
        0
    }
}

/// The refresh policy: refresh if no refresh ever succeeded, or if at least
/// the configured interval has elapsed since the last success.
pub open spec fn spec_should_refresh(v: BlockView, now_ms: u64) -> bool {
    match v.last_success_ms {
        None => true,
        Some(t) => spec_elapsed_ms(t, now_ms) >= v.interval_secs * 1000,
    }
}

/// How one execution outcome maps to a result and a state change: success
/// formats the trimmed output into the template, caches it and records the
/// time; any failure returns `CommandFailed` with the matching message and
/// leaves the state exactly as it was.
pub open spec fn spec_apply_outcome(
    pre: BlockView,
    post: BlockView,
    now_ms: u64,
    outcome: CommandOutcome,
    r: Result<String, BlockError>,
) -> bool {
    &&& post.template == pre.template
    &&& post.command == pre.command
    &&& post.interval_secs == pre.interval_secs
    &&& post.color == pre.color
    &&& match outcome {
        CommandOutcome::SpawnFailed(detail) => {
            &&& post == pre
            &&& r matches Err(BlockError::CommandFailed(m)) && m@ == spawn_failure_message(
                detail@,
            )
        },
        CommandOutcome::Exited { success, status, stdout } => {
            if success {
                &&& r matches Ok(s) && s@ == formatted_output(pre.template, stdout@)
                &&& post.cached == Some(formatted_output(pre.template, stdout@))
                &&& post.last_success_ms == Some(now_ms)
            } else {
                &&& post == pre
                &&& r matches Err(BlockError::CommandFailed(m)) && m@ == exit_failure_message(
                    status@,
                )
            }
        },
    }
}

/// What serving the cache yields: the cached string when one exists, the
/// "no cached output" error otherwise.
pub open spec fn spec_cached_content(v: BlockView, r: Result<String, BlockError>) -> bool {
    match v.cached {
        Some(c) => r matches Ok(s) && s@ == c,
        None => r matches Err(BlockError::CommandFailed(m)) && m@ == no_cache_message(),
    }
}

/// A widget that renders the output of a shell command into a template, on a
/// self-managed schedule.
pub struct ShellBlock {
    template: String,
    command: String,
    interval_secs: u64,
    color: u32,
    cached_output: Option<String>,
    last_success_ms: Option<u64>,
}

impl View for ShellBlock {
    type V = BlockView;

    closed spec fn view(&self) -> BlockView {
        BlockView {
            template: self.template@,
            command: self.command@,
            interval_secs: self.interval_secs,
            color: self.color,
            cached: match self.cached_output {
                Some(s) => Some(s@),
                None => None,
            },
            last_success_ms: self.last_success_ms,
        }
    }
}

proof fn lemma_div_threshold(e: u64, k: u64)
    ensures
        (e / 1000 >= k) <==> (e as int >= k as int * 1000),
{
    assert((e / 1000 >= k) <==> (e as int >= k as int * 1000)) by (nonlinear_arith);
}

impl ShellBlock {
    /// A widget with the given template, command text, interval in whole
    /// seconds and color; the runtime state starts empty. The command text
    /// is not validated here: failures surface only at execution.
    pub fn new(template: &str, command: &str, interval_secs: u64, color: u32) -> (r: Self)
        ensures
            r@.inv(),
            r@.template == template@,
            r@.command == command@,
            r@.interval_secs == interval_secs,
            r@.color == color,
            r@.cached is None,
            r@.last_success_ms is None,
    {
        ShellBlock {
            template: template.to_owned(),
            command: command.to_owned(),
            interval_secs,
            color,
            cached_output: None,
            last_success_ms: None,
        }
    }

    /// The command text the event loop must hand to the shell when a refresh
    /// is due.
    pub fn command_text(&self) -> (r: &str)
        ensures
            r@ == self@.command,
    {
        self.command.as_str()
    }

    /// Applies the outcome of one execution: on success, formats the output,
    /// stores it and records `now_ms` as the last success; on any failure,
    /// returns the error and leaves the state untouched.
    pub fn apply_outcome(&mut self, now_ms: u64, outcome: CommandOutcome) -> (r: Result<
        String,
        BlockError,
    >)
        ensures
            spec_apply_outcome(old(self)@, final(self)@, now_ms, outcome, r),
            old(self)@.inv() ==> final(self)@.inv(),
    {
        match outcome {
            CommandOutcome::SpawnFailed(detail) => {
                let mut m = String::from_str("Failed to execute command: ");
                m.append(detail.as_str());
                Err(BlockError::CommandFailed(m))
            },
            CommandOutcome::Exited { success, status, stdout } => {
                if success {
                    let formatted = render_output(self.template.as_str(), stdout.as_slice());
                    self.cached_output = Some(formatted.clone());
                    self.last_success_ms = Some(now_ms);
                    Ok(formatted)
                } else {
                    let mut m = String::from_str("Command exited with status: ");
                    m.append(status.as_str());
                    Err(BlockError::CommandFailed(m))
                }
            },
        }
    }

    /// Serves the cached output, or the "no cached output" error if none
    /// exists yet.
    pub fn cached_content(&self) -> (r: Result<String, BlockError>)
        ensures
            spec_cached_content(self@, r),
    {
        match &self.cached_output {
            Some(s) => Ok(s.clone()),
            None => Err(BlockError::CommandFailed(String::from_str("No cached output"))),
        }
    }
}

impl Block for ShellBlock {
    type Event = CommandOutcome;

    open spec fn inv(&self) -> bool {
        self@.inv()
    }

    open spec fn needs_event(&self, now_ms: u64) -> bool {
        spec_should_refresh(self@, now_ms)
    }

    open spec fn content_ens(
        &self,
        post: Self,
        now_ms: u64,
        event: Option<CommandOutcome>,
        r: Result<String, BlockError>,
    ) -> bool {
        if spec_should_refresh(self@, now_ms) {
            event matches Some(o) && spec_apply_outcome(self@, post@, now_ms, o, r)
        } else {
            &&& post@ == self@
            &&& spec_cached_content(self@, r)
        }
    }

    open spec fn spec_interval(&self) -> u64 {
        self@.interval_secs
    }

    open spec fn spec_color(&self) -> u32 {
        self@.color
    }

    fn should_refresh(&self, now_ms: u64) -> (b: bool) {
        match self.last_success_ms {
            None => true,
            Some(t) => {
                let elapsed: u64 = if now_ms >= t {
                    now_ms - t
                } else {
                    0
                };
                proof {
                    lemma_div_threshold(elapsed, self.interval_secs);
                }
                elapsed / 1000 >= self.interval_secs
            },
        }
    }

    fn content(&mut self, now_ms: u64, event: Option<CommandOutcome>) -> (r: Result<
        String,
        BlockError,
    >) {
        let refresh = self.should_refresh(now_ms);
        if refresh {
            match event {
                Some(outcome) => self.apply_outcome(now_ms, outcome),
                // the event is present whenever the policy asked for a refresh
                None => vstd::pervasive::unreached(),
            }
        } else {
            self.cached_content()
        }
    }

    fn interval(&self) -> (r: u64) {
        self.interval_secs
    }

    fn color(&self) -> (r: u32) {
        self.color
    }
}

/// A widget never yet successfully refreshed attempts execution on every
/// query: the refresh policy always asks for outside work while no success
/// has been recorded.
pub proof fn lemma_unrefreshed_always_executes(v: BlockView, now_ms: u64)
    requires
        v.last_success_ms is None,
    ensures
        spec_should_refresh(v, now_ms),
{
}

/// While the cache is fresh — strictly less than the interval has elapsed
/// since the last success — a query performs no outside work and serves
/// exactly the cached string, so repeated queries return the identical text.
pub proof fn lemma_fresh_cache_serves_cache(
    v: BlockView,
    now_ms: u64,
    t: u64,
    c: Seq<char>,
    r: Result<String, BlockError>,
)
    requires
        v.inv(),
        v.last_success_ms == Some(t),
        v.cached == Some(c),
        spec_elapsed_ms(t, now_ms) < v.interval_secs * 1000,
        spec_cached_content(v, r),
    ensures
        !spec_should_refresh(v, now_ms),
        r matches Ok(s) && s@ == c,
{
}

/// Once at least the interval has elapsed since the last success, the next
/// query re-invokes the external process.
pub proof fn lemma_stale_cache_triggers_execution(v: BlockView, now_ms: u64, t: u64)
    requires
        v.last_success_ms == Some(t),
        spec_elapsed_ms(t, now_ms) >= v.interval_secs * 1000,
    ensures
        spec_should_refresh(v, now_ms),
{
}

/// A widget with interval 0 re-executes on every query, whatever time has
/// elapsed.
pub proof fn lemma_zero_interval_always_executes(v: BlockView, now_ms: u64)
    requires
        v.interval_secs == 0,
    ensures
        spec_should_refresh(v, now_ms),
{
}

/// Whether an outcome is a failure: the process could not be spawned or
/// exited unsuccessfully.
pub open spec fn outcome_failed(outcome: CommandOutcome) -> bool {
    match outcome {
        CommandOutcome::SpawnFailed(_) => true,
        CommandOutcome::Exited { success, .. } => !success,
    }
}

/// A failed execution yields a `CommandFailed` error and leaves any prior
/// cached output and timestamp exactly unchanged.
pub proof fn lemma_failure_preserves_state(
    pre: BlockView,
    post: BlockView,
    now_ms: u64,
    outcome: CommandOutcome,
    r: Result<String, BlockError>,
)
    requires
        spec_apply_outcome(pre, post, now_ms, outcome, r),
        outcome_failed(outcome),
    ensures
        post == pre,
        r is Err,
{
}

} // verus!
