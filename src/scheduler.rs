use vstd::prelude::*;
use crate::config::PanelConfig;
use crate::runner::{is_run_outcome, trimmed, utf8_text, RunError};

verus! {

/// What the event loop does after a tick.
#[derive(Debug, Clone, Copy, PartialEq, Eq, Structural)]
pub enum TickAction {
    /// Keep the timer running; the panel shows `displayed`.
    Continue,
    /// The failure is fatal: close the panel and report it.
    Stop(RunError),
}

/// The refresh timer and the text it keeps on display.
///
/// Times are milliseconds on a monotonic clock. A tick may start once
/// `next_due_ms` is reached and no tick is running; when it finishes, the next
/// one is due a full period after its end. A successful run replaces the
/// displayed text; a failed one leaves it as it was and, with
/// `stop_on_failure`, stops the panel.
#[derive(Debug)]
pub struct RefreshScheduler {
    pub period_ms: u64,
    pub next_due_ms: u64,
    pub ticking: bool,
    pub stop_on_failure: bool,
    pub displayed: String,
}

impl RefreshScheduler {
    pub open spec fn wf(&self) -> bool {
        self.period_ms >= 1000
    }

    /// Whether a tick may start at `now_ms`.
    pub open spec fn due(&self, now_ms: u64) -> bool {
        !self.ticking && now_ms >= self.next_due_ms
    }

    /// The scheduler after a tick that ended at `now_ms` with `outcome`.
    pub open spec fn finished(self, outcome: Result<String, RunError>, now_ms: u64) -> Self {
        RefreshScheduler {
            next_due_ms: (now_ms + self.period_ms) as u64,
            ticking: false,
            displayed: match outcome {
                Ok(t) => t,
                Err(_) => self.displayed,
            },
            ..self
        }
    }

    /// A scheduler started at `now_ms` for `config`: nothing displayed yet, the
    /// first tick due one period later.
    pub fn new(config: &PanelConfig, now_ms: u64, stop_on_failure: bool) -> (r: Self)
        requires
            config.wf(),
            now_ms + config.poll_interval_s * 1000 <= u64::MAX,
        ensures
            r.wf(),
            r.period_ms == config.poll_interval_s * 1000,
            r.next_due_ms == now_ms + r.period_ms,
            !r.ticking,
            r.stop_on_failure == stop_on_failure,
            r.displayed@.len() == 0,
    {
        let period_ms: u64 = config.poll_interval_s as u64 * 1000;
        RefreshScheduler {
            period_ms,
            next_due_ms: now_ms + period_ms,
            ticking: false,
            stop_on_failure,
            displayed: String::new(),
        }
    }

    /// Starts a tick at `now_ms` where one is due, and says whether it did;
    /// the caller then runs the command and reports with `finish_tick`.
    pub fn begin_tick(&mut self, now_ms: u64) -> (r: bool)
        requires
            old(self).wf(),
        ensures
            r == old(self).due(now_ms),
            final(self).wf(),
            r ==> *final(self) == (RefreshScheduler { ticking: true, ..*old(self) }),
            !r ==> *final(self) == *old(self),
    {
        if !self.ticking && now_ms >= self.next_due_ms {
            self.ticking = true;
            true
        } else {
            false
        }
    }

    /// Ends the running tick at `now_ms` with the command's outcome: a success
    /// replaces the displayed text, a failure keeps it; the next tick is due
    /// one period after `now_ms`.
    pub fn finish_tick(&mut self, outcome: Result<String, RunError>, now_ms: u64) -> (r:
        TickAction)
        requires
            old(self).wf(),
            old(self).ticking,
            now_ms + old(self).period_ms <= u64::MAX,
        ensures
            *final(self) == old(self).finished(outcome, now_ms),
            final(self).wf(),
            r == (match outcome {
                Err(e) => if old(self).stop_on_failure {
                    TickAction::Stop(e)
                } else {
                    TickAction::Continue
                },
                Ok(_) => TickAction::Continue,
            }),
    {
        self.ticking = false;
        self.next_due_ms = now_ms + self.period_ms;
        match outcome {
            Ok(text) => {
                self.displayed = text;
                TickAction::Continue
            },
            Err(e) => {
                if self.stop_on_failure {
                    TickAction::Stop(e)
                } else {
                    TickAction::Continue
                }
            },
        }
    }
}

/// Ticks never overlap, and after a tick that ended at `t` the next one may
/// start at `t2` exactly when `t2 >= t + period_ms`: one run per period,
/// measured from the end of the previous tick.
pub proof fn lemma_one_run_per_period(
    s: RefreshScheduler,
    outcome: Result<String, RunError>,
    t: u64,
    t2: u64,
)
    requires
        s.wf(),
        s.ticking,
        t + s.period_ms <= u64::MAX,
    ensures
        !s.due(t2),
        s.finished(outcome, t).due(t2) <==> t2 >= t + s.period_ms,
        s.finished(outcome, t).period_ms == s.period_ms,
{
}

/// A successful tick displays exactly the outcome's text; a failed one leaves
/// the last text displayed.
pub proof fn lemma_last_good_text_kept(
    s: RefreshScheduler,
    outcome: Result<String, RunError>,
    t: u64,
)
    ensures
        outcome.is_ok() ==> s.finished(outcome, t).displayed == outcome.unwrap(),
        outcome.is_err() ==> s.finished(outcome, t).displayed == s.displayed,
{
}

/// A tick that runs a command displays its output decoded and trimmed; output
/// that is not UTF-8 gives `NotUtf8` and leaves the displayed text as it was,
/// never an empty text in its place.
pub proof fn lemma_tick_displays_trimmed_output(
    s: RefreshScheduler,
    captured: Vec<u8>,
    outcome: Result<String, RunError>,
    t: u64,
)
    requires
        is_run_outcome(Some(captured), outcome),
    ensures
        utf8_text(captured@).is_some() ==> s.finished(outcome, t).displayed@ == trimmed(
            utf8_text(captured@).unwrap(),
        ),
        utf8_text(captured@).is_none() ==> outcome == Err::<String, RunError>(RunError::NotUtf8),
        utf8_text(captured@).is_none() ==> s.finished(outcome, t).displayed == s.displayed,
{
}

} // verus!
