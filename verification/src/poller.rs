//! The manifest poller: when to poll, what to remember, when to update.
//!
//! The first manifest that is read sets the baseline version. From then on
//! each manifest is held against the baseline, and the first one that is
//! newer ends the polling: its link goes to the update streamer.

use vstd::prelude::*;
use crate::manifest::{PollError, Update, UpdateView};
use crate::version::{lemma_not_newer_than_itself, newer, Version, VersionView};

verus! {

/// Seconds between two polls once the baseline is known.
pub const POLL_INTERVAL_SECS: u64 = 3600;

/// What the poller has learnt so far.
pub enum PollerView {
    /// No manifest has been read yet.
    Seeking,
    /// The baseline is known and newer versions are watched for.
    Watching(VersionView),
    /// A newer version has been found and handed to the update streamer.
    Updating,
}

/// What the driving loop does after a poll.
#[derive(Debug, PartialEq, Eq)]
pub enum PollAction {
    /// Poll again at once.
    Retry,
    /// Sleep for `POLL_INTERVAL_SECS` seconds, then poll again.
    Sleep,
    /// Stop polling and apply the update behind this link.
    Apply(String),
    /// Polling is over: an update has been handed on before.
    Halt,
}

/// A poll action as plain values.
pub enum PollActionView {
    Retry,
    Sleep,
    Apply(Seq<char>),
    Halt,
}

impl View for PollAction {
    type V = PollActionView;

    open spec fn view(&self) -> PollActionView {
        match self {
            PollAction::Retry => PollActionView::Retry,
            PollAction::Sleep => PollActionView::Sleep,
            PollAction::Apply(link) => PollActionView::Apply(link@),
            PollAction::Halt => PollActionView::Halt,
        }
    }
}

/// The outcome of a poll as plain values.
pub open spec fn outcome_view(outcome: Result<Update, PollError>) -> Result<UpdateView, PollError> {
    match outcome {
        Ok(update) => Ok(update@),
        Err(e) => Err(e),
    }
}

/// The poller and the action after one poll.
///
/// Until a manifest is read a failed poll is repeated at once. The first
/// manifest sets the baseline. After that a failed poll and a manifest that
/// is not newer than the baseline change nothing and wait for the next
/// interval; a newer manifest ends the polling with its link.
pub open spec fn polled(p: PollerView, outcome: Result<UpdateView, PollError>) -> (
    PollerView,
    PollActionView,
) {
    match p {
        PollerView::Seeking => match outcome {
            Ok(update) => (PollerView::Watching(update.version), PollActionView::Sleep),
            Err(_) => (PollerView::Seeking, PollActionView::Retry),
        },
        PollerView::Watching(baseline) => match outcome {
            Ok(update) => if newer(update.version, baseline) {
                (PollerView::Updating, PollActionView::Apply(update.link))
            } else {
                (p, PollActionView::Sleep)
            },
            Err(_) => (p, PollActionView::Sleep),
        },
        PollerView::Updating => (p, PollActionView::Halt),
    }
}

/// The poller after a run of polls.
pub open spec fn run_state(
    p: PollerView,
    outcomes: Seq<Result<UpdateView, PollError>>,
) -> PollerView
    decreases outcomes.len(),
{
    if outcomes.len() == 0 {
        p
    } else {
        polled(run_state(p, outcomes.drop_last()), outcomes.last()).0
    }
}

/// The actions that a run of polls is answered with, one for each poll.
pub open spec fn run_actions(p: PollerView, outcomes: Seq<Result<UpdateView, PollError>>) -> Seq<
    PollActionView,
>
    decreases outcomes.len(),
{
    if outcomes.len() == 0 {
        Seq::empty()
    } else {
        run_actions(p, outcomes.drop_last()).push(
            polled(run_state(p, outcomes.drop_last()), outcomes.last()).1,
        )
    }
}

/// How many of `actions` apply an update.
pub open spec fn applies(actions: Seq<PollActionView>) -> nat
    decreases actions.len(),
{
    if actions.len() == 0 {
        0
    } else {
        applies(actions.drop_last()) + if actions.last() is Apply {
            1nat
        } else {
            0nat
        }
    }
}

/// The manifest poller.
#[derive(Debug)]
pub struct Poller {
    baseline: Option<Version>,
    updating: bool,
}

impl View for Poller {
    type V = PollerView;

    closed spec fn view(&self) -> PollerView {
        if self.updating {
            PollerView::Updating
        } else {
            match self.baseline {
                Some(version) => PollerView::Watching(version@),
                None => PollerView::Seeking,
            }
        }
    }
}

impl Poller {
    /// A poller that has read no manifest yet.
    pub fn new() -> (poller: Poller)
        ensures
            poller@ == PollerView::Seeking,
    {
        Poller { baseline: None, updating: false }
    }

    /// The baseline version, once a manifest has been read and until an
    /// update is handed on.
    pub fn baseline(&self) -> (baseline: Option<Version>)
        ensures
            match baseline {
                Some(version) => self@ == PollerView::Watching(version@),
                None => !(self@ is Watching),
            },
    {
        if self.updating {
            None
        } else {
            match &self.baseline {
                Some(version) => Some(version.duplicate()),
                None => None,
            }
        }
    }

    /// Whether polling is over.
    pub fn is_updating(&self) -> (updating: bool)
        ensures
            updating == (self@ is Updating),
    {
        self.updating
    }

    /// Seconds to let pass before the next poll: none until the baseline is
    /// known, one interval after that.
    pub fn delay_secs(&self) -> (secs: u64)
        ensures
            secs == if self@ is Seeking {
                0
            } else {
                POLL_INTERVAL_SECS
            },
    {
        if !self.updating && self.baseline.is_none() {
            0
        } else {
            POLL_INTERVAL_SECS
        }
    }

    /// Takes the outcome of one poll and answers with what to do next.
    ///
    /// A manifest that is not newer than the baseline never applies an
    /// update; a newer one applies it with that manifest's link, and
    /// nothing is applied after it; a failed poll changes nothing.
    pub fn on_poll(&mut self, outcome: Result<Update, PollError>) -> (action: PollAction)
        ensures
            (final(self)@, action@) == polled(old(self)@, outcome_view(outcome)),
    {
        if self.updating {
            return PollAction::Halt;
        }
        match outcome {
            Err(_) => {
                if self.baseline.is_none() {
                    PollAction::Retry
                } else {
                    PollAction::Sleep
                }
            },
            Ok(update) => {
                let is_newer = match &self.baseline {
                    Some(baseline) => Some(update.version.is_newer_than(baseline)),
                    None => None,
                };
                match is_newer {
                    None => {
                        self.baseline = Some(update.version);
                        PollAction::Sleep
                    },
                    Some(true) => {
                        self.updating = true;
                        PollAction::Apply(update.link)
                    },
                    Some(false) => PollAction::Sleep,
                }
            },
        }
    }
}

/// A manifest whose version is not newer than the baseline never applies an
/// update: the poller keeps its baseline and waits for the next interval.
pub proof fn lemma_not_newer_never_applies(baseline: VersionView, update: UpdateView)
    requires
        !newer(update.version, baseline),
    ensures
        polled(PollerView::Watching(baseline), Ok(update)) == (
            PollerView::Watching(baseline),
            PollActionView::Sleep,
        ),
{
}

/// A manifest whose version is newer than the baseline applies the update
/// with that manifest's link, and once: whatever is polled afterwards, no
/// second update is applied.
pub proof fn lemma_newer_applies_once(
    baseline: VersionView,
    update: UpdateView,
    later: Seq<Result<UpdateView, PollError>>,
)
    requires
        newer(update.version, baseline),
    ensures
        polled(PollerView::Watching(baseline), Ok(update)) == (
            PollerView::Updating,
            PollActionView::Apply(update.link),
        ),
        run_state(PollerView::Updating, later) == PollerView::Updating,
        applies(run_actions(PollerView::Updating, later)) == 0,
    decreases later.len(),
{
    if later.len() > 0 {
        lemma_newer_applies_once(baseline, update, later.drop_last());
        let before = run_actions(PollerView::Updating, later.drop_last());
        let all = run_actions(PollerView::Updating, later);
        assert(all.drop_last() == before);
    }
}

/// Whatever a run of polls brings, at most one update is applied in it.
pub proof fn lemma_at_most_one_apply(p: PollerView, outcomes: Seq<Result<UpdateView, PollError>>)
    ensures
        applies(run_actions(p, outcomes)) <= 1,
        applies(run_actions(p, outcomes)) == 1 ==> run_state(p, outcomes) is Updating,
        p is Updating ==> applies(run_actions(p, outcomes)) == 0 && run_state(p, outcomes)
            is Updating,
    decreases outcomes.len(),
{
    if outcomes.len() > 0 {
        lemma_at_most_one_apply(p, outcomes.drop_last());
        let before = run_actions(p, outcomes.drop_last());
        let all = run_actions(p, outcomes);
        assert(all.drop_last() == before);
    }
}

/// Failed polls, however many, leave the poller as it was, its baseline
/// included, and apply no update.
pub proof fn lemma_failures_change_nothing(
    p: PollerView,
    outcomes: Seq<Result<UpdateView, PollError>>,
)
    requires
        forall|i: int| 0 <= i < outcomes.len() ==> outcomes[i] is Err,
    ensures
        run_state(p, outcomes) == p,
        applies(run_actions(p, outcomes)) == 0,
        forall|i: int|
            0 <= i < outcomes.len() ==> !(#[trigger] run_actions(p, outcomes)[i] is Apply),
        run_actions(p, outcomes).len() == outcomes.len(),
    decreases outcomes.len(),
{
    if outcomes.len() > 0 {
        lemma_failures_change_nothing(p, outcomes.drop_last());
        let before = run_actions(p, outcomes.drop_last());
        let all = run_actions(p, outcomes);
        assert(all.drop_last() == before);
        assert(outcomes.last() is Err);
        assert forall|i: int| 0 <= i < outcomes.len() implies !(#[trigger] all[i] is Apply) by {
            if i < outcomes.len() - 1 {
                assert(all[i] == before[i]);
            }
        }
    }
}

/// A manifest of the baseline's own version applies no update.
pub proof fn lemma_same_version_never_applies(update: UpdateView)
    ensures
        polled(PollerView::Watching(update.version), Ok(update)) == (
            PollerView::Watching(update.version),
            PollActionView::Sleep,
        ),
{
    lemma_not_newer_than_itself(update.version);
}

} // verus!
