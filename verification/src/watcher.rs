//! Watching one directory for changes from outside: which directory is
//! observed, how to re-target, and how a burst of raw notifications becomes
//! one refresh signal.
//!
//! The notification facility and the clock are the caller's. The caller
//! waits for the next raw notification (and, while a burst is pending, for
//! the end of the debounce window), tells the [`Debouncer`] what happened
//! and does what it answers.

use vstd::prelude::*;
use crate::paths::path_equal;

verus! {

/// Length of the debounce window in milliseconds.
pub const DEBOUNCE_MILLIS: u64 = 100;

/// Interval in milliseconds at which a polling notification facility looks
/// at the directory.
pub const POLL_INTERVAL_MILLIS: u64 = 200;

/// What the watcher task learns while it waits.
#[derive(Clone, Copy, Debug, PartialEq, Eq, Structural)]
pub enum WatchInput {
    /// A raw change notification arrived.
    Changed,
    /// The notification facility reported an error. The directory may have
    /// changed, so this counts as a change.
    Failed,
    /// The source of raw notifications is gone.
    SourceClosed,
    /// The debounce window passed without a further notification.
    WindowElapsed,
    /// The refresh signal found the pane's channel full.
    InboxFull,
    /// The pane's channel is closed.
    InboxClosed,
}

/// What the watcher task does next.
#[derive(Clone, Copy, Debug, PartialEq, Eq, Structural)]
pub enum WatchAction {
    /// Wait for the next raw notification.
    Wait,
    /// Wait for the next raw notification or the end of a fresh debounce
    /// window, whichever comes first.
    WaitWithTimer,
    /// Post one refresh signal to the pane's channel without waiting for
    /// room, report `InboxFull` or `InboxClosed` if it did not go through,
    /// then wait for the next raw notification.
    Deliver,
    /// End the task.
    Stop,
}

/// State of the debouncer.
#[derive(Clone, Copy, Debug, PartialEq, Eq, Structural)]
pub enum DebounceState {
    /// Nothing to report.
    Idle,
    /// A burst is under way: at least one change has not been reported.
    Pending,
    /// The task has ended.
    Stopped,
}

/// Whether the input is a raw notification, good or bad.
pub open spec fn is_raw(input: WatchInput) -> bool {
    input is Changed || input is Failed
}

/// Next state and action for one input.
pub open spec fn react(s: DebounceState, input: WatchInput) -> (DebounceState, WatchAction) {
    if s is Stopped || input is SourceClosed || input is InboxClosed {
        (DebounceState::Stopped, WatchAction::Stop)
    } else if is_raw(input) || input is InboxFull {
        (DebounceState::Pending, WatchAction::WaitWithTimer)
    } else if s is Pending {
        (DebounceState::Idle, WatchAction::Deliver)
    } else {
        (DebounceState::Idle, WatchAction::Wait)
    }
}

/// State after a sequence of inputs, first to last.
pub open spec fn replay(s: DebounceState, inputs: Seq<WatchInput>) -> DebounceState
    decreases inputs.len(),
{
    if inputs.len() == 0 {
        s
    } else {
        react(replay(s, inputs.drop_last()), inputs.last()).0
    }
}

/// Number of refresh signals asked for while a sequence of inputs is
/// worked through.
pub open spec fn deliveries(s: DebounceState, inputs: Seq<WatchInput>) -> nat
    decreases inputs.len(),
{
    if inputs.len() == 0 {
        0
    } else {
        let before = deliveries(s, inputs.drop_last());
        if react(replay(s, inputs.drop_last()), inputs.last()).1 is Deliver {
            before + 1
        } else {
            before
        }
    }
}

/// Collapses bursts of raw notifications into single refresh signals.
#[derive(Debug, PartialEq, Eq)]
pub struct Debouncer {
    state: DebounceState,
}

impl View for Debouncer {
    type V = DebounceState;

    closed spec fn view(&self) -> DebounceState {
        self.state
    }
}

impl Debouncer {
    /// A debouncer with nothing to report.
    pub fn new() -> (debouncer: Self)
        ensures
            debouncer@ == DebounceState::Idle,
    {
        Debouncer { state: DebounceState::Idle }
    }

    /// The current state.
    pub fn state(&self) -> (state: DebounceState)
        ensures
            state == self@,
    {
        self.state
    }

    /// Takes one input and says what to do next.
    pub fn on(&mut self, input: WatchInput) -> (action: WatchAction)
        ensures
            (final(self)@, action) == react(old(self)@, input),
    {
        let stopping = match input {
            WatchInput::SourceClosed => true,
            WatchInput::InboxClosed => true,
            _ => false,
        };
        let raising = match input {
            WatchInput::Changed => true,
            WatchInput::Failed => true,
            WatchInput::InboxFull => true,
            _ => false,
        };
        match self.state {
            DebounceState::Stopped => WatchAction::Stop,
            _ if stopping => {
                self.state = DebounceState::Stopped;
                WatchAction::Stop
            },
            _ if raising => {
                self.state = DebounceState::Pending;
                WatchAction::WaitWithTimer
            },
            DebounceState::Pending => {
                self.state = DebounceState::Idle;
                WatchAction::Deliver
            },
            DebounceState::Idle => WatchAction::Wait,
        }
    }
}

/// What re-targeting asks of the notification facility: stop observing
/// `unwatch`, then observe `watch`, not its subdirectories. A failure to
/// stop observing does not keep the second step from being tried.
#[derive(Debug, PartialEq, Eq)]
pub struct WatchSwitch {
    pub unwatch: String,
    pub watch: String,
}

/// Mathematical content of a [`WatchSwitch`].
pub struct SwitchView {
    pub unwatch: Seq<char>,
    pub watch: Seq<char>,
}

impl View for WatchSwitch {
    type V = SwitchView;

    open spec fn view(&self) -> SwitchView {
        SwitchView { unwatch: self.unwatch@, watch: self.watch@ }
    }
}

/// The switch that leads from observing `watched` to observing `path`:
/// none where the two paths are equal.
pub open spec fn switch_to(watched: Seq<char>, path: Seq<char>) -> Option<SwitchView> {
    if path_equal(path, watched) {
        None
    } else {
        Some(SwitchView { unwatch: watched, watch: path })
    }
}

/// The directory observed after a switch to `path`.
pub open spec fn retarget(watched: Seq<char>, path: Seq<char>) -> Seq<char> {
    if path_equal(path, watched) {
        watched
    } else {
        path
    }
}

/// The directory that a pane observes.
#[derive(Debug, PartialEq, Eq)]
pub struct FileWatcher {
    current_path: String,
}

impl View for FileWatcher {
    type V = Seq<char>;

    /// Text of the observed directory's path.
    closed spec fn view(&self) -> Seq<char> {
        self.current_path@
    }
}

/// The observed directory `watched` is the directory `shown`: the same
/// text, or paths that are equal.
pub open spec fn observes(watched: Seq<char>, shown: Seq<char>) -> bool {
    watched == shown || path_equal(shown, watched)
}

impl FileWatcher {
    /// A watcher of the directory at `path`.
    pub fn new(path: &String) -> (watcher: Self)
        ensures
            watcher@ == path@,
    {
        FileWatcher { current_path: path.clone() }
    }

    /// The observed directory.
    pub fn current_path(&self) -> (path: &String)
        ensures
            path@ == self@,
    {
        &self.current_path
    }

    /// Switches to the directory at `path`. Where `path` equals the
    /// observed path nothing changes and nothing is asked for; otherwise
    /// the answer says what to stop and what to start observing.
    pub fn watch_path(&mut self, path: &String) -> (switch: Option<WatchSwitch>)
        ensures
            final(self)@ == retarget(old(self)@, path@),
            observes(final(self)@, path@),
            match switch_to(old(self)@, path@) {
                Some(view) => switch is Some && switch->0@ == view,
                None => switch is None,
            },
    {
        if crate::paths::same_path(path, &self.current_path) {
            None
        } else {
            let unwatch = self.current_path.clone();
            self.current_path = path.clone();
            Some(WatchSwitch { unwatch, watch: path.clone() })
        }
    }
}

/// A burst of raw notifications leaves a debouncer that has not stopped
/// pending, and asks for no signal yet.
pub proof fn lemma_burst_is_pending(s: DebounceState, burst: Seq<WatchInput>)
    requires
        !(s is Stopped),
        burst.len() >= 1,
        forall|k: int| 0 <= k < burst.len() ==> is_raw(#[trigger] burst[k]),
    ensures
        replay(s, burst) is Pending,
        deliveries(s, burst) == 0,
    decreases burst.len(),
{
    let earlier = burst.drop_last();
    assert(is_raw(burst[burst.len() - 1]));
    if burst.len() > 1 {
        lemma_burst_is_pending(s, earlier);
    } else {
        assert(replay(s, earlier) == s);
        assert(deliveries(s, earlier) == 0);
    }
}

/// Debounce: any number of raw notifications that arrive within one
/// window, followed by the end of the window, produce exactly one refresh
/// signal, and the debouncer is idle afterwards.
pub proof fn law_burst_gives_one_refresh(s: DebounceState, burst: Seq<WatchInput>)
    requires
        !(s is Stopped),
        burst.len() >= 1,
        forall|k: int| 0 <= k < burst.len() ==> is_raw(#[trigger] burst[k]),
    ensures
        deliveries(s, burst.push(WatchInput::WindowElapsed)) == 1,
        replay(s, burst.push(WatchInput::WindowElapsed)) is Idle,
{
    lemma_burst_is_pending(s, burst);
    let all = burst.push(WatchInput::WindowElapsed);
    assert(all.drop_last() =~= burst);
    assert(all.last() == WatchInput::WindowElapsed);
}

/// The end of a window in which nothing arrived produces no signal.
pub proof fn law_quiet_window_gives_nothing(s: DebounceState)
    requires
        !(s is Pending),
    ensures
        !(react(s, WatchInput::WindowElapsed).1 is Deliver),
{
}

} // verus!
