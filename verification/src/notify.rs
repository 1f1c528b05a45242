//! The watcher of the active palette: what it resolves from policy and
//! storage, and how it moves from state to state as notifications arrive.
//!
//! The watcher itself neither waits nor reads. Its caller subscribes to the
//! notifications, resolves the palette anew when one arrives, and hands both
//! to `load_theme`, which says what to emit and which state comes next.

use vstd::prelude::*;

use crate::colors::{ColorOverrides, ColorOverridesView};
use crate::config::{Config, ConfigView};
use crate::error::Lookup;

verus! {

/// What a notification from the file system reports.
#[derive(Debug, Clone, Copy, PartialEq, Eq, Structural)]
pub enum ChangeKind {
    /// A change of unknown kind.
    Any,
    /// A file was opened, read or closed.
    Access,
    /// A file or directory was created.
    Create,
    /// A file or directory was modified.
    Modify,
    /// A file or directory was removed.
    Remove,
    /// Anything else.
    Other,
}

/// What the watcher tells its consumer.
#[derive(Debug)]
pub enum ThemeUpdate {
    /// The resolved palette changed; this is its new value.
    Palette(ColorOverrides),
    /// The watcher failed and will say no more.
    Errored,
}

/// The watcher while it watches: it remembers the palette that it emitted
/// last.
#[derive(Debug)]
pub struct ThemeWatcher {
    prev_palette: ColorOverrides,
}

/// The state of the watcher.
#[derive(Debug)]
pub enum State {
    /// Not subscribed yet.
    Ready,
    /// Subscribed, and waiting for the next notification.
    Waiting(ThemeWatcher),
    /// Failed. This state is never left.
    Error,
}

/// What happened outside the watcher.
#[derive(Debug)]
pub enum WatchEvent {
    /// The subscription succeeded; the palette was resolved right after.
    Subscribed(ColorOverrides),
    /// The subscription failed.
    SubscribeFailed,
    /// A notification from the file system arrived; the palette was
    /// resolved anew.
    Changed(ChangeKind, ColorOverrides),
    /// A mode flag of the environment flipped; the palette was resolved
    /// anew.
    ModeChanged(ColorOverrides),
    /// The stream of notifications ended, or a read failed for good.
    Closed,
}

/// The mathematical value of a [`ThemeUpdate`].
pub enum ThemeUpdateView {
    Palette(ColorOverridesView),
    Errored,
}

/// The mathematical value of a [`State`]: while waiting, the palette that
/// was emitted last.
pub enum StateView {
    Ready,
    Waiting(ColorOverridesView),
    Error,
}

/// The mathematical value of a [`WatchEvent`].
pub enum WatchEventView {
    Subscribed(ColorOverridesView),
    SubscribeFailed,
    Changed(ChangeKind, ColorOverridesView),
    ModeChanged(ColorOverridesView),
    Closed,
}

impl View for ThemeUpdate {
    type V = ThemeUpdateView;

    open spec fn view(&self) -> ThemeUpdateView {
        match self {
            ThemeUpdate::Palette(palette) => ThemeUpdateView::Palette(palette@),
            ThemeUpdate::Errored => ThemeUpdateView::Errored,
        }
    }
}

impl View for ThemeWatcher {
    type V = ColorOverridesView;

    closed spec fn view(&self) -> ColorOverridesView {
        self.prev_palette@
    }
}

impl View for State {
    type V = StateView;

    open spec fn view(&self) -> StateView {
        match self {
            State::Ready => StateView::Ready,
            State::Waiting(watcher) => StateView::Waiting(watcher@),
            State::Error => StateView::Error,
        }
    }
}

impl View for WatchEvent {
    type V = WatchEventView;

    open spec fn view(&self) -> WatchEventView {
        match self {
            WatchEvent::Subscribed(palette) => WatchEventView::Subscribed(palette@),
            WatchEvent::SubscribeFailed => WatchEventView::SubscribeFailed,
            WatchEvent::Changed(kind, palette) => WatchEventView::Changed(*kind, palette@),
            WatchEvent::ModeChanged(palette) => WatchEventView::ModeChanged(palette@),
            WatchEvent::Closed => WatchEventView::Closed,
        }
    }
}

/// The value of an optional update.
pub open spec fn update_view(update: Option<ThemeUpdate>) -> Option<ThemeUpdateView> {
    match update {
        Some(update) => Some(update@),
        None => None,
    }
}

/// The value of an optional palette.
pub open spec fn palette_view(palette: Option<ColorOverrides>) -> Option<ColorOverridesView> {
    match palette {
        Some(palette) => Some(palette@),
        None => None,
    }
}

impl ChangeKind {
    /// Whether a change of this kind can alter the resolved palette: a
    /// creation, a modification or a removal can.
    pub open spec fn relevant(self) -> bool {
        self is Create || self is Modify || self is Remove
    }

    /// Whether a change of this kind can alter the resolved palette.
    pub fn is_relevant(&self) -> (relevant: bool)
        ensures
            relevant == self.relevant(),
    {
        match self {
            ChangeKind::Create | ChangeKind::Modify | ChangeKind::Remove => true,
            _ => false,
        }
    }
}

impl ConfigView {
    /// The built-in baseline that stands in where the policy's active set
    /// cannot be had: the light one for an adaptive policy in light mode,
    /// the dark one otherwise.
    pub open spec fn baseline(self) -> ColorOverridesView {
        match self {
            ConfigView::DarkLight { is_dark, .. } => if is_dark {
                ColorOverrides::dark_default_view()
            } else {
                ColorOverrides::light_default_view()
            },
            ConfigView::Static { .. } => ColorOverrides::dark_default_view(),
        }
    }

    /// The palette that the policy resolves to, given the active set or its
    /// absence.
    pub open spec fn palette(self, active: Option<ColorOverridesView>) -> ColorOverridesView {
        match active {
            Some(colors) => self.adjusted(colors),
            None => self.adjusted(self.baseline()),
        }
    }
}

/// What the watcher remembers after a change of kind `kind`, when it had
/// emitted `emitted` last and the palette now resolves to `current`; and
/// what it emits, if anything. A relevant change to a palette that differs
/// is emitted and remembered; all else is passed over.
pub open spec fn change(emitted: ColorOverridesView, kind: ChangeKind, current: ColorOverridesView) -> (
    Option<ColorOverridesView>,
    ColorOverridesView,
) {
    if kind.relevant() && current != emitted {
        (Some(current), current)
    } else {
        (None, emitted)
    }
}

/// One step of the watcher: what it emits on `event` in `state`, and the
/// state that follows.
///
/// From `Ready`, a successful subscription emits the palette and leads to
/// `Waiting`; a failed one emits `Errored` and leads to `Error`. While
/// `Waiting`, a relevant change in the file system or a flip of a mode
/// flag, after which the palette differs from the one emitted last, emits
/// the new palette; any other change is passed over in silence; a failure
/// or the end of the notifications emits `Errored` and leads to `Error`.
/// In `Error` nothing is emitted any more.
pub open spec fn step(state: StateView, event: WatchEventView) -> (
    Option<ThemeUpdateView>,
    StateView,
) {
    match state {
        StateView::Ready => match event {
            WatchEventView::Subscribed(palette) => (
                Some(ThemeUpdateView::Palette(palette)),
                StateView::Waiting(palette),
            ),
            WatchEventView::SubscribeFailed => (Some(ThemeUpdateView::Errored), StateView::Error),
            _ => (None, StateView::Ready),
        },
        StateView::Waiting(emitted) => match event {
            WatchEventView::Changed(kind, current) => match change(emitted, kind, current).0 {
                Some(palette) => (
                    Some(ThemeUpdateView::Palette(palette)),
                    StateView::Waiting(palette),
                ),
                None => (None, StateView::Waiting(emitted)),
            },
            WatchEventView::ModeChanged(current) => if current != emitted {
                (Some(ThemeUpdateView::Palette(current)), StateView::Waiting(current))
            } else {
                (None, StateView::Waiting(emitted))
            },
            WatchEventView::SubscribeFailed => (Some(ThemeUpdateView::Errored), StateView::Error),
            WatchEventView::Closed => (Some(ThemeUpdateView::Errored), StateView::Error),
            WatchEventView::Subscribed(_) => (None, StateView::Waiting(emitted)),
        },
        StateView::Error => (None, StateView::Error),
    }
}

/// What the watcher emits, step by step, on a sequence of events, and the
/// state that it ends in.
pub open spec fn run(state: StateView, events: Seq<WatchEventView>) -> (
    Seq<Option<ThemeUpdateView>>,
    StateView,
)
    decreases events.len(),
{
    if events.len() == 0 {
        (Seq::empty(), state)
    } else {
        let before = run(state, events.drop_last());
        let last = step(before.1, events.last());
        (before.0.push(last.0), last.1)
    }
}

impl ThemeWatcher {
    /// A watcher that has emitted `palette`.
    pub fn new(palette: ColorOverrides) -> (watcher: Self)
        ensures
            watcher@ == palette@,
    {
        ThemeWatcher { prev_palette: palette }
    }

    /// The palette that the watcher emitted last.
    pub fn last_palette(&self) -> (palette: &ColorOverrides)
        ensures
            palette@ == self@,
    {
        &self.prev_palette
    }

    /// Resolves the palette from the policy and from what the look-up of the
    /// policy's active record found. Where the policy selects nothing, or
    /// its record is missing or malformed, the built-in baseline of the
    /// mode takes the place of the active set. In adaptive mode with high
    /// contrast on, the result is the high-contrast variant.
    pub fn palette(config: &Config, record: Lookup<ColorOverrides>) -> (palette: ColorOverrides)
        ensures
            palette@ == config@.palette(
                match config.spec_get_active(record) {
                    Ok(colors) => Some(colors@),
                    Err(_) => None,
                },
            ),
    {
        let colors = match config.get_active(record) {
            Ok(colors) => colors,
            Err(_) => match config {
                Config::DarkLight { is_dark, .. } => if *is_dark {
                    ColorOverrides::dark_default()
                } else {
                    ColorOverrides::light_default()
                },
                Config::Static { .. } => ColorOverrides::dark_default(),
            },
        };
        match config {
            Config::DarkLight { is_high_contrast, .. } => if *is_high_contrast {
                colors.to_high_contrast()
            } else {
                colors
            },
            Config::Static { .. } => colors,
        }
    }

    /// Takes note of a change of kind `kind`, after which the palette
    /// resolves to `current`. Where the kind is relevant and `current`
    /// differs from the palette emitted last, `current` is remembered and
    /// returned for emission. Otherwise nothing changes and nothing is
    /// emitted.
    pub fn palette_change(&mut self, kind: ChangeKind, current: ColorOverrides) -> (changed: Option<
        ColorOverrides,
    >)
        ensures
            (palette_view(changed), final(self)@) == change(old(self)@, kind, current@),
            changed matches Some(palette) ==> palette == current,
    {
        if kind.is_relevant() && !(self.prev_palette == current) {
            self.prev_palette = current.clone();
            Some(current)
        } else {
            None
        }
    }
}

/// One step of the watcher: what it emits on `event` in `state`, and the
/// state that follows.
pub fn load_theme(state: State, event: WatchEvent) -> (next: (Option<ThemeUpdate>, State))
    ensures
        (update_view(next.0), next.1@) == step(state@, event@),
{
    match state {
        State::Ready => match event {
            WatchEvent::Subscribed(palette) => {
                let watcher = ThemeWatcher::new(palette.clone());
                (Some(ThemeUpdate::Palette(palette)), State::Waiting(watcher))
            },
            WatchEvent::SubscribeFailed => (Some(ThemeUpdate::Errored), State::Error),
            _ => (None, State::Ready),
        },
        State::Waiting(mut watcher) => match event {
            WatchEvent::Changed(kind, current) => {
                match watcher.palette_change(kind, current) {
                    Some(palette) => (Some(ThemeUpdate::Palette(palette)), State::Waiting(watcher)),
                    None => (None, State::Waiting(watcher)),
                }
            },
            WatchEvent::ModeChanged(current) => {
                match watcher.palette_change(ChangeKind::Modify, current) {
                    Some(palette) => (Some(ThemeUpdate::Palette(palette)), State::Waiting(watcher)),
                    None => (None, State::Waiting(watcher)),
                }
            },
            WatchEvent::SubscribeFailed => (Some(ThemeUpdate::Errored), State::Error),
            WatchEvent::Closed => (Some(ThemeUpdate::Errored), State::Error),
            WatchEvent::Subscribed(_) => (None, State::Waiting(watcher)),
        },
        State::Error => (None, State::Error),
    }
}

/// A run emits once for each event, and the run of a prefix is the prefix
/// of the run: what is emitted at step `at` is what the step emits in the
/// state that the events before it led to.
pub proof fn lemma_run_step(state: StateView, events: Seq<WatchEventView>, at: int)
    requires
        0 <= at < events.len(),
    ensures
        run(state, events).0.len() == events.len(),
        run(state, events).0[at] == step(run(state, events.take(at)).1, events[at]).0,
        run(state, events.take(at + 1)).1 == step(run(state, events.take(at)).1, events[at]).1,
    decreases events.len(),
{
    let front = events.drop_last();
    lemma_run_len(state, front);
    assert(events.take(at + 1).drop_last() =~= events.take(at));
    if at < events.len() - 1 {
        lemma_run_step(state, front, at);
        assert(front.take(at) =~= events.take(at));
    }
}

/// A run emits once for each event.
proof fn lemma_run_len(state: StateView, events: Seq<WatchEventView>)
    ensures
        run(state, events).0.len() == events.len(),
    decreases events.len(),
{
    if events.len() > 0 {
        lemma_run_len(state, events.drop_last());
    }
}

/// The failed state is never left, and nothing is emitted in it.
pub proof fn lemma_error_is_final(events: Seq<WatchEventView>)
    ensures
        run(StateView::Error, events).1 is Error,
        forall|at: int| 0 <= at < events.len() ==> run(StateView::Error, events).0[at] is None,
    decreases events.len(),
{
    if events.len() > 0 {
        lemma_error_is_final(events.drop_last());
        lemma_run_len(StateView::Error, events.drop_last());
    }
}

/// `Errored` is emitted at most once, and nothing is emitted after it: the
/// step that emits it leads to the failed state.
pub proof fn lemma_errored_once(
    state: StateView,
    events: Seq<WatchEventView>,
    at: int,
    later: int,
)
    requires
        0 <= at < later < events.len(),
        run(state, events).0[at] == Some(ThemeUpdateView::Errored),
    ensures
        run(state, events).0[later] is None,
        run(state, events).1 is Error,
{
    lemma_run_step(state, events, at);
    lemma_failed_stays(state, events, at + 1, later);
    lemma_run_step(state, events, later);
    lemma_failed_stays(state, events, at + 1, events.len() as int);
    assert(events.take(events.len() as int) =~= events);
}

/// Once the events have led to the failed state, every longer prefix of
/// them leads to it too.
proof fn lemma_failed_stays(state: StateView, events: Seq<WatchEventView>, from: int, to: int)
    requires
        0 <= from <= to <= events.len(),
        run(state, events.take(from)).1 is Error,
    ensures
        run(state, events.take(to)).1 is Error,
    decreases to - from,
{
    if from < to {
        lemma_failed_stays(state, events, from, to - 1);
        lemma_run_step(state, events, to - 1);
    }
}

/// Two palettes that are emitted one after the other, with nothing emitted
/// between them, differ: a palette is not emitted twice in a row.
pub proof fn lemma_no_repeat(
    state: StateView,
    events: Seq<WatchEventView>,
    at: int,
    later: int,
    first: ColorOverridesView,
    second: ColorOverridesView,
)
    requires
        0 <= at < later < events.len(),
        run(state, events).0[at] == Some(ThemeUpdateView::Palette(first)),
        run(state, events).0[later] == Some(ThemeUpdateView::Palette(second)),
        forall|between: int| at < between < later ==> run(state, events).0[between] is None,
    ensures
        first != second,
{
    lemma_run_step(state, events, at);
    lemma_silence_keeps(state, events, at + 1, later, first);
    lemma_run_step(state, events, later);
}

/// While nothing is emitted, the watcher goes on waiting with the palette
/// that it emitted last.
proof fn lemma_silence_keeps(
    state: StateView,
    events: Seq<WatchEventView>,
    from: int,
    to: int,
    emitted: ColorOverridesView,
)
    requires
        0 <= from <= to <= events.len(),
        run(state, events.take(from)).1 == StateView::Waiting(emitted),
        forall|between: int| from <= between < to ==> run(state, events).0[between] is None,
    ensures
        run(state, events.take(to)).1 == StateView::Waiting(emitted),
    decreases to - from,
{
    if from < to {
        lemma_silence_keeps(state, events, from, to - 1, emitted);
        lemma_run_step(state, events, to - 1);
    }
}

} // verus!
