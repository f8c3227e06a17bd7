//! The decisions of the watch loop, one event at a time. The caller performs
//! each action (fetch, notify, sleep) and reports what came of it as the next
//! event; this module decides what follows and keeps the baseline.
use vstd::prelude::*;

use crate::display::strip_marker;
use crate::state::{
    fetched_reference, is_change, next_baseline, notice_text, ChangeEvent, FetchError,
    NotifyError, Notification, ObservedProfile, WatchState,
};

verus! {

/// Seconds between two cycles unless configured otherwise.
pub const DEFAULT_INTERVAL_SECS: u64 = 60;

/// What the caller reports back after performing an action.
pub enum Event {
    /// A fetch completed, with the profile or the reason it failed.
    Fetched(Result<ObservedProfile, FetchError>),
    /// A notification attempt completed, delivered or not.
    Notified(Result<(), NotifyError>),
    /// The interval sleep is over.
    Woke,
}

/// What the caller is to do next.
pub enum Action {
    /// Fetch the profile of this subject.
    Fetch { subject_id: String },
    /// Deliver this notification, which announces this change.
    Notify { change: ChangeEvent, notification: Notification },
    /// Sleep this many seconds.
    Sleep { seconds: u64 },
}

/// An event as the decisions see it.
pub enum EventModel {
    Fetched(Option<Seq<char>>),
    Notified(bool),
    Woke,
}

/// An action as the decisions see it.
pub enum Directive {
    Fetch(Seq<char>),
    /// The old and the new reference, the message and the image link.
    Notify(Seq<char>, Seq<char>, Seq<char>, Seq<char>),
    Sleep(u64),
}

impl View for Event {
    type V = EventModel;

    open spec fn view(&self) -> EventModel {
        match self {
            Event::Fetched(r) => EventModel::Fetched(fetched_reference(*r)),
            Event::Notified(r) => EventModel::Notified(r is Ok),
            Event::Woke => EventModel::Woke,
        }
    }
}

impl View for Action {
    type V = Directive;

    open spec fn view(&self) -> Directive {
        match self {
            Action::Fetch { subject_id } => Directive::Fetch(subject_id@),
            Action::Notify { change, notification } => Directive::Notify(
                change.old_reference@,
                change.new_reference@,
                notification.message@,
                notification.image_link@,
            ),
            Action::Sleep { seconds } => Directive::Sleep(*seconds),
        }
    }
}

/// The next baseline and the next action, given the configuration, the
/// current baseline and the event. A fetch that reveals a change asks for a
/// notification of the display form of the new reference, naming both
/// references; any other fetch
/// outcome, and any notification outcome, asks for the interval sleep; the
/// end of a sleep asks for the next fetch. Only a successful fetch moves the
/// baseline.
pub open spec fn decide(subject: Seq<char>, interval: u64, last: Option<Seq<char>>, e: EventModel) -> (
    Option<Seq<char>>,
    Directive,
) {
    match e {
        EventModel::Fetched(f) => (
            next_baseline(last, f),
            if is_change(last, f) {
                Directive::Notify(
                    last.unwrap(),
                    f.unwrap(),
                    notice_text(),
                    strip_marker(f.unwrap()),
                )
            } else {
                Directive::Sleep(interval)
            },
        ),
        EventModel::Notified(_) => (last, Directive::Sleep(interval)),
        EventModel::Woke => (last, Directive::Fetch(subject)),
    }
}

/// The watch loop's configuration and state.
pub struct Watcher {
    pub subject_id: String,
    pub interval_secs: u64,
    pub state: WatchState,
}

impl Watcher {
    /// A watcher of `subject_id` with no baseline yet.
    pub fn new(subject_id: String, interval_secs: u64) -> (r: Watcher)
        ensures
            r.subject_id@ == subject_id@,
            r.interval_secs == interval_secs,
            r.state@ is None,
    {
        Watcher { subject_id, interval_secs, state: WatchState::new() }
    }

    /// A watcher of `subject_id` that sleeps the default interval.
    pub fn with_default_interval(subject_id: String) -> (r: Watcher)
        ensures
            r.subject_id@ == subject_id@,
            r.interval_secs == DEFAULT_INTERVAL_SECS,
            r.state@ is None,
    {
        Watcher::new(subject_id, DEFAULT_INTERVAL_SECS)
    }

    /// The action that opens the first cycle: a fetch.
    pub fn start(&self) -> (r: Action)
        ensures
            r@ == Directive::Fetch(self.subject_id@),
    {
        Action::Fetch { subject_id: self.subject_id.clone() }
    }

    /// Takes in one event and returns the action that follows, as `decide`
    /// states; the configuration is never changed.
    pub fn step(&mut self, event: &Event) -> (r: Action)
        ensures
            final(self).subject_id@ == old(self).subject_id@,
            final(self).interval_secs == old(self).interval_secs,
            (final(self).state@, r@) == decide(
                old(self).subject_id@,
                old(self).interval_secs,
                old(self).state@,
                event@,
            ),
    {
        match event {
            Event::Fetched(fetched) => {
                match self.state.observe(fetched) {
                    Some(change) => {
                        let notification = change.notification();
                        Action::Notify { change, notification }
                    },
                    None => Action::Sleep { seconds: self.interval_secs },
                }
            },
            Event::Notified(_) => Action::Sleep { seconds: self.interval_secs },
            Event::Woke => Action::Fetch { subject_id: self.subject_id.clone() },
        }
    }
}

} // verus!
