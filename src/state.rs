//! The value the watch loop keeps between cycles, and the comparison that
//! turns a fetched profile into a change event.
use vstd::prelude::*;

use crate::display::{display_reference, strip_marker};

verus! {

/// A snapshot of the subject's profile, as the fetcher returned it.
pub struct ObservedProfile {
    /// Locator of the subject's current image asset.
    pub image_reference: String,
}

impl ObservedProfile {
    pub fn new(image_reference: String) -> (r: ObservedProfile)
        ensures
            r.image_reference@ == image_reference@,
    {
        ObservedProfile { image_reference }
    }
}

/// Why a fetch of the profile failed, in words fit for the log.
pub struct FetchError {
    pub detail: String,
}

/// Why the delivery of a notification failed, in words fit for the log.
pub struct NotifyError {
    pub detail: String,
}

/// The image reference that a fetch outcome carries, if it succeeded.
pub open spec fn fetched_reference(fetched: Result<ObservedProfile, FetchError>) -> Option<
    Seq<char>,
> {
    match fetched {
        Ok(p) => Some(p.image_reference@),
        Err(_) => None,
    }
}

/// The baseline after a fetch outcome: a success replaces it, a failure
/// leaves it as it was.
pub open spec fn next_baseline(last: Option<Seq<char>>, fetched: Option<Seq<char>>) -> Option<
    Seq<char>,
> {
    match fetched {
        Some(r) => Some(r),
        None => last,
    }
}

/// Whether a fetch outcome is a change: it succeeded, a baseline exists,
/// and the two references differ.
pub open spec fn is_change(last: Option<Seq<char>>, fetched: Option<Seq<char>>) -> bool {
    &&& last is Some
    &&& fetched is Some
    &&& last.unwrap() != fetched.unwrap()
}

/// The text that every notification carries.
pub open spec fn notice_text() -> Seq<char> {
    "The icon URL has been updated."@
}

/// The previous and the new image reference of a detected change.
pub struct ChangeEvent {
    pub old_reference: String,
    pub new_reference: String,
}

/// What is handed to the notifier: a fixed message and an image link.
pub struct Notification {
    pub message: String,
    pub image_link: String,
}

impl ChangeEvent {
    /// The notification that announces this change: the fixed message, and
    /// the display form of the new reference.
    pub fn notification(&self) -> (r: Notification)
        ensures
            r.message@ == notice_text(),
            r.image_link@ == strip_marker(self.new_reference@),
    {
        Notification {
            message: String::from_str("The icon URL has been updated."),
            image_link: display_reference(self.new_reference.as_str()),
        }
    }
}

/// The loop's only persistent value: the last image reference that a
/// successful fetch returned, unset until the first success.
pub struct WatchState {
    pub last_image_reference: Option<String>,
}

impl View for WatchState {
    type V = Option<Seq<char>>;

    open spec fn view(&self) -> Option<Seq<char>> {
        match self.last_image_reference {
            Some(s) => Some(s@),
            None => None,
        }
    }
}

impl WatchState {
    /// A state with no baseline.
    pub fn new() -> (r: WatchState)
        ensures
            r@ is None,
    {
        WatchState { last_image_reference: None }
    }

    /// The last successfully fetched image reference, if any.
    pub fn last_image_reference(&self) -> (r: Option<String>)
        ensures
            r is Some <==> self@ is Some,
            r is Some ==> r.unwrap()@ == self@.unwrap(),
    {
        match &self.last_image_reference {
            Some(s) => Some(s.clone()),
            None => None,
        }
    }

    /// Takes in the outcome of one fetch. A success becomes the new baseline;
    /// a failure leaves the state untouched. A change event comes back exactly
    /// when the fetch succeeded, a baseline existed, and the references differ.
    pub fn observe(&mut self, fetched: &Result<ObservedProfile, FetchError>) -> (r: Option<
        ChangeEvent,
    >)
        ensures
            final(self)@ == next_baseline(old(self)@, fetched_reference(*fetched)),
            r is Some <==> is_change(old(self)@, fetched_reference(*fetched)),
            r is Some ==> r.unwrap().old_reference@ == old(self)@.unwrap(),
            r is Some ==> r.unwrap().new_reference@ == fetched_reference(*fetched).unwrap(),
    {
        match fetched {
            Err(_) => None,
            Ok(profile) => {
                let current = profile.image_reference.clone();
                let event = match &self.last_image_reference {
                    Some(last) => {
                        if *last != current {
                            Some(ChangeEvent { old_reference: last.clone(), new_reference: current.clone() })
                        } else {
                            None
                        }
                    },
                    None => None,
                };
                self.last_image_reference = Some(current);
                event
            },
        }
    }
}

} // verus!
