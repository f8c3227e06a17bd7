//! Properties of the watch loop's decisions, proved over `decide`.
use vstd::prelude::*;

use crate::display::strip_marker;
use crate::state::notice_text;
use crate::watcher::{decide, Directive, EventModel};

verus! {

/// The first fetch never notifies, whatever it returned; a successful one
/// becomes the baseline.
pub proof fn lemma_first_fetch_never_notifies(subject: Seq<char>, interval: u64, fetched: Option<Seq<char>>)
    ensures
        decide(subject, interval, None, EventModel::Fetched(fetched)) == (
            fetched,
            Directive::Sleep(interval),
        ),
{
}

/// A fetch that returns `b` over a baseline `a != b` asks for exactly one
/// notification, and `b` becomes the baseline.
pub proof fn lemma_change_notifies_once(subject: Seq<char>, interval: u64, a: Seq<char>, b: Seq<char>)
    requires
        a != b,
    ensures
        decide(subject, interval, Some(a), EventModel::Fetched(Some(b))) == (
            Some(b),
            Directive::Notify(a, b, notice_text(), strip_marker(b)),
        ),
{
}

/// A fetch that returns the baseline again asks for no notification.
pub proof fn lemma_same_reference_is_quiet(subject: Seq<char>, interval: u64, a: Seq<char>)
    ensures
        decide(subject, interval, Some(a), EventModel::Fetched(Some(a))) == (
            Some(a),
            Directive::Sleep(interval),
        ),
{
}

/// A failed fetch leaves the baseline exactly as it was and asks for no
/// notification.
pub proof fn lemma_failed_fetch_keeps_state(subject: Seq<char>, interval: u64, last: Option<Seq<char>>)
    ensures
        decide(subject, interval, last, EventModel::Fetched(None)) == (
            last,
            Directive::Sleep(interval),
        ),
{
}

/// After a change from `a` to `b` whose notification failed, the baseline is
/// `b`; the next cycle, which sees `b` again, notifies nothing.
pub proof fn lemma_failed_notify_still_advances(subject: Seq<char>, interval: u64, a: Seq<char>, b: Seq<char>)
    requires
        a != b,
    ensures
        ({
            let (l1, d1) = decide(subject, interval, Some(a), EventModel::Fetched(Some(b)));
            let (l2, d2) = decide(subject, interval, l1, EventModel::Notified(false));
            let (l3, d3) = decide(subject, interval, l2, EventModel::Woke);
            let (l4, d4) = decide(subject, interval, l3, EventModel::Fetched(Some(b)));
            &&& d1 is Notify
            &&& l2 == Some(b)
            &&& d2 == Directive::Sleep(interval)
            &&& d3 == Directive::Fetch(subject)
            &&& l4 == Some(b)
            &&& d4 == Directive::Sleep(interval)
        }),
{
}

/// On a change, the link handed to the notifier is the display form of the
/// fetched reference, while the baseline keeps the reference unmodified.
pub proof fn lemma_display_form_only_in_notice(
    subject: Seq<char>,
    interval: u64,
    last: Option<Seq<char>>,
    fetched: Seq<char>,
)
    requires
        last is Some,
        last.unwrap() != fetched,
    ensures
        decide(subject, interval, last, EventModel::Fetched(Some(fetched))).0 == Some(fetched),
        decide(subject, interval, last, EventModel::Fetched(Some(fetched))).1 == Directive::Notify(
            last.unwrap(),
            fetched,
            notice_text(),
            strip_marker(fetched),
        ),
{
}

} // verus!
