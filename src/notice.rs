//! Rendering of change events into the title, body and colour delivered to
//! the chat channel.

use vstd::prelude::*;
use crate::presence::{changes, diff, events_view, label_color, label_text, ChangeEvent, ChangeView, PresenceState};

verus! {

/// Colour of an activity start and of a name change.
pub const GREEN: u32 = 0x32cd32;

/// Colour of an activity stop.
pub const RED: u32 = 0xd92121;

/// A message ready for delivery.
#[derive(Clone, Debug)]
pub struct Notification {
    pub title: String,
    pub body: String,
    pub color: u32,
}

impl View for Notification {
    type V = (Seq<char>, Seq<char>, u32);

    open spec fn view(&self) -> (Seq<char>, Seq<char>, u32) {
        (self.title@, self.body@, self.color)
    }
}

/// The views of a sequence of notifications.
pub open spec fn notifications_view(ns: Seq<Notification>) -> Seq<(Seq<char>, Seq<char>, u32)> {
    ns.map_values(|n: Notification| n@)
}

/// How an event about the identity now called `name` is shown at `time`.
pub open spec fn rendered(name: Seq<char>, event: ChangeView, time: Seq<char>) -> (
    Seq<char>,
    Seq<char>,
    u32,
) {
    match event {
        ChangeView::ActivityStarted(a) => (name + " | "@ + a, "Started Playing\n"@ + time, GREEN),
        ChangeView::ActivityStopped(a) => (name + " | "@ + a, "Stopped Playing\n"@ + time, RED),
        ChangeView::StatusChanged(_, _, l) => (name + " | "@ + label_text(l), time, label_color(l)),
        ChangeView::NameChanged(p, c) => (
            p + " | Name Change"@,
            p + " -> "@ + c + "\n"@ + time,
            GREEN,
        ),
    }
}

/// The notifications for the change from `prev` to `cur`, in event order.
pub open spec fn notices(prev: PresenceState, cur: PresenceState, time: Seq<char>) -> Seq<
    (Seq<char>, Seq<char>, u32),
> {
    changes(prev, cur).map_values(|e: ChangeView| rendered(cur.profile_name@, e, time))
}

/// `a`, then `b`, in a new string.
fn joined(a: &str, b: &str) -> (r: String)
    ensures
        r@ == a@ + b@,
{
    let mut s = String::from_str(a);
    s.append(b);
    s
}

/// Renders one event about the identity now called `name` at `time`.
pub fn render(name: &str, event: &ChangeEvent, time: &str) -> (r: Notification)
    ensures
        r@ == rendered(name@, event@, time@),
{
    match event {
        ChangeEvent::ActivityStarted { label } => {
            let mut title = joined(name, " | ");
            title.append(label.as_str());
            Notification { title, body: joined("Started Playing\n", time), color: GREEN }
        },
        ChangeEvent::ActivityStopped { label } => {
            let mut title = joined(name, " | ");
            title.append(label.as_str());
            Notification { title, body: joined("Stopped Playing\n", time), color: RED }
        },
        ChangeEvent::StatusChanged { label, .. } => {
            let mut title = joined(name, " | ");
            let text = label.text();
            title.append(text.as_str());
            Notification { title, body: String::from_str(time), color: label.color() }
        },
        ChangeEvent::NameChanged { from, to } => {
            let title = joined(from.as_str(), " | Name Change");
            let mut body = joined(from.as_str(), " -> ");
            body.append(to.as_str());
            body.append("\n");
            body.append(time);
            Notification { title, body, color: GREEN }
        },
    }
}

/// The notifications for the change from `prev` to `cur` of one identity,
/// in the order the classifier emits its events.
pub fn notify_changes(prev: &PresenceState, cur: &PresenceState, time: &str) -> (r: Vec<
    Notification,
>)
    ensures
        notifications_view(r@) == notices(*prev, *cur, time@),
{
    let events = diff(prev, cur);
    let mut out: Vec<Notification> = Vec::new();
    let mut i: usize = 0;
    while i < events.len()
        invariant
            i <= events@.len(),
            events_view(events@) == changes(*prev, *cur),
            notifications_view(out@) == notices(*prev, *cur, time@).take(i as int),
        decreases events@.len() - i,
    {
        let n = render(cur.profile_name.as_str(), &events[i], time);
        let ghost before = out@;
        out.push(n);
        proof {
            assert(events_view(events@)[i as int] == events@[i as int]@);
            assert(notices(*prev, *cur, time@).take(i + 1) =~= notices(*prev, *cur, time@).take(
                i as int,
            ).push(n@));
            assert(out@ == before.push(n));
            assert(notifications_view(out@) =~= notifications_view(before).push(n@));
        }
        i = i + 1;
    }
    assert(notices(*prev, *cur, time@).take(events@.len() as int) =~= notices(*prev, *cur, time@));
    out
}

} // verus!
