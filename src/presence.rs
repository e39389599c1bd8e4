//! Presence states of tracked identities and the classifier that turns two
//! successive states into change events.

use vstd::prelude::*;

verus! {

/// Presence level reported for an identity.
#[derive(Clone, Copy, Debug, PartialEq, Eq, Structural)]
pub enum PresenceStatus {
    Offline,
    Online,
    Busy,
    Away,
    Snoozed,
    LookingToTrade,
    LookingToPlay,
}

/// What one identity looked like at one sampling instant.
#[derive(Clone, Debug)]
pub struct PresenceState {
    pub profile_name: String,
    /// What the identity is doing; absent (or empty) means idle.
    pub activity: Option<String>,
    pub status: PresenceStatus,
}

/// Display label chosen for a status transition.
#[derive(Clone, Copy, Debug, PartialEq, Eq, Structural)]
pub enum StatusLabel {
    Offline,
    Online,
    Back,
    Busy,
    Away,
    Snooze,
    /// No rule applied: the label is the name of the new status.
    Other(PresenceStatus),
}

/// One change detected between two states of the same identity.
#[derive(Clone, Debug)]
#[allow(inconsistent_fields)]
pub enum ChangeEvent {
    ActivityStarted { label: String },
    ActivityStopped { label: String },
    StatusChanged { from: PresenceStatus, to: PresenceStatus, label: StatusLabel },
    NameChanged { from: String, to: String },
}

/// Mathematical form of a [`ChangeEvent`], with texts as character sequences.
pub enum ChangeView {
    ActivityStarted(Seq<char>),
    ActivityStopped(Seq<char>),
    StatusChanged(PresenceStatus, PresenceStatus, StatusLabel),
    NameChanged(Seq<char>, Seq<char>),
}

impl View for ChangeEvent {
    type V = ChangeView;

    open spec fn view(&self) -> ChangeView {
        match self {
            ChangeEvent::ActivityStarted { label } => ChangeView::ActivityStarted(label@),
            ChangeEvent::ActivityStopped { label } => ChangeView::ActivityStopped(label@),
            ChangeEvent::StatusChanged { from, to, label } => ChangeView::StatusChanged(
                *from,
                *to,
                *label,
            ),
            ChangeEvent::NameChanged { from, to } => ChangeView::NameChanged(from@, to@),
        }
    }
}

/// The views of a sequence of events.
pub open spec fn events_view(events: Seq<ChangeEvent>) -> Seq<ChangeView> {
    events.map_values(|e: ChangeEvent| e@)
}

/// The activity as text, with an absent activity read as the empty text.
pub open spec fn activity_text(activity: Option<String>) -> Seq<char> {
    match activity {
        Some(a) => a@,
        None => Seq::empty(),
    }
}

/// The name under which a status is shown when no rule labels it.
pub open spec fn status_name(s: PresenceStatus) -> Seq<char> {
    match s {
        PresenceStatus::Offline => "Offline"@,
        PresenceStatus::Online => "Online"@,
        PresenceStatus::Busy => "Busy"@,
        PresenceStatus::Away => "Away"@,
        PresenceStatus::Snoozed => "Snoozed"@,
        PresenceStatus::LookingToTrade => "LookingToTrade"@,
        PresenceStatus::LookingToPlay => "LookingToPlay"@,
    }
}

/// The label of a transition from `from` to `to`.
pub open spec fn label_of(from: PresenceStatus, to: PresenceStatus) -> StatusLabel {
    match to {
        PresenceStatus::Offline => if from == PresenceStatus::Online {
            StatusLabel::Offline
        } else {
            StatusLabel::Other(to)
        },
        PresenceStatus::Online => if from == PresenceStatus::Offline {
            StatusLabel::Back
        } else {
            StatusLabel::Online
        },
        PresenceStatus::Busy => StatusLabel::Busy,
        PresenceStatus::Away => StatusLabel::Away,
        PresenceStatus::Snoozed => StatusLabel::Snooze,
        _ => StatusLabel::Other(to),
    }
}

/// The text shown for a label.
pub open spec fn label_text(label: StatusLabel) -> Seq<char> {
    match label {
        StatusLabel::Offline => "Offline"@,
        StatusLabel::Online => "Online"@,
        StatusLabel::Back => "Back"@,
        StatusLabel::Busy => "Busy"@,
        StatusLabel::Away => "Away"@,
        StatusLabel::Snooze => "Snooze"@,
        StatusLabel::Other(s) => status_name(s),
    }
}

/// The colour shown with a label.
pub open spec fn label_color(label: StatusLabel) -> u32 {
    match label {
        StatusLabel::Offline => 0x656566,
        StatusLabel::Online | StatusLabel::Back => 0x6ecff6,
        StatusLabel::Busy => 0xff9900,
        StatusLabel::Away => 0xfff200,
        StatusLabel::Snooze => 0xfa983a,
        StatusLabel::Other(_) => 0xffffff,
    }
}

/// Events of the activity rule.
pub open spec fn activity_change(prev: PresenceState, cur: PresenceState) -> Seq<ChangeView> {
    let p = activity_text(prev.activity);
    let c = activity_text(cur.activity);
    if p == c {
        Seq::empty()
    } else if c.len() == 0 {
        seq![ChangeView::ActivityStopped(p)]
    } else {
        seq![ChangeView::ActivityStarted(c)]
    }
}

/// Events of the status rule.
pub open spec fn status_change(prev: PresenceState, cur: PresenceState) -> Seq<ChangeView> {
    if prev.status == cur.status {
        Seq::empty()
    } else {
        seq![ChangeView::StatusChanged(prev.status, cur.status, label_of(prev.status, cur.status))]
    }
}

/// Events of the name rule.
pub open spec fn name_change(prev: PresenceState, cur: PresenceState) -> Seq<ChangeView> {
    if prev.profile_name@ == cur.profile_name@ {
        Seq::empty()
    } else {
        seq![ChangeView::NameChanged(prev.profile_name@, cur.profile_name@)]
    }
}

/// All events between two states of one identity: activity, then status,
/// then name.
pub open spec fn changes(prev: PresenceState, cur: PresenceState) -> Seq<ChangeView> {
    activity_change(prev, cur) + status_change(prev, cur) + name_change(prev, cur)
}

/// A state compared with itself yields no event.
pub proof fn lemma_unchanged_state_is_silent(s: PresenceState)
    ensures
        changes(s, s) == Seq::<ChangeView>::empty(),
{
    assert(changes(s, s) =~= Seq::<ChangeView>::empty());
}

/// When only the activity changes, from idle to a non-empty activity `a`,
/// exactly one start of `a` is reported; the reverse change reports exactly
/// one stop of `a`.
pub proof fn lemma_activity_start_stop(idle: PresenceState, busy: PresenceState)
    requires
        idle.activity is None,
        busy.activity is Some,
        busy.activity->0@.len() > 0,
        idle.profile_name@ == busy.profile_name@,
        idle.status == busy.status,
    ensures
        changes(idle, busy) == seq![ChangeView::ActivityStarted(busy.activity->0@)],
        changes(busy, idle) == seq![ChangeView::ActivityStopped(busy.activity->0@)],
{
    assert(activity_text(idle.activity) =~= Seq::<char>::empty());
    assert(changes(idle, busy) =~= seq![ChangeView::ActivityStarted(busy.activity->0@)]);
    assert(changes(busy, idle) =~= seq![ChangeView::ActivityStopped(busy.activity->0@)]);
}

/// A change of activity and a change of name in the same cycle are both
/// reported: the activity event first, then the status event if the status
/// changed too, and the name event last.
pub proof fn lemma_activity_and_name_both_reported(prev: PresenceState, cur: PresenceState)
    requires
        activity_text(prev.activity) != activity_text(cur.activity),
        prev.profile_name@ != cur.profile_name@,
    ensures
        changes(prev, cur).len() == if prev.status == cur.status { 2int } else { 3int },
        changes(prev, cur)[0] == (if activity_text(cur.activity).len() == 0 {
            ChangeView::ActivityStopped(activity_text(prev.activity))
        } else {
            ChangeView::ActivityStarted(activity_text(cur.activity))
        }),
        prev.status != cur.status ==> changes(prev, cur)[1] == ChangeView::StatusChanged(
            prev.status,
            cur.status,
            label_of(prev.status, cur.status),
        ),
        changes(prev, cur).last() == ChangeView::NameChanged(
            prev.profile_name@,
            cur.profile_name@,
        ),
{
}

impl PresenceState {
    /// A copy of this state.
    pub fn duplicate(&self) -> (r: PresenceState)
        ensures
            r == *self,
    {
        let activity = match &self.activity {
            Some(a) => Some(a.clone()),
            None => None,
        };
        PresenceState { profile_name: self.profile_name.clone(), activity, status: self.status }
    }
}

impl StatusLabel {
    /// The text shown for this label.
    pub fn text(&self) -> (r: String)
        ensures
            r@ == label_text(*self),
    {
        match self {
            StatusLabel::Offline => String::from_str("Offline"),
            StatusLabel::Online => String::from_str("Online"),
            StatusLabel::Back => String::from_str("Back"),
            StatusLabel::Busy => String::from_str("Busy"),
            StatusLabel::Away => String::from_str("Away"),
            StatusLabel::Snooze => String::from_str("Snooze"),
            StatusLabel::Other(s) => s.name(),
        }
    }

    /// The colour shown with this label.
    pub fn color(&self) -> (r: u32)
        ensures
            r == label_color(*self),
    {
        match self {
            StatusLabel::Offline => 0x656566,
            StatusLabel::Online | StatusLabel::Back => 0x6ecff6,
            StatusLabel::Busy => 0xff9900,
            StatusLabel::Away => 0xfff200,
            StatusLabel::Snooze => 0xfa983a,
            StatusLabel::Other(_) => 0xffffff,
        }
    }
}

impl PresenceStatus {
    /// The name of this status.
    pub fn name(&self) -> (r: String)
        ensures
            r@ == status_name(*self),
    {
        match self {
            PresenceStatus::Offline => String::from_str("Offline"),
            PresenceStatus::Online => String::from_str("Online"),
            PresenceStatus::Busy => String::from_str("Busy"),
            PresenceStatus::Away => String::from_str("Away"),
            PresenceStatus::Snoozed => String::from_str("Snoozed"),
            PresenceStatus::LookingToTrade => String::from_str("LookingToTrade"),
            PresenceStatus::LookingToPlay => String::from_str("LookingToPlay"),
        }
    }
}

/// Labels a status transition. The rules are tried in order and a later
/// rule that applies overrides the label chosen by an earlier one; when none
/// applies the label is the name of the new status.
pub fn status_label(from: PresenceStatus, to: PresenceStatus) -> (r: StatusLabel)
    ensures
        r == label_of(from, to),
{
    let mut label: Option<StatusLabel> = None;
    if from == PresenceStatus::Online && to == PresenceStatus::Offline {
        label = Some(StatusLabel::Offline);
    }
    if to == PresenceStatus::Online {
        label = Some(
            if from == PresenceStatus::Offline {
                StatusLabel::Back
            } else {
                StatusLabel::Online
            },
        );
    }
    if to == PresenceStatus::Busy {
        label = Some(StatusLabel::Busy);
    }
    if to == PresenceStatus::Away {
        label = Some(StatusLabel::Away);
    }
    if to == PresenceStatus::Snoozed {
        label = Some(StatusLabel::Snooze);
    }
    match label {
        Some(l) => l,
        None => StatusLabel::Other(to),
    }
}

/// The activity as text, an absent activity giving the empty text.
fn activity_string(activity: &Option<String>) -> (r: String)
    ensures
        r@ == activity_text(*activity),
{
    match activity {
        Some(a) => a.clone(),
        None => String::new(),
    }
}

/// Classifies the change from `prev` to `cur` of one identity: an activity
/// event, then a status event, then a name event, each only where that part
/// of the state changed.
pub fn diff(prev: &PresenceState, cur: &PresenceState) -> (r: Vec<ChangeEvent>)
    ensures
        events_view(r@) == changes(*prev, *cur),
{
    let mut events: Vec<ChangeEvent> = Vec::new();
    let p = activity_string(&prev.activity);
    let c = activity_string(&cur.activity);
    if p != c {
        if c.as_str().is_empty() {
            events.push(ChangeEvent::ActivityStopped { label: p });
        } else {
            events.push(ChangeEvent::ActivityStarted { label: c });
        }
    }
    assert(events_view(events@) == activity_change(*prev, *cur));
    if prev.status != cur.status {
        let label = status_label(prev.status, cur.status);
        events.push(ChangeEvent::StatusChanged { from: prev.status, to: cur.status, label });
    }
    assert(events_view(events@) == activity_change(*prev, *cur) + status_change(*prev, *cur));
    if prev.profile_name != cur.profile_name {
        events.push(
            ChangeEvent::NameChanged {
                from: prev.profile_name.clone(),
                to: cur.profile_name.clone(),
            },
        );
    }
    assert(events_view(events@) == changes(*prev, *cur));
    events
}

} // verus!
