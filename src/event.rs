//! Canonical input events and their provenance.
use vstd::prelude::*;
use crate::graphics::{Color, Dim, Pos};

verus! {

/// A key press or release.
#[derive(Clone, Debug, PartialEq, Eq)]
pub struct KeyInfo {
    pub key: String,
    pub alt: bool,
    pub ctrl: bool,
    pub meta: bool,
    pub shift: bool,
}

/// A canonical input event.
#[derive(Clone, Debug, PartialEq, Eq)]
pub enum Event {
    Quit,
    KeyDown(KeyInfo),
    KeyUp(KeyInfo),
    WindowSize(Dim),
    ClipBoard(String),
    MouseDown(Pos),
    Skip,
}

/// Who produced an event, and the colors that their text is shown in.
#[derive(Clone, Debug, PartialEq, Eq)]
pub struct UserInfo {
    pub user_name: String,
    pub text_color: Color,
    pub background: Color,
}

/// An event with its provenance.
#[derive(Clone, Debug, PartialEq, Eq)]
pub struct EventInfo {
    pub user_info: UserInfo,
    pub nonce: Option<u64>,
    pub date_time_local: String,
    pub date_time_utc: String,
    pub event: Event,
}

impl KeyInfo {
    pub fn duplicate(&self) -> (r: Self)
        ensures
            r == *self,
    {
        KeyInfo { key: self.key.clone(), alt: self.alt, ctrl: self.ctrl, meta: self.meta, shift: self.shift }
    }
}

impl Event {
    pub fn duplicate(&self) -> (r: Self)
        ensures
            r == *self,
    {
        match self {
            Event::Quit => Event::Quit,
            Event::KeyDown(k) => Event::KeyDown(k.duplicate()),
            Event::KeyUp(k) => Event::KeyUp(k.duplicate()),
            Event::WindowSize(d) => Event::WindowSize(*d),
            Event::ClipBoard(t) => Event::ClipBoard(t.clone()),
            Event::MouseDown(p) => Event::MouseDown(*p),
            Event::Skip => Event::Skip,
        }
    }
}

impl UserInfo {
    pub fn duplicate(&self) -> (r: Self)
        ensures
            r == *self,
    {
        UserInfo { user_name: self.user_name.clone(), text_color: self.text_color, background: self.background }
    }
}

impl EventInfo {
    pub fn duplicate(&self) -> (r: Self)
        ensures
            r == *self,
    {
        EventInfo {
            user_info: self.user_info.duplicate(),
            nonce: self.nonce,
            date_time_local: self.date_time_local.clone(),
            date_time_utc: self.date_time_utc.clone(),
            event: self.event.duplicate(),
        }
    }
}

/// An element-for-element copy of a batch of events.
pub fn copy_events(events: &Vec<EventInfo>) -> (r: Vec<EventInfo>)
    ensures
        r@ == events@,
{
    let mut r: Vec<EventInfo> = Vec::new();
    let mut i: usize = 0;
    while i < events.len()
        invariant
            i <= events.len(),
            r@ == events@.subrange(0, i as int),
        decreases events.len() - i,
    {
        r.push(events[i].duplicate());
        i += 1;
        assert(r@ =~= events@.subrange(0, i as int));
    }
    assert(r@ =~= events@);
    r
}

/// The user information that events carry: the user's name and color, on black.
pub fn event_user(user_name: &String, color: &Color) -> (r: UserInfo)
    ensures
        r.user_name == *user_name,
        r.text_color == *color,
        r.background == (Color { r: 0, g: 0, b: 0 }),
{
    UserInfo { user_name: user_name.clone(), text_color: *color, background: Color { r: 0, g: 0, b: 0 } }
}

/// `event` stamped with its user and its local and universal times; it
/// carries no nonce.
pub fn make_event_info(user: &UserInfo, event: Event, local: String, utc: String) -> (r: EventInfo)
    ensures
        r == (EventInfo {
            user_info: *user,
            nonce: None,
            date_time_local: local,
            date_time_utc: utc,
            event,
        }),
{
    EventInfo { user_info: user.duplicate(), nonce: None, date_time_local: local, date_time_utc: utc, event }
}

/// Relies on chrono's `Local::now` and `DateTime::to_rfc3339`: the local time
/// now, as RFC 3339 text. Nothing is promised of a clock reading.
#[verifier::external_body]
fn local_now_rfc3339() -> String {
    chrono::Local::now().to_rfc3339()
}

/// Relies on chrono's `Utc::now` and `DateTime::to_rfc3339`: the universal
/// time now, as RFC 3339 text. Nothing is promised of a clock reading.
#[verifier::external_body]
fn utc_now_rfc3339() -> String {
    chrono::Utc::now().to_rfc3339()
}

/// `event` from `user`, stamped with the local and universal times now.
pub fn stamp_event(user: &UserInfo, event: Event) -> (r: EventInfo)
    ensures
        r.user_info == *user,
        r.event == event,
        r.nonce is None,
{
    let local = local_now_rfc3339();
    let utc = utc_now_rfc3339();
    make_event_info(user, event, local, utc)
}

/// A stamped event that asks nothing of the service; it opens each pipeline.
pub fn skip_event(user: &UserInfo) -> (r: EventInfo)
    ensures
        r.user_info == *user,
        r.event == Event::Skip,
        r.nonce is None,
{
    stamp_event(user, Event::Skip)
}

} // verus!
