//! The transient message shown beneath the status bar.
use vstd::prelude::*;

verus! {

/// How long a status message stays visible, in milliseconds.
pub const STATUS_TIMEOUT: u64 = 5000;

/// A status message and the time it was set, in milliseconds on the
/// caller's clock.
pub struct Status {
    message: String,
    time: u64,
}

/// What a status holds.
pub struct StatusView {
    pub message: Seq<char>,
    pub time: nat,
}

/// Whether a message set at `time` is still shown at `now`.
pub open spec fn is_live_at(time: nat, now: nat) -> bool {
    now <= time + STATUS_TIMEOUT
}

impl View for Status {
    type V = StatusView;

    closed spec fn view(&self) -> StatusView {
        StatusView { message: self.message@, time: self.time as nat }
    }
}

impl Status {
    /// A status holding `message`, set at `now`.
    pub fn new(message: String, now: u64) -> (r: Status)
        ensures
            r@ == (StatusView { message: message@, time: now as nat }),
    {
        Status { message, time: now }
    }

    /// The message.
    pub fn message(&self) -> (r: &String)
        ensures
            r@ == self@.message,
    {
        &self.message
    }

    /// The time at which the message was set.
    pub fn time(&self) -> (r: u64)
        ensures
            r as nat == self@.time,
    {
        self.time
    }

    /// Whether the message is still shown at `now`: no more than
    /// `STATUS_TIMEOUT` milliseconds have passed since it was set.
    pub fn is_live(&self, now: u64) -> (r: bool)
        ensures
            r == is_live_at(self@.time, now as nat),
    {
        now <= self.time || now - self.time <= STATUS_TIMEOUT
    }

    /// The message if it is still shown at `now`, else the empty string. The
    /// status itself is left as it is.
    pub fn visible_message(&self, now: u64) -> (r: Vec<char>)
        ensures
            r@ == (if is_live_at(self@.time, now as nat) {
                self@.message
            } else {
                Seq::empty()
            }),
    {
        if self.is_live(now) {
            crate::text::chars_of(self.message.as_str())
        } else {
            Vec::new()
        }
    }
}

impl Default for Status {
    /// An empty message, set at time zero.
    fn default() -> (r: Status)
        ensures
            r@ == (StatusView { message: Seq::empty(), time: 0 }),
    {
        Status::new(String::new(), 0)
    }
}

} // verus!
