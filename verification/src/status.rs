use vstd::prelude::*;
use std::time::{Duration, Instant};
use crate::text::{byte_len, cuts_cleanly, lemma_take_bytes_bounded, take_bytes, take_bytes_of};

verus! {

#[verifier::external_type_specification]
#[verifier::external_body]
pub struct ExInstant(Instant);

/// `Instant::now`: the current moment. Nothing is stated of it: it is read
/// from the clock.
#[verifier::external_body]
fn now() -> Instant {
    Instant::now()
}

/// `Instant::elapsed`: how long ago `t` was. Nothing is stated of it: it is
/// read from the clock.
#[verifier::external_body]
fn elapsed(t: &Instant) -> Duration {
    t.elapsed()
}

/// `Duration::as_secs`: the whole seconds of a duration. Nothing is stated
/// of it: a `Duration` is opaque here, and the only one that reaches it is
/// read from the clock.
#[verifier::external_body]
fn whole_seconds(d: &Duration) -> u64 {
    d.as_secs()
}

/// How many whole seconds a status message stays on screen.
pub const MESSAGE_SECONDS: u64 = 5;

/// A message for the bar at the bottom of the screen, with the moment it was
/// set.
pub struct StatusMessage {
    text: String,
    time: Instant,
}

impl StatusMessage {
    /// The message's text.
    pub closed spec fn view_text(&self) -> Seq<char> {
        self.text@
    }

    /// The moment the message was set.
    pub closed spec fn moment(&self) -> Instant {
        self.time
    }

    /// A message set now.
    pub fn from(message: String) -> (res: Self)
        ensures
            res.view_text() == message@,
    {
        StatusMessage { time: now(), text: message }
    }

    /// The message's text.
    pub fn text(&self) -> (res: &str)
        ensures
            res@ == self.view_text(),
    {
        self.text.as_str()
    }

    /// What the message bar shows, if anything: the text, cut after `width`
    /// bytes, for as long as the message is fresh.
    pub fn bar_text(&self, width: usize) -> (res: Option<String>)
        requires
            cuts_cleanly(self.view_text(), width as nat),
        ensures
            res is Some ==> res->0@ == take_bytes(self.view_text(), width as nat),
    {
        let age = whole_seconds(&elapsed(&self.time));
        message_bar_text(self.text.as_str(), age, width)
    }
}

/// What the message bar shows of a message set `age` whole seconds ago on a
/// terminal `width` bytes wide: the text cut after `width` bytes while the
/// message is younger than five seconds, and nothing afterwards.
pub fn message_bar_text(text: &str, age: u64, width: usize) -> (res: Option<String>)
    requires
        age < MESSAGE_SECONDS ==> cuts_cleanly(text@, width as nat),
    ensures
        (res is Some) <==> age < MESSAGE_SECONDS,
        res is Some ==> res->0@ == take_bytes(text@, width as nat),
        res is Some ==> byte_len(res->0@) <= width,
{
    proof {
        lemma_take_bytes_bounded(text@, width as nat);
    }
    if age < MESSAGE_SECONDS {
        Some(take_bytes_of(text, width))
    } else {
        None
    }
}

} // verus!
