//! Key repeat: telling the first press of a key from its repetitions.
//!
//! A chunk of input repeats the one before it if it has the same bytes and
//! comes before the repeat threshold has passed. Time is a number of
//! milliseconds that the caller reads from its clock.
use vstd::prelude::*;

use crate::shell::device::control::Control;
use crate::shell::device::control_view;

verus! {

/// The keystroke that is followed: its bytes, when it last came, and how
/// often it has repeated since its first press.
#[verifier::ext_equal]
pub struct HeldView {
    pub control: Seq<u8>,
    pub since: nat,
    pub count: nat,
}

/// What the repeat tracking knows: the threshold, and the keystroke that is
/// followed, once there was one.
#[verifier::ext_equal]
pub struct RepeatView {
    pub threshold: nat,
    pub held: Option<HeldView>,
}

/// The time that has passed from `since` to `now`; none, where the clock
/// does not show `now` after `since`.
pub open spec fn elapsed(since: nat, now: nat) -> nat {
    if now >= since {
        (now - since) as nat
    } else {
        0
    }
}

impl RepeatView {
    /// The tracking that has seen no keystroke yet.
    pub open spec fn fresh(threshold: nat) -> RepeatView {
        RepeatView { threshold, held: None }
    }

    /// Whether `control`, coming at `now`, repeats the keystroke that is
    /// followed: the same bytes, before the threshold has passed.
    pub open spec fn repeats(self, control: Seq<u8>, now: nat) -> bool {
        self.held matches Some(held) && held.control == control && elapsed(held.since, now)
            < self.threshold
    }

    /// The repeat count, once a keystroke is followed.
    pub open spec fn count(self) -> Option<nat> {
        match self.held {
            Some(held) => Some(held.count),
            None => None,
        }
    }

    /// The tracking after one tick that brought `input` at `now`. Without
    /// input nothing changes. A repetition counts one more and renews the
    /// time; any other keystroke is a first press, with a count of zero.
    pub open spec fn step(self, input: Option<Seq<u8>>, now: nat) -> RepeatView {
        match input {
            None => self,
            Some(control) => RepeatView {
                threshold: self.threshold,
                held: Some(
                    HeldView {
                        control,
                        since: now,
                        count: if self.repeats(control, now) {
                            self.held.unwrap().count + 1
                        } else {
                            0
                        },
                    },
                ),
            },
        }
    }

    /// Whether the count that `step` gives for `input` at `now` still fits
    /// the machine's `usize`.
    pub open spec fn fits(self, input: Option<Seq<u8>>, now: nat) -> bool {
        input matches Some(control) && self.repeats(control, now) ==> self.held.unwrap().count
            < usize::MAX
    }
}

/// The keystroke that is followed.
#[derive(Clone, Copy, Debug)]
struct Held {
    control: Control,
    since: u64,
    count: usize,
}

/// The repeat tracking of one session.
#[derive(Clone, Copy, Debug)]
pub struct KeyRepeat {
    threshold: u64,
    held: Option<Held>,
}

impl View for KeyRepeat {
    type V = RepeatView;

    closed spec fn view(&self) -> RepeatView {
        RepeatView {
            threshold: self.threshold as nat,
            held: match self.held {
                Some(held) => Some(
                    HeldView {
                        control: held.control@,
                        since: held.since as nat,
                        count: held.count as nat,
                    },
                ),
                None => None,
            },
        }
    }
}

impl KeyRepeat {
    /// The tracking that has seen no keystroke yet.
    pub fn new(threshold: u64) -> (repeat: KeyRepeat)
        ensures
            repeat@ == RepeatView::fresh(threshold as nat),
    {
        KeyRepeat { threshold, held: None }
    }

    /// The repeat threshold, in milliseconds.
    pub fn threshold(&self) -> (threshold: u64)
        ensures
            threshold == self@.threshold,
    {
        self.threshold
    }

    /// The repeat count, once a keystroke is followed.
    pub fn count(&self) -> (count: Option<usize>)
        ensures
            match count {
                Some(n) => self@.count() == Some(n as nat),
                None => self@.count() is None,
            },
    {
        match self.held {
            Some(held) => Some(held.count),
            None => None,
        }
    }

    /// The keystroke that is followed.
    pub fn control(&self) -> (control: Option<Control>)
        ensures
            match control {
                Some(chunk) => self@.held is Some && self@.held.unwrap().control == chunk@,
                None => self@.held is None,
            },
    {
        match self.held {
            Some(held) => Some(held.control),
            None => None,
        }
    }

    /// The time at which the keystroke that is followed last came.
    pub fn since(&self) -> (since: Option<u64>)
        ensures
            match since {
                Some(at) => self@.held is Some && self@.held.unwrap().since == at,
                None => self@.held is None,
            },
    {
        match self.held {
            Some(held) => Some(held.since),
            None => None,
        }
    }

    /// Whether `control`, coming at `now`, repeats the keystroke that is
    /// followed.
    pub fn repeats(&self, control: &Control, now: u64) -> (repeats: bool)
        ensures
            repeats == self@.repeats(control@, now as nat),
    {
        match self.held {
            Some(held) => {
                let passed: u64 = if now >= held.since {
                    now - held.since
                } else {
                    0
                };
                held.control.same(control) && passed < self.threshold
            },
            None => false,
        }
    }

    /// Whether the count that a step with `input` at `now` gives still fits
    /// the machine's `usize`. It does unless the count has reached the
    /// largest `usize` and `input` repeats once more.
    pub fn fits(&self, input: Option<Control>, now: u64) -> (fits: bool)
        ensures
            fits == self@.fits(control_view(input), now as nat),
    {
        match input {
            Some(control) => match self.held {
                Some(held) => !(self.repeats(&control, now) && held.count == usize::MAX),
                None => true,
            },
            None => true,
        }
    }

    /// Takes in what one tick brought at the time `now`.
    pub fn step(&mut self, input: Option<Control>, now: u64)
        requires
            old(self)@.fits(control_view(input), now as nat),
        ensures
            final(self)@ == old(self)@.step(control_view(input), now as nat),
    {
        match input {
            None => {},
            Some(control) => {
                let count: usize = if self.repeats(&control, now) {
                    match self.held {
                        Some(held) => held.count + 1,
                        None => 0,
                    }
                } else {
                    0
                };
                self.held = Some(Held { control, since: now, count });
            },
        }
    }
}

/// A chunk with the same bytes as the one before it, coming before the
/// threshold has passed, counts exactly one more than the count before.
pub proof fn law_repeat_counts_one_more(before: RepeatView, control: Seq<u8>, now: nat)
    requires
        before.held is Some,
        before.held.unwrap().control == control,
        elapsed(before.held.unwrap().since, now) < before.threshold,
    ensures
        before.step(Some(control), now).count() == Some(before.held.unwrap().count + 1),
{
}

/// A chunk whose bytes differ from those of the one before it sets the
/// count to zero.
pub proof fn law_other_control_resets(before: RepeatView, control: Seq<u8>, now: nat)
    requires
        before.held is Some ==> before.held.unwrap().control != control,
    ensures
        before.step(Some(control), now).count() == Some(0nat),
{
}

/// A chunk with the same bytes as the one before it, coming when the
/// threshold has passed, sets the count to zero.
pub proof fn law_late_repeat_resets(before: RepeatView, control: Seq<u8>, now: nat)
    requires
        before.held is Some,
        before.held.unwrap().control == control,
        elapsed(before.held.unwrap().since, now) >= before.threshold,
    ensures
        before.step(Some(control), now).count() == Some(0nat),
{
}

/// Whatever chunk comes, it is the one that is followed from then on, and
/// the time of its coming is kept.
pub proof fn law_step_follows_input(before: RepeatView, control: Seq<u8>, now: nat)
    ensures
        before.step(Some(control), now).held is Some,
        before.step(Some(control), now).held.unwrap().control == control,
        before.step(Some(control), now).held.unwrap().since == now,
        before.step(Some(control), now).threshold == before.threshold,
{
}

/// A tick without input changes nothing of the tracking.
pub proof fn law_no_input_keeps_tracking(before: RepeatView, now: nat)
    ensures
        before.step(None, now) == before,
{
}

} // verus!
