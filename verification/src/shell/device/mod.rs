//! What the devices deliver in one tick.
pub mod control;

use vstd::prelude::*;

use crate::shell::device::control::Control;

verus! {

/// The logical bytes of a chunk of input that may be absent.
pub open spec fn control_view(control: Option<Control>) -> Option<Seq<u8>> {
    match control {
        Some(chunk) => Some(chunk@),
        None => None,
    }
}

/// The bytes of an output that may be absent.
pub open spec fn bytes_view(bytes: Option<Vec<u8>>) -> Option<Seq<u8>> {
    match bytes {
        Some(held) => Some(held@),
        None => None,
    }
}

/// What one tick delivers: whether it was idle, a signal, a chunk of input,
/// output of the child.
#[verifier::ext_equal]
pub struct DeviceView {
    pub idle: bool,
    pub signal: Option<i32>,
    pub input: Option<Seq<u8>>,
    pub out_text: Option<Seq<u8>>,
}

impl DeviceView {
    /// Whether the tick brought no signal, no input and no output.
    pub open spec fn carries_nothing(self) -> bool {
        self.signal is None && self.input is None && self.out_text is None
    }

    /// A tick is idle exactly when it brought nothing.
    pub open spec fn wf(self) -> bool {
        self.idle <==> self.carries_nothing()
    }

    /// The tick that brought `signal`, `input` and `out_text`.
    pub open spec fn of(
        signal: Option<i32>,
        input: Option<Seq<u8>>,
        out_text: Option<Seq<u8>>,
    ) -> DeviceView {
        DeviceView {
            idle: signal is None && input is None && out_text is None,
            signal,
            input,
            out_text,
        }
    }
}

/// What the devices delivered in one tick. It is made once per poll of the
/// devices and handed to the state.
pub struct DeviceState {
    idle: Option<()>,
    sig: Option<i32>,
    input: Option<Control>,
    out_text: Option<Vec<u8>>,
}

impl View for DeviceState {
    type V = DeviceView;

    closed spec fn view(&self) -> DeviceView {
        DeviceView {
            idle: self.idle is Some,
            signal: self.sig,
            input: control_view(self.input),
            out_text: bytes_view(self.out_text),
        }
    }
}

impl DeviceState {
    #[verifier::type_invariant]
    closed spec fn idle_when_empty(self) -> bool {
        self@.wf()
    }

    /// The tick that brought `signal`, `input` and `out_text`. It is idle
    /// if all three are absent.
    pub fn new(
        signal: Option<i32>,
        input: Option<Control>,
        out_text: Option<Vec<u8>>,
    ) -> (event: DeviceState)
        ensures
            event@ == DeviceView::of(signal, control_view(input), bytes_view(out_text)),
    {
        let idle = if signal.is_none() && input.is_none() && out_text.is_none() {
            Some(())
        } else {
            None
        };
        DeviceState { idle, sig: signal, input, out_text }
    }

    /// The tick that brought nothing.
    pub fn from_idle() -> (event: DeviceState)
        ensures
            event@ == DeviceView::of(None, None, None),
            event@.idle,
    {
        DeviceState::new(None, None, None)
    }

    /// The tick that brought the signal `signal` and nothing else.
    pub fn from_signal(signal: i32) -> (event: DeviceState)
        ensures
            event@ == DeviceView::of(Some(signal), None, None),
    {
        DeviceState::new(Some(signal), None, None)
    }

    /// The tick that brought the input `input` and nothing else.
    pub fn from_input(input: Control) -> (event: DeviceState)
        ensures
            event@ == DeviceView::of(None, Some(input@), None),
    {
        DeviceState::new(None, Some(input), None)
    }

    /// The tick that brought the output `out_text` and nothing else.
    pub fn from_out_text(out_text: Vec<u8>) -> (event: DeviceState)
        ensures
            event@ == DeviceView::of(None, None, Some(out_text@)),
    {
        DeviceState::new(None, None, Some(out_text))
    }

    /// Whether the tick was idle. An idle tick brought nothing.
    pub fn is_idle(&self) -> (idle: Option<()>)
        ensures
            idle is Some <==> self@.idle,
            self@.wf(),
    {
        proof {
            use_type_invariant(self);
        }
        self.idle
    }

    /// The signal that the tick brought.
    pub fn is_signal(&self) -> (signal: Option<i32>)
        ensures
            signal == self@.signal,
    {
        self.sig
    }

    /// The chunk of input that the tick brought.
    pub fn is_input(&self) -> (input: Option<Control>)
        ensures
            control_view(input) == self@.input,
    {
        self.input
    }

    /// The output that the tick brought.
    pub fn is_out_text(&self) -> (out_text: Option<&Vec<u8>>)
        ensures
            out_text is Some <==> self@.out_text is Some,
            out_text is Some ==> out_text.unwrap()@ == self@.out_text.unwrap(),
    {
        self.out_text.as_ref()
    }

    /// Gives up the tick for the output that it brought.
    pub fn into_out_text(self) -> (out_text: Option<Vec<u8>>)
        ensures
            bytes_view(out_text) == self@.out_text,
    {
        self.out_text
    }
}

} // verus!
