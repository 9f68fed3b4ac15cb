//! The state of one session, and the step that one tick makes of it.
use std::collections::TryReserveError;
use vstd::prelude::*;

use crate::shell::device::bytes_view;
use crate::shell::device::control::Control;
use crate::shell::device::control::InputClass;
use crate::shell::device::control::Key;
use crate::shell::device::control::classify_bytes;
use crate::shell::device::control_view;
use crate::shell::device::DeviceState;
use crate::shell::device::DeviceView;
use crate::shell::display::chosen_geometry;
use crate::shell::display::geometry_or_default;
use crate::shell::display::Display;
use crate::shell::display::DisplayView;
use crate::shell::repeat::KeyRepeat;
use crate::shell::repeat::RepeatView;
use crate::DEFAULT_REPEAT;

verus! {

/// The line feed, which ends a line of input.
pub const LF: u8 = 10;

/// The carriage return, which ends a line of input too.
pub const CR: u8 = 13;

/// Why a tick could not be completed.
#[derive(Clone, Copy, Debug, PartialEq, Eq, Structural)]
pub enum ShellError {
    /// The window changed its size and the screen could not follow.
    Resize,
}

/// Whether `bytes` ends with a line feed or a carriage return.
pub open spec fn ends_line(bytes: Seq<u8>) -> bool {
    bytes.len() > 0 && (bytes.last() == LF || bytes.last() == CR)
}

/// The repeat threshold of a session: the configured one, or the default.
pub open spec fn chosen_threshold(repeat: Option<u64>) -> u64 {
    match repeat {
        Some(threshold) => threshold,
        None => DEFAULT_REPEAT,
    }
}

/// What a session is at one point in time.
#[verifier::ext_equal]
pub struct ShellView {
    /// The channel that the session is bound to.
    pub channel: i32,
    /// The number of the signal that tells of a change of the window.
    pub window_change: i32,
    /// Whether the last tick was idle.
    pub idle: bool,
    /// The signal of the last tick.
    pub signal: Option<i32>,
    /// The input of the last tick.
    pub current_input: Option<Seq<u8>>,
    /// The input of the tick before the last one.
    pub past_input: Option<Seq<u8>>,
    /// The output of the last tick.
    pub out_text: Option<Seq<u8>>,
    /// All the output so far, and the size of the terminal.
    pub screen: DisplayView,
    /// The line of input that is being typed.
    pub line: Seq<u8>,
    /// Whether that line is ended.
    pub line_ready: bool,
    /// The key repeat tracking.
    pub repeat: RepeatView,
}

impl ShellView {
    /// The session before its first tick.
    pub open spec fn initial(
        threshold: u64,
        channel: i32,
        window_change: i32,
        screen: DisplayView,
    ) -> ShellView {
        ShellView {
            channel,
            window_change,
            idle: false,
            signal: None,
            current_input: None,
            past_input: None,
            out_text: None,
            screen,
            line: Seq::empty(),
            line_ready: false,
            repeat: RepeatView::fresh(threshold as nat),
        }
    }

    /// Whether the last tick told of a change of the window.
    pub open spec fn resized(self) -> bool {
        self.signal == Some(self.window_change)
    }

    /// The session after it took `input` in at the time `now`: the input
    /// that was current is the past one, and the repeat tracking has made
    /// its step.
    pub open spec fn set_input(self, input: Option<Seq<u8>>, now: nat) -> ShellView {
        ShellView {
            past_input: self.current_input,
            current_input: input,
            repeat: self.repeat.step(input, now),
            ..self
        }
    }

    /// The line that a tick starts from: a line that was ready is dropped,
    /// whether or not anybody has read it.
    pub open spec fn line_kept(self) -> Seq<u8> {
        if self.line_ready {
            Seq::empty()
        } else {
            self.line
        }
    }

    /// The session after the current input was added to the line. The line
    /// is ready if the last byte added ends a line.
    pub open spec fn gather(self) -> ShellView {
        match self.current_input {
            Some(bytes) => ShellView {
                line: self.line_kept() + bytes,
                line_ready: ends_line(bytes),
                ..self
            },
            None => ShellView { line: self.line_kept(), line_ready: false, ..self },
        }
    }

    /// The session after the output of the tick was written to the screen.
    pub open spec fn show(self) -> ShellView {
        match self.out_text {
            Some(text) => ShellView { screen: self.screen.write(text), ..self },
            None => self,
        }
    }

    /// The session after the screen has followed a change of the window,
    /// if the tick told of one. `answer` is what the terminal gave when
    /// asked for its size.
    pub open spec fn fit(self, answer: Option<(u16, u16)>) -> ShellView {
        if self.resized() {
            ShellView {
                screen: self.screen.resize(
                    chosen_geometry(answer).0 as nat,
                    chosen_geometry(answer).1 as nat,
                ),
                ..self
            }
        } else {
            self
        }
    }

    /// The session after the tick that brought `event` at the time `now`.
    pub open spec fn advance(
        self,
        event: DeviceView,
        answer: Option<(u16, u16)>,
        now: nat,
    ) -> ShellView {
        (ShellView {
            idle: event.idle,
            signal: event.signal,
            out_text: event.out_text,
            ..self.set_input(event.input, now)
        }).gather().show().fit(answer)
    }

    /// The screen, as long as it is safe to show: not in an idle tick, and
    /// not when the window has just changed.
    pub open spec fn shown_screen(self) -> Option<DisplayView> {
        if self.idle || self.resized() {
            None
        } else {
            Some(self.screen)
        }
    }

    /// The repeat count as it is shown: only in a tick that brought input.
    pub open spec fn shown_repeat(self) -> Option<nat> {
        if self.current_input is Some {
            self.repeat.count()
        } else {
            None
        }
    }
}

/// One tick as the state takes it in: what the devices brought, what the
/// terminal answered when asked for its size, and the time.
pub struct Tick {
    pub event: DeviceView,
    pub answer: Option<(u16, u16)>,
    pub now: nat,
}

impl Tick {
    /// The bytes that the tick adds to the line.
    pub open spec fn typed(self) -> Seq<u8> {
        match self.event.input {
            Some(bytes) => bytes,
            None => Seq::empty(),
        }
    }

    /// Whether the input of the tick ends a line.
    pub open spec fn ends(self) -> bool {
        self.event.input is Some && ends_line(self.event.input.unwrap())
    }
}

/// All the bytes that a run of ticks adds to the line, in their order.
pub open spec fn typed_all(ticks: Seq<Tick>) -> Seq<u8>
    decreases ticks.len(),
{
    if ticks.len() == 0 {
        Seq::empty()
    } else {
        typed_all(ticks.drop_last()) + ticks.last().typed()
    }
}

impl ShellView {
    /// The session after a run of ticks, taken in one after the other.
    pub open spec fn advance_all(self, ticks: Seq<Tick>) -> ShellView
        decreases ticks.len(),
    {
        if ticks.len() == 0 {
            self
        } else {
            self.advance_all(ticks.drop_last()).advance(
                ticks.last().event,
                ticks.last().answer,
                ticks.last().now,
            )
        }
    }
}

/// The number of the signal that the system sends when the window of the
/// terminal changes: `libc::SIGWINCH`. One system gives it another number
/// than the next, so nothing is said of it.
#[verifier::external_body]
fn window_change_signal() -> (signal: i32) {
    libc::SIGWINCH
}

/// The state of one session. It is made once, bound to a channel, and takes
/// one step for each tick of the devices.
pub struct ShellState {
    /// The channel.
    fd: i32,
    /// The signal that tells of a change of the window.
    winch: i32,
    /// Update.
    idle: Option<()>,
    /// Signal.
    sig: Option<i32>,
    /// The current character.
    in_text: Option<Control>,
    /// The past character.
    in_text_past: Option<Control>,
    /// The output of new lines.
    out_text: Option<Vec<u8>>,
    /// The output of screen.
    out_screen: Display,
    /// The last line.
    in_line: Vec<u8>,
    in_line_ready: bool,
    /// The key repeat.
    repeat: KeyRepeat,
}

impl View for ShellState {
    type V = ShellView;

    closed spec fn view(&self) -> ShellView {
        ShellView {
            channel: self.fd,
            window_change: self.winch,
            idle: self.idle is Some,
            signal: self.sig,
            current_input: control_view(self.in_text),
            past_input: control_view(self.in_text_past),
            out_text: bytes_view(self.out_text),
            screen: self.out_screen@,
            line: self.in_line@,
            line_ready: self.in_line_ready,
            repeat: self.repeat@,
        }
    }
}

impl ShellState {
    /// The session before its first tick, for a system on which the signal
    /// `window_change` tells of a change of the window. The screen is empty
    /// and has the default size.
    pub fn with_window_change(repeat: Option<u64>, fd: i32, window_change: i32) -> (state: ShellState)
        ensures
            state@ == ShellView::initial(
                chosen_threshold(repeat),
                fd,
                window_change,
                DisplayView::empty(
                    crate::DISPLAY_DEFAULT_COL as nat,
                    crate::DISPLAY_DEFAULT_ROW as nat,
                ),
            ),
    {
        let threshold: u64 = match repeat {
            Some(threshold) => threshold,
            None => DEFAULT_REPEAT,
        };
        ShellState {
            fd,
            winch: window_change,
            idle: None,
            sig: None,
            in_text: None,
            in_text_past: None,
            out_text: None,
            out_screen: Display::default(),
            in_line: Vec::new(),
            in_line_ready: false,
            repeat: KeyRepeat::new(threshold),
        }
    }

    /// The session before its first tick, bound to the channel `fd`, with
    /// the repeat threshold `repeat` in milliseconds, or the default one.
    /// The signal that tells of a change of the window is the one of the
    /// system that the library runs on.
    pub fn new(repeat: Option<u64>, fd: i32) -> (state: ShellState)
        ensures
            state@ == ShellView::initial(
                chosen_threshold(repeat),
                fd,
                state@.window_change,
                DisplayView::empty(
                    crate::DISPLAY_DEFAULT_COL as nat,
                    crate::DISPLAY_DEFAULT_ROW as nat,
                ),
            ),
    {
        ShellState::with_window_change(repeat, fd, window_change_signal())
    }

    /// The channel that the session is bound to.
    pub fn channel(&self) -> (fd: i32)
        ensures
            fd == self@.channel,
    {
        self.fd
    }

    /// The number of the signal that tells of a change of the window.
    pub fn window_change(&self) -> (signal: i32)
        ensures
            signal == self@.window_change,
    {
        self.winch
    }

    /// The method `is_screen` returns the screen, in a tick that brought
    /// output.
    pub fn is_screen(&self) -> (screen: Option<&Display>)
        ensures
            screen is Some <==> self@.out_text is Some,
            screen is Some ==> screen.unwrap()@ == self@.screen,
    {
        if self.out_text.is_some() {
            Some(&self.out_screen)
        } else {
            None
        }
    }

    /// The accessor method `is_idle` returns the Idle event.
    pub fn is_idle(&self) -> (idle: Option<()>)
        ensures
            idle is Some <==> self@.idle,
    {
        self.idle
    }

    /// The accessor method `is_signal` returns the Signal event.
    pub fn is_signal(&self) -> (signal: Option<i32>)
        ensures
            signal == self@.signal,
    {
        self.sig
    }

    /// The method `is_resized` tells whether the signal of the tick is the
    /// one that tells of a change of the window.
    pub fn is_resized(&self) -> (resized: Option<()>)
        ensures
            resized is Some <==> self@.resized(),
    {
        match self.sig {
            Some(signal) => if signal == self.winch {
                Some(())
            } else {
                None
            },
            None => None,
        }
    }

    /// The accessor method `is_unicode` returns the bytes of the current
    /// input, if that is text.
    pub fn is_unicode(&self) -> (text: Option<&[u8]>)
        ensures
            text is Some <==> (self@.current_input is Some && classify_bytes(
                self@.current_input.unwrap(),
            ) == InputClass::Unicode),
            text is Some ==> text.unwrap()@ == self@.current_input.unwrap(),
    {
        match &self.in_text {
            Some(event) => event.is_unicode(),
            None => None,
        }
    }

    /// The accessor method `is_out_text` returns the Output text event.
    pub fn is_out_text(&self) -> (out_text: Option<&Vec<u8>>)
        ensures
            out_text is Some <==> self@.out_text is Some,
            out_text is Some ==> out_text.unwrap()@ == self@.out_text.unwrap(),
    {
        match &self.out_text {
            Some(out) => Some(out),
            None => None,
        }
    }

    /// The accessor method `is_in_text` returns the Input text event.
    pub fn is_in_text(&self) -> (in_text: Option<&[u8]>)
        ensures
            in_text is Some <==> self@.current_input is Some,
            in_text is Some ==> in_text.unwrap()@ == self@.current_input.unwrap(),
    {
        match &self.in_text {
            Some(event) => Some(event.as_slice()),
            None => None,
        }
    }

    /// The input of the tick before the last one.
    pub fn is_in_text_past(&self) -> (in_text: Option<&[u8]>)
        ensures
            in_text is Some <==> self@.past_input is Some,
            in_text is Some ==> in_text.unwrap()@ == self@.past_input.unwrap(),
    {
        match &self.in_text_past {
            Some(event) => Some(event.as_slice()),
            None => None,
        }
    }

    /// The accessor method `is_out_screen` returns the screen, but not in
    /// an idle tick and not when the window has just changed: then the
    /// screen is about to change and is held back.
    pub fn is_out_screen(&self) -> (screen: Option<&Display>)
        ensures
            screen is Some <==> self@.shown_screen() is Some,
            screen is Some ==> screen.unwrap()@ == self@.screen,
    {
        if self.idle.is_some() || self.is_resized().is_some() {
            None
        } else {
            Some(&self.out_screen)
        }
    }

    /// The accessor method `is_line` returns the line of input, once it is
    /// ended.
    pub fn is_line(&self) -> (line: Option<&Vec<u8>>)
        ensures
            line is Some <==> self@.line_ready,
            line is Some ==> line.unwrap()@ == self@.line,
    {
        if self.in_line_ready {
            Some(&self.in_line)
        } else {
            None
        }
    }

    /// The keystroke of the tick, if it brought one.
    pub fn is_input_keydown(&self) -> (key: Option<Key>)
        ensures
            match key {
                Some(down) => self@.current_input == Some(down@),
                None => self@.current_input is None,
            },
    {
        match self.in_text {
            Some(event) => Some(Key::from_control(event)),
            None => None,
        }
    }

    /// The repeat count of the keystroke of the tick, if it brought one.
    pub fn is_input_keyrepeat(&self) -> (count: Option<usize>)
        ensures
            match count {
                Some(n) => self@.shown_repeat() == Some(n as nat),
                None => self@.shown_repeat() is None,
            },
    {
        if self.in_text.is_some() {
            self.repeat.count()
        } else {
            None
        }
    }

    /// The key repeat tracking.
    pub fn key_repeat(&self) -> (repeat: KeyRepeat)
        ensures
            repeat@ == self@.repeat,
    {
        self.repeat
    }

    /// Takes in the input of one tick, which came at the time `now`.
    pub fn set_input(&mut self, input: Option<Control>, now: u64)
        requires
            old(self)@.repeat.fits(control_view(input), now as nat),
        ensures
            final(self)@ == old(self)@.set_input(control_view(input), now as nat),
    {
        self.in_text_past = self.in_text;
        self.in_text = input;
        self.repeat.step(input, now);
    }

    /// Makes the step of one tick, given the outcome `reserved` of the
    /// reservation that a change of the window asks of the screen. The step
    /// is always made. It is reported as failed exactly if the tick told of
    /// a change of the window and the reservation had failed; in any other
    /// tick `reserved` plays no part.
    pub fn with_device_reserved(
        &mut self,
        event: DeviceState,
        answer: Option<(u16, u16)>,
        now: u64,
        reserved: Result<(), TryReserveError>,
    ) -> (outcome: Result<ShellState, ShellError>)
        requires
            old(self)@.repeat.fits(event@.input, now as nat),
        ensures
            final(self)@ == old(self)@.advance(event@, answer, now as nat),
            outcome is Err <==> final(self)@.resized() && reserved is Err,
            match outcome {
                Ok(snapshot) => snapshot@ == final(self)@,
                Err(error) => error == ShellError::Resize,
            },
    {
        self.idle = event.is_idle();
        self.sig = event.is_signal();
        self.set_input(event.is_input(), now);
        self.out_text = event.into_out_text();
        if self.in_line_ready {
            self.in_line.clear();
            self.in_line_ready = false;
        }
        if let Some(chunk) = self.in_text {
            let held: usize = chunk.len();
            let bytes = chunk.as_slice();
            let ghost before = self.in_line@;
            self.in_line.extend_from_slice(bytes);
            assert(self.in_line@ =~= before + bytes@);
            if held > 0 {
                let last: u8 = bytes[held - 1];
                if last == LF || last == CR {
                    self.in_line_ready = true;
                }
            }
        }
        if let Some(text) = &self.out_text {
            self.out_screen.write(text.as_slice());
        }
        if self.is_resized().is_some() {
            let size = geometry_or_default(answer);
            if self.out_screen.resize_with(size.0, size.1, reserved).is_err() {
                return Err(ShellError::Resize);
            }
        }
        Ok(self.clone())
    }

    /// The modifier method `with_device` updates the state according to
    /// what one tick brought, and returns a copy of the state that it
    /// reached. `answer` is what the terminal gave when it was asked for
    /// its size, and `now` is the time of the tick in milliseconds.
    ///
    /// The step is always made. It is reported as failed only in a tick
    /// that told of a change of the window, and only if the screen could
    /// not reserve the room for its new size.
    pub fn with_device(
        &mut self,
        event: DeviceState,
        answer: Option<(u16, u16)>,
        now: u64,
    ) -> (outcome: Result<ShellState, ShellError>)
        requires
            old(self)@.repeat.fits(event@.input, now as nat),
        ensures
            final(self)@ == old(self)@.advance(event@, answer, now as nat),
            match outcome {
                Ok(snapshot) => snapshot@ == final(self)@,
                Err(error) => {
                    &&& error == ShellError::Resize
                    &&& final(self)@.resized()
                    &&& final(self)@.screen.capacity_hint() > old(self)@.screen.log.len()
                },
            },
    {
        let resized = match event.is_signal() {
            Some(signal) => signal == self.winch,
            None => false,
        };
        let reserved = if resized {
            let size = geometry_or_default(answer);
            self.out_screen.reserve_for(size.0, size.1)
        } else {
            Ok(())
        };
        self.with_device_reserved(event, answer, now, reserved)
    }
}

impl Clone for ShellState {
    fn clone(&self) -> (copy: ShellState)
        ensures
            copy@ == self@,
    {
        ShellState {
            fd: self.fd,
            winch: self.winch,
            idle: self.idle,
            sig: self.sig,
            in_text: self.in_text,
            in_text_past: self.in_text_past,
            out_text: match &self.out_text {
                Some(out) => Some(out.clone()),
                None => None,
            },
            out_screen: self.out_screen.clone(),
            in_line: self.in_line.clone(),
            in_line_ready: self.in_line_ready,
            repeat: self.repeat,
        }
    }
}

/// A line that was ready when a tick begins is dropped before anything is
/// gathered: after the tick the line holds the input of that tick and
/// nothing of the line before.
pub proof fn law_ready_line_is_dropped(
    before: ShellView,
    event: DeviceView,
    answer: Option<(u16, u16)>,
    now: nat,
)
    requires
        before.line_ready,
    ensures
        before.advance(event, answer, now).line == match event.input {
            Some(bytes) => bytes,
            None => Seq::<u8>::empty(),
        },
        before.advance(event, answer, now).line_ready == (event.input is Some && ends_line(
            event.input.unwrap(),
        )),
{
    let after = before.advance(event, answer, now);
    match event.input {
        Some(bytes) => {
            assert(after.line =~= bytes);
        },
        None => {},
    }
}

/// A line that is not ready grows by the input of the tick, and is ready
/// after it exactly if that input ends a line.
pub proof fn law_open_line_grows(
    before: ShellView,
    event: DeviceView,
    answer: Option<(u16, u16)>,
    now: nat,
)
    requires
        !before.line_ready,
    ensures
        before.advance(event, answer, now).line == match event.input {
            Some(bytes) => before.line + bytes,
            None => before.line,
        },
        before.advance(event, answer, now).line_ready == (event.input is Some && ends_line(
            event.input.unwrap(),
        )),
{
}

/// Every tick drives the key repeat tracking once, with the input that it
/// brought and its time, and makes that input the current one.
pub proof fn law_tick_drives_repeat(
    before: ShellView,
    event: DeviceView,
    answer: Option<(u16, u16)>,
    now: nat,
)
    ensures
        before.advance(event, answer, now).repeat == before.repeat.step(event.input, now),
        before.advance(event, answer, now).current_input == event.input,
        before.advance(event, answer, now).past_input == before.current_input,
        before.advance(event, answer, now).idle == event.idle,
        before.advance(event, answer, now).signal == event.signal,
        before.advance(event, answer, now).out_text == event.out_text,
        before.advance(event, answer, now).channel == before.channel,
        before.advance(event, answer, now).window_change == before.window_change,
{
}

/// An idle tick leaves the screen and the key repeat tracking as they
/// were. It drops a line that was ready and keeps one that was not. It
/// brings no input, so the input that was current becomes the past one.
pub proof fn law_idle_tick(
    before: ShellView,
    event: DeviceView,
    answer: Option<(u16, u16)>,
    now: nat,
)
    requires
        event.wf(),
        event.idle,
    ensures
        before.advance(event, answer, now).screen == before.screen,
        before.advance(event, answer, now).repeat == before.repeat,
        before.advance(event, answer, now).line == before.line_kept(),
        !before.advance(event, answer, now).line_ready,
        before.advance(event, answer, now).current_input is None,
        before.advance(event, answer, now).past_input == before.current_input,
{
}

/// An idle tick that follows ticks without input, and finds no line
/// ready, changes none of the line, the screen, the current and the past
/// input.
pub proof fn law_idle_tick_changes_nothing(
    before: ShellView,
    event: DeviceView,
    answer: Option<(u16, u16)>,
    now: nat,
)
    requires
        event.wf(),
        event.idle,
        !before.line_ready,
        before.current_input is None,
        before.past_input is None,
    ensures
        before.advance(event, answer, now).line == before.line,
        before.advance(event, answer, now).line_ready == before.line_ready,
        before.advance(event, answer, now).screen == before.screen,
        before.advance(event, answer, now).current_input == before.current_input,
        before.advance(event, answer, now).past_input == before.past_input,
        before.advance(event, answer, now).repeat == before.repeat,
{
}

/// In a tick that tells of a change of the window the screen takes the
/// size that the terminal answered, or the default size, and keeps its
/// log with the output of the tick added.
pub proof fn law_window_change_resizes(
    before: ShellView,
    event: DeviceView,
    answer: Option<(u16, u16)>,
    now: nat,
)
    requires
        event.signal == Some(before.window_change),
    ensures
        before.advance(event, answer, now).resized(),
        before.advance(event, answer, now).screen.columns == chosen_geometry(answer).0,
        before.advance(event, answer, now).screen.rows == chosen_geometry(answer).1,
        before.advance(event, answer, now).screen.log == match event.out_text {
            Some(text) => before.screen.log + text,
            None => before.screen.log,
        },
        before.advance(event, answer, now).shown_screen() is None,
{
}

/// Input that comes in pieces is gathered into one line. After a run of
/// ticks of which none but the last may end a line, the line is what it was
/// with all the bytes of the run behind it, and it is ready exactly if the
/// last tick ended it.
pub proof fn law_chunks_gather(start: ShellView, ticks: Seq<Tick>)
    requires
        !start.line_ready,
        forall|i: int| 0 <= i < ticks.len() - 1 ==> !(#[trigger] ticks[i]).ends(),
    ensures
        start.advance_all(ticks).line == start.line + typed_all(ticks),
        start.advance_all(ticks).line_ready == (ticks.len() > 0 && ticks.last().ends()),
    decreases ticks.len(),
{
    if ticks.len() == 0 {
        assert(start.line + typed_all(ticks) =~= start.line);
    } else {
        let earlier = ticks.drop_last();
        assert forall|i: int| 0 <= i < earlier.len() - 1 implies !(#[trigger] earlier[i]).ends()
        by {
            assert(earlier[i] == ticks[i]);
        }
        law_chunks_gather(start, earlier);
        if earlier.len() > 0 {
            assert(earlier.last() == ticks[ticks.len() - 2]);
        }
        let middle = start.advance_all(earlier);
        law_open_line_grows(middle, ticks.last().event, ticks.last().answer, ticks.last().now);
        assert(start.advance_all(ticks).line =~= start.line + typed_all(ticks));
    }
}

/// A line that comes in pieces is ready once, and only once it is whole.
/// Of a run of ticks of which the last ends a line and no other does, the
/// tick of number `j` leaves a ready line exactly if it is the last one,
/// and that line is the line from before with all the bytes of the run.
pub proof fn law_one_ready_line(start: ShellView, ticks: Seq<Tick>, j: int)
    requires
        !start.line_ready,
        ticks.len() > 0,
        forall|i: int| 0 <= i < ticks.len() - 1 ==> !(#[trigger] ticks[i]).ends(),
        ticks.last().ends(),
        0 <= j < ticks.len(),
    ensures
        start.advance_all(ticks.take(j + 1)).line_ready == (j == ticks.len() - 1),
        start.advance_all(ticks).line == start.line + typed_all(ticks),
{
    let part = ticks.take(j + 1);
    assert forall|i: int| 0 <= i < part.len() - 1 implies !(#[trigger] part[i]).ends() by {
        assert(part[i] == ticks[i]);
    }
    law_chunks_gather(start, part);
    assert(part.last() == ticks[j]);
    law_chunks_gather(start, ticks);
}

} // verus!
