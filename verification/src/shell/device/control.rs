//! One chunk of raw input, and what kind of keystroke it is.
use vstd::prelude::*;
use vstd::slice::slice_subrange;
use vstd::utf8::valid_utf8;

verus! {

/// The number of bytes that one chunk of input can hold.
pub const IN_CAPACITY: usize = 12;

/// The buffer of one chunk of input.
pub type In = [u8; 12];

/// The byte that opens every escape sequence.
pub const ESCAPE: u8 = 27;

/// `[`, the second byte of a control sequence.
pub const BRACKET: u8 = 91;

/// `O`, the second byte of a single-shift sequence.
pub const SHIFT: u8 = 79;

/// `~`, the byte that closes a numbered control sequence.
pub const TILDE: u8 = 126;

/// The key that a recognized escape sequence stands for.
#[derive(Clone, Copy, Debug, PartialEq, Eq, Structural)]
pub enum ControlCode {
    /// The up arrow, `ESC [ A`.
    Up,
    /// The down arrow, `ESC [ B`.
    Down,
    /// The right arrow, `ESC [ C`.
    Right,
    /// The left arrow, `ESC [ D`.
    Left,
    /// A function key, by its number from 1 to 12: `ESC O P` to `ESC O S`
    /// for the first four, `ESC [ n ~` with a two-digit `n` for the others.
    Function(u8),
}

/// The kind of one chunk of input.
#[derive(Clone, Copy, Debug, PartialEq, Eq, Structural)]
pub enum InputClass {
    /// Valid UTF-8 that is no recognized escape sequence.
    Unicode,
    /// A recognized escape sequence.
    ControlSequence(ControlCode),
    /// Anything else.
    Opaque,
}

/// The key that `bytes` stands for, if it is one of the recognized escape
/// sequences. These are the four arrows and the twelve function keys, as a
/// terminal in the manner of xterm sends them.
pub open spec fn escape_code(bytes: Seq<u8>) -> Option<ControlCode> {
    if bytes =~= seq![ESCAPE, BRACKET, 65] {
        Some(ControlCode::Up)
    } else if bytes =~= seq![ESCAPE, BRACKET, 66] {
        Some(ControlCode::Down)
    } else if bytes =~= seq![ESCAPE, BRACKET, 67] {
        Some(ControlCode::Right)
    } else if bytes =~= seq![ESCAPE, BRACKET, 68] {
        Some(ControlCode::Left)
    } else if bytes =~= seq![ESCAPE, SHIFT, 80] {
        Some(ControlCode::Function(1))
    } else if bytes =~= seq![ESCAPE, SHIFT, 81] {
        Some(ControlCode::Function(2))
    } else if bytes =~= seq![ESCAPE, SHIFT, 82] {
        Some(ControlCode::Function(3))
    } else if bytes =~= seq![ESCAPE, SHIFT, 83] {
        Some(ControlCode::Function(4))
    } else if bytes =~= seq![ESCAPE, BRACKET, 49, 53, TILDE] {
        Some(ControlCode::Function(5))
    } else if bytes =~= seq![ESCAPE, BRACKET, 49, 55, TILDE] {
        Some(ControlCode::Function(6))
    } else if bytes =~= seq![ESCAPE, BRACKET, 49, 56, TILDE] {
        Some(ControlCode::Function(7))
    } else if bytes =~= seq![ESCAPE, BRACKET, 49, 57, TILDE] {
        Some(ControlCode::Function(8))
    } else if bytes =~= seq![ESCAPE, BRACKET, 50, 48, TILDE] {
        Some(ControlCode::Function(9))
    } else if bytes =~= seq![ESCAPE, BRACKET, 50, 49, TILDE] {
        Some(ControlCode::Function(10))
    } else if bytes =~= seq![ESCAPE, BRACKET, 50, 51, TILDE] {
        Some(ControlCode::Function(11))
    } else if bytes =~= seq![ESCAPE, BRACKET, 50, 52, TILDE] {
        Some(ControlCode::Function(12))
    } else {
        None
    }
}

/// The kind of the chunk `bytes`: a recognized escape sequence first, then
/// text if the bytes are valid UTF-8, and opaque otherwise.
pub open spec fn classify_bytes(bytes: Seq<u8>) -> InputClass {
    match escape_code(bytes) {
        Some(code) => InputClass::ControlSequence(code),
        None => if valid_utf8(bytes) {
            InputClass::Unicode
        } else {
            InputClass::Opaque
        },
    }
}

/// Whether `core::str::from_utf8` accepts `bytes`. Its documentation says
/// that it returns an error exactly when the slice is not valid UTF-8; the
/// contract takes that as given, with vstd's definition of valid UTF-8.
#[verifier::external_body]
fn is_utf8(bytes: &[u8]) -> (valid: bool)
    ensures
        valid == valid_utf8(bytes@),
{
    core::str::from_utf8(bytes).is_ok()
}

/// Whether the first `len` bytes of `left` and of `right` are the same.
fn same_prefix(left: &In, right: &In, len: usize) -> (same: bool)
    requires
        len <= IN_CAPACITY,
    ensures
        same == (left@.take(len as int) == right@.take(len as int)),
{
    let mut i: usize = 0;
    while i < len
        invariant
            i <= len <= IN_CAPACITY,
            forall|j: int| 0 <= j < i ==> left@[j] == right@[j],
        decreases len - i,
    {
        if left[i] != right[i] {
            assert(left@.take(len as int)[i as int] != right@.take(len as int)[i as int]);
            return false;
        }
        i += 1;
    }
    assert(left@.take(len as int) =~= right@.take(len as int));
    true
}

/// One chunk of raw input: a buffer and the number of its bytes that count.
/// It is never changed after it is made.
#[derive(Clone, Copy, Debug)]
pub struct Control {
    buf: In,
    len: usize,
}

impl View for Control {
    type V = Seq<u8>;

    /// The logical bytes of the chunk.
    closed spec fn view(&self) -> Seq<u8> {
        self.buf@.take(self.len as int)
    }
}

impl Control {
    #[verifier::type_invariant]
    closed spec fn within_capacity(self) -> bool {
        self.len <= IN_CAPACITY
    }

    /// The chunk made of the first `len` bytes of `buf`.
    pub fn new(buf: In, len: usize) -> (control: Control)
        requires
            len <= IN_CAPACITY,
        ensures
            control@ == buf@.take(len as int),
    {
        Control { buf, len }
    }

    /// The number of logical bytes.
    pub fn len(&self) -> (len: usize)
        ensures
            len == self@.len(),
            len <= IN_CAPACITY,
    {
        proof {
            use_type_invariant(self);
        }
        self.len
    }

    /// The logical bytes.
    pub fn as_slice(&self) -> (bytes: &[u8])
        ensures
            bytes@ == self@,
    {
        proof {
            use_type_invariant(self);
        }
        slice_subrange(self.buf.as_slice(), 0, self.len)
    }

    /// The recognized escape sequence that the chunk is, if it is one.
    pub fn escape(&self) -> (code: Option<ControlCode>)
        ensures
            code == escape_code(self@),
    {
        proof {
            use_type_invariant(self);
        }
        let b = &self.buf;
        if self.len == 3 && b[0] == ESCAPE && b[1] == BRACKET {
            if b[2] == 65 {
                Some(ControlCode::Up)
            } else if b[2] == 66 {
                Some(ControlCode::Down)
            } else if b[2] == 67 {
                Some(ControlCode::Right)
            } else if b[2] == 68 {
                Some(ControlCode::Left)
            } else {
                None
            }
        } else if self.len == 3 && b[0] == ESCAPE && b[1] == SHIFT {
            if 80 <= b[2] && b[2] <= 83 {
                Some(ControlCode::Function(b[2] - 79))
            } else {
                None
            }
        } else if self.len == 5 && b[0] == ESCAPE && b[1] == BRACKET && b[4] == TILDE {
            let tens: u8 = b[2];
            let units: u8 = b[3];
            if tens == 49 && units == 53 {
                Some(ControlCode::Function(5))
            } else if tens == 49 && 55 <= units && units <= 57 {
                Some(ControlCode::Function(units - 49))
            } else if tens == 50 && 48 <= units && units <= 49 {
                Some(ControlCode::Function(units - 39))
            } else if tens == 50 && 51 <= units && units <= 52 {
                Some(ControlCode::Function(units - 40))
            } else {
                None
            }
        } else {
            None
        }
    }

    /// The kind of the chunk. Every chunk has one: what is not recognized
    /// is opaque.
    pub fn classify(&self) -> (class: InputClass)
        ensures
            class == classify_bytes(self@),
    {
        match self.escape() {
            Some(code) => InputClass::ControlSequence(code),
            None => if is_utf8(self.as_slice()) {
                InputClass::Unicode
            } else {
                InputClass::Opaque
            },
        }
    }

    /// The logical bytes, if the chunk is text.
    pub fn is_unicode(&self) -> (text: Option<&[u8]>)
        ensures
            text is Some <==> classify_bytes(self@) == InputClass::Unicode,
            text is Some ==> text.unwrap()@ == self@,
    {
        match self.classify() {
            InputClass::Unicode => Some(self.as_slice()),
            _ => None,
        }
    }

    /// Whether the two chunks have the same logical bytes.
    pub fn same(&self, other: &Control) -> (same: bool)
        ensures
            same == (self@ == other@),
    {
        proof {
            use_type_invariant(self);
            use_type_invariant(other);
            assert(self@.len() == self.len && other@.len() == other.len);
        }
        self.len == other.len && same_prefix(&self.buf, &other.buf, self.len)
    }
}

impl PartialEq for Control {
    fn eq(&self, other: &Control) -> (same: bool) {
        self.same(other)
    }
}

impl Eq for Control {
}

impl vstd::std_specs::cmp::PartialEqSpecImpl for Control {
    open spec fn obeys_eq_spec() -> bool {
        true
    }

    open spec fn eq_spec(&self, other: &Control) -> bool {
        self@ == other@
    }
}

/// One keystroke, told from another by the logical bytes that the terminal
/// sent for it.
#[derive(Clone, Copy, Debug)]
pub struct Key {
    control: Control,
}

impl View for Key {
    type V = Seq<u8>;

    /// The logical bytes of the keystroke.
    closed spec fn view(&self) -> Seq<u8> {
        self.control@
    }
}

impl Key {
    /// The keystroke made of the first `len` bytes of `buf`.
    pub fn new(buf: &In, len: usize) -> (key: Key)
        requires
            len <= IN_CAPACITY,
        ensures
            key@ == buf@.take(len as int),
    {
        Key { control: Control::new(*buf, len) }
    }

    /// The keystroke that a chunk of input delivers.
    pub fn from_control(control: Control) -> (key: Key)
        ensures
            key@ == control@,
    {
        Key { control }
    }

    /// The logical bytes.
    pub fn as_slice(&self) -> (bytes: &[u8])
        ensures
            bytes@ == self@,
    {
        self.control.as_slice()
    }

    /// The kind of the keystroke.
    pub fn classify(&self) -> (class: InputClass)
        ensures
            class == classify_bytes(self@),
    {
        self.control.classify()
    }
}

impl PartialEq for Key {
    fn eq(&self, other: &Key) -> (same: bool) {
        self.control.same(&other.control)
    }
}

impl Eq for Key {
}

impl vstd::std_specs::cmp::PartialEqSpecImpl for Key {
    open spec fn obeys_eq_spec() -> bool {
        true
    }

    open spec fn eq_spec(&self, other: &Key) -> bool {
        self@ == other@
    }
}

} // verus!
