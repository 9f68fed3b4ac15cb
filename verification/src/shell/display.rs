//! The screen: a log of the bytes that the child wrote, and the size of the
//! terminal that they are laid out for.
use std::collections::TryReserveError;
use std::collections::VecDeque;
use vstd::prelude::*;
use vstd::utf8::decode_utf8;
use vstd::utf8::valid_utf8;

use crate::DISPLAY_DEFAULT_COL;
use crate::DISPLAY_DEFAULT_ROW;

verus! {

/// The byte that ends a line on the screen.
pub const LINE_FEED: u8 = 10;

/// Why a screen could not be resized.
#[derive(Clone, Copy, Debug, PartialEq, Eq, Structural)]
pub enum DisplayError {
    /// The room for a full screen of bytes could not be reserved.
    Reserve,
}

/// What a screen is: the bytes written to it, in order, and its size.
#[verifier::ext_equal]
pub struct DisplayView {
    pub log: Seq<u8>,
    pub columns: nat,
    pub rows: nat,
}

impl DisplayView {
    /// The empty screen of the given size.
    pub open spec fn empty(columns: nat, rows: nat) -> DisplayView {
        DisplayView { log: Seq::empty(), columns, rows }
    }

    /// The number of cells, or zero where that number is more than a
    /// `u16` holds.
    pub open spec fn capacity_hint(self) -> nat {
        if self.columns * self.rows <= u16::MAX {
            self.columns * self.rows
        } else {
            0
        }
    }

    /// Whether the first `k` bytes of the log are there and none of them
    /// ends a line.
    pub open spec fn clear_to(self, k: int) -> bool {
        0 <= k <= self.log.len() && forall|i: int| 0 <= i < k ==> self.log[i] != LINE_FEED
    }

    /// The byte in the cell of number `k`, counted row by row: the byte of
    /// the log at `k`, as long as the log reaches that far and holds no line
    /// feed up to and including `k`; zero from there on.
    pub open spec fn cell(self, k: int) -> u8 {
        if self.clear_to(k + 1) {
            self.log[k]
        } else {
            0
        }
    }

    /// The cells of row `y`.
    pub open spec fn row_cells(self, y: int) -> Seq<u8> {
        Seq::new(self.columns, |x: int| self.cell(y * self.columns + x))
    }

    /// The screen as `rows` rows of `columns` cells each.
    pub open spec fn matrix(self) -> Seq<Seq<u8>> {
        Seq::new(self.rows, |y: int| self.row_cells(y))
    }

    /// The screen after `bytes` were written to it.
    pub open spec fn write(self, bytes: Seq<u8>) -> DisplayView {
        DisplayView { log: self.log + bytes, ..self }
    }

    /// The screen after it was given a new size. The log stays.
    pub open spec fn resize(self, columns: nat, rows: nat) -> DisplayView {
        DisplayView { columns, rows, ..self }
    }

    /// How many bytes a reader gets that has room for `room` of them.
    pub open spec fn readable(self, room: nat) -> nat {
        if room <= self.log.len() {
            room
        } else {
            self.log.len()
        }
    }

    /// The bytes that a reader gets that has room for `room` of them: the
    /// front of the log.
    pub open spec fn front(self, room: nat) -> Seq<u8> {
        self.log.take(self.readable(room) as int)
    }
}

/// A decimal digit as a character.
pub open spec fn digit(d: nat) -> char
    recommends
        d < 10,
{
    (48 + d) as u8 as char
}

/// The decimal numeral of `n`, without leading zeros.
pub open spec fn decimal(n: nat) -> Seq<char>
    decreases n,
{
    if n < 10 {
        seq![digit(n)]
    } else {
        decimal(n / 10).push(digit(n % 10))
    }
}

/// The escape sequence that moves the cursor to column `x` of row `y`, both
/// counted from one: `ESC [ y ; x H`.
pub open spec fn goto_text(x: u16, y: u16) -> Seq<char> {
    seq!['\u{1b}', '['] + decimal(y as nat) + seq![';'] + decimal(x as nat) + seq!['H']
}

/// The text that `String::from_utf8_lossy` makes of `bytes`: the bytes
/// decoded as UTF-8, with U+FFFD in place of each invalid sequence.
pub uninterp spec fn utf8_lossy(bytes: Seq<u8>) -> Seq<char>;

/// What is drawn for the part `front` of the log: the cursor is sent to the
/// home position, then comes the text of `front`.
pub open spec fn rendering(front: Seq<u8>) -> Seq<char> {
    goto_text(1, 1) + utf8_lossy(front)
}

/// Formats `termion::cursor::Goto(x, y)`, which writes `ESC [`, the row,
/// `;`, the column and `H`, the two numbers in decimal. Its formatter
/// refuses the position (0, 0) in debug builds, so that one is left out.
#[verifier::external_body]
fn cursor_goto(x: u16, y: u16) -> (text: String)
    requires
        !(x == 0 && y == 0),
    ensures
        text@ == goto_text(x, y),
{
    format!("{}", termion::cursor::Goto(x, y))
}

/// Decodes with `String::from_utf8_lossy`. The result is named, not spelled
/// out; the one thing said of it is what the documentation gives for valid
/// input, which comes back as the string that it encodes.
#[verifier::external_body]
fn decode_lossy(bytes: &[u8]) -> (text: String)
    ensures
        text@ == utf8_lossy(bytes@),
        valid_utf8(bytes@) ==> text@ == decode_utf8(bytes@),
{
    String::from_utf8_lossy(bytes).into_owned()
}

/// The first of the two slices of `VecDeque::as_slices`, which together
/// hold the contents in order: so the first one is a front part of them.
/// How much it holds depends on where the ring buffer wraps.
#[verifier::external_body]
fn front_slice(log: &VecDeque<u8>) -> (front: &[u8])
    ensures
        front@.is_prefix_of(log@),
{
    log.as_slices().0
}

/// Calls `VecDeque::try_reserve`. Whether or not the allocator gave the
/// room, the contents are what they were.
#[verifier::external_body]
fn try_reserve(log: &mut VecDeque<u8>, additional: usize) -> (outcome: Result<(), TryReserveError>)
    ensures
        final(log)@ == old(log)@,
{
    log.try_reserve(additional)
}

/// The size to lay the screen out for, given what the terminal answered
/// when asked for its size: that size, or the default one if it gave none.
pub open spec fn chosen_geometry(answer: Option<(u16, u16)>) -> (u16, u16) {
    match answer {
        Some(given) => given,
        None => (DISPLAY_DEFAULT_COL, DISPLAY_DEFAULT_ROW),
    }
}

/// The size to lay the screen out for, given what the terminal answered
/// when asked for its size. A terminal that gives no size is no error: the
/// default size takes its place.
pub fn geometry_or_default(answer: Option<(u16, u16)>) -> (size: (u16, u16))
    ensures
        size == chosen_geometry(answer),
{
    match answer {
        Some(given) => given,
        None => (DISPLAY_DEFAULT_COL, DISPLAY_DEFAULT_ROW),
    }
}

/// The screen. Bytes are only ever added at the end of its log; reading it
/// takes nothing away.
pub struct Display {
    screen: VecDeque<u8>,
    col: u16,
    row: u16,
}

impl View for Display {
    type V = DisplayView;

    closed spec fn view(&self) -> DisplayView {
        DisplayView { log: self.screen@, columns: self.col as nat, rows: self.row as nat }
    }
}

impl Display {
    /// An empty screen of `columns` by `rows`.
    pub fn new(columns: u16, rows: u16) -> (display: Display)
        ensures
            display@ == DisplayView::empty(columns as nat, rows as nat),
    {
        let hint = columns.checked_mul(rows).unwrap_or(0);
        Display { screen: VecDeque::with_capacity(hint as usize), col: columns, row: rows }
    }

    /// An empty screen of the size that the terminal answered, or of the
    /// default size if it gave none.
    pub fn from_answer(answer: Option<(u16, u16)>) -> (display: Display)
        ensures
            display@ == DisplayView::empty(
                chosen_geometry(answer).0 as nat,
                chosen_geometry(answer).1 as nat,
            ),
    {
        let size = geometry_or_default(answer);
        Display::new(size.0, size.1)
    }

    /// The number of columns.
    pub fn columns(&self) -> (columns: u16)
        ensures
            columns == self@.columns,
    {
        self.col
    }

    /// The number of rows.
    pub fn rows(&self) -> (rows: u16)
        ensures
            rows == self@.rows,
    {
        self.row
    }

    /// The number of bytes in the log.
    pub fn written(&self) -> (count: usize)
        ensures
            count == self@.log.len(),
    {
        self.screen.len()
    }

    /// The number of cells of the screen, or zero where the product of
    /// columns and rows is more than a `u16` holds.
    pub fn capacity_hint(&self) -> (hint: usize)
        ensures
            hint == self@.capacity_hint(),
    {
        match self.col.checked_mul(self.row) {
            Some(cells) => cells as usize,
            None => 0,
        }
    }

    /// The byte at the front of the log, which stays where it is.
    pub fn next(&self) -> (byte: Option<u8>)
        ensures
            byte == if self@.log.len() > 0 {
                Some(self@.log[0])
            } else {
                None
            },
    {
        if self.screen.len() > 0 {
            Some(self.screen[0])
        } else {
            None
        }
    }

    /// Appends `buf` to the log, and says how many bytes that was.
    pub fn write(&mut self, buf: &[u8]) -> (count: usize)
        ensures
            final(self)@ == old(self)@.write(buf@),
            count == buf@.len(),
    {
        let mut i: usize = 0;
        while i < buf.len()
            invariant
                i <= buf@.len(),
                self.col == old(self).col,
                self.row == old(self).row,
                self.screen@ == old(self).screen@ + buf@.take(i as int),
            decreases buf@.len() - i,
        {
            self.screen.push_back(buf[i]);
            assert(buf@.take(i as int).push(buf@[i as int]) =~= buf@.take(i + 1));
            i += 1;
        }
        assert(buf@.take(i as int) =~= buf@);
        i
    }

    /// Copies the front of the log over the front of `buf`, as many bytes
    /// as both have, and says how many. The log keeps them.
    pub fn read(&self, buf: &mut [u8]) -> (count: usize)
        ensures
            count == self@.readable(old(buf)@.len()),
            final(buf)@ == self@.front(old(buf)@.len()) + old(buf)@.skip(count as int),
    {
        let mut i: usize = 0;
        while i < buf.len() && i < self.screen.len()
            invariant
                buf@.len() == old(buf)@.len(),
                i <= buf@.len(),
                i <= self.screen@.len(),
                forall|j: int| 0 <= j < i ==> buf@[j] == self.screen@[j],
                forall|j: int| i <= j < buf@.len() ==> buf@[j] == old(buf)@[j],
            decreases buf@.len() - i,
        {
            buf[i] = self.screen[i];
            i += 1;
        }
        assert(buf@ =~= self@.front(old(buf)@.len()) + old(buf)@.skip(i as int));
        i
    }

    /// The screen as rows of cells. The cells are filled row by row from the
    /// log. The first line feed of the log stops that: its own cell and all
    /// the cells after it hold zero, as do the cells that the log does not
    /// reach.
    pub fn to_matrix(&self) -> (matrix: Vec<Vec<u8>>)
        ensures
            matrix.deep_view() == self@.matrix(),
    {
        let mut matrix: Vec<Vec<u8>> = Vec::with_capacity(self.row as usize);
        let mut open: bool = true;
        let mut next: usize = 0;
        let mut y: u16 = 0;
        while y < self.row
            invariant
                y <= self.row,
                next == y * self.col,
                open == self@.clear_to(next as int),
                matrix@.len() == y,
                forall|j: int| 0 <= j < y ==> (#[trigger] matrix@[j])@ == self@.row_cells(j),
            decreases self.row - y,
        {
            let mut line: Vec<u8> = Vec::with_capacity(self.col as usize);
            let mut x: u16 = 0;
            while x < self.col
                invariant
                    y < self.row,
                    x <= self.col,
                    next == y * self.col + x,
                    open == self@.clear_to(next as int),
                    line@.len() == x,
                    forall|i: int|
                        0 <= i < x ==> #[trigger] line@[i] == self@.cell(y * self.col + i),
                decreases self.col - x,
            {
                let mut value: u8 = 0;
                if open {
                    if next < self.screen.len() {
                        let byte: u8 = self.screen[next];
                        if byte == LINE_FEED {
                            open = false;
                        } else {
                            value = byte;
                        }
                    } else {
                        open = false;
                    }
                }
                line.push(value);
                assert(y * self.col + x < 65535 * 65536) by (nonlinear_arith)
                    requires
                        0 <= y < 65535,
                        0 <= self.col <= 65535,
                        0 <= x < self.col,
                ;
                next += 1;
                x += 1;
            }
            assert(line@ =~= self@.row_cells(y as int));
            matrix.push(line);
            assert((y + 1) * self.col == y * self.col + self.col) by (nonlinear_arith);
            y += 1;
        }
        assert(matrix.deep_view() =~~= self@.matrix());
        matrix
    }

    /// What is drawn for a screen whose text is `decoded`: the escape
    /// sequence that sends the cursor home, then the text.
    pub fn draw(decoded: &str) -> (text: String)
        ensures
            text@ == goto_text(1, 1) + decoded@,
    {
        let home = cursor_goto(1, 1);
        home.concat(decoded)
    }

    /// What is drawn for the part of the log that `front` holds.
    pub fn render_front(front: &[u8]) -> (text: String)
        ensures
            text@ == rendering(front@),
            valid_utf8(front@) ==> text@ == goto_text(1, 1) + decode_utf8(front@),
    {
        let decoded = decode_lossy(front);
        Display::draw(decoded.as_str())
    }

    /// What is drawn for the screen: the cursor is sent to the home
    /// position, then comes the text of the first stretch of the log that
    /// lies in one piece in memory. That is a front part of the log, and
    /// need not be all of it.
    pub fn render(&self) -> (text: String)
        ensures
            exists|front: Seq<u8>| #[trigger]
                front.is_prefix_of(self@.log) && text@ == rendering(front),
    {
        let front = front_slice(&self.screen);
        let text = Display::render_front(front);
        assert(front@.is_prefix_of(self@.log) && text@ == rendering(front@));
        text
    }

    /// Reserves the room that a full screen of `columns` by `rows` needs,
    /// as far as the log does not fill it already, and reports whether the
    /// room was to be had. The screen stays as it is. Where the log is
    /// already as long as a full screen, nothing is asked for and the call
    /// succeeds.
    pub fn reserve_for(
        &mut self,
        columns: u16,
        rows: u16,
    ) -> (reserved: Result<(), TryReserveError>)
        ensures
            final(self)@ == old(self)@,
            old(self)@.resize(columns as nat, rows as nat).capacity_hint() <= old(self)@.log.len()
                ==> reserved is Ok,
    {
        let hint: usize = match columns.checked_mul(rows) {
            Some(cells) => cells as usize,
            None => 0,
        };
        let held: usize = self.screen.len();
        if hint <= held {
            Ok(())
        } else {
            try_reserve(&mut self.screen, hint - held)
        }
    }

    /// Gives the screen the size `columns` by `rows`, and reports a
    /// reservation that failed as the failure of the resize. The log stays
    /// as it is, and the new size holds either way.
    pub fn resize_with(
        &mut self,
        columns: u16,
        rows: u16,
        reserved: Result<(), TryReserveError>,
    ) -> (outcome: Result<(), DisplayError>)
        ensures
            final(self)@ == old(self)@.resize(columns as nat, rows as nat),
            outcome is Ok <==> reserved is Ok,
            outcome is Err ==> outcome == Err::<(), DisplayError>(DisplayError::Reserve),
    {
        self.col = columns;
        self.row = rows;
        match reserved {
            Ok(()) => Ok(()),
            Err(_) => Err(DisplayError::Reserve),
        }
    }

    /// Gives the screen the size `columns` by `rows` and reserves the room
    /// that a full screen of that size needs. The log stays as it is. The
    /// new size holds whether or not the room was to be had; where the log
    /// is already as long as a full screen, the call succeeds.
    pub fn resize(&mut self, columns: u16, rows: u16) -> (outcome: Result<(), DisplayError>)
        ensures
            final(self)@ == old(self)@.resize(columns as nat, rows as nat),
            final(self)@.capacity_hint() <= old(self)@.log.len() ==> outcome is Ok,
            outcome is Err ==> outcome == Err::<(), DisplayError>(DisplayError::Reserve),
    {
        let reserved = self.reserve_for(columns, rows);
        self.resize_with(columns, rows, reserved)
    }
}

impl Clone for Display {
    fn clone(&self) -> (copy: Display)
        ensures
            copy@ == self@,
    {
        Display { screen: self.screen.clone(), col: self.col, row: self.row }
    }
}

impl Default for Display {
    /// The empty screen of the default size.
    fn default() -> (display: Display)
        ensures
            display@ == DisplayView::empty(
                DISPLAY_DEFAULT_COL as nat,
                DISPLAY_DEFAULT_ROW as nat,
            ),
    {
        Display::new(DISPLAY_DEFAULT_COL, DISPLAY_DEFAULT_ROW)
    }
}

/// After a resize to `columns` by `rows` whose product a `u16` holds, the
/// capacity hint is that product.
pub proof fn law_resize_sets_capacity_hint(before: DisplayView, columns: u16, rows: u16)
    requires
        columns * rows <= u16::MAX,
    ensures
        before.resize(columns as nat, rows as nat).capacity_hint() == columns * rows,
{
}

/// After a resize to a size whose product is more than a `u16` holds, the
/// capacity hint is zero.
pub proof fn law_resize_clears_capacity_hint(before: DisplayView, columns: u16, rows: u16)
    requires
        columns * rows > u16::MAX,
    ensures
        before.resize(columns as nat, rows as nat).capacity_hint() == 0,
{
}

/// After a resize the screen is laid out by the new size alone: there are
/// `rows` rows of `columns` cells, and the cell in column `x` of row `y`
/// holds either zero or the byte of the log at `y * columns + x`, so no
/// byte of the log shows up in another cell than its own.
pub proof fn law_resize_then_partition(
    before: DisplayView,
    columns: nat,
    rows: nat,
    y: int,
    x: int,
)
    requires
        0 <= y < rows,
        0 <= x < columns,
    ensures
        before.resize(columns, rows).log == before.log,
        before.resize(columns, rows).matrix().len() == rows,
        before.resize(columns, rows).matrix()[y].len() == columns,
        before.resize(columns, rows).matrix()[y][x] == if before.clear_to(y * columns + x + 1) {
            before.log[y * columns + x]
        } else {
            0
        },
{
    let after = before.resize(columns, rows);
    assert(after.clear_to(y * columns + x + 1) == before.clear_to(y * columns + x + 1));
    assert(after.matrix()[y] == after.row_cells(y));
    assert(after.row_cells(y)[x] == after.cell(y * columns + x));
}

/// Two layouts of a screen that has not changed between them are the same.
pub proof fn law_matrix_repeats(screen: DisplayView, other: DisplayView)
    requires
        screen.log == other.log,
        screen.columns == other.columns,
        screen.rows == other.rows,
    ensures
        screen.matrix() == other.matrix(),
{
    assert(screen =~= other);
}

/// Reading after writing gives the front of the old log followed by what
/// was written: a reader with room for `room` bytes gets the first `room`
/// of those, or all of them if there are fewer.
pub proof fn law_read_after_write(before: DisplayView, bytes: Seq<u8>, room: nat)
    ensures
        before.write(bytes).readable(room) == if room <= before.log.len() + bytes.len() {
            room
        } else {
            before.log.len() + bytes.len()
        },
        before.write(bytes).front(room) == (before.log + bytes).take(
            before.write(bytes).readable(room) as int,
        ),
{
}

/// On an empty screen, writing some bytes and then reading as many gives
/// back those bytes, in their order.
pub proof fn law_write_then_read(before: DisplayView, bytes: Seq<u8>)
    requires
        before.log.len() == 0,
    ensures
        before.write(bytes).readable(bytes.len()) == bytes.len(),
        before.write(bytes).front(bytes.len()) == bytes,
{
    assert(before.write(bytes).front(bytes.len()) =~= bytes);
}

/// On any screen, the bytes that were written last are what a reader finds
/// behind the old log, in their order.
pub proof fn law_written_bytes_follow_log(before: DisplayView, bytes: Seq<u8>)
    ensures
        before.write(bytes).front(before.log.len() + bytes.len()).skip(before.log.len() as int)
            == bytes,
{
    assert(before.write(bytes).front(before.log.len() + bytes.len()).skip(
        before.log.len() as int,
    ) =~= bytes);
}

/// The text that sends the cursor home is `ESC [ 1 ; 1 H`.
pub proof fn law_home_text()
    ensures
        goto_text(1, 1) == seq!['\u{1b}', '[', '1', ';', '1', 'H'],
{
    assert(decimal(1) =~= seq!['1']);
    assert(goto_text(1, 1) =~= seq!['\u{1b}', '[', '1', ';', '1', 'H']);
}

} // verus!
