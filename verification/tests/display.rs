use pty_proc::prelude::Display;
use pty_proc::prelude::DisplayError;
use pty_proc::prelude::DISPLAY_DEFAULT_COL;
use pty_proc::prelude::DISPLAY_DEFAULT_ROW;
use pty_proc::shell::display::geometry_or_default;

fn screen(columns: u16, rows: u16, bytes: &[u8]) -> Display {
    let mut display = Display::new(columns, rows);
    display.write(bytes);
    display
}

#[test]
fn matrix_stops_at_the_first_line_feed() {
    let display = screen(2, 2, b"AB\nCD");
    assert_eq!(display.to_matrix(), vec![vec![b'A', b'B'], vec![0, 0]]);
}

#[test]
fn matrix_is_the_same_when_asked_again() {
    let display = screen(2, 2, b"AB\nCD");
    let first = display.to_matrix();
    let second = display.to_matrix();
    assert_eq!(first, second);
    assert_eq!(display.written(), 5);
}

#[test]
fn matrix_fills_row_by_row() {
    assert_eq!(
        screen(3, 2, b"ABCDEFGH").to_matrix(),
        vec![vec![b'A', b'B', b'C'], vec![b'D', b'E', b'F']]
    );
    assert_eq!(
        screen(3, 2, b"ABCD").to_matrix(),
        vec![vec![b'A', b'B', b'C'], vec![b'D', 0, 0]]
    );
    assert_eq!(screen(3, 2, b"").to_matrix(), vec![vec![0, 0, 0], vec![0, 0, 0]]);
}

#[test]
fn matrix_pads_with_zero_after_a_line_feed() {
    assert_eq!(
        screen(3, 2, b"A\nBCDE").to_matrix(),
        vec![vec![b'A', 0, 0], vec![0, 0, 0]]
    );
    assert_eq!(
        screen(3, 2, b"\nABC").to_matrix(),
        vec![vec![0, 0, 0], vec![0, 0, 0]]
    );
    assert_eq!(
        screen(2, 3, b"AB\rC\nD").to_matrix(),
        vec![vec![b'A', b'B'], vec![b'\r', b'C'], vec![0, 0]]
    );
}

#[test]
fn matrix_of_an_empty_size_is_empty() {
    assert_eq!(screen(4, 0, b"abc").to_matrix(), Vec::<Vec<u8>>::new());
    assert_eq!(screen(0, 2, b"abc").to_matrix(), vec![Vec::<u8>::new(), Vec::new()]);
}

#[test]
fn write_appends_and_counts() {
    let mut display = Display::new(4, 4);
    assert_eq!(display.write(b"abc"), 3);
    assert_eq!(display.write(b""), 0);
    assert_eq!(display.write(b"de"), 2);
    assert_eq!(display.written(), 5);
    let mut held = [0u8; 5];
    assert_eq!(display.read(&mut held), 5);
    assert_eq!(&held, b"abcde");
}

#[test]
fn read_copies_the_front_and_consumes_nothing() {
    let display = screen(4, 4, b"hello");
    let mut short = [0u8; 3];
    assert_eq!(display.read(&mut short), 3);
    assert_eq!(&short, b"hel");
    let mut long = [9u8; 8];
    assert_eq!(display.read(&mut long), 5);
    assert_eq!(&long, &[b'h', b'e', b'l', b'l', b'o', 9, 9, 9]);
    let mut none: [u8; 0] = [];
    assert_eq!(display.read(&mut none), 0);
    let mut again = [0u8; 3];
    assert_eq!(display.read(&mut again), 3);
    assert_eq!(&again, b"hel");
    assert_eq!(display.written(), 5);
}

#[test]
fn read_of_an_empty_screen_copies_nothing() {
    let display = Display::new(4, 4);
    let mut held = [7u8; 2];
    assert_eq!(display.read(&mut held), 0);
    assert_eq!(held, [7, 7]);
}

#[test]
fn written_bytes_are_read_back_in_order() {
    let mut display = Display::new(80, 24);
    let bytes: Vec<u8> = (0..=255u8).collect();
    assert_eq!(display.write(&bytes), 256);
    let mut held = vec![0u8; 256];
    assert_eq!(display.read(&mut held), 256);
    assert_eq!(held, bytes);
}

#[test]
fn read_after_a_second_write_starts_at_the_front() {
    let mut display = screen(4, 4, b"x");
    display.write(b"ab");
    let mut two = [0u8; 2];
    assert_eq!(display.read(&mut two), 2);
    assert_eq!(&two, b"xa");
    let mut three = [0u8; 3];
    assert_eq!(display.read(&mut three), 3);
    assert_eq!(&three[1..], b"ab");
}

#[test]
fn next_peeks_at_the_front() {
    let display = screen(4, 4, b"hi");
    assert_eq!(display.next(), Some(b'h'));
    assert_eq!(display.next(), Some(b'h'));
    assert_eq!(Display::new(4, 4).next(), None);
}

#[test]
fn capacity_hint_is_the_number_of_cells() {
    assert_eq!(Display::new(80, 24).capacity_hint(), 1920);
    assert_eq!(Display::new(0, 24).capacity_hint(), 0);
    assert_eq!(Display::new(1, 1).capacity_hint(), 1);
    assert_eq!(Display::new(255, 257).capacity_hint(), 65535);
    assert_eq!(Display::new(65535, 1).capacity_hint(), 65535);
}

#[test]
fn capacity_hint_is_zero_on_overflow() {
    assert_eq!(Display::new(256, 256).capacity_hint(), 0);
    assert_eq!(Display::new(65535, 65535).capacity_hint(), 0);
    assert_eq!(Display::new(32768, 2).capacity_hint(), 0);
}

#[test]
fn resize_sets_the_size_and_keeps_the_log() {
    let mut display = screen(2, 2, b"AB\nCD");
    assert_eq!(display.resize(3, 1), Ok(()));
    assert_eq!(display.columns(), 3);
    assert_eq!(display.rows(), 1);
    assert_eq!(display.capacity_hint(), 3);
    assert_eq!(display.written(), 5);
    assert_eq!(display.to_matrix(), vec![vec![b'A', b'B', 0]]);
    assert_eq!(display.resize(1, 4), Ok(()));
    assert_eq!(
        display.to_matrix(),
        vec![vec![b'A'], vec![b'B'], vec![0], vec![0]]
    );
    assert_eq!(display.resize(300, 300), Ok(()));
    assert_eq!(display.capacity_hint(), 0);
    assert_eq!(display.columns(), 300);
    assert_eq!(display.resize(120, 50), Ok(()));
    assert_eq!(display.capacity_hint(), 6000);
}

#[test]
fn resize_reports_a_failed_reservation() {
    let failed = Vec::<u8>::new().try_reserve(usize::MAX);
    assert!(failed.is_err());
    let mut display = screen(2, 2, b"AB");
    assert_eq!(display.resize_with(5, 6, failed), Err(DisplayError::Reserve));
    assert_eq!(display.columns(), 5);
    assert_eq!(display.rows(), 6);
    assert_eq!(display.written(), 2);
    assert_eq!(display.resize_with(7, 8, Ok(())), Ok(()));
    assert_eq!(display.columns(), 7);
    assert_eq!(display.rows(), 8);
}

#[test]
fn render_front_sends_the_cursor_home_first() {
    assert_eq!(Display::render_front(b"hi"), "\x1b[1;1Hhi");
    assert_eq!(Display::render_front(b""), "\x1b[1;1H");
    assert_eq!(Display::render_front("é".as_bytes()), "\x1b[1;1Hé");
}

#[test]
fn draw_puts_the_home_sequence_before_the_text() {
    assert_eq!(Display::draw("hi"), "\x1b[1;1Hhi");
    assert_eq!(Display::draw(""), "\x1b[1;1H");
    assert_eq!(Display::draw("a\nb"), "\x1b[1;1Ha\nb");
}

#[test]
fn reserve_for_leaves_the_screen_alone() {
    let mut display = screen(2, 2, b"abcde");
    assert!(display.reserve_for(2, 2).is_ok());
    assert!(display.reserve_for(80, 24).is_ok());
    assert!(display.reserve_for(300, 300).is_ok());
    assert_eq!((display.columns(), display.rows()), (2, 2));
    assert_eq!(display.written(), 5);
    assert_eq!(display.to_matrix(), vec![vec![b'a', b'b'], vec![b'c', b'd']]);
}

#[test]
fn render_front_replaces_invalid_bytes() {
    assert_eq!(Display::render_front(&[b'a', 0xff, b'b']), "\x1b[1;1Ha\u{fffd}b");
    assert_eq!(Display::render_front(&[0xc3]), "\x1b[1;1H\u{fffd}");
}

#[test]
fn render_draws_a_front_part_of_the_log() {
    let display = screen(80, 24, b"hello\nworld");
    let text = display.render();
    let drawn = text.strip_prefix("\x1b[1;1H").unwrap();
    assert!("hello\nworld".starts_with(drawn));
    assert_eq!(Display::new(80, 24).render(), "\x1b[1;1H");
}

#[test]
fn default_screen_is_empty_and_of_the_default_size() {
    let display = Display::default();
    assert_eq!(display.columns(), DISPLAY_DEFAULT_COL);
    assert_eq!(display.rows(), DISPLAY_DEFAULT_ROW);
    assert_eq!(display.columns(), 80);
    assert_eq!(display.rows(), 24);
    assert_eq!(display.written(), 0);
}

#[test]
fn failed_size_query_falls_back_to_the_default() {
    assert_eq!(geometry_or_default(None), (80, 24));
    assert_eq!(geometry_or_default(Some((132, 43))), (132, 43));
    assert_eq!(geometry_or_default(Some((0, 0))), (0, 0));
    let display = Display::from_answer(None);
    assert_eq!((display.columns(), display.rows()), (80, 24));
    let display = Display::from_answer(Some((100, 40)));
    assert_eq!((display.columns(), display.rows()), (100, 40));
    assert_eq!(display.written(), 0);
}

#[test]
fn clone_is_a_copy_of_its_own() {
    let mut display = screen(2, 2, b"ab");
    let copy = display.clone();
    display.write(b"cd");
    assert_eq!(display.resize(4, 1), Ok(()));
    assert_eq!(copy.written(), 2);
    assert_eq!(copy.columns(), 2);
    assert_eq!(copy.to_matrix(), vec![vec![b'a', b'b'], vec![0, 0]]);
    assert_eq!(display.to_matrix(), vec![vec![b'a', b'b', b'c', b'd']]);
}
