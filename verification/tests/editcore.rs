use editcore::buffer::Buffer;
use editcore::buffer::BufferError;
use editcore::cursor::Cursor;
use editcore::editor::EditorView;
use editcore::editor::Event;
use editcore::editor::EventResult;
use editcore::editor::Size;

fn chars_of(s: &str) -> Vec<char> {
    s.chars().collect()
}

#[test]
fn empty_buffer_is_one_empty_line() {
    let b = Buffer::new();
    assert_eq!(b.num_chars(), 0);
    assert_eq!(b.num_lines(), 1);
    assert_eq!(b.get_char(0), Err(BufferError::OutOfRange));
    assert!(b.path().is_none());
    assert!(!b.is_dirty());
}

#[test]
fn from_text_keeps_content_and_path() {
    let b = Buffer::from_text("ab", Some(String::from("/tmp/ab.txt")));
    assert_eq!(b.num_chars(), 2);
    assert_eq!(b.chars(), chars_of("ab"));
    assert_eq!(b.path(), Some(&String::from("/tmp/ab.txt")));
    assert!(!b.is_dirty());
}

#[test]
fn get_char_reads_by_absolute_index() {
    let b = Buffer::from_text("a\nb", None);
    assert_eq!(b.get_char(0), Ok('a'));
    assert_eq!(b.get_char(1), Ok('\n'));
    assert_eq!(b.get_char(2), Ok('b'));
    assert_eq!(b.get_char(3), Err(BufferError::OutOfRange));
}

#[test]
fn line_queries_follow_terminators() {
    let b = Buffer::from_text("line1\nline2\n", None);
    assert_eq!(b.num_chars(), 12);
    // The trailing terminator opens a final empty line.
    assert_eq!(b.num_lines(), 3);
    assert_eq!(b.get_line(0), Ok(chars_of("line1\n")));
    assert_eq!(b.get_line(1), Ok(chars_of("line2\n")));
    assert_eq!(b.get_line(2), Ok(chars_of("")));
    assert_eq!(b.get_line(3), Err(BufferError::OutOfRange));
    assert_eq!(b.line_to_char(0), Ok(0));
    assert_eq!(b.line_to_char(1), Ok(6));
    assert_eq!(b.line_to_char(2), Ok(12));
    assert_eq!(b.line_to_char(3), Err(BufferError::OutOfRange));
}

#[test]
fn last_line_without_terminator() {
    let b = Buffer::from_text("ab\ncd", None);
    assert_eq!(b.num_lines(), 2);
    assert_eq!(b.get_line(0), Ok(chars_of("ab\n")));
    assert_eq!(b.get_line(1), Ok(chars_of("cd")));
    assert_eq!(b.line_to_char(1), Ok(3));
}

#[test]
fn lines_snapshot_is_independent() {
    let mut b = Buffer::from_text("a\nb", None);
    let snapshot = b.lines();
    assert_eq!(snapshot, vec![chars_of("a\n"), chars_of("b")]);
    let held = b.chars();
    b.insert_char(0, 'z').unwrap();
    assert_eq!(snapshot, vec![chars_of("a\n"), chars_of("b")]);
    assert_eq!(held, chars_of("a\nb"));
    assert_eq!(b.chars(), chars_of("za\nb"));
}

#[test]
fn insert_shifts_content_and_marks_dirty() {
    let mut b = Buffer::from_text("ad", None);
    assert_eq!(b.insert(1, "bc"), Ok(()));
    assert_eq!(b.chars(), chars_of("abcd"));
    assert!(b.is_dirty());
}

#[test]
fn insert_past_end_is_out_of_range() {
    let mut b = Buffer::from_text("ab", None);
    assert_eq!(b.insert(3, "x"), Err(BufferError::OutOfRange));
    assert_eq!(b.insert_char(3, 'x'), Err(BufferError::OutOfRange));
    assert_eq!(b.chars(), chars_of("ab"));
    assert!(!b.is_dirty());
}

#[test]
fn remove_deletes_half_open_range() {
    let mut b = Buffer::from_text("abcd", None);
    assert_eq!(b.remove(1, 3), Ok(()));
    assert_eq!(b.chars(), chars_of("ad"));
    assert!(b.is_dirty());
}

#[test]
fn remove_rejects_bad_ranges() {
    let mut b = Buffer::from_text("ab", None);
    assert_eq!(b.remove(2, 1), Err(BufferError::InvalidRange));
    assert_eq!(b.remove(0, 3), Err(BufferError::InvalidRange));
    assert_eq!(b.chars(), chars_of("ab"));
    assert!(!b.is_dirty());
}

#[test]
fn insert_then_remove_round_trips() {
    let mut b = Buffer::from_text("hello\nworld", None);
    assert_eq!(b.insert(3, "xyz"), Ok(()));
    assert_eq!(b.chars(), chars_of("helxyzlo\nworld"));
    assert_eq!(b.remove(3, 6), Ok(()));
    assert_eq!(b.chars(), chars_of("hello\nworld"));
}

#[test]
fn cursor_starts_at_origin() {
    let c = Cursor::new();
    assert_eq!(c.x(), 0);
    assert_eq!(c.y(), 0);
    let c2 = Cursor::at(3, 7);
    assert_eq!(c2.x(), 3);
    assert_eq!(c2.y(), 7);
}

#[test]
fn right_then_left_returns_to_start() {
    let mut c = Cursor::at(5, 2);
    c.right();
    assert_eq!(c.x(), 6);
    c.left();
    assert_eq!(c.x(), 5);
    assert_eq!(c.y(), 2);

    let mut c0 = Cursor::new();
    c0.right();
    c0.left();
    assert_eq!(c0.x(), 0);
}

#[test]
fn left_and_up_clamp_at_zero() {
    let mut c = Cursor::new();
    c.left();
    assert_eq!(c.x(), 0);
    c.up();
    assert_eq!(c.y(), 0);
    let mut c2 = Cursor::at(0, 1);
    c2.up();
    assert_eq!(c2.y(), 0);
    c2.down();
    assert_eq!(c2.y(), 1);
}

#[test]
fn absolute_index_is_line_start_plus_column() {
    let b = Buffer::from_text("line1\nline2\n", None);
    let c = Cursor::at(0, 1);
    assert_eq!(c.index(&b), Ok(6));
    // The index is recomputed, not cached: asking twice without an
    // intervening mutation yields the same value.
    assert_eq!(c.index(&b), Ok(6));
    let c2 = Cursor::at(3, 1);
    assert_eq!(c2.index(&b), Ok(b.line_to_char(1).unwrap() + 3));
    let off_the_end = Cursor::at(0, 3);
    assert_eq!(off_the_end.index(&b), Err(BufferError::OutOfRange));
}

#[test]
fn char_under_cursor() {
    let b = Buffer::from_text("ab\ncd", None);
    assert_eq!(Cursor::at(1, 0).char(&b), Ok('b'));
    assert_eq!(Cursor::at(0, 1).char(&b), Ok('c'));
    // Column past the line runs into later content; row past the document
    // fails.
    assert_eq!(Cursor::at(9, 0).char(&b), Err(BufferError::OutOfRange));
    assert_eq!(Cursor::at(0, 2).char(&b), Err(BufferError::OutOfRange));
}

#[test]
fn is_past_end_is_one_short_of_line_length() {
    let b = Buffer::from_text("ab\ncd", None);
    // Line 0 is "ab\n", three characters long: column 2 sits on the
    // terminator slot, one short of the full length.
    assert_eq!(Cursor::at(1, 0).is_past_end(&b), Ok(false));
    assert_eq!(Cursor::at(2, 0).is_past_end(&b), Ok(true));
    // The last line has no terminator: one short of the full length.
    assert_eq!(Cursor::at(0, 1).is_past_end(&b), Ok(false));
    assert_eq!(Cursor::at(1, 1).is_past_end(&b), Ok(true));
    assert_eq!(Cursor::at(0, 2).is_past_end(&b), Err(BufferError::OutOfRange));
    // On a single empty line no column is one short of the length.
    let empty = Buffer::new();
    assert_eq!(Cursor::at(0, 0).is_past_end(&empty), Ok(false));
}

#[test]
fn typing_two_characters() {
    let mut ev = EditorView::new(Buffer::new());
    assert_eq!(ev.on_event(Event::Char('a')), EventResult::Consumed);
    assert_eq!(ev.on_event(Event::Char('b')), EventResult::Consumed);
    assert_eq!(ev.cursor_position(), (2, 0));
    assert_eq!(ev.cached_index(), 2);
    let mut c = Cursor::new();
    c.right();
    c.right();
    assert_eq!((c.x(), c.y()), (2, 0));
}

#[test]
fn enter_inserts_terminator_without_wrapping_cursor() {
    let mut ev = EditorView::new(Buffer::from_text("ab", None));
    assert_eq!(ev.on_event(Event::Enter), EventResult::Consumed);
    // The terminator is inserted and the cursor moves right, not to the
    // start of the next line.
    assert_eq!(ev.cursor_position(), (1, 0));
    assert_eq!(ev.cached_index(), 1);
}

#[test]
fn backspace_removes_before_cursor() {
    let mut ev = EditorView::new(Buffer::from_text("ab", None));
    assert_eq!(ev.on_event(Event::Right), EventResult::Consumed);
    assert_eq!(ev.cursor_position(), (1, 0));
    assert_eq!(ev.cached_index(), 1);
    assert_eq!(ev.on_event(Event::Backspace), EventResult::Consumed);
    assert_eq!(ev.cursor_position(), (0, 0));
    assert_eq!(ev.cached_index(), 0);
}

#[test]
fn backspace_at_start_changes_nothing() {
    let mut ev = EditorView::new(Buffer::from_text("ab", None));
    assert_eq!(ev.on_event(Event::Backspace), EventResult::Consumed);
    assert_eq!(ev.cursor_position(), (0, 0));
    assert_eq!(ev.cached_index(), 0);
}

#[test]
fn right_is_blocked_at_line_end() {
    let mut ev = EditorView::new(Buffer::from_text("a", None));
    // On a one-character line the origin is already one short of the line
    // length, so a rightward move is ignored.
    assert_eq!(ev.on_event(Event::Right), EventResult::Ignored);
    assert_eq!(ev.cursor_position(), (0, 0));
}

#[test]
fn down_is_unclamped_and_cache_clamps() {
    let mut ev = EditorView::new(Buffer::from_text("ab", None));
    assert_eq!(ev.on_event(Event::Down), EventResult::Consumed);
    assert_eq!(ev.cursor_position(), (0, 1));
    // The cursor left the document, so the cache clamps to its end.
    assert_eq!(ev.cached_index(), 2);
    assert_eq!(ev.on_event(Event::Down), EventResult::Consumed);
    assert_eq!(ev.cursor_position(), (0, 2));
    assert_eq!(ev.cached_index(), 2);
    assert_eq!(ev.on_event(Event::Up), EventResult::Consumed);
    assert_eq!(ev.on_event(Event::Up), EventResult::Consumed);
    assert_eq!(ev.cursor_position(), (0, 0));
    assert_eq!(ev.cached_index(), 0);
}

#[test]
fn unknown_events_are_ignored() {
    let mut ev = EditorView::new(Buffer::from_text("ab", None));
    assert_eq!(ev.on_event(Event::Other), EventResult::Ignored);
    assert_eq!(ev.cursor_position(), (0, 0));
    assert_eq!(ev.cached_index(), 0);
}

#[test]
fn direct_remove_without_cache_is_a_no_op() {
    let mut ev = EditorView::new(Buffer::from_text("ab", None));
    // The cached index is 0: nothing is removed, yet the cursor still
    // moves left (and clamps at the origin).
    ev.remove(1);
    assert_eq!(ev.cursor_position(), (0, 0));
    assert_eq!(ev.cached_index(), 0);
}

#[test]
fn layout_and_required_size() {
    let mut ev = EditorView::new(Buffer::new());
    let want = Size { x: 80, y: 24 };
    assert_eq!(ev.required_size(want), want);
    assert_eq!(ev.view_size(), Size { x: 0, y: 0 });
    ev.layout(want);
    assert_eq!(ev.view_size(), want);
}

#[test]
fn draw_plans_visible_lines_then_cursor() {
    let mut ev = EditorView::new(Buffer::from_text("ab\ncd", None));
    ev.layout(Size { x: 80, y: 50 });
    let cmds = ev.draw_commands();
    assert_eq!(cmds.len(), 3);
    assert_eq!((cmds[0].x, cmds[0].y), (0, 0));
    assert_eq!(cmds[0].text, chars_of("ab\n"));
    assert!(!cmds[0].highlight);
    assert_eq!((cmds[1].x, cmds[1].y), (0, 1));
    assert_eq!(cmds[1].text, chars_of("cd"));
    assert!(!cmds[1].highlight);
    // The character under the cursor is painted highlighted at the
    // cursor's screen position.
    assert_eq!((cmds[2].x, cmds[2].y), (0, 0));
    assert_eq!(cmds[2].text, chars_of("a"));
    assert!(cmds[2].highlight);
}

#[test]
fn draw_stops_at_the_viewport_edge() {
    let mut ev = EditorView::new(Buffer::from_text("a\nb\nc", None));
    ev.layout(Size { x: 80, y: 1 });
    let cmds = ev.draw_commands();
    // Rows 0 and 1 fit; row 2 does not.  The cursor cell follows.
    assert_eq!(cmds.len(), 3);
    assert_eq!(cmds[0].text, chars_of("a\n"));
    assert_eq!(cmds[1].text, chars_of("b\n"));
    assert!(cmds[2].highlight);
}

#[test]
fn draw_skips_cursor_outside_the_document() {
    let mut ev = EditorView::new(Buffer::new());
    ev.layout(Size { x: 80, y: 24 });
    let cmds = ev.draw_commands();
    // One empty visible line; the empty document has no character for the
    // cursor to highlight.
    assert_eq!(cmds.len(), 1);
    assert_eq!(cmds[0].text, chars_of(""));
    assert!(!cmds[0].highlight);
}

#[test]
fn unicode_content_is_indexed_by_character() {
    let mut b = Buffer::from_text("héllo\nwörld", None);
    assert_eq!(b.num_chars(), 11);
    assert_eq!(b.get_char(1), Ok('é'));
    assert_eq!(b.line_to_char(1), Ok(6));
    assert_eq!(b.get_line(1), Ok(chars_of("wörld")));
    assert_eq!(b.insert(5, "ß"), Ok(()));
    assert_eq!(b.chars(), chars_of("hélloß\nwörld"));
}

#[test]
fn terminator_only_documents() {
    let b = Buffer::from_text("\n", None);
    assert_eq!(b.num_lines(), 2);
    assert_eq!(b.get_line(0), Ok(chars_of("\n")));
    assert_eq!(b.get_line(1), Ok(chars_of("")));
    assert_eq!(b.line_to_char(1), Ok(1));
    let b2 = Buffer::from_text("\n\n\n", None);
    assert_eq!(b2.num_lines(), 4);
    assert_eq!(b2.line_to_char(3), Ok(3));
}

#[test]
fn editing_session_keeps_cache_in_sync() {
    let mut ev = EditorView::new(Buffer::new());
    for c in ['h', 'i'] {
        assert_eq!(ev.on_event(Event::Char(c)), EventResult::Consumed);
    }
    assert_eq!(ev.on_event(Event::Enter), EventResult::Consumed);
    // The cursor stays on row 0 after the terminator, columns onward.
    assert_eq!(ev.cursor_position(), (3, 0));
    assert_eq!(ev.cached_index(), 3);
    assert_eq!(ev.buffer().chars(), chars_of("hi\n"));
    // Down enters row 1 (the empty last line); column 3 lies past the
    // document, so the cache clamps to its end.
    assert_eq!(ev.on_event(Event::Down), EventResult::Consumed);
    assert_eq!(ev.cursor_position(), (3, 1));
    assert_eq!(ev.cached_index(), 3);
    assert_eq!(ev.on_event(Event::Char('!')), EventResult::Consumed);
    assert_eq!(ev.buffer().chars(), chars_of("hi\n!"));
    // Backspace twice deletes the new character, then the terminator.
    assert_eq!(ev.on_event(Event::Backspace), EventResult::Consumed);
    assert_eq!(ev.on_event(Event::Backspace), EventResult::Consumed);
    assert_eq!(ev.buffer().chars(), chars_of("hi"));
}

#[test]
fn typing_after_loading_builds_mixed_content() {
    let mut ev = EditorView::new(Buffer::from_text("cd", None));
    assert_eq!(ev.on_event(Event::Char('a')), EventResult::Consumed);
    assert_eq!(ev.on_event(Event::Char('b')), EventResult::Consumed);
    assert_eq!(ev.cached_index(), 2);
    ev.insert('!');
    // A direct insert mutates the buffer at the cache and moves the
    // cursor, leaving the cache to the next dispatched event.
    assert_eq!(ev.cursor_position(), (3, 0));
    assert_eq!(ev.cached_index(), 2);
}
