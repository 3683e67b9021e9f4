use modal_editor::buffer::TextBuffer;

fn rows(b: &TextBuffer) -> Vec<String> {
    b.render().0.iter().map(|r| r.iter().collect()).collect()
}

fn cursor(b: &TextBuffer) -> (usize, usize) {
    let (_, row, col) = b.render();
    (row, col)
}

#[test]
fn from_splits_on_line_breaks() {
    let b = TextBuffer::from("ab\ncd");
    assert_eq!(rows(&b), vec!["ab", "cd"]);
    assert_eq!(cursor(&b), (0, 0));
}

#[test]
fn from_keeps_empty_rows() {
    assert_eq!(rows(&TextBuffer::from("")), vec![""]);
    assert_eq!(rows(&TextBuffer::from("\n")), vec!["", ""]);
    assert_eq!(rows(&TextBuffer::from("a\n")), vec!["a", ""]);
    assert_eq!(rows(&TextBuffer::from("\n\nb")), vec!["", "", "b"]);
}

#[test]
fn new_has_one_empty_row() {
    let b = TextBuffer::new();
    assert_eq!(rows(&b), vec![""]);
    assert_eq!(cursor(&b), (0, 0));
    assert_eq!(b.current_line_length(), 0);
}

#[test]
fn inserts_track_the_cursor() {
    let mut b = TextBuffer::new();
    for (k, c) in "héllo".chars().enumerate() {
        b.insert_char(c);
        assert_eq!(b.current_line_length(), k + 1);
        assert_eq!(cursor(&b), (0, k + 1));
    }
    assert_eq!(rows(&b), vec!["héllo"]);
}

#[test]
fn insert_goes_in_at_the_cursor() {
    let mut b = TextBuffer::from("ad\nxz");
    b.move_right();
    b.insert_char('b');
    b.insert_char('c');
    assert_eq!(rows(&b), vec!["abcd", "xz"]);
    assert_eq!(cursor(&b), (0, 3));
    b.move_right();
    b.split_line();
    b.split_line();
    b.move_right();
    assert_eq!(rows(&b), vec!["abcd", "", "", "xz"]);
    assert_eq!(cursor(&b), (2, 0));
}

#[test]
fn insert_in_a_later_row_goes_in_at_the_cursor() {
    let mut b = TextBuffer::from("ab\nxz");
    b.move_right();
    b.move_right();
    b.insert_char('\n');
    b.move_right();
    b.move_right();
    assert_eq!(cursor(&b), (1, 0));
    let mut b = TextBuffer::from("xz");
    b.move_right();
    b.insert_char('y');
    assert_eq!(rows(&b), vec!["xyz"]);
    b.insert_char('\n');
    b.move_right();
    b.insert_char('_');
    assert_eq!(rows(&b), vec!["xy", "z_"]);
    assert_eq!(cursor(&b), (1, 2));
}

#[test]
fn split_keeps_the_text_at_every_column() {
    for at in 0..=3 {
        let mut b = TextBuffer::from("top\nabc\nend");
        b.split_line();
        for _ in 0..at {
            b.move_right();
        }
        b.split_line();
        let r = rows(&b);
        assert_eq!(r.len(), 5);
        assert_eq!(r[0], "");
        assert_eq!(format!("{}{}", r[1], r[2]), "top");
        assert_eq!(cursor(&b), (2, 0));
    }
    for at in 0..=3 {
        let mut b = TextBuffer::from("abc\nend");
        for _ in 0..at {
            b.move_right();
        }
        b.split_line();
        let r = rows(&b);
        assert_eq!(format!("{}\n{}", r[0], r[1]), {
            let mut s = String::from("abc");
            s.insert(at, '\n');
            s
        });
        assert_eq!(format!("{}{}", r[0], r[1]), "abc");
        assert_eq!(r[2], "end");
        assert_eq!(cursor(&b), (1, 0));
    }
}

#[test]
fn moves_stay_in_the_row() {
    let mut b = TextBuffer::from("ab\ncdef");
    b.move_left();
    b.move_left();
    assert_eq!(cursor(&b), (0, 0));
    for _ in 0..5 {
        b.move_right();
    }
    assert_eq!(cursor(&b), (0, 2));
    b.move_left();
    assert_eq!(cursor(&b), (0, 1));
    b.insert_char('\n');
    assert_eq!(rows(&b), vec!["a", "b", "cdef"]);
    b.move_right();
    b.move_right();
    assert_eq!(cursor(&b), (1, 1));
    assert_eq!(b.current_line_length(), 1);
}
