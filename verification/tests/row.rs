use notes::note::NoteObject;
use notes::clock::{FIRST_DATED_SECOND, LAST_DATED_SECOND};
use notes::row::{create_label, row_labels, LAST_FOUR_DIGIT_YEAR_SECOND};

#[test]
fn create_labels() {
    assert_eq!(create_label(0).as_deref(), Some("1970-01-01 00:00:00"));
    assert_eq!(create_label(1431648000).as_deref(), Some("2015-05-15 00:00:00"));
    assert_eq!(
        create_label(LAST_FOUR_DIGIT_YEAR_SECOND).as_deref(),
        Some("9999-12-31 23:59:59")
    );
    assert_eq!(create_label(i64::MAX), None);
}

#[test]
fn labels_of_a_row() {
    let n = NoteObject::new(1, "text".to_string(), Some(86400 + 3661)).unwrap();
    let l = row_labels(&n);
    assert_eq!(l.content, "text");
    assert_eq!(l.create.as_deref(), Some("1970-01-02 01:01:01"));
}

#[test]
fn create_label_range_ends() {
    assert!(create_label(LAST_DATED_SECOND).is_some());
    assert!(create_label(LAST_DATED_SECOND + 1).is_none());
    assert!(create_label(FIRST_DATED_SECOND).is_some());
    assert!(create_label(FIRST_DATED_SECOND - 1).is_none());
    assert!(create_label(i64::MIN).is_none());
    assert_eq!(create_label(-1).as_deref(), Some("1969-12-31 23:59:59"));
}
