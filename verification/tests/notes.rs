use notes::actions::{
    create_page_save, details_page_save, new_note, new_note_at, CreatePageAction,
    DetailsSaveAction, NewNote,
};
use notes::clock::{now_timestamp, timestamp_from_clock, LAST_DATED_SECOND};
use notes::note::{NoteData, NoteObject};

#[test]
fn note_data_default() {
    let d = NoteData::default();
    assert_eq!(d.id, 0);
    assert_eq!(d.content, "");
    assert_eq!(d.create, 0);
    assert_eq!(d.update, None);
}

#[test]
fn note_with_given_time() {
    let n = NoteObject::new(3, "abc".to_string(), Some(1431648000)).unwrap();
    assert_eq!(n.id(), 3);
    assert_eq!(n.content(), "abc");
    assert_eq!(n.create(), 1431648000);
}

#[test]
fn note_at_given_now() {
    let n = NoteObject::new_at(1, "x".to_string(), None, 77);
    assert_eq!(n.create(), 77);
    let n = NoteObject::new_at(1, "x".to_string(), Some(5), 77);
    assert_eq!(n.create(), 5);
}

#[test]
fn note_created_now() {
    let before = chrono::Utc::now().timestamp();
    let n = NoteObject::new(0, "now".to_string(), None).unwrap();
    let after = chrono::Utc::now().timestamp();
    assert!(before <= n.create() && n.create() <= after);
}

#[test]
fn note_setters() {
    let mut n = NoteObject::new(1, "a".to_string(), Some(2)).unwrap();
    n.set_id(4);
    n.set_content("b".to_string());
    n.set_create(6);
    assert_eq!((n.id(), n.content(), n.create()), (4, "b".to_string(), 6));
    let c = n.duplicate();
    assert_eq!((c.id(), c.content(), c.create()), (4, "b".to_string(), 6));
}

#[test]
fn empty_text_adds_no_note() {
    assert!(matches!(new_note(""), NewNote::EmptyText));
    assert!(new_note_at("", 10).is_none());
    let n = match new_note("hi") {
        NewNote::Ready(n) => n,
        _ => panic!("expected a note"),
    };
    assert_eq!((n.id(), n.content()), (0, "hi".to_string()));
    let n = new_note_at("hi", 10).unwrap();
    assert_eq!((n.id(), n.content(), n.create()), (0, "hi".to_string(), 10));
}

#[test]
fn create_page_save_button() {
    assert!(matches!(create_page_save(String::new()), CreatePageAction::Ignore));
    match create_page_save("new".to_string()) {
        CreatePageAction::CreateAndBack(t) => assert_eq!(t, "new"),
        CreatePageAction::Ignore => panic!("expected a new note"),
    }
}

#[test]
fn details_page_save_button() {
    let mut n = NoteObject::new(5, "old".to_string(), Some(9)).unwrap();
    assert!(matches!(details_page_save(&mut n, String::new()), DetailsSaveAction::Ignore));
    assert_eq!(n.content(), "old");
    assert!(matches!(details_page_save(&mut n, "old".to_string()), DetailsSaveAction::Back));
    assert_eq!(n.content(), "old");
    assert!(matches!(
        details_page_save(&mut n, "new".to_string()),
        DetailsSaveAction::UpdateAndBack
    ));
    assert_eq!((n.id(), n.content(), n.create()), (5, "new".to_string(), 9));
}

#[test]
fn new_note_now_is_not_before_epoch() {
    let before = chrono::Utc::now().timestamp();
    let n = match new_note("t") {
        NewNote::Ready(n) => n,
        _ => panic!("expected a note"),
    };
    let after = chrono::Utc::now().timestamp();
    assert!(0 <= n.create() && before <= n.create() && n.create() <= after);
}

#[test]
fn clock_readings() {
    assert_eq!(timestamp_from_clock(None), None);
    assert_eq!(timestamp_from_clock(Some(0)), Some(0));
    assert_eq!(timestamp_from_clock(Some(1431648000)), Some(1431648000));
    assert_eq!(timestamp_from_clock(Some(LAST_DATED_SECOND as u64)), Some(LAST_DATED_SECOND));
    assert_eq!(timestamp_from_clock(Some(LAST_DATED_SECOND as u64 + 1)), None);
    assert_eq!(timestamp_from_clock(Some(u64::MAX)), None);
    let now = now_timestamp().unwrap();
    assert!(now > 1_600_000_000 && now <= LAST_DATED_SECOND);
}
