use dmd_core::history::{History, HistoryEntry};

#[test]
fn creates_history_with_initial_capacity() {
    let history = History::new(1024);
    assert_eq!(1024, history.capacity());
}

#[test]
fn pushes_back() {
    let mut history = History::new(3);
    assert_eq!(0, history.len());
    assert_eq!(0, history.index);
    history.push(HistoryEntry { text: "FOO".to_owned(), pc: 0 });
    assert_eq!(1, history.len());
    assert_eq!(1, history.index);
    history.push(HistoryEntry { text: "BAR".to_owned(), pc: 0 });
    assert_eq!(2, history.len());
    assert_eq!(2, history.index);
    history.push(HistoryEntry { text: "BAZ".to_owned(), pc: 0 });
    assert_eq!(3, history.len());
    assert_eq!(0, history.index);
    history.push(HistoryEntry { text: "QUUX".to_owned(), pc: 0 });
    assert_eq!(3, history.len());
    assert_eq!(1, history.index);
    history.push(HistoryEntry { text: "FLATCH".to_owned(), pc: 0 });
    assert_eq!(3, history.len());
    assert_eq!(2, history.index);

    assert_eq!("BAZ", history.next().unwrap());
    assert_eq!("QUUX", history.next().unwrap());
    assert_eq!("FLATCH", history.next().unwrap());
    assert_eq!("BAZ", history.next().unwrap());
    assert_eq!("QUUX", history.next().unwrap());
    assert_eq!("FLATCH", history.next().unwrap());
}

#[test]
fn reading_past_the_entries_gives_nothing() {
    let mut history = History::new(4);
    assert_eq!(None, history.next());
    history.push(HistoryEntry { text: "ONE".to_owned(), pc: 4 });
    // The read pointer has moved on with the write index, to a place
    // that holds no entry yet.
    assert_eq!(1, history.read_ptr);
    assert_eq!(None, history.next());
    assert_eq!(1, history.read_ptr);

    let mut ring = History::new(2);
    ring.push(HistoryEntry { text: "A".to_owned(), pc: 0 });
    ring.push(HistoryEntry { text: "B".to_owned(), pc: 2 });
    assert_eq!(0, ring.read_ptr);
    assert_eq!("A", ring.next().unwrap());
    assert_eq!("B", ring.next().unwrap());
    // A third entry takes the place of the first, and the read pointer
    // moves on to the second.
    ring.push(HistoryEntry { text: "C".to_owned(), pc: 4 });
    assert_eq!(2, ring.len());
    assert_eq!("B", ring.next().unwrap());
    assert_eq!("C", ring.next().unwrap());
}
