use hazptr::Arena;
use hazptr::Hazard;
use hazptr::State;
use hazptr::create;

#[test]
fn set_get() {
    let mut h = Hazard::blocked();
    assert!(h.is_blocked());

    h.set(State::Free);
    assert_eq!(h.get(), State::Free);
    h.set(State::Dead);
    assert_eq!(h.get(), State::Dead);

    let x: usize = 2;

    h.set(State::Protect(x));
    assert_eq!(h.get(), State::Protect(x));

    h.set(State::Protect(0));
    assert_eq!(h.get(), State::Protect(0));
    h.set(State::Protect(1));
    assert_eq!(h.get(), State::Protect(1));
}

#[test]
fn hazard_pair() {
    let mut arena = Arena::new();
    let (writer, reader) = create(&mut arena);
    let x: usize = 2;

    writer.set(&mut arena, State::Free);
    assert_eq!(reader.get(&arena), State::Free);
    writer.set(&mut arena, State::Protect(x));
    assert_eq!(reader.get(&arena), State::Protect(x));
    writer.kill(&mut arena);
    assert_eq!(reader.get(&arena), State::Dead);

    reader.destroy(&mut arena);
}

#[test]
fn drop() {
    let mut arena = Arena::new();
    for _ in 0..9000 {
        let (writer, reader) = create(&mut arena);
        writer.set(&mut arena, State::Dead);
        reader.destroy(&mut arena);
    }
}

#[test]
fn blocked_starts_blocked() {
    let h = Hazard::blocked();
    assert!(h.is_blocked());

    let mut arena = Arena::new();
    let (writer, reader) = create(&mut arena);
    assert!(writer.is_blocked(&arena));
    assert!(reader.is_blocked(&arena));
    writer.set(&mut arena, State::Free);
    assert!(!writer.is_blocked(&arena));
    assert!(!reader.is_blocked(&arena));
    writer.kill(&mut arena);
    reader.destroy(&mut arena);
}

#[test]
fn writer_observes_own_slot() {
    let mut arena = Arena::new();
    let (writer, reader) = create(&mut arena);
    writer.set(&mut arena, State::Protect(7));
    assert_eq!(writer.get(&arena), State::Protect(7));
    writer.block(&mut arena);
    assert!(writer.is_blocked(&arena));
    writer.set(&mut arena, State::Dead);
    assert_eq!(reader.get(&arena), State::Dead);
    writer.kill(&mut arena);
    reader.destroy(&mut arena);
}

#[test]
fn kill_makes_reader_observe_dead() {
    let mut arena = Arena::new();
    let (writer, reader) = create(&mut arena);
    writer.set(&mut arena, State::Free);
    writer.kill(&mut arena);
    assert_eq!(reader.get(&arena), State::Dead);
    reader.destroy(&mut arena);
    assert_eq!(arena.spare_len(), 1);
}

#[test]
fn release_paths() {
    let mut arena = Arena::new();
    let (writer, reader) = create(&mut arena);
    writer.set(&mut arena, State::Free);

    let handed_back = writer.release(&mut arena, false);
    assert!(handed_back.is_some());
    assert_eq!(reader.get(&arena), State::Free);

    let writer = handed_back.unwrap();
    let gone = writer.release(&mut arena, true);
    assert!(gone.is_none());
    assert_eq!(reader.get(&arena), State::Dead);
    reader.destroy(&mut arena);
}

#[test]
fn pairs_are_independent() {
    let mut arena = Arena::new();
    let (w1, r1) = create(&mut arena);
    let (w2, r2) = create(&mut arena);
    w1.set(&mut arena, State::Free);
    w2.set(&mut arena, State::Protect(3));
    assert_eq!(r1.get(&arena), State::Free);
    assert_eq!(r2.get(&arena), State::Protect(3));
    assert_eq!(arena.capacity(), 2);
    w1.kill(&mut arena);
    w2.kill(&mut arena);
    r1.destroy(&mut arena);
    r2.destroy(&mut arena);
    assert_eq!(arena.spare_len(), 2);
}

#[test]
fn reuse_keeps_capacity() {
    let mut arena = Arena::new();
    for _ in 0..2000 {
        let (writer, reader) = create(&mut arena);
        writer.kill(&mut arena);
        reader.destroy(&mut arena);
        assert_eq!(arena.capacity(), 1);
        assert_eq!(arena.spare_len(), 1);
    }
}
