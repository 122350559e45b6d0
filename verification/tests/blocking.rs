use borrow_owned::BorrowOwned;

/// A payload that is neither Clone nor Copy, to check that the handles move
/// the value instead of duplicating it.
struct Token {
    id: u32,
}

#[test]
fn round_trip_identity() {
    let v: Vec<u8> = vec![1, 2, 3];
    let (mut b, ret) = v.borrow_owned();
    b.give_back();
    let back = ret.wait();
    assert_eq!(back, vec![1, 2, 3]);
}

#[test]
fn round_trip_via_drop() {
    let (b, ret) = String::from("payload").borrow_owned();
    std::mem::drop(b);
    assert_eq!(ret.wait(), "payload");
}

#[test]
fn mutation_is_visible_after_wait() {
    let (mut b, ret) = 10u32.borrow_owned();
    b.set(20);
    std::mem::drop(b);
    assert_eq!(ret.wait(), 20);
}

#[test]
fn finalize_twice_delivers_once() {
    let (mut b, ret) = 7i64.borrow_owned();
    b.give_back();
    b.give_back();
    assert_eq!(ret.wait(), 7);
    std::mem::drop(b);
}

#[test]
fn explicit_finalize_then_scope_end() {
    let ret = {
        let (mut b, ret) = 3u8.borrow_owned();
        b.give_back();
        ret
    };
    assert_eq!(ret.wait(), 3);
}

#[test]
fn abandoned_receiver_is_safe() {
    let (mut b, ret) = vec![9u8].borrow_owned();
    std::mem::drop(ret);
    b.give_back();
    std::mem::drop(b);
}

#[test]
fn get_reads_the_borrowed_value() {
    let (b, ret) = 55u64.borrow_owned();
    assert_eq!(*b.get(), 55);
    std::mem::drop(b);
    assert_eq!(ret.wait(), 55);
}

#[test]
fn replace_swaps_without_clone() {
    let (mut b, ret) = Token { id: 1 }.borrow_owned();
    let old = b.replace(Token { id: 2 });
    assert_eq!(old.id, 1);
    assert_eq!(b.get().id, 2);
    std::mem::drop(b);
    assert_eq!(ret.wait().id, 2);
}

#[test]
fn increment_scenario() {
    let (mut b, ret) = 41i32.borrow_owned();
    let seen = *b.get();
    b.set(seen + 1);
    std::mem::drop(b);
    assert_eq!(ret.wait(), 42);
}
