use borrow_owned::AsyncBorrowOwned;

#[test]
fn async_round_trip_identity() {
    let w = futures_task::noop_waker();
    let (mut b, mut ret) = vec![4u16, 5].async_borrow_owned();
    b.give_back();
    assert_eq!(ret.poll(&w), Some(vec![4u16, 5]));
}

#[test]
fn poll_pending_until_finalized() {
    let w = futures_task::noop_waker();
    let (mut b, mut ret) = 8u8.async_borrow_owned();
    assert_eq!(ret.poll(&w), None);
    assert_eq!(ret.poll(&w), None);
    b.give_back();
    assert_eq!(ret.poll(&w), Some(8));
}

#[test]
fn poll_ready_exactly_once() {
    let w = futures_task::noop_waker();
    let (b, mut ret) = 9u8.async_borrow_owned();
    std::mem::drop(b);
    assert_eq!(ret.poll(&w), Some(9));
    assert_eq!(ret.poll(&w), None);
    assert_eq!(ret.poll(&w), None);
}

#[test]
fn async_mutation_is_visible() {
    let w = futures_task::noop_waker();
    let (mut b, mut ret) = 100u32.async_borrow_owned();
    b.set(200);
    std::mem::drop(b);
    assert_eq!(ret.poll(&w), Some(200));
}

#[test]
fn async_finalize_twice_delivers_once() {
    let w = futures_task::noop_waker();
    let (mut b, mut ret) = 6i32.async_borrow_owned();
    b.give_back();
    b.give_back();
    assert_eq!(ret.poll(&w), Some(6));
    std::mem::drop(b);
    assert_eq!(ret.poll(&w), None);
}

#[test]
fn async_abandoned_receiver_is_safe() {
    let (mut b, ret) = String::from("x").async_borrow_owned();
    std::mem::drop(ret);
    b.give_back();
    std::mem::drop(b);
}

#[test]
fn async_replace_and_get() {
    let w = futures_task::noop_waker();
    let (mut b, mut ret) = 1u64.async_borrow_owned();
    assert_eq!(*b.get(), 1);
    let old = b.replace(2);
    assert_eq!(old, 1);
    std::mem::drop(b);
    assert_eq!(ret.poll(&w), Some(2));
}

#[test]
fn append_scenario_resolves_through_waker() {
    let (b, mut ret) = String::from("a").async_borrow_owned();
    let mut lent = Some(b);
    let got = futures_executor::block_on(std::future::poll_fn(move |cx| {
        match ret.poll(cx.waker()) {
            Some(v) => std::task::Poll::Ready(v),
            None => {
                // The first poll has registered the waker; finalizing now
                // wakes it, and the executor polls again and sees the value.
                if let Some(mut remote) = lent.take() {
                    let mut s = remote.get().clone();
                    s.push_str("b");
                    remote.set(s);
                    remote.give_back();
                }
                std::task::Poll::Pending
            }
        }
    }));
    assert_eq!(got, "ab");
}
