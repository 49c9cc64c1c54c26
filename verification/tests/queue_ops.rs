use typedata_rs::queue::{PopFront, PushBack, TypeQueue};

#[test]
fn queue_test_basic() {
    let q = TypeQueue.push_back(Some(1u32)).push_back("thing").push_back(true);
    let (mu, q) = q.pop_front();
    assert_eq!(1u32, mu.unwrap());
    let (s, q) = q.pop_front();
    assert_eq!("thing", s);
    let (b, TypeQueue) = q.pop_front();
    assert_eq!(true, b);
}

#[test]
fn queue_single_element() {
    let q = TypeQueue.push_back(42u64);
    let (e, TypeQueue) = q.pop_front();
    assert_eq!(42u64, e);
}

#[test]
fn queue_push_after_pop_front() {
    let q = TypeQueue.push_back('x').push_back(5u8);
    let (c, q) = q.pop_front();
    assert_eq!('x', c);
    let q = q.push_back("tail");
    let (n, q) = q.pop_front();
    assert_eq!(5u8, n);
    let (s, TypeQueue) = q.pop_front();
    assert_eq!("tail", s);
}
