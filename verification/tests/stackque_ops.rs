use typedata_rs::stackque::{EmptySQ, Pop, PopFront, Push};

#[test]
fn test_stack_basic() {
    let q = EmptySQ.push(Some(1u32)).push("thing").push(true);
    let (b, q) = q.pop();
    assert_eq!(true, b);
    let (s, q) = q.pop();
    assert_eq!("thing", s);
    let (mu, EmptySQ) = q.pop();
    assert_eq!(1u32, mu.unwrap());
}

#[test]
fn test_que_basic() {
    let q = EmptySQ.push(Some(1u32)).push("thing").push(true);
    let (mu, q) = q.pop_front();
    assert_eq!(1u32, mu.unwrap());
    let (s, q) = q.pop_front();
    assert_eq!("thing", s);
    let (b, EmptySQ) = q.pop_front();
    assert_eq!(true, b);
}

#[test]
fn push_pop_inverse_restores_sequence() {
    let q = EmptySQ.push(1u8).push("mid");
    let q = q.push(false);
    let (e, q) = q.pop();
    assert_eq!(false, e);
    let (s, q) = q.pop();
    assert_eq!("mid", s);
    let (n, EmptySQ) = q.pop();
    assert_eq!(1u8, n);
}

#[test]
fn push_then_pop_front_on_empty() {
    let q = EmptySQ.push(7u8);
    let (e, EmptySQ) = q.pop_front();
    assert_eq!(7u8, e);
}

#[test]
fn push_then_pop_front_keeps_pushed_at_back() {
    let q = EmptySQ.push("front").push(2u16);
    let (f, q) = q.pop_front();
    assert_eq!("front", f);
    let (b, EmptySQ) = q.pop();
    assert_eq!(2u16, b);
}

#[test]
fn interleaved_push_pop_both_ends() {
    let q = EmptySQ.push(Some(1u32)).push("thing").push(true);
    let (mu, q) = q.pop_front();
    assert_eq!(Some(1u32), mu);
    let q = q.push('a');
    let (b, q) = q.pop();
    assert_eq!('a', b);
    let (s, q) = q.pop();
    assert_eq!(true, s);
    let (s, EmptySQ) = q.pop_front();
    assert_eq!("thing", s);
}
