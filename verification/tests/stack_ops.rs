use typedata_rs::stack::{Pop, Push, TypeStack};

#[test]
fn stack_test_basic() {
    let q = TypeStack.push(Some(1u32)).push("thing").push(true);
    let (b, q) = q.pop();
    assert_eq!(true, b);
    let (s, q) = q.pop();
    assert_eq!("thing", s);
    let (mu, TypeStack) = q.pop();
    assert_eq!(1u32, mu.unwrap());
}

#[test]
fn stack_push_pop_inverse() {
    let s = TypeStack.push(3u16);
    let t = s.push("top");
    let (e, rest) = t.pop();
    assert_eq!("top", e);
    let (n, TypeStack) = rest.pop();
    assert_eq!(3u16, n);
}
