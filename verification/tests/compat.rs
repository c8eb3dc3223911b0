use tokio_tungstenite::compat::{ready_or_would_block, AllowStd};
use tokio_tungstenite::poll::Async;

#[test]
fn no_context_means_would_block() {
    let mut s: AllowStd<Vec<u8>, u32> = AllowStd::new(vec![1]);
    let r: Result<usize, &str> = s.with_context_or_would_block(|_, v| Async::Ready(Ok(v.len())), "would block");
    assert_eq!(r, Err("would block"));
    assert_eq!(s.with_context(|_, _| Async::Ready(1)), Async::NotReady);
}

#[test]
fn context_runs_the_operation() {
    let mut s: AllowStd<Vec<u8>, u32> = AllowStd::new(vec![1]);
    s.set_context(Some(10));
    let r: Result<usize, &str> = s.with_context_or_would_block(
        |c, v| {
            v.push(*c as u8);
            Async::Ready(Ok(v.len()))
        },
        "would block",
    );
    assert_eq!(r, Ok(2));
    assert_eq!(s.get_ref(), &vec![1, 10]);
    let r: Result<usize, &str> = s.with_context_or_would_block(|_, _| Async::NotReady, "would block");
    assert_eq!(r, Err("would block"));
    s.get_mut().clear();
    assert!(s.get_ref().is_empty());
    s.set_context(None);
    assert_eq!(s.with_context(|_, _| Async::Ready(1)), Async::NotReady);
}

#[test]
fn ready_or_would_block_maps() {
    assert_eq!(ready_or_would_block::<u8, &str>(Async::Ready(Ok(1)), "wb"), Ok(1));
    assert_eq!(ready_or_would_block::<u8, &str>(Async::Ready(Err("e")), "wb"), Err("e"));
    assert_eq!(ready_or_would_block::<u8, &str>(Async::NotReady, "wb"), Err("wb"));
}
