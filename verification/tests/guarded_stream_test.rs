//! Who holds the guard of a response while it is streamed.

use std::cell::Cell;
use std::rc::Rc;
use vllm_router_rs::routers::http::guarded_step;

/// Counts how often it was released.
struct Guard(Rc<Cell<usize>>);

impl Drop for Guard {
    fn drop(&mut self) {
        self.0.set(self.0.get() + 1);
    }
}

fn guard() -> (Option<Guard>, Rc<Cell<usize>>) {
    let released = Rc::new(Cell::new(0));
    (Some(Guard(Rc::clone(&released))), released)
}

/// Feeds `given` step by step; returns what came out and the guard.
fn run(
    given: Vec<Result<&'static str, u8>>,
    mut left: Option<Guard>,
) -> (Vec<Result<&'static str, u8>>, Option<Guard>) {
    let mut handed = Vec::new();
    for next in given {
        let (out, still) = guarded_step(Some(next), left).unwrap();
        handed.push(out);
        left = still;
    }
    (handed, left)
}

#[test]
fn items_keep_the_guard_and_the_end_releases_it() {
    let (left, released) = guard();
    let given = vec![Ok("first"), Ok("data: [DONE]"), Ok("last")];
    let (handed, left) = run(given.clone(), left);
    assert_eq!(handed, given);
    assert!(left.is_some());
    assert_eq!(released.get(), 0);
    assert!(guarded_step::<&str, u8, Guard>(None, left).is_none());
    assert_eq!(released.get(), 1);
}

#[test]
fn an_error_releases_the_guard_and_is_handed_on() {
    let (left, released) = guard();
    let given = vec![Ok("first"), Err(7), Ok("late"), Err(8)];
    let (handed, left) = run(given.clone(), left);
    assert_eq!(handed, given);
    assert!(left.is_none());
    assert_eq!(released.get(), 1);
    assert!(guarded_step::<&str, u8, Guard>(None, left).is_none());
    assert_eq!(released.get(), 1);
}

#[test]
fn dropping_an_open_stream_releases_the_guard() {
    let (left, released) = guard();
    let (_, left) = run(vec![Ok("first")], left);
    assert_eq!(released.get(), 0);
    drop(left);
    assert_eq!(released.get(), 1);
}

#[test]
fn an_empty_stream_releases_the_guard() {
    let (left, released) = guard();
    assert!(guarded_step::<&str, u8, Guard>(None, left).is_none());
    assert_eq!(released.get(), 1);
}
