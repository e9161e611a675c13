use coio::coroutine::{Coroutine, State};
use coio::options::Options;

#[test]
fn bootstrap_makes_a_ready_coroutine() {
    let opts = Options::new().stack_size(8192).name(Some(String::from("c")));
    let coro = Coroutine::bootstrap(3, opts);
    assert_eq!(coro.id, 3);
    assert_eq!(coro.state, State::Runnable);
    assert_eq!(coro.home, None);
    assert_eq!(coro.stack_size, 8192);
    assert_eq!(coro.name, Some(String::from("c")));
}

#[test]
fn first_resume_sets_the_home() {
    let mut coro = Coroutine::bootstrap(0, Options::new());
    coro.resume(2);
    assert_eq!(coro.state, State::Running);
    assert_eq!(coro.home, Some(2));
    coro.suspend_yield();
    assert_eq!(coro.state, State::Runnable);
    coro.resume(5);
    assert_eq!(coro.state, State::Running);
    assert_eq!(coro.home, Some(2));
}

#[test]
fn block_then_ready() {
    let mut coro = Coroutine::bootstrap(0, Options::new());
    coro.resume(0);
    coro.suspend_block();
    assert_eq!(coro.state, State::Parked);
    coro.ready();
    assert_eq!(coro.state, State::Runnable);
    assert_eq!(coro.home, Some(0));
}

#[test]
fn finish_ends_the_life() {
    let mut coro = Coroutine::bootstrap(9, Options::new());
    coro.resume(1);
    coro.finish();
    assert_eq!(coro.state, State::Finished);
    assert_eq!(coro.id, 9);
}
