use async_executor::Executor;
use smol_hyper::rt::execute;
use smol_hyper::rt::SmolExecutor;
use std::sync::atomic::{AtomicUsize, Ordering};
use std::sync::Arc;

#[test]
fn smol_executor_wraps_and_hands_out_its_inner_value() {
    let mut ex = SmolExecutor::new(5u32);
    assert_eq!(*ex.get_ref(), 5);
    *ex.get_mut() = 6;
    assert_eq!(*ex.get_ref(), 6);
    let by_ref: &u32 = ex.as_ref();
    assert_eq!(*by_ref, 6);
    let by_mut: &mut u32 = ex.as_mut();
    *by_mut = 7;
    assert_eq!(ex.into_inner(), 7);
}

#[test]
fn smol_executor_from_and_clone() {
    let ex: SmolExecutor<&str> = SmolExecutor::from("inner");
    assert_eq!(ex.clone().into_inner(), "inner");
    let ex: SmolExecutor<u8> = 3.into();
    assert_eq!(ex.into_inner(), 3);
    assert_eq!(format!("{:?}", SmolExecutor::new(1u8)), "SmolExecutor(1)");
}

#[test]
fn an_executed_future_runs_to_completion_on_the_executor() {
    let ex = SmolExecutor::new(Arc::new(Executor::new()));
    let runs = Arc::new(AtomicUsize::new(0));

    let seen = runs.clone();
    execute(ex.get_ref().as_ref(), async move {
        seen.fetch_add(1, Ordering::SeqCst);
    });
    assert_eq!(runs.load(Ordering::SeqCst), 0);
    assert!(!ex.get_ref().is_empty());

    assert!(ex.get_ref().try_tick());
    assert_eq!(runs.load(Ordering::SeqCst), 1);
    assert!(ex.get_ref().is_empty());
    assert!(!ex.get_ref().try_tick());
}

#[test]
fn executed_futures_all_run() {
    let executor = Executor::new();
    let runs = Arc::new(AtomicUsize::new(0));
    for step in 1..=4usize {
        let seen = runs.clone();
        execute(&executor, async move {
            seen.fetch_add(step, Ordering::SeqCst);
        });
    }
    while executor.try_tick() {}
    assert_eq!(runs.load(Ordering::SeqCst), 10);
}

#[test]
fn an_executed_future_may_give_a_value_that_nobody_gets() {
    let executor = Executor::new();
    execute(&executor, async { 42u64 });
    assert!(executor.try_tick());
    assert!(executor.is_empty());
}

#[test]
fn an_executed_future_completes_while_the_executor_runs() {
    let executor = Executor::new();
    let (sender, receiver) = std::sync::mpsc::channel();
    execute(&executor, async move {
        sender.send(7u32).expect("the receiver is alive");
    });
    assert!(receiver.try_recv().is_err());
    futures_lite::future::block_on(executor.tick());
    assert_eq!(receiver.try_recv(), Ok(7));
}
