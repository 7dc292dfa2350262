use cw::{join_results, on_task_settled, DriverAction, Error};

#[test]
fn first_failure_cancels_the_rest() {
    let failure = Error::TransportError("source B unreachable".to_string());
    let action = on_task_settled(Err(failure.clone()), 2);
    assert_eq!(
        action,
        DriverAction::CancelRemaining { cancelled: 2, error: failure }
    );
}

#[test]
fn success_keeps_the_driver_waiting() {
    assert_eq!(on_task_settled(Ok(()), 3), DriverAction::AwaitMore);
}

#[test]
fn only_the_first_error_is_reported() {
    let b = Error::TransportError("b failed".to_string());
    let c = Error::ChannelClosed;
    let results = vec![Ok(()), Err(b.clone()), Err(c)];
    assert_eq!(join_results(results), Err(b));
}

#[test]
fn all_successes_join_to_success() {
    assert_eq!(join_results(vec![Ok(()), Ok(()), Ok(())]), Ok(()));
    assert_eq!(join_results(vec![]), Ok(()));
}
