use tower_steer::timeout::{after_response, after_timer, RaceStep, TimeoutError};

/// Polls a race once every millisecond, the operation completing with
/// `outcome` at `t_op` and the timer firing at `t_deadline`.
fn race(outcome: Result<u32, String>, t_op: u64, t_deadline: u64) -> (u64, Result<u32, TimeoutError<String>>) {
    let mut t: u64 = 0;
    loop {
        let response = if t >= t_op { Some(outcome.clone()) } else { None };
        match after_response(response) {
            RaceStep::Done(r) => return (t, r),
            RaceStep::PollTimer => {}
        }
        if let Some(r) = after_timer::<u32, String>(t >= t_deadline) {
            return (t, r);
        }
        t += 1;
    }
}

#[test]
fn operation_before_deadline_wins() {
    assert_eq!(race(Ok(7), 50, 100), (50, Ok(7)));
}

#[test]
fn deadline_before_operation_elapses() {
    assert_eq!(race(Ok(7), 150, 100), (100, Err(TimeoutError::Elapsed)));
}

#[test]
fn operation_wins_a_tie() {
    assert_eq!(race(Ok(3), 100, 100), (100, Ok(3)));
}

#[test]
fn operation_error_is_carried_as_inner() {
    assert_eq!(
        race(Err("refused".to_string()), 10, 100),
        (10, Err(TimeoutError::Inner("refused".to_string())))
    );
}

#[test]
fn response_decides_before_the_timer() {
    assert_eq!(after_response::<u32, String>(Some(Ok(1))), RaceStep::Done(Ok(1)));
    assert_eq!(
        after_response::<u32, String>(Some(Err("e".to_string()))),
        RaceStep::Done(Err(TimeoutError::Inner("e".to_string())))
    );
    assert_eq!(after_response::<u32, String>(None), RaceStep::PollTimer);
}

#[test]
fn timer_alone_decides_when_response_pending() {
    assert_eq!(after_timer::<u32, String>(false), None);
    assert_eq!(after_timer::<u32, String>(true), Some(Err(TimeoutError::Elapsed)));
}
