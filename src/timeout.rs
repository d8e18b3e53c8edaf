use vstd::prelude::*;

verus! {

/// The error of an operation raced against a deadline.
#[derive(Debug, PartialEq, Eq, Structural)]
pub enum TimeoutError<E> {
    /// The operation itself failed.
    Inner(E),
    /// The deadline passed before the operation completed.
    Elapsed,
}

/// What one poll of the race does after asking the operation.
#[derive(Debug, PartialEq, Eq, Structural)]
pub enum RaceStep<T, E> {
    /// The operation completed: the race ends with this result.
    Done(Result<T, TimeoutError<E>>),
    /// The operation is not done: poll the timer.
    PollTimer,
}

/// The operation's own result, with its error carried as `Inner`.
pub open spec fn lift<T, E>(r: Result<T, E>) -> Result<T, TimeoutError<E>> {
    match r {
        Ok(v) => Ok(v),
        Err(e) => Err(TimeoutError::Inner(e)),
    }
}

/// One poll of the race: `None` while both are pending. The operation is
/// asked first, so it wins when both are done in the same poll.
pub open spec fn race_poll<T, E>(response: Option<Result<T, E>>, timer_fired: bool) -> Option<
    Result<T, TimeoutError<E>>,
> {
    match response {
        Some(r) => Some(lift(r)),
        None => if timer_fired {
            Some(Err(TimeoutError::Elapsed))
        } else {
            None
        },
    }
}

/// Decides on what the operation answered: `None` while it is pending.
pub fn after_response<T, E>(response: Option<Result<T, E>>) -> (r: RaceStep<T, E>)
    ensures
        r == match response {
            Some(v) => RaceStep::Done(lift(v)),
            None => RaceStep::<T, E>::PollTimer,
        },
{
    match response {
        Some(Ok(v)) => RaceStep::Done(Ok(v)),
        Some(Err(e)) => RaceStep::Done(Err(TimeoutError::Inner(e))),
        None => RaceStep::PollTimer,
    }
}

/// Decides, once the operation is pending, on whether the timer has fired.
pub fn after_timer<T, E>(fired: bool) -> (r: Option<Result<T, TimeoutError<E>>>)
    ensures
        r == race_poll::<T, E>(None, fired),
{
    if fired {
        Some(Err(TimeoutError::Elapsed))
    } else {
        None
    }
}

/// The poll at time `t` of a race between an operation that completes with
/// `outcome` at `t_op` and a timer that fires at `t_deadline`.
pub open spec fn race_at<T, E>(outcome: Result<T, E>, t_op: nat, t_deadline: nat, t: nat) -> Option<
    Result<T, TimeoutError<E>>,
> {
    race_poll(
        if t >= t_op {
            Some(outcome)
        } else {
            None
        },
        t >= t_deadline,
    )
}

/// A race resolves at the earlier of the two times, with the operation's
/// result when it completes no later than the deadline, and with the
/// elapsed error otherwise; every earlier poll is pending.
pub proof fn lemma_deadline_race<T, E>(outcome: Result<T, E>, t_op: nat, t_deadline: nat)
    ensures
        forall|t: nat| t < t_op && t < t_deadline ==> race_at(outcome, t_op, t_deadline, t).is_none(),
        t_op <= t_deadline ==> race_at(outcome, t_op, t_deadline, t_op) == Some(lift(outcome)),
        t_deadline < t_op ==> race_at(outcome, t_op, t_deadline, t_deadline) == Some(
            Err::<T, TimeoutError<E>>(TimeoutError::Elapsed),
        ),
{
}

} // verus!
