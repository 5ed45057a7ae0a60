//! Sagas: a sequence of steps that is undone, last step first, when one of
//! them fails.

use crate::text::prefixed;
use vstd::prelude::*;
use vstd::string::StringExecFns;

verus! {

/// Why a saga did not run to its end.
#[derive(Debug, Clone, PartialEq, Eq)]
pub enum SagaError {
    /// A step failed; every step before it was compensated.
    ExecutionFailed(String),
    /// A step failed, and so did the compensation of an earlier step.
    CompensationFailed(String),
}

/// The mathematical value of a `SagaError`.
pub enum SagaErrorView {
    ExecutionFailed(Seq<char>),
    CompensationFailed(Seq<char>),
}

impl SagaErrorView {
    /// The text a user sees for this error.
    pub open spec fn message(self) -> Seq<char> {
        match self {
            SagaErrorView::ExecutionFailed(detail) => "Saga execution failed: "@ + detail,
            SagaErrorView::CompensationFailed(detail) => "Saga compensation failed: "@ + detail,
        }
    }
}

impl View for SagaError {
    type V = SagaErrorView;

    open spec fn view(&self) -> SagaErrorView {
        match self {
            SagaError::ExecutionFailed(detail) => SagaErrorView::ExecutionFailed(detail@),
            SagaError::CompensationFailed(detail) => SagaErrorView::CompensationFailed(detail@),
        }
    }
}

impl SagaError {
    /// The text a user sees for this error.
    pub fn message(&self) -> (text: String)
        ensures
            text@ == self@.message(),
    {
        match self {
            SagaError::ExecutionFailed(detail) => prefixed(
                "Saga execution failed: ",
                detail.as_str(),
            ),
            SagaError::CompensationFailed(detail) => prefixed(
                "Saga compensation failed: ",
                detail.as_str(),
            ),
        }
    }
}

/// One step of a saga.
pub trait SagaStep<Context> {
    /// Does the work of the step.
    fn execute(&self, context: &mut Context) -> Result<(), SagaError>;

    /// Undoes the work of the step after a later step failed.
    fn compensate(&self, context: &mut Context) -> Result<(), SagaError>;

    /// The name of the step.
    fn name(&self) -> &str;
}

/// The position of the step that is compensated at the given turn, after
/// `executed` steps ran before the one that failed: the last of them first,
/// and `None` once each of them was compensated.
pub open spec fn compensated_at_spec(executed: nat, turn: nat) -> Option<nat> {
    if turn < executed {
        Some((executed - 1 - turn) as nat)
    } else {
        None
    }
}

/// The position of the step that is compensated at the given turn, after
/// `executed` steps ran before the one that failed; `None` once each of
/// them was compensated.
pub fn compensated_at(executed: usize, turn: usize) -> (position: Option<usize>)
    ensures
        match compensated_at_spec(executed as nat, turn as nat) {
            Some(at) => position == Some(at as usize) && at < executed,
            None => position is None,
        },
{
    if turn < executed {
        Some(executed - 1 - turn)
    } else {
        None
    }
}

/// What a saga fails with, given the failure of the step that stopped it
/// and the failure of a compensation, if one failed: the step's failure as
/// it is, unless a compensation failed, whose message is then reported.
pub open spec fn failure_spec(failure: SagaError, compensation: Option<SagaError>) -> SagaErrorView {
    match compensation {
        Some(cause) => SagaErrorView::CompensationFailed(cause@.message()),
        None => failure@,
    }
}

/// What a saga fails with, given the failure of the step that stopped it
/// and the failure of a compensation, if one failed.
pub fn failure_of(failure: SagaError, compensation: Option<SagaError>) -> (error: SagaError)
    ensures
        error@ == failure_spec(failure, compensation),
        compensation is None ==> error == failure,
{
    match compensation {
        Some(cause) => SagaError::CompensationFailed(cause.message()),
        None => failure,
    }
}

/// The number of steps that are compensated where the first `executed` of
/// `count` steps are asked for: no more than there are.
pub open spec fn within(executed: nat, count: nat) -> nat {
    if executed <= count {
        executed
    } else {
        count
    }
}

/// Executes `step` on `context` and hands the context back as the step
/// left it, with what the step returned.
pub fn run_step<Context, S: SagaStep<Context> + ?Sized>(step: &S, context: Context) -> (ran: (
    Context,
    Result<(), SagaError>,
))
    ensures
        exists|during: &mut Context|
            *during == context && *final(during) == ran.0 && #[trigger] call_ensures(
                S::execute,
                (step, during),
                ran.1,
            ),
{
    let mut held = context;
    let result = execute_on(step, &mut held);
    assert(exists|during: &mut Context|
        *during == context && *final(during) == held && #[trigger] call_ensures(
            S::execute,
            (step, during),
            result,
        ));
    let ran = (held, result);
    assert(ran.1 == result);
    assert(exists|during: &mut Context|
        *during == context && *final(during) == ran.0 && #[trigger] call_ensures(
            S::execute,
            (step, during),
            ran.1,
        ));
    ran
}

/// Calls `execute` of `step` on `context`, once.
fn execute_on<Context, S: SagaStep<Context> + ?Sized>(step: &S, context: &mut Context) -> (result:
    Result<(), SagaError>)
    ensures
        exists|during: &mut Context|
            *during == *old(context) && *final(during) == *final(context)
                && #[trigger] call_ensures(S::execute, (step, during), result),
{
    step.execute(context)
}

/// Compensates `step` on `context` and hands the context back as the step
/// left it, with what the step returned.
pub fn undo_step<Context, S: SagaStep<Context> + ?Sized>(step: &S, context: Context) -> (ran: (
    Context,
    Result<(), SagaError>,
))
    ensures
        exists|during: &mut Context|
            *during == context && *final(during) == ran.0 && #[trigger] call_ensures(
                S::compensate,
                (step, during),
                ran.1,
            ),
{
    let mut held = context;
    let result = compensate_on(step, &mut held);
    assert(exists|during: &mut Context|
        *during == context && *final(during) == held && #[trigger] call_ensures(
            S::compensate,
            (step, during),
            result,
        ));
    let ran = (held, result);
    assert(ran.1 == result);
    assert(exists|during: &mut Context|
        *during == context && *final(during) == ran.0 && #[trigger] call_ensures(
            S::compensate,
            (step, during),
            ran.1,
        ));
    ran
}

/// Calls `compensate` of `step` on `context`, once.
fn compensate_on<Context, S: SagaStep<Context> + ?Sized>(step: &S, context: &mut Context) -> (result:
    Result<(), SagaError>)
    ensures
        exists|during: &mut Context|
            *during == *old(context) && *final(during) == *final(context)
                && #[trigger] call_ensures(S::compensate, (step, during), result),
{
    step.compensate(context)
}

/// Whether `step`, executed on the context `before`, left the context
/// `after` and returned `result`.
pub open spec fn step_ran<Context, S: SagaStep<Context> + ?Sized>(
    step: &S,
    before: Context,
    after: Context,
    result: Result<(), SagaError>,
) -> bool {
    call_ensures(run_step::<Context, S>, (step, before), (after, result))
}

/// Whether `step`, compensated on the context `before`, left the context
/// `after` and returned `result`.
pub open spec fn step_undone<Context, S: SagaStep<Context> + ?Sized>(
    step: &S,
    before: Context,
    after: Context,
    result: Result<(), SagaError>,
) -> bool {
    call_ensures(undo_step::<Context, S>, (step, before), (after, result))
}

/// A step that ran was called once, on the context it found, and what it
/// left in that context and what it returned are what is reported of it.
pub proof fn lemma_step_ran<Context, S: SagaStep<Context> + ?Sized>(
    step: &S,
    before: Context,
    after: Context,
    result: Result<(), SagaError>,
)
    requires
        step_ran(step, before, after, result),
    ensures
        exists|during: &mut Context|
            *during == before && *final(during) == after && #[trigger] call_ensures(
                S::execute,
                (step, during),
                result,
            ),
{
}

/// A step that was compensated was called once, on the context it found,
/// and what it left in that context and what it returned are what is
/// reported of it.
pub proof fn lemma_step_undone<Context, S: SagaStep<Context> + ?Sized>(
    step: &S,
    before: Context,
    after: Context,
    result: Result<(), SagaError>,
)
    requires
        step_undone(step, before, after, result),
    ensures
        exists|during: &mut Context|
            *during == before && *final(during) == after && #[trigger] call_ensures(
                S::compensate,
                (step, during),
                result,
            ),
{
}

/// Whether the step at `place` found the context at `place` of `contexts`,
/// left the next one, and returned `result`.
pub open spec fn ran_at<Context, S: SagaStep<Context> + ?Sized>(
    steps: Seq<Box<S>>,
    contexts: Seq<Context>,
    place: nat,
    result: Result<(), SagaError>,
) -> bool {
    step_ran::<Context, S>(
        &*steps[place as int],
        contexts[place as int],
        contexts[place as int + 1],
        result,
    )
}

/// Whether the first `count` steps ran one after the other and succeeded:
/// each found the context that the step before it left, the first found
/// the first of `contexts`, and the last left the last of them.
pub open spec fn ran_in_turn<Context, S: SagaStep<Context> + ?Sized>(
    steps: Seq<Box<S>>,
    contexts: Seq<Context>,
    count: nat,
) -> bool {
    &&& count <= steps.len()
    &&& contexts.len() == count + 1
    &&& forall|place: nat|
        place < count ==> #[trigger] ran_at::<Context, S>(steps, contexts, place, Ok(()))
}

/// Whether the step that is compensated at `turn`, after `executed` steps
/// ran, found the context at `turn` of `trail`, left `left`, and returned
/// `result`.
pub open spec fn undone_at<Context, S: SagaStep<Context> + ?Sized>(
    steps: Seq<Box<S>>,
    executed: nat,
    trail: Seq<Context>,
    turn: nat,
    left: Context,
    result: Result<(), SagaError>,
) -> bool {
    match compensated_at_spec(executed, turn) {
        Some(at) => at < steps.len() && step_undone::<Context, S>(
            &*steps[at as int],
            trail[turn as int],
            left,
            result,
        ),
        None => false,
    }
}

/// Whether the turn `turn` of a compensation succeeded and left the next
/// context of `trail`.
pub open spec fn turn_passed<Context, S: SagaStep<Context> + ?Sized>(
    steps: Seq<Box<S>>,
    executed: nat,
    trail: Seq<Context>,
    turn: nat,
) -> bool {
    undone_at::<Context, S>(steps, executed, trail, turn, trail[turn as int + 1], Ok(()))
}

/// Whether compensating the first `executed` steps from the context `from`
/// ends at the turn `turns`, leaves `left` and gives `failed`: every turn
/// before it compensated its step on the context that the turn before it
/// left, the first on `from`; and either no turn is left, nothing failed
/// and `left` is what the last turn left, or the compensation of that turn
/// failed with the failure returned and left `left`.
pub open spec fn compensated_until<Context, S: SagaStep<Context> + ?Sized>(
    steps: Seq<Box<S>>,
    executed: nat,
    from: Context,
    turns: nat,
    trail: Seq<Context>,
    left: Context,
    failed: Option<SagaError>,
) -> bool {
    &&& turns <= executed <= steps.len()
    &&& trail.len() == turns + 1
    &&& trail[0] == from
    &&& forall|turn: nat|
        turn < turns ==> #[trigger] turn_passed::<Context, S>(steps, executed, trail, turn)
    &&& if turns == executed {
        failed is None && left == trail[turns as int]
    } else {
        failed matches Some(cause) && undone_at::<Context, S>(
            steps,
            executed,
            trail,
            turns,
            left,
            Err(cause),
        )
    }
}

/// Whether compensating the first `executed` steps from the context `from`
/// leaves `left` and gives `failed`: they are compensated one by one, the
/// last first, each on the context that the one before it left, up to the
/// first compensation that fails, whose failure is returned.
pub open spec fn compensated<Context, S: SagaStep<Context> + ?Sized>(
    steps: Seq<Box<S>>,
    executed: nat,
    from: Context,
    left: Context,
    failed: Option<SagaError>,
) -> bool {
    exists|turns: nat, trail: Seq<Context>| #[trigger]
        compensated_until::<Context, S>(steps, executed, from, turns, trail, left, failed)
}

/// Whether `outcome` is what a saga fails with where the step at `stopped`
/// found the context `found` and failed with `failure`, and the
/// compensation of the steps before it, from the context that the failed
/// step left, gave `compensation`.
pub open spec fn stopped_with<Context, S: SagaStep<Context> + ?Sized>(
    steps: Seq<Box<S>>,
    stopped: nat,
    found: Context,
    failure: SagaError,
    compensation: Option<SagaError>,
    outcome: Result<Context, SagaError>,
) -> bool {
    &&& stopped < steps.len()
    &&& exists|broken: Context, left: Context|
        step_ran::<Context, S>(&*steps[stopped as int], found, broken, Err(failure))
            && #[trigger] compensated::<Context, S>(steps, stopped, broken, left, compensation)
    &&& outcome matches Err(e) && e@ == failure_spec(failure, compensation)
}

/// Whether `outcome` is what executing `steps` on the context `given` gives
/// where the execution ends at the step `stopped`: every step before it
/// succeeded, on the context that the step before it left, the first on
/// `given`; and either no step is left and the saga succeeds with the
/// context that the last step left, or that step failed on the context it
/// found, the steps before it were compensated, and the saga fails as
/// `failure_of` says.
pub open spec fn executed_until<Context, S: SagaStep<Context> + ?Sized>(
    steps: Seq<Box<S>>,
    given: Context,
    stopped: nat,
    contexts: Seq<Context>,
    outcome: Result<Context, SagaError>,
) -> bool {
    &&& ran_in_turn::<Context, S>(steps, contexts, stopped)
    &&& contexts[0] == given
    &&& if stopped == steps.len() {
        outcome == Ok::<Context, SagaError>(contexts[stopped as int])
    } else {
        exists|failure: SagaError, compensation: Option<SagaError>| #[trigger]
            stopped_with::<Context, S>(
                steps,
                stopped,
                contexts[stopped as int],
                failure,
                compensation,
                outcome,
            )
    }
}

/// Whether `outcome` is what executing `steps` in order on the context
/// `given` gives.
pub open spec fn executed<Context, S: SagaStep<Context> + ?Sized>(
    steps: Seq<Box<S>>,
    given: Context,
    outcome: Result<Context, SagaError>,
) -> bool {
    exists|stopped: nat, contexts: Seq<Context>| #[trigger]
        executed_until::<Context, S>(steps, given, stopped, contexts, outcome)
}

/// Whether `after` is `before` with one step added at its end: the earlier
/// steps keep their places and the new step is the last.
pub open spec fn extended<Context, S: SagaStep<Context> + ?Sized>(
    before: Seq<Box<S>>,
    after: Seq<Box<S>>,
) -> bool {
    &&& after.len() == before.len() + 1
    &&& after.take(before.len() as int) == before
    &&& exists|last: Box<S>| after == #[trigger] before.push(last)
}

/// Whether `after` is `before` with `step` added at its end.
pub open spec fn appended<Context, S: SagaStep<Context> + ?Sized>(
    before: Seq<Box<S>>,
    step: Box<S>,
    after: Seq<Box<S>>,
) -> bool {
    after == before.push(step)
}

/// Whether `after` is `before` with `step` added at its end, in a box and
/// as a step of any type.
pub open spec fn appended_step<Context, S: SagaStep<Context> + 'static>(
    before: Seq<Box<dyn SagaStep<Context>>>,
    step: S,
    after: Seq<Box<dyn SagaStep<Context>>>,
) -> bool {
    let sized: Box<S> = Box::new(step);
    let held: Box<dyn SagaStep<Context>> = sized;
    appended::<Context, dyn SagaStep<Context>>(before, held, after)
}

/// Adds `step` after `steps`.
pub fn append_step<Context, S: SagaStep<Context> + ?Sized>(steps: Vec<Box<S>>, step: Box<S>) -> (out:
    Vec<Box<S>>)
    ensures
        out@ == steps@.push(step),
        appended::<Context, S>(steps@, step, out@),
        extended::<Context, S>(steps@, out@),
{
    let mut out = steps;
    out.push(step);
    assert(out@.take(steps@.len() as int) =~= steps@);
    out
}

/// Compensates the first `executed` of `steps`, the last of them first,
/// each on the context that the one before it left and the first on
/// `context`, and stops at the first compensation that fails. It hands back
/// the context as the last compensation left it, and that failure if there
/// was one. No more steps are compensated than there are.
pub fn compensate_all<Context, S: SagaStep<Context> + ?Sized>(
    steps: &Vec<Box<S>>,
    executed: usize,
    context: Context,
) -> (done: (Context, Option<SagaError>))
    ensures
        compensated::<Context, S>(
            steps@,
            within(executed as nat, steps@.len()),
            context,
            done.0,
            done.1,
        ),
{
    let limit = if executed <= steps.len() {
        executed
    } else {
        steps.len()
    };
    let ghost mut trail: Seq<Context> = Seq::empty().push(context);
    let mut held = context;
    let mut turn: usize = 0;
    while turn < limit
        invariant
            turn <= limit,
            limit <= steps@.len(),
            limit == within(executed as nat, steps@.len()),
            trail.len() == turn + 1,
            trail[0] == context,
            trail[turn as int] == held,
            forall|earlier: nat|
                earlier < turn ==> #[trigger] turn_passed::<Context, S>(
                    steps@,
                    limit as nat,
                    trail,
                    earlier,
                ),
        decreases limit - turn,
    {
        let position = limit - 1 - turn;
        let ghost found = held;
        let (left, result) = undo_step::<Context, S>(&*steps[position], held);
        assert(step_undone::<Context, S>(&*steps@[position as int], found, left, result));
        assert(undone_at::<Context, S>(steps@, limit as nat, trail, turn as nat, left, result));
        match result {
            Err(cause) => {
                let done = (left, Some(cause));
                assert(compensated_until::<Context, S>(
                    steps@,
                    limit as nat,
                    context,
                    turn as nat,
                    trail,
                    done.0,
                    done.1,
                ));
                return done;
            },
            Ok(passed) => {
                assert(result == Ok::<(), SagaError>(passed));
                assert(passed == ());
            },
        }
        proof {
            let before = trail;
            trail = trail.push(left);
            assert forall|earlier: nat| earlier < turn + 1 implies #[trigger] turn_passed::<
                Context,
                S,
            >(steps@, limit as nat, trail, earlier) by {
                if earlier < turn {
                    assert(turn_passed::<Context, S>(steps@, limit as nat, before, earlier));
                    assert(trail[earlier as int] == before[earlier as int]);
                    assert(trail[earlier as int + 1] == before[earlier as int + 1]);
                }
            }
        }
        held = left;
        turn = turn + 1;
    }
    let done = (held, None);
    assert(compensated_until::<Context, S>(
        steps@,
        limit as nat,
        context,
        limit as nat,
        trail,
        done.0,
        done.1,
    ));
    done
}

/// Executes `steps` in order, each on the context that the step before it
/// left and the first on `context`, and returns the context that the last
/// step left when every step succeeded. When a step fails, the steps
/// before it are compensated, the last first, from the context that the
/// failed step left, and the failure is what `failure_of` makes of the two.
pub fn execute_all<Context, S: SagaStep<Context> + ?Sized>(
    steps: &Vec<Box<S>>,
    context: Context,
) -> (outcome: Result<Context, SagaError>)
    ensures
        executed::<Context, S>(steps@, context, outcome),
        steps@.len() == 0 ==> outcome == Ok::<Context, SagaError>(context),
{
    let ghost mut contexts: Seq<Context> = Seq::empty().push(context);
    let mut held = context;
    let count = steps.len();
    let mut index: usize = 0;
    while index < count
        invariant
            index <= count,
            count == steps@.len(),
            contexts.len() == index + 1,
            contexts[0] == context,
            contexts[index as int] == held,
            forall|place: nat|
                place < index ==> #[trigger] ran_at::<Context, S>(
                    steps@,
                    contexts,
                    place,
                    Ok(()),
                ),
        decreases count - index,
    {
        let ghost found = held;
        let (left, result) = run_step::<Context, S>(&*steps[index], held);
        assert(step_ran::<Context, S>(&*steps@[index as int], found, left, result));
        match result {
            Err(failure) => {
                let ghost broken = left;
                let (last, compensation) = compensate_all(steps, index, left);
                let outcome = Err(failure_of(failure, compensation));
                proof {
                    assert(compensated::<Context, S>(
                        steps@,
                        index as nat,
                        broken,
                        last,
                        compensation,
                    ));
                    assert(stopped_with::<Context, S>(
                        steps@,
                        index as nat,
                        found,
                        failure,
                        compensation,
                        outcome,
                    ));
                    assert(executed_until::<Context, S>(
                        steps@,
                        context,
                        index as nat,
                        contexts,
                        outcome,
                    ));
                }
                return outcome;
            },
            Ok(passed) => {
                assert(result == Ok::<(), SagaError>(passed));
                assert(passed == ());
            },
        }
        proof {
            let before = contexts;
            contexts = contexts.push(left);
            assert forall|place: nat| place < index + 1 implies #[trigger] ran_at::<Context, S>(
                steps@,
                contexts,
                place,
                Ok(()),
            ) by {
                if place < index {
                    assert(ran_at::<Context, S>(steps@, before, place, Ok(())));
                    assert(contexts[place as int] == before[place as int]);
                    assert(contexts[place as int + 1] == before[place as int + 1]);
                }
            }
        }
        held = left;
        index = index + 1;
    }
    let outcome = Ok(held);
    assert(executed_until::<Context, S>(steps@, context, count as nat, contexts, outcome));
    outcome
}

/// Runs the steps of a saga in order, and compensates what ran when a step
/// fails.
#[verifier::reject_recursive_types(Context)]
pub struct SagaOrchestrator<Context> {
    steps: Vec<Box<dyn SagaStep<Context>>>,
}

impl<Context> SagaOrchestrator<Context> {
    /// The steps, in the order in which they run.
    pub closed spec fn steps(&self) -> Seq<Box<dyn SagaStep<Context>>> {
        self.steps@
    }

    /// The number of steps.
    pub open spec fn count(&self) -> nat {
        self.steps().len()
    }

    /// A saga without steps.
    pub fn new() -> (saga: SagaOrchestrator<Context>)
        ensures
            saga.count() == 0,
    {
        SagaOrchestrator { steps: Vec::new() }
    }

    /// The saga with `step` added after its steps: the earlier steps keep
    /// their places, and the new step runs last.
    pub fn add_step<S: SagaStep<Context> + 'static>(self, step: S) -> (saga: SagaOrchestrator<
        Context,
    >)
        ensures
            appended_step::<Context, S>(self.steps(), step, saga.steps()),
            extended::<Context, dyn SagaStep<Context>>(self.steps(), saga.steps()),
            saga.count() == self.count() + 1,
    {
        let sized: Box<S> = Box::new(step);
        let held: Box<dyn SagaStep<Context>> = sized;
        let steps = append_step(self.steps, held);
        assert(appended::<Context, dyn SagaStep<Context>>(self.steps(), held, steps@));
        SagaOrchestrator { steps }
    }

    /// The number of steps.
    pub fn len(&self) -> (count: usize)
        ensures
            count == self.count(),
    {
        self.steps.len()
    }

    /// Compensates the first `executed` steps, the last of them first,
    /// each on the context that the one before it left and the first on
    /// `context`, and stops at the first compensation that fails. It hands
    /// back the context as the last compensation left it, and that failure
    /// if there was one. No more steps are compensated than the saga has.
    pub fn compensate(&self, executed: usize, context: Context) -> (done: (
        Context,
        Option<SagaError>,
    ))
        ensures
            compensated::<Context, dyn SagaStep<Context>>(
                self.steps(),
                within(executed as nat, self.count()),
                context,
                done.0,
                done.1,
            ),
    {
        compensate_all(&self.steps, executed, context)
    }

    /// Runs the steps in order, each on the context that the step before
    /// it left and the first on `context`, and returns the context that the
    /// last step left when every step succeeded. When a step fails, the
    /// steps that ran before it are compensated, the last first, from the
    /// context that the failed step left, and the saga fails as
    /// `failure_of` says. A saga without steps returns the context as it
    /// was given.
    pub fn execute(&self, context: Context) -> (outcome: Result<Context, SagaError>)
        ensures
            executed::<Context, dyn SagaStep<Context>>(self.steps(), context, outcome),
            self.count() == 0 ==> outcome == Ok::<Context, SagaError>(context),
    {
        execute_all(&self.steps, context)
    }
}

} // verus!
