//! Executions as a whole: the actions an execution asks for one after the
//! other, given the answers it gets, and what holds of them whatever the
//! driver and the blobs answer.

use vstd::prelude::*;
use crate::cursor::StatementState;
use crate::execute::defect;
use crate::execute::failed;
use crate::execute::next;
use crate::execute::Action;
use crate::execute::Event;
use crate::execute::ExecutionView;
use crate::execute::Phase;
use crate::execute::StepView;
use crate::outcome::Function;
use crate::outcome::Outcome;
use crate::outcome::ProgrammingError;
use crate::outcome::Reply;
use crate::outcome::SqlReturn;
use crate::parameter::resolve;
use crate::statement::completed;
use crate::statement::sent;
use crate::statement::wanted;

verus! {

/// Where the execution stands after the answers `events`, each of them given
/// to the action pending at that time. Answers left over once the execution
/// is done are not looked at.
pub open spec fn run<'q, S>(step: StepView<'q, S>, events: Seq<Event>) -> StepView<'q, S>
    decreases events.len(),
{
    if events.len() == 0 {
        step
    } else {
        match step {
            StepView::Call(v, _) => run(next(v, events[0]), events.drop_first()),
            StepView::Done(_) => step,
        }
    }
}

/// The actions asked for in the course of `run(step, events)`, in the order
/// in which they are asked for. The first one is the action pending in
/// `step`, the last one the action pending after all of the answers.
pub open spec fn calls<'q, S>(step: StepView<'q, S>, events: Seq<Event>) -> Seq<Action<'q>>
    decreases events.len(),
{
    match step {
        StepView::Done(_) => Seq::empty(),
        StepView::Call(v, action) => {
            if events.len() == 0 {
                seq![action]
            } else {
                seq![action] + calls(next(v, events[0]), events.drop_first())
            }
        },
    }
}

/// The code is one of a call which has failed: it neither reports success,
/// nor that there is no data, nor that data is needed.
pub open spec fn is_failure(code: SqlReturn) -> bool {
    !code.succeeded() && code != SqlReturn::NoData && code != SqlReturn::NeedData
}

/// The driver function called in a phase, if it is one.
pub open spec fn awaited<'q, S>(v: ExecutionView<'q, S>) -> Option<Function> {
    match v.phase {
        Phase::ResettingParameters => Some(Function::FreeStmt),
        Phase::SettingParamsetSize => Some(Function::SetStmtAttr),
        Phase::BindingParameters => None,
        Phase::Executing => Some(v.executor()),
        Phase::AwaitingDelayedParameter => Some(Function::ParamData),
        Phase::PullingBatch { .. } => None,
        Phase::SendingBatch { .. } => Some(Function::PutData),
        Phase::CountingResultColumns => Some(Function::NumResultCols),
    }
}

/// The answer of the driver in `event`, if it is one.
pub open spec fn reply_of(event: Event) -> Option<Reply> {
    match event {
        Event::Returned(reply) => Some(reply),
        Event::ParamData(reply, _) => Some(reply),
        Event::ResultColumns(reply, _) => Some(reply),
        _ => None,
    }
}

/// The kind of `event` is the one which answers the call of the phase.
pub open spec fn answers(phase: Phase, event: Event) -> bool {
    match phase {
        Phase::ResettingParameters | Phase::SettingParamsetSize | Phase::Executing
        | Phase::SendingBatch { .. } => event is Returned,
        Phase::BindingParameters => event is Bound,
        Phase::AwaitingDelayedParameter => event is ParamData,
        Phase::PullingBatch { .. } => event is Batch,
        Phase::CountingResultColumns => event is ResultColumns,
    }
}

/// The action is the one which belongs to the phase.
pub open spec fn asks<'q, S>(v: ExecutionView<'q, S>, action: Action<'q>) -> bool {
    match v.phase {
        Phase::ResettingParameters => action == Action::ResetParameters::<'q>,
        Phase::SettingParamsetSize => action == Action::SetParamsetSize::<'q>(
            v.parameter_set_size,
        ),
        Phase::BindingParameters => action == Action::BindParameters::<'q>,
        Phase::Executing => match v.query {
            Some(text) => action == Action::ExecDirect(text),
            None => action == Action::Execute::<'q>,
        },
        Phase::AwaitingDelayedParameter => action == Action::ParamData::<'q>,
        Phase::PullingBatch { slot } => action == (Action::NextBatch::<'q> { slot }),
        Phase::SendingBatch { .. } => action is PutData,
        Phase::CountingResultColumns => action == Action::NumResultCols::<'q>,
    }
}

/// The answers a blob and the driver give while the blob hands out `batches`
/// and then reports that it has no more: each batch is followed by the
/// answer of the driver to it.
pub open spec fn drain_events(batches: Seq<Vec<u8>>, replies: Seq<Reply>) -> Seq<Event>
    decreases batches.len(),
{
    if batches.len() == 0 {
        seq![Event::Batch(Ok(None))]
    } else {
        seq![Event::Batch(Ok(Some(batches[0]))), Event::Returned(replies[0])] + drain_events(
            batches.drop_first(),
            replies.drop_first(),
        )
    }
}

/// The actions which drain the blob at `slot`: each of `batches` is pulled
/// and sent before the next one is pulled. Once the blob has no more, the
/// driver is asked for the next delayed parameter.
pub open spec fn drain_calls<'q>(slot: u16, batches: Seq<Vec<u8>>) -> Seq<Action<'q>>
    decreases batches.len(),
{
    if batches.len() == 0 {
        seq![Action::NextBatch { slot }, Action::ParamData]
    } else {
        seq![Action::NextBatch { slot }, Action::PutData(batches[0])] + drain_calls(
            slot,
            batches.drop_first(),
        )
    }
}

/// An execution which is over asks for nothing, whatever is handed to it.
/// This is the case from the start if there are no parameter rows.
pub proof fn lemma_nothing_is_called_once_done<'q, S>(
    outcome: Outcome<Option<S>>,
    events: Seq<Event>,
)
    ensures
        calls(StepView::<'q, S>::Done(outcome), events) == Seq::<Action<'q>>::empty(),
        run(StepView::<'q, S>::Done(outcome), events) == StepView::<'q, S>::Done(outcome),
{
}

/// The action an execution hands out is always the one its phase waits for
/// the answer of. So the number of result columns is reported only to an
/// execution which has asked for it, and a statement text is executed only if
/// there is one.
pub proof fn lemma_action_belongs_to_phase<'q, S>(
    v: ExecutionView<'q, S>,
    event: Event,
    w: ExecutionView<'q, S>,
    action: Action<'q>,
)
    requires
        next(v, event) == StepView::Call(w, action),
    ensures
        asks(w, action),
        answers(v.phase, event),
{
}

/// The number of parameter rows a statement is told to expect is never zero,
/// and an execution which goes on stays well formed.
pub proof fn lemma_parameter_set_is_not_empty<'q, S>(
    v: ExecutionView<'q, S>,
    event: Event,
    w: ExecutionView<'q, S>,
    action: Action<'q>,
)
    requires
        v.wf(),
        next(v, event) == StepView::Call(w, action),
    ensures
        w.wf(),
        action matches Action::SetParamsetSize(size) ==> size > 0,
{
}

/// Once the driver has reported the number of result columns the execution
/// is over. It succeeds without a cursor if there are no columns, and with a
/// cursor which wraps the statement if there is at least one.
pub proof fn lemma_result_columns_decide<'q, S>(v: ExecutionView<'q, S>, reply: Reply, count: i16)
    requires
        v.phase == Phase::CountingResultColumns,
        reply.code.succeeded(),
        count >= 0,
    ensures
        count == 0 ==> next(v, Event::ResultColumns(reply, count)) == StepView::<'q, S>::Done(
            Outcome::Success(None),
        ),
        count > 0 ==> next(v, Event::ResultColumns(reply, count)) == StepView::<'q, S>::Done(
            Outcome::Success(Some(v.statement)),
        ),
{
}

/// A cursor is handed out in one place only: after the driver has confirmed
/// that the statement which executes has at least one result column.
pub proof fn lemma_cursor_needs_result_columns<'q, S>(
    v: ExecutionView<'q, S>,
    event: Event,
    statement: S,
)
    requires
        next(v, event) == StepView::<'q, S>::Done(Outcome::Success(Some(statement))),
    ensures
        v.phase == Phase::CountingResultColumns,
        v.phase.statement_state() == StatementState::Executing,
        statement == v.statement,
        event matches Event::ResultColumns(reply, count) && reply.code.succeeded() && count > 0,
{
}

/// An execution either succeeds or fails: that there is no data, or that
/// data is needed, is dealt with in its course and is never its outcome.
pub proof fn lemma_execution_succeeds_or_fails<'q, S>(
    v: ExecutionView<'q, S>,
    event: Event,
    outcome: Outcome<Option<S>>,
)
    requires
        next(v, event) == StepView::<'q, S>::Done(outcome),
    ensures
        outcome is Success || outcome is Error,
{
}

/// A batch without bytes in it ends the execution. It is not sent to the
/// driver, and neither is anything else after it.
pub proof fn lemma_empty_batch_is_not_sent<'q, S>(v: ExecutionView<'q, S>, batch: Vec<u8>)
    requires
        batch@.len() == 0,
    ensures
        next(v, Event::Batch(Ok(Some(batch)))) is Done,
        v.phase is PullingBatch ==> next(v, Event::Batch(Ok(Some(batch)))) == defect::<S>(
            ProgrammingError::EmptyBatch,
        ),
{
}

/// What is sent to the driver is a batch which has just been pulled from the
/// blob the driver asked for, and it is never empty.
pub proof fn lemma_only_pulled_batches_are_sent<'q, S>(
    v: ExecutionView<'q, S>,
    event: Event,
    w: ExecutionView<'q, S>,
    batch: Vec<u8>,
)
    requires
        next(v, event) == StepView::Call(w, Action::PutData(batch)),
    ensures
        batch@.len() > 0,
        event == Event::Batch(Ok(Some(batch))),
        v.phase matches Phase::PullingBatch { slot } && w.phase == (Phase::SendingBatch { slot }),
{
}

/// A driver call which fails ends the execution, and the error names the
/// function which failed and carries the diagnostic of the call.
pub proof fn lemma_failed_call_ends_execution<'q, S>(
    v: ExecutionView<'q, S>,
    event: Event,
    function: Function,
    reply: Reply,
)
    requires
        answers(v.phase, event),
        awaited(v) == Some(function),
        reply_of(event) == Some(reply),
        is_failure(reply.code),
    ensures
        next(v, event) == failed::<S>(function, reply),
{
}

/// While the blob at `slot` is drained, nothing is pulled from another blob
/// and the driver is not asked for the next delayed parameter, until the
/// blob has reported that it has no more batches. The statement, its text
/// and its parameters stay what they are.
pub proof fn lemma_one_blob_at_a_time<'q, S>(
    v: ExecutionView<'q, S>,
    event: Event,
    w: ExecutionView<'q, S>,
    action: Action<'q>,
    slot: u16,
)
    requires
        v.phase == (Phase::PullingBatch { slot }) || v.phase == (Phase::SendingBatch { slot }),
        next(v, event) == StepView::Call(w, action),
    ensures
        w == v.at(w.phase),
        w.phase == (Phase::PullingBatch { slot }) || w.phase == (Phase::SendingBatch { slot })
            || w.phase == Phase::AwaitingDelayedParameter,
        w.phase == Phase::AwaitingDelayedParameter ==> v.phase == (Phase::PullingBatch { slot })
            && event == Event::Batch(Ok(None)) && action == Action::ParamData::<'q>,
        action is ParamData ==> w.phase == Phase::AwaitingDelayedParameter,
{
}

/// A blob is only ever pulled from if its slot is in the table of delayed
/// parameters and the driver has asked for it, or if it is being drained
/// already.
pub proof fn lemma_pulls_are_asked_for<'q, S>(
    v: ExecutionView<'q, S>,
    event: Event,
    w: ExecutionView<'q, S>,
    slot: u16,
)
    requires
        next(v, event) == StepView::Call(w, Action::NextBatch { slot }),
    ensures
        w.phase == (Phase::PullingBatch { slot }),
        v.phase == (Phase::SendingBatch { slot }) || (v.phase == Phase::AwaitingDelayedParameter
            && v.delayed.contains(slot) && (event matches Event::ParamData(reply, identity)
            && reply.code == SqlReturn::NeedData && identity == slot)),
{
}

/// All batches of a blob are sent to the driver, in the order in which the
/// blob hands them out, before the driver is asked for the next delayed
/// parameter: if the blob at `slot` hands out `batches`, none of them empty,
/// and the driver accepts each of them, then the actions asked for are those
/// of `drain_calls`, and after them the execution waits for the next delayed
/// parameter.
pub proof fn lemma_blob_is_drained_in_order<'q, S>(
    v: ExecutionView<'q, S>,
    slot: u16,
    batches: Seq<Vec<u8>>,
    replies: Seq<Reply>,
)
    requires
        batches.len() == replies.len(),
        forall|i: int| 0 <= i < batches.len() ==> (#[trigger] batches[i])@.len() > 0,
        forall|i: int|
            0 <= i < replies.len() ==> (#[trigger] replies[i]).code.succeeded() || replies[i].code
                == SqlReturn::NeedData,
    ensures
        run(v.next_batch(slot), drain_events(batches, replies)) == v.next_parameter(),
        calls(v.next_batch(slot), drain_events(batches, replies)) == drain_calls::<'q>(
            slot,
            batches,
        ),
    decreases batches.len(),
{
    if batches.len() == 0 {
        // The blob reports at once that it has no more.
        reveal_with_fuel(run, 2);
        reveal_with_fuel(calls, 2);
    } else {
        // The first batch is pulled and sent, which leaves the rest of them.
        let events = drain_events(batches, replies);
        let rest = drain_events(batches.drop_first(), replies.drop_first());
        assert(events.drop_first().drop_first() =~= rest);
        lemma_blob_is_drained_in_order(v, slot, batches.drop_first(), replies.drop_first());
        reveal_with_fuel(run, 3);
        reveal_with_fuel(calls, 3);
    }
}

/// An execution reads each answer of the driver the way the call on its own
/// is read: what counts as a failure of the call ends the execution with
/// that error, and what the call may report without failing decides how the
/// execution goes on.
pub proof fn lemma_decisions_follow_outcomes<'q, S>(
    v: ExecutionView<'q, S>,
    reply: Reply,
    identity: usize,
    count: i16,
)
    ensures
        v.phase == Phase::ResettingParameters ==> next(v, Event::Returned(reply)) == (match completed(
            reply,
            Function::FreeStmt,
        ) {
            Outcome::Error(error) => StepView::Done(Outcome::Error(error)),
            _ => StepView::Call(
                v.at(Phase::SettingParamsetSize),
                Action::SetParamsetSize(v.parameter_set_size),
            ),
        }),
        v.phase == Phase::SettingParamsetSize ==> next(v, Event::Returned(reply)) == (match completed(
            reply,
            Function::SetStmtAttr,
        ) {
            Outcome::Error(error) => StepView::Done(Outcome::Error(error)),
            _ => StepView::Call(v.at(Phase::BindingParameters), Action::BindParameters),
        }),
        v.phase == Phase::Executing ==> next(v, Event::Returned(reply)) == (match reply.outcome(
            v.executor(),
        ) {
            Outcome::Error(error) => StepView::Done(Outcome::Error(error)),
            Outcome::NeedData => v.next_parameter(),
            Outcome::Success(_) | Outcome::NoData => v.count_columns(),
        }),
        v.phase == Phase::AwaitingDelayedParameter ==> next(v, Event::ParamData(reply, identity))
            == (match wanted(reply, identity) {
            Outcome::Success(Some(wanted)) => match resolve(v.delayed, wanted) {
                Some(slot) => v.next_batch(slot),
                None => defect(ProgrammingError::UnknownDelayedParameter),
            },
            Outcome::Error(error) => StepView::Done(Outcome::Error(error)),
            _ => v.count_columns(),
        }),
        v.phase matches Phase::SendingBatch { slot } ==> next(v, Event::Returned(reply)) == (
        match sent(reply) {
            Outcome::Error(error) => StepView::Done(Outcome::Error(error)),
            _ => v.next_batch(slot),
        }),
        v.phase == Phase::CountingResultColumns && count >= 0 ==> next(
            v,
            Event::ResultColumns(reply, count),
        ) == (match completed(reply, Function::NumResultCols).with(count) {
            Outcome::Error(error) => StepView::Done(Outcome::Error(error)),
            _ => settled(v.statement, count),
        }),
{
}

/// The action pending after some answers is the last one of the actions
/// asked for up to then.
pub proof fn lemma_pending_action_is_last<'q, S>(step: StepView<'q, S>, events: Seq<Event>)
    requires
        run(step, events) is Call,
    ensures
        calls(step, events).len() > 0,
        run(step, events) matches StepView::Call(_, action) && calls(step, events).last()
            == action,
    decreases events.len(),
{
    if events.len() > 0 {
        match step {
            StepView::Call(v, _) => {
                lemma_pending_action_is_last(next(v, events[0]), events.drop_first());
            },
            StepView::Done(_) => {},
        }
    }
}

/// An execution can be looked at in parts: the answers `first + rest` lead
/// to where `rest` leads from where `first` has led. The actions asked for
/// are those asked for in the course of `first`, followed by those asked for
/// in the course of `rest`, the action pending in between being counted
/// once.
pub proof fn lemma_run_in_parts<'q, S>(step: StepView<'q, S>, first: Seq<Event>, rest: Seq<Event>)
    ensures
        run(step, first + rest) == run(run(step, first), rest),
        run(step, first) is Call ==> calls(step, first + rest) == calls(step, first).drop_last()
            + calls(run(step, first), rest),
    decreases first.len(),
{
    if first.len() > 0 {
        match step {
            StepView::Call(v, action) => {
                let after = next(v, first[0]);
                assert((first + rest).drop_first() =~= first.drop_first() + rest);
                lemma_run_in_parts(after, first.drop_first(), rest);
                if run(step, first) is Call {
                    lemma_pending_action_is_last(after, first.drop_first());
                }
            },
            StepView::Done(_) => {},
        }
    }
}

/// The answers to an execution which has no delayed parameter to send: the
/// parameters are reset, their number is set, they are bound, the statement
/// is executed and the number of result columns is reported.
pub open spec fn plain_events(executed: Reply, counted: Reply, count: i16) -> Seq<Event> {
    seq![
        Event::Returned(Reply { code: SqlReturn::Success, diagnostic: None }),
        Event::Returned(Reply { code: SqlReturn::Success, diagnostic: None }),
        Event::Bound(Ok(())),
        Event::Returned(executed),
        Event::ResultColumns(counted, count),
    ]
}

/// How an execution ends which has been told the number of result columns.
pub open spec fn settled<'q, S>(statement: S, count: i16) -> StepView<'q, S> {
    if count == 0 {
        StepView::Done(Outcome::Success(None))
    } else {
        StepView::Done(Outcome::Success(Some(statement)))
    }
}

/// An execution in which every call succeeds, and in which the driver does
/// not ask for data, consists of five calls: the parameters are reset, their
/// number is set, they are bound, the statement is executed and the result
/// columns are counted. That the execution does not affect any row is not an
/// error. The execution succeeds without a cursor if no result columns are
/// reported, and with a cursor around the statement otherwise.
pub proof fn lemma_plain_execution<'q, S>(
    v: ExecutionView<'q, S>,
    executed: Reply,
    counted: Reply,
    count: i16,
)
    requires
        v.phase == Phase::ResettingParameters,
        executed.code.succeeded() || executed.code == SqlReturn::NoData,
        counted.code.succeeded(),
        count >= 0,
    ensures
        run(
            StepView::Call(v, Action::ResetParameters),
            plain_events(executed, counted, count),
        ) == settled::<S>(v.statement, count),
        calls(StepView::Call(v, Action::ResetParameters), plain_events(executed, counted, count))
            == seq![
            Action::ResetParameters,
            Action::SetParamsetSize(v.parameter_set_size),
            Action::BindParameters,
            match v.query {
                Some(text) => Action::ExecDirect(text),
                None => Action::Execute,
            },
            Action::NumResultCols,
        ],
{
    let events = plain_events(executed, counted, count);
    let start = StepView::Call(v, Action::ResetParameters);
    let e1 = events.drop_first();
    let e2 = e1.drop_first();
    let e3 = e2.drop_first();
    let e4 = e3.drop_first();
    let s1 = next(v, events[0]);
    let s2 = next(v.at(Phase::SettingParamsetSize), e1[0]);
    let s3 = next(v.at(Phase::BindingParameters), e2[0]);
    let s4 = next(v.at(Phase::Executing), e3[0]);
    let s5 = next(v.at(Phase::CountingResultColumns), e4[0]);
    assert(run(s5, e4.drop_first()) == s5);
    assert(run(s4, e4) == s5);
    assert(run(s3, e3) == s5);
    assert(run(s2, e2) == s5);
    assert(run(s1, e1) == s5);
    assert(calls(s5, e4.drop_first()) =~= Seq::<Action<'q>>::empty());
    assert(calls(s4, e4) =~= seq![Action::NumResultCols]);
    assert(calls(s3, e3).len() == 2);
    assert(calls(s2, e2).len() == 3);
    assert(calls(s1, e1).len() == 4);
}

/// The answers the driver and a blob give while a statement is executed
/// whose only delayed parameter is bound to `slot`: the driver needs data and
/// names the parameter, the blob hands out `batches`, and the driver takes
/// them and needs no more.
pub open spec fn streamed_events(
    slot: u16,
    batches: Seq<Vec<u8>>,
    replies: Seq<Reply>,
    counted: Reply,
    count: i16,
) -> Seq<Event> {
    seq![
        Event::Returned(Reply { code: SqlReturn::NeedData, diagnostic: None }),
        Event::ParamData(Reply { code: SqlReturn::NeedData, diagnostic: None }, slot as usize),
    ] + drain_events(batches, replies) + seq![
        Event::ParamData(Reply { code: SqlReturn::Success, diagnostic: None }, 0),
        Event::ResultColumns(counted, count),
    ]
}

/// The actions of an execution in which the data of one delayed parameter is
/// sent.
pub open spec fn streamed_calls<'q>(submit: Action<'q>, slot: u16, batches: Seq<Vec<u8>>) -> Seq<
    Action<'q>,
> {
    seq![submit, Action::ParamData] + drain_calls(slot, batches) + seq![Action::NumResultCols]
}

/// A statement whose delayed parameter at `slot` is bound to a blob is
/// executed like this: the statement is submitted, the driver is asked which
/// parameter it needs, each batch is pulled from the blob and sent to the
/// driver in turn, the driver is asked again once the blob has no more, and
/// the result columns are counted once the driver needs no more. The
/// execution succeeds without a cursor if no result columns are reported,
/// and with a cursor around the statement otherwise.
pub proof fn lemma_execution_with_delayed_parameter<'q, S>(
    v: ExecutionView<'q, S>,
    submit: Action<'q>,
    slot: u16,
    batches: Seq<Vec<u8>>,
    replies: Seq<Reply>,
    counted: Reply,
    count: i16,
)
    requires
        v.phase == Phase::Executing,
        v.delayed.contains(slot),
        batches.len() == replies.len(),
        forall|i: int| 0 <= i < batches.len() ==> (#[trigger] batches[i])@.len() > 0,
        forall|i: int|
            0 <= i < replies.len() ==> (#[trigger] replies[i]).code.succeeded() || replies[i].code
                == SqlReturn::NeedData,
        counted.code.succeeded(),
        count >= 0,
    ensures
        run(StepView::Call(v, submit), streamed_events(slot, batches, replies, counted, count))
            == settled::<S>(v.statement, count),
        calls(StepView::Call(v, submit), streamed_events(slot, batches, replies, counted, count))
            == streamed_calls(submit, slot, batches),
{
    let start = StepView::Call(v, submit);
    let head = seq![
        Event::Returned(Reply { code: SqlReturn::NeedData, diagnostic: None }),
        Event::ParamData(Reply { code: SqlReturn::NeedData, diagnostic: None }, slot as usize),
    ];
    let middle = drain_events(batches, replies);
    let tail = seq![
        Event::ParamData(Reply { code: SqlReturn::Success, diagnostic: None }, 0),
        Event::ResultColumns(counted, count),
    ];
    // Up to the first pull from the blob.
    let asked = next(v, head[0]);
    let pulling = next(v.at(Phase::AwaitingDelayedParameter), head[1]);
    assert(run(pulling, head.drop_first().drop_first()) == pulling);
    assert(run(asked, head.drop_first()) == pulling);
    assert(calls(pulling, head.drop_first().drop_first()) =~= seq![Action::NextBatch { slot }]);
    assert(calls(asked, head.drop_first()) =~= seq![
        Action::ParamData,
        Action::NextBatch { slot },
    ]);
    // The blob is drained.
    lemma_blob_is_drained_in_order(v, slot, batches, replies);
    // The driver needs no more, and the columns are counted.
    let waiting = v.next_parameter();
    let counting = next(v.at(Phase::AwaitingDelayedParameter), tail[0]);
    let done = next(v.at(Phase::CountingResultColumns), tail[1]);
    assert(run(done, tail.drop_first().drop_first()) == done);
    assert(run(counting, tail.drop_first()) == done);
    assert(calls(done, tail.drop_first().drop_first()) =~= Seq::<Action<'q>>::empty());
    assert(calls(counting, tail.drop_first()) =~= seq![Action::NumResultCols]);
    // The parts make up the whole.
    lemma_run_in_parts(pulling, middle, tail);
    lemma_run_in_parts(start, head, middle + tail);
    assert(head + (middle + tail) =~= streamed_events(slot, batches, replies, counted, count));
    lemma_pending_action_is_last(pulling, middle);
}

} // verus!
