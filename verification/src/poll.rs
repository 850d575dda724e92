//! Waiting for a service to reach a state.
//!
//! The poller asks for the status, and asks again after a pause, until the
//! service is in the state waited for or the time allowed is used up. It
//! pauses between two queries and never after the last.

use crate::error::{no_status, Error, ErrorView, ProviderError, ProviderErrorView};
use crate::provider::{Command, CommandView, Reply, ReplyView};
use crate::status::{ServiceState, ServiceStatus, Span};
use vstd::prelude::*;

verus! {

/// How a wait ended.
#[derive(Clone, Copy, Debug, PartialEq, Eq)]
pub enum PollStatus {
    /// The service reached the state; this is the status that showed it.
    NoTimeout(ServiceStatus),
    /// The time ran out; this is the status seen last.
    Timeout(ServiceStatus),
}

/// Where a wait stands: what it has asked for, and the time that it counts
/// as spent so far.
#[derive(Clone, Copy, Debug, PartialEq, Eq)]
pub enum PollStage {
    /// A status query is outstanding.
    Query { waited: Span },
    /// A pause is outstanding.
    Sleep { waited: Span },
}

/// One step of a wait: the next command, or the end.
#[derive(Debug, PartialEq, Eq)]
pub enum PollStep {
    /// Perform `command`, then hand the reply to [`poll_state`], together
    /// with `stage`.
    Call { command: Command, stage: PollStage },
    /// The wait is over: it converged, timed out, or a query failed.
    Finished { result: Result<PollStatus, ProviderError> },
}

/// The mathematical content of a [`PollStep`].
pub enum PollStepView {
    Call { command: CommandView, stage: PollStage },
    Finished { result: Result<PollStatus, ProviderErrorView> },
}

impl View for PollStep {
    type V = PollStepView;

    open spec fn view(&self) -> PollStepView {
        match *self {
            PollStep::Call { command, stage } => PollStepView::Call { command: command@, stage },
            PollStep::Finished { result } => PollStepView::Finished {
                result: match result {
                    Ok(status) => Ok(status),
                    Err(error) => Err(error@),
                },
            },
        }
    }
}

/// The command that is outstanding at `stage` of a wait that pauses for
/// `wait_hint`.
pub open spec fn poll_pending(wait_hint: Span, stage: PollStage) -> CommandView {
    match stage {
        PollStage::Query { .. } => CommandView::QueryStatus,
        PollStage::Sleep { .. } => CommandView::Sleep { duration: wait_hint },
    }
}

/// The step that moves a wait to `stage`.
pub open spec fn poll_proceed(wait_hint: Span, stage: PollStage) -> PollStepView {
    PollStepView::Call { command: poll_pending(wait_hint, stage), stage }
}

/// The first step of a wait: a status query, with no time spent.
pub open spec fn poll_first() -> PollStepView {
    PollStepView::Call {
        command: CommandView::QueryStatus,
        stage: PollStage::Query { waited: Span { nanos: 0 } },
    }
}

/// The step that follows `stage` of a wait for `state`, once the
/// outstanding command was answered with `reply`.
///
/// A status in the state waited for ends the wait at once. Any other status
/// counts as one more `wait_hint` spent: if that uses up `timeout`, the wait
/// ends with the status as the last one seen; if not, a pause of `wait_hint`
/// comes next, and a query after it. A failure ends the wait, and so does a
/// success without a status where a status was asked for: that is a failure
/// of the registry too.
pub open spec fn poll_next(
    state: ServiceState,
    timeout: Span,
    wait_hint: Span,
    stage: PollStage,
    reply: ReplyView,
) -> PollStepView {
    match stage {
        PollStage::Query { waited } => match reply {
            ReplyView::Failed(error) => PollStepView::Finished { result: Err(error) },
            ReplyView::Status(status) => if status.current_state == state {
                PollStepView::Finished { result: Ok(PollStatus::NoTimeout(status)) }
            } else if waited.nanos + wait_hint.nanos >= timeout.nanos {
                PollStepView::Finished { result: Ok(PollStatus::Timeout(status)) }
            } else {
                poll_proceed(
                    wait_hint,
                    PollStage::Sleep {
                        waited: Span { nanos: (waited.nanos + wait_hint.nanos) as u128 },
                    },
                )
            },
            ReplyView::Done => PollStepView::Finished { result: Err(no_status()) },
        },
        PollStage::Sleep { waited } => match reply {
            ReplyView::Failed(error) => PollStepView::Finished { result: Err(error) },
            _ => poll_proceed(wait_hint, PollStage::Query { waited }),
        },
    }
}

/// What a finished wait for `state` comes to: the status that showed the
/// state, or the failure that says which state was seen instead.
pub open spec fn ensured(state: ServiceState, timeout: Span, poll_status: PollStatus) -> Result<
    ServiceStatus,
    ErrorView,
> {
    match poll_status {
        PollStatus::NoTimeout(status) => Ok(status),
        PollStatus::Timeout(status) => Err(
            ErrorView::PollTimeout {
                state: status.current_state,
                expected_state: state,
                timeout,
            },
        ),
    }
}

/// One step of a wait that must succeed: the next command, or the end.
#[derive(Debug, PartialEq, Eq)]
pub enum EnsureStep {
    /// Perform `command`, then hand the reply to [`ensure_state`], together
    /// with `stage`.
    Call { command: Command, stage: PollStage },
    /// The wait is over: with the status that showed the state, or with
    /// the reason why there is none.
    Finished { result: Result<ServiceStatus, Error> },
}

/// The mathematical content of an [`EnsureStep`].
pub enum EnsureStepView {
    Call { command: CommandView, stage: PollStage },
    Finished { result: Result<ServiceStatus, ErrorView> },
}

impl View for EnsureStep {
    type V = EnsureStepView;

    open spec fn view(&self) -> EnsureStepView {
        match *self {
            EnsureStep::Call { command, stage } => EnsureStepView::Call {
                command: command@,
                stage,
            },
            EnsureStep::Finished { result } => EnsureStepView::Finished {
                result: match result {
                    Ok(status) => Ok(status),
                    Err(error) => Err(error@),
                },
            },
        }
    }
}

/// What a step of a wait for `state` means where the wait must succeed: a
/// failed query is a failure of the registry, and a timeout is a failure
/// of its own kind.
pub open spec fn ensure_step(state: ServiceState, timeout: Span, step: PollStepView)
    -> EnsureStepView {
    match step {
        PollStepView::Call { command, stage } => EnsureStepView::Call { command, stage },
        PollStepView::Finished { result: Err(source) } => EnsureStepView::Finished {
            result: Err(ErrorView::Service { source }),
        },
        PollStepView::Finished { result: Ok(poll_status) } => EnsureStepView::Finished {
            result: ensured(state, timeout, poll_status),
        },
    }
}

/// The step that follows `stage` of a wait for `state` that must succeed,
/// once the outstanding command was answered with `reply`.
pub open spec fn ensure_next(
    state: ServiceState,
    timeout: Span,
    wait_hint: Span,
    stage: PollStage,
    reply: ReplyView,
) -> EnsureStepView {
    ensure_step(state, timeout, poll_next(state, timeout, wait_hint, stage, reply))
}

/// The step that asks for what `stage` waits for.
fn poll_proceed_to(wait_hint: Span, stage: PollStage) -> (step: PollStep)
    ensures
        step@ == poll_proceed(wait_hint, stage),
{
    match stage {
        PollStage::Query { .. } => PollStep::Call { command: Command::QueryStatus, stage },
        PollStage::Sleep { .. } => PollStep::Call {
            command: Command::Sleep { duration: wait_hint },
            stage,
        },
    }
}

/// Begins a wait.
pub fn poll_begin() -> (step: PollStep)
    ensures
        step@ == poll_first(),
{
    PollStep::Call {
        command: Command::QueryStatus,
        stage: PollStage::Query { waited: Span::zero() },
    }
}

/// Decides what a wait for `state` does after `stage`, given the reply to
/// the command made there.
pub fn poll_state(
    state: ServiceState,
    timeout: Span,
    wait_hint: Span,
    stage: PollStage,
    reply: Reply,
) -> (step: PollStep)
    ensures
        step@ == poll_next(state, timeout, wait_hint, stage, reply@),
{
    match stage {
        PollStage::Query { waited } => match reply {
            Reply::Failed(error) => PollStep::Finished { result: Err(error) },
            Reply::Status(status) => {
                if status.current_state == state {
                    PollStep::Finished { result: Ok(PollStatus::NoTimeout(status)) }
                } else if waited.nanos >= timeout.nanos || wait_hint.nanos >= timeout.nanos
                    - waited.nanos {
                    PollStep::Finished { result: Ok(PollStatus::Timeout(status)) }
                } else {
                    poll_proceed_to(
                        wait_hint,
                        PollStage::Sleep { waited: Span { nanos: waited.nanos + wait_hint.nanos } },
                    )
                }
            },
            Reply::Done => PollStep::Finished { result: Err(ProviderError::no_status()) },
        },
        PollStage::Sleep { waited } => match reply {
            Reply::Failed(error) => PollStep::Finished { result: Err(error) },
            _ => poll_proceed_to(wait_hint, PollStage::Query { waited }),
        },
    }
}

/// Begins a wait that must succeed.
pub fn ensure_begin() -> (step: EnsureStep)
    ensures
        step@ == (EnsureStepView::Call {
            command: CommandView::QueryStatus,
            stage: PollStage::Query { waited: Span { nanos: 0 } },
        }),
{
    EnsureStep::Call {
        command: Command::QueryStatus,
        stage: PollStage::Query { waited: Span::zero() },
    }
}

/// Decides what a wait for `state` that must succeed does after `stage`,
/// given the reply to the command made there. It polls as [`poll_state`]
/// does, and ends with the status that showed the state, with
/// [`Error::PollTimeout`] where the time ran out, or with
/// [`Error::Service`] where a query failed.
pub fn ensure_state(
    state: ServiceState,
    timeout: Span,
    wait_hint: Span,
    stage: PollStage,
    reply: Reply,
) -> (step: EnsureStep)
    ensures
        step@ == ensure_next(state, timeout, wait_hint, stage, reply@),
{
    match poll_state(state, timeout, wait_hint, stage, reply) {
        PollStep::Call { command, stage } => EnsureStep::Call { command, stage },
        PollStep::Finished { result: Err(source) } => EnsureStep::Finished {
            result: Err(Error::Service { source }),
        },
        PollStep::Finished { result: Ok(PollStatus::Timeout(status)) } => EnsureStep::Finished {
            result: Err(
                Error::PollTimeout { state: status.current_state, expected_state: state, timeout },
            ),
        },
        PollStep::Finished { result: Ok(PollStatus::NoTimeout(status)) } => EnsureStep::Finished {
            result: Ok(status),
        },
    }
}

/// What a wait did, as far as the replies given to it reach.
pub struct PollRun {
    /// The commands asked for, in order.
    pub commands: Seq<CommandView>,
    /// How the wait ended; `None` while it waits for another reply.
    pub result: Option<Result<PollStatus, ProviderErrorView>>,
}

/// What a wait for `state` does from `step` on, when its commands are
/// answered by `replies`, in order. Replies left over when the wait has
/// ended are not read.
pub open spec fn poll_follow(
    state: ServiceState,
    timeout: Span,
    wait_hint: Span,
    step: PollStepView,
    replies: Seq<ReplyView>,
) -> PollRun
    decreases replies.len(),
{
    match step {
        PollStepView::Finished { result } => PollRun { commands: Seq::empty(), result: Some(result) },
        PollStepView::Call { command, stage } => if replies.len() == 0 {
            PollRun { commands: seq![command], result: None }
        } else {
            let rest = poll_follow(
                state,
                timeout,
                wait_hint,
                poll_next(state, timeout, wait_hint, stage, replies[0]),
                replies.drop_first(),
            );
            PollRun { commands: seq![command] + rest.commands, result: rest.result }
        },
    }
}

/// What a whole wait for `state` does when its commands are answered by
/// `replies`.
pub open spec fn poll_run(
    state: ServiceState,
    timeout: Span,
    wait_hint: Span,
    replies: Seq<ReplyView>,
) -> PollRun {
    poll_follow(state, timeout, wait_hint, poll_first(), replies)
}

/// The replies of a registry that answers the queries with `statuses`, one
/// after the other, and lets every pause pass.
pub open spec fn answers(statuses: Seq<ServiceStatus>) -> Seq<ReplyView> {
    Seq::new(
        2 * statuses.len(),
        |i: int|
            if i % 2 == 0 {
                ReplyView::Status(statuses[i / 2])
            } else {
                ReplyView::Done
            },
    )
}

/// The commands of `polls` queries with a pause of `wait_hint` between each
/// two of them.
pub open spec fn rounds(polls: nat, wait_hint: Span) -> Seq<CommandView>
    decreases polls,
{
    if polls == 0 {
        Seq::empty()
    } else if polls == 1 {
        seq![CommandView::QueryStatus]
    } else {
        seq![CommandView::QueryStatus, CommandView::Sleep { duration: wait_hint }] + rounds(
            (polls - 1) as nat,
            wait_hint,
        )
    }
}

/// The number of status queries among `commands`.
pub open spec fn queries(commands: Seq<CommandView>) -> nat
    decreases commands.len(),
{
    if commands.len() == 0 {
        0
    } else {
        queries(commands.drop_first()) + if commands.first() is QueryStatus {
            1nat
        } else {
            0nat
        }
    }
}

/// The time that `commands` ask to pause for, in nanoseconds.
pub open spec fn slept(commands: Seq<CommandView>) -> nat
    decreases commands.len(),
{
    if commands.len() == 0 {
        0
    } else {
        slept(commands.drop_first()) + match commands.first() {
            CommandView::Sleep { duration } => duration.nanos as nat,
            _ => 0nat,
        }
    }
}

/// The least number of polls, at least one, after which a wait with these
/// times has used up `timeout`.
pub open spec fn is_poll_limit(timeout: Span, wait_hint: Span, polls: nat) -> bool {
    &&& polls >= 1
    &&& polls * wait_hint.nanos >= timeout.nanos
    &&& polls == 1 || (polls - 1) * wait_hint.nanos < timeout.nanos
}

/// The first two replies of such a registry, and the rest.
pub proof fn lemma_answers_unfold(statuses: Seq<ServiceStatus>)
    requires
        statuses.len() >= 1,
    ensures
        answers(statuses).len() >= 2,
        answers(statuses)[0] == ReplyView::Status(statuses[0]),
        answers(statuses)[1] == ReplyView::Done,
        answers(statuses).drop_first().drop_first() == answers(statuses.drop_first()),
{
    let rest = answers(statuses).drop_first().drop_first();
    let other = answers(statuses.drop_first());
    assert(rest.len() == other.len());
    assert forall|i: int| 0 <= i < rest.len() implies rest[i] == other[i] by {
        assert(rest[i] == answers(statuses)[i + 2]);
        assert((i + 2) % 2 == i % 2);
        assert((i + 2) / 2 == i / 2 + 1);
    }
    assert(rest =~= other);
}

/// `polls` rounds hold `polls` queries and one pause fewer, and end with a
/// query.
pub proof fn lemma_rounds_counts(polls: nat, wait_hint: Span)
    requires
        polls >= 1,
    ensures
        rounds(polls, wait_hint).len() == 2 * polls - 1,
        rounds(polls, wait_hint).last() is QueryStatus,
        queries(rounds(polls, wait_hint)) == polls,
        slept(rounds(polls, wait_hint)) == (polls - 1) * wait_hint.nanos,
    decreases polls,
{
    let all = rounds(polls, wait_hint);
    if polls == 1 {
        assert(all.drop_first() =~= Seq::<CommandView>::empty());
        assert(queries(all) == 1) by {
            reveal_with_fuel(queries, 2);
        }
        assert(slept(all) == 0) by {
            reveal_with_fuel(slept, 2);
        }
    } else {
        let rest = rounds((polls - 1) as nat, wait_hint);
        lemma_rounds_counts((polls - 1) as nat, wait_hint);
        let pause = CommandView::Sleep { duration: wait_hint };
        assert(all == seq![CommandView::QueryStatus, pause] + rest);
        assert(all.drop_first() =~= seq![pause] + rest);
        assert(all.drop_first().drop_first() =~= rest);
        assert(all.last() == rest.last());
        assert(queries(all) == 1 + queries(rest)) by {
            reveal_with_fuel(queries, 3);
        }
        assert(slept(all) == wait_hint.nanos + slept(rest)) by {
            reveal_with_fuel(slept, 3);
        }
        assert((polls - 1) * wait_hint.nanos == wait_hint.nanos + (polls - 2) * wait_hint.nanos)
            by (nonlinear_arith);
    }
}

/// A wait that stands before a query, and whose next `polls` queries all
/// miss the state, runs out of time at the last of them.
proof fn lemma_poll_misses(
    state: ServiceState,
    timeout: Span,
    wait_hint: Span,
    waited: Span,
    polls: nat,
    statuses: Seq<ServiceStatus>,
)
    requires
        polls >= 1,
        statuses.len() >= polls,
        forall|i: int| 0 <= i < polls ==> statuses[i].current_state != state,
        waited.nanos + polls * wait_hint.nanos >= timeout.nanos,
        polls == 1 || waited.nanos + (polls - 1) * wait_hint.nanos < timeout.nanos,
    ensures
        poll_follow(
            state,
            timeout,
            wait_hint,
            poll_proceed(wait_hint, PollStage::Query { waited }),
            answers(statuses),
        ) == (PollRun {
            commands: rounds(polls, wait_hint),
            result: Some(Ok(PollStatus::Timeout(statuses[polls - 1]))),
        }),
    decreases polls,
{
    let replies = answers(statuses);
    let stage = PollStage::Query { waited };
    let run = poll_follow(state, timeout, wait_hint, poll_proceed(wait_hint, stage), replies);
    lemma_answers_unfold(statuses);
    reveal_with_fuel(poll_follow, 3);
    if polls == 1 {
        assert(1 * wait_hint.nanos == wait_hint.nanos) by (nonlinear_arith);
        assert(run.commands =~= rounds(1, wait_hint));
    } else {
        assert(polls * wait_hint.nanos == wait_hint.nanos + (polls - 1) * wait_hint.nanos)
            by (nonlinear_arith);
        assert((polls - 1) * wait_hint.nanos >= wait_hint.nanos) by (nonlinear_arith)
            requires
                polls >= 2,
        ;
        assert((polls - 1) * wait_hint.nanos == wait_hint.nanos + (polls - 2) * wait_hint.nanos)
            by (nonlinear_arith);
        let later = Span { nanos: (waited.nanos + wait_hint.nanos) as u128 };
        let tail = statuses.drop_first();
        assert forall|i: int| 0 <= i < polls - 1 implies tail[i].current_state != state by {
            assert(tail[i] == statuses[i + 1]);
        }
        lemma_poll_misses(state, timeout, wait_hint, later, (polls - 1) as nat, tail);
        let rest = poll_follow(
            state,
            timeout,
            wait_hint,
            poll_proceed(wait_hint, PollStage::Query { waited: later }),
            answers(tail),
        );
        assert(replies.drop_first()[0] == replies[1]);
        assert(run.result == rest.result);
        assert(run.commands =~= seq![
            CommandView::QueryStatus,
            CommandView::Sleep { duration: wait_hint },
        ] + rest.commands);
        assert(tail[polls - 2] == statuses[polls - 1]);
    }
}

/// A wait that stands before a query, and whose query number `polls` is the
/// first to find the state, ends there, while time is left for that query.
proof fn lemma_poll_finds(
    state: ServiceState,
    timeout: Span,
    wait_hint: Span,
    waited: Span,
    polls: nat,
    statuses: Seq<ServiceStatus>,
)
    requires
        polls >= 1,
        statuses.len() >= polls,
        forall|i: int| 0 <= i < polls - 1 ==> statuses[i].current_state != state,
        statuses[polls - 1].current_state == state,
        polls == 1 || waited.nanos + (polls - 1) * wait_hint.nanos < timeout.nanos,
    ensures
        poll_follow(
            state,
            timeout,
            wait_hint,
            poll_proceed(wait_hint, PollStage::Query { waited }),
            answers(statuses),
        ) == (PollRun {
            commands: rounds(polls, wait_hint),
            result: Some(Ok(PollStatus::NoTimeout(statuses[polls - 1]))),
        }),
    decreases polls,
{
    let replies = answers(statuses);
    let stage = PollStage::Query { waited };
    let run = poll_follow(state, timeout, wait_hint, poll_proceed(wait_hint, stage), replies);
    lemma_answers_unfold(statuses);
    reveal_with_fuel(poll_follow, 3);
    if polls == 1 {
        assert(run.commands =~= rounds(1, wait_hint));
    } else {
        assert((polls - 1) * wait_hint.nanos >= wait_hint.nanos) by (nonlinear_arith)
            requires
                polls >= 2,
        ;
        assert((polls - 1) * wait_hint.nanos == wait_hint.nanos + (polls - 2) * wait_hint.nanos)
            by (nonlinear_arith);
        let later = Span { nanos: (waited.nanos + wait_hint.nanos) as u128 };
        let tail = statuses.drop_first();
        assert forall|i: int| 0 <= i < polls - 2 implies tail[i].current_state != state by {
            assert(tail[i] == statuses[i + 1]);
        }
        assert(tail[polls - 2] == statuses[polls - 1]);
        lemma_poll_finds(state, timeout, wait_hint, later, (polls - 1) as nat, tail);
        let rest = poll_follow(
            state,
            timeout,
            wait_hint,
            poll_proceed(wait_hint, PollStage::Query { waited: later }),
            answers(tail),
        );
        assert(replies.drop_first()[0] == replies[1]);
        assert(run.result == rest.result);
        assert(run.commands =~= seq![
            CommandView::QueryStatus,
            CommandView::Sleep { duration: wait_hint },
        ] + rest.commands);
    }
}

/// A wait against a registry that never shows the state waited for times
/// out, with the status seen last, after as many queries as it takes to use
/// up the time allowed and one pause fewer.
///
/// Where the pause divides the time allowed into `polls` equal parts, these
/// are `polls` queries, and the pauses add up to the time allowed less one
/// pause.
pub proof fn wait_times_out_at_limit(
    state: ServiceState,
    timeout: Span,
    wait_hint: Span,
    polls: nat,
    statuses: Seq<ServiceStatus>,
)
    requires
        is_poll_limit(timeout, wait_hint, polls),
        statuses.len() >= polls,
        forall|i: int| 0 <= i < polls ==> statuses[i].current_state != state,
    ensures
        ({
            let run = poll_run(state, timeout, wait_hint, answers(statuses));
            &&& run.result == Some(
                Ok::<PollStatus, ProviderErrorView>(PollStatus::Timeout(statuses[polls - 1])),
            )
            &&& run.commands == rounds(polls, wait_hint)
            &&& queries(run.commands) == polls
            &&& slept(run.commands) == (polls - 1) * wait_hint.nanos
            &&& timeout.nanos == polls * wait_hint.nanos ==> slept(run.commands) == timeout.nanos
                - wait_hint.nanos
        }),
{
    lemma_poll_misses(state, timeout, wait_hint, Span { nanos: 0 }, polls, statuses);
    lemma_rounds_counts(polls, wait_hint);
    assert(polls * wait_hint.nanos == wait_hint.nanos + (polls - 1) * wait_hint.nanos)
        by (nonlinear_arith);
}

/// A wait against a registry whose query number `polls` is the first to
/// show the state waited for, while time is left for that query, ends with
/// that status after exactly `polls` queries. It pauses between the queries
/// and not after the last.
pub proof fn wait_ends_at_first_match(
    state: ServiceState,
    timeout: Span,
    wait_hint: Span,
    polls: nat,
    statuses: Seq<ServiceStatus>,
)
    requires
        polls >= 1,
        polls == 1 || (polls - 1) * wait_hint.nanos < timeout.nanos,
        statuses.len() >= polls,
        forall|i: int| 0 <= i < polls - 1 ==> statuses[i].current_state != state,
        statuses[polls - 1].current_state == state,
    ensures
        ({
            let run = poll_run(state, timeout, wait_hint, answers(statuses));
            &&& run.result == Some(
                Ok::<PollStatus, ProviderErrorView>(PollStatus::NoTimeout(statuses[polls - 1])),
            )
            &&& run.commands == rounds(polls, wait_hint)
            &&& queries(run.commands) == polls
            &&& slept(run.commands) == (polls - 1) * wait_hint.nanos
            &&& run.commands.last() is QueryStatus
        }),
{
    lemma_poll_finds(state, timeout, wait_hint, Span { nanos: 0 }, polls, statuses);
    lemma_rounds_counts(polls, wait_hint);
}

/// The longest that a wait which stands at `stage` may still ask to pause
/// for, all told: the time that is left, and the pause that is outstanding.
pub open spec fn pause_left(timeout: Span, wait_hint: Span, stage: PollStage) -> nat {
    match stage {
        PollStage::Query { waited } => if waited.nanos < timeout.nanos {
            (timeout.nanos - waited.nanos) as nat
        } else {
            0
        },
        PollStage::Sleep { waited } => if waited.nanos < timeout.nanos {
            (wait_hint.nanos + timeout.nanos - waited.nanos) as nat
        } else {
            wait_hint.nanos as nat
        },
    }
}

/// From any stage on, a wait asks to pause for no longer than is left.
pub proof fn lemma_pauses_are_bounded(
    state: ServiceState,
    timeout: Span,
    wait_hint: Span,
    stage: PollStage,
    replies: Seq<ReplyView>,
)
    ensures
        slept(
            poll_follow(state, timeout, wait_hint, poll_proceed(wait_hint, stage), replies).commands,
        ) <= pause_left(timeout, wait_hint, stage),
    decreases replies.len(),
{
    let command = poll_pending(wait_hint, stage);
    let whole = poll_follow(state, timeout, wait_hint, poll_proceed(wait_hint, stage), replies);
    reveal_with_fuel(slept, 2);
    if replies.len() == 0 {
        assert(whole.commands.drop_first() =~= Seq::<CommandView>::empty());
    } else {
        let after = poll_next(state, timeout, wait_hint, stage, replies[0]);
        let rest = poll_follow(state, timeout, wait_hint, after, replies.drop_first());
        assert(whole.commands.drop_first() =~= rest.commands);
        match after {
            PollStepView::Finished { .. } => {},
            PollStepView::Call { stage: later, .. } => {
                lemma_pauses_are_bounded(state, timeout, wait_hint, later, replies.drop_first());
            },
        }
    }
}

/// Whatever the registry answers, the pauses that a wait asks for add up to
/// no more than the time allowed.
pub proof fn wait_pauses_within_the_timeout(
    state: ServiceState,
    timeout: Span,
    wait_hint: Span,
    replies: Seq<ReplyView>,
)
    ensures
        slept(poll_run(state, timeout, wait_hint, replies).commands) <= timeout.nanos,
{
    lemma_pauses_are_bounded(
        state,
        timeout,
        wait_hint,
        PollStage::Query { waited: Span { nanos: 0 } },
        replies,
    );
}

/// A wait that stands before a query, and has `polls` queries left before
/// the time is used up, asks for no more queries than that, and has ended
/// once they and the pauses between them are answered.
proof fn lemma_polls_are_bounded(
    state: ServiceState,
    timeout: Span,
    wait_hint: Span,
    waited: Span,
    polls: nat,
    replies: Seq<ReplyView>,
)
    requires
        polls >= 1,
        waited.nanos + polls * wait_hint.nanos >= timeout.nanos,
    ensures
        ({
            let run = poll_follow(
                state,
                timeout,
                wait_hint,
                poll_proceed(wait_hint, PollStage::Query { waited }),
                replies,
            );
            &&& queries(run.commands) <= polls
            &&& replies.len() >= 2 * polls - 1 ==> run.result is Some
        }),
    decreases polls,
{
    let stage = PollStage::Query { waited };
    let run = poll_follow(state, timeout, wait_hint, poll_proceed(wait_hint, stage), replies);
    reveal_with_fuel(poll_follow, 3);
    reveal_with_fuel(queries, 3);
    if replies.len() == 0 {
        assert(run.commands.drop_first() =~= Seq::<CommandView>::empty());
    } else {
        let first = poll_next(state, timeout, wait_hint, stage, replies[0]);
        let later = replies.drop_first();
        let rest = poll_follow(state, timeout, wait_hint, first, later);
        assert(run.commands.drop_first() =~= rest.commands);
        match first {
            PollStepView::Finished { .. } => {},
            PollStepView::Call { stage: pause, .. } => {
                assert(polls >= 2) by {
                    assert(1 * wait_hint.nanos == wait_hint.nanos) by (nonlinear_arith);
                }
                assert(polls * wait_hint.nanos == wait_hint.nanos + (polls - 1) * wait_hint.nanos)
                    by (nonlinear_arith);
                let after = Span { nanos: (waited.nanos + wait_hint.nanos) as u128 };
                if later.len() == 0 {
                    assert(rest.commands.drop_first() =~= Seq::<CommandView>::empty());
                } else {
                    let second = poll_next(state, timeout, wait_hint, pause, later[0]);
                    let last = later.drop_first();
                    let tail = poll_follow(state, timeout, wait_hint, second, last);
                    assert(rest.commands.drop_first() =~= tail.commands);
                    match second {
                        PollStepView::Finished { .. } => {},
                        PollStepView::Call { .. } => {
                            lemma_polls_are_bounded(
                                state,
                                timeout,
                                wait_hint,
                                after,
                                (polls - 1) as nat,
                                last,
                            );
                        },
                    }
                }
            },
        }
    }
}

/// Whatever the registry answers, a wait asks for no more status queries
/// than it takes to use up the time allowed, and it has ended once that many
/// queries, and the pauses between them, are answered.
pub proof fn wait_ends_within_the_limit(
    state: ServiceState,
    timeout: Span,
    wait_hint: Span,
    polls: nat,
    replies: Seq<ReplyView>,
)
    requires
        polls >= 1,
        polls * wait_hint.nanos >= timeout.nanos,
    ensures
        queries(poll_run(state, timeout, wait_hint, replies).commands) <= polls,
        replies.len() >= 2 * polls - 1 ==> poll_run(state, timeout, wait_hint, replies).result
            is Some,
{
    lemma_polls_are_bounded(state, timeout, wait_hint, Span { nanos: 0 }, polls, replies);
}

} // verus!
