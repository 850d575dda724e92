//! Whole control actions, from the first call to the last.
//!
//! A control action is carried out one reply at a time. Here the replies of
//! a whole action are taken together, and what the action does with them is
//! read as one record: the calls made, the events announced, the result.
//! The laws that hold of every such record are stated and proved here.

use crate::action::ControlAction;
use crate::control::{
    begin, connect_access, control, exit_report, install_access, is_starting, next, restart_access, resume,
    start_access, stop_access, uninstall_access, ExitReport, InstallStage, Next, NextView,
    OpenStage, RestartStage, Session, StartStage, Step, StepView, StopStage, UninstallStage,
    stop_timeout, stop_wait_hint,
};
use crate::definition::{service_record, ServiceDefinition, ServiceDefinitionView};
use crate::error::{missing_service, Error, ErrorView, ProviderError, ProviderErrorView};
use crate::poll::{
    answers, lemma_answers_unfold, pause_left, poll_pending, rounds, slept, PollStage,
};
use crate::provider::{Command, CommandView, Event, Reply, ReplyView, ServiceAccess};
use crate::status::{ServiceState, ServiceStatus, Span};
use vstd::prelude::*;

verus! {

/// What a control action did, as far as the replies given to it reach.
pub struct Run {
    /// The commands asked for, in order.
    pub commands: Seq<CommandView>,
    /// The lifecycle events announced, in order.
    pub events: Seq<Event>,
    /// The reports on how the service stopped, in order.
    pub exits: Seq<ExitReport>,
    /// How the action ended; `None` while it waits for another reply.
    pub result: Option<Result<(), ErrorView>>,
}

/// The items of `item`: one or none.
pub open spec fn items<T>(item: Option<T>) -> Seq<T> {
    match item {
        Some(value) => seq![value],
        None => Seq::empty(),
    }
}

/// What a control action on the service `definition` does from `step` on,
/// when its commands are answered by `replies`, in order. Replies left over
/// when the action has ended are not read.
pub open spec fn follow(definition: ServiceDefinitionView, step: StepView, replies: Seq<ReplyView>)
    -> Run
    decreases replies.len(),
{
    match step.next {
        NextView::Finished { result } => Run {
            commands: Seq::empty(),
            events: items(step.event),
            exits: items(step.exit),
            result: Some(result),
        },
        NextView::Call { command, session } => if replies.len() == 0 {
            Run {
                commands: seq![command],
                events: items(step.event),
                exits: items(step.exit),
                result: None,
            }
        } else {
            let rest = follow(
                definition,
                next(definition, session, replies[0]),
                replies.drop_first(),
            );
            Run {
                commands: seq![command] + rest.commands,
                events: items(step.event) + rest.events,
                exits: items(step.exit) + rest.exits,
                result: rest.result,
            }
        },
    }
}

/// What the whole control action `action` on the service `definition` does
/// when its commands are answered by `replies`, in order.
pub open spec fn run(
    definition: ServiceDefinitionView,
    action: ControlAction,
    replies: Seq<ReplyView>,
) -> Run {
    follow(definition, begin(action), replies)
}

/// The rights with which `action` opens the service. An install opens
/// none.
pub open spec fn open_access(action: ControlAction) -> ServiceAccess {
    match action {
        ControlAction::Start => start_access(),
        ControlAction::Stop => stop_access(),
        ControlAction::Restart => restart_access(),
        ControlAction::Uninstall => uninstall_access(),
        ControlAction::Install => ServiceAccess { bits: 0 },
    }
}

/// The command that is outstanding at `stage` of the opening of a service.
pub open spec fn open_pending(
    definition: ServiceDefinitionView,
    access: ServiceAccess,
    stage: OpenStage,
) -> CommandView {
    match stage {
        OpenStage::Connect => CommandView::Connect { manager_access: connect_access() },
        OpenStage::Open => CommandView::OpenService { name: definition.name, access },
    }
}

/// The command that is outstanding in `session`.
pub open spec fn pending(definition: ServiceDefinitionView, session: Session) -> CommandView {
    match session {
        Session::Start(StartStage::Opening(stage)) => open_pending(
            definition,
            start_access(),
            stage,
        ),
        Session::Stop(StopStage::Opening(stage)) => open_pending(definition, stop_access(), stage),
        Session::Restart(RestartStage::Opening(stage)) => open_pending(
            definition,
            restart_access(),
            stage,
        ),
        Session::Uninstall(UninstallStage::Opening(stage)) => open_pending(
            definition,
            uninstall_access(),
            stage,
        ),
        Session::Start(StartStage::Inspect)
        | Session::Stop(StopStage::Inspect)
        | Session::Restart(RestartStage::Inspect)
        | Session::Uninstall(UninstallStage::Inspect) => CommandView::QueryStatus,
        Session::Start(StartStage::Launch)
        | Session::Restart(RestartStage::Launch) => CommandView::Start,
        Session::Stop(StopStage::Halt)
        | Session::Restart(RestartStage::Halt)
        | Session::Uninstall(UninstallStage::Halt) => CommandView::Stop,
        Session::Restart(RestartStage::Settle(stage))
        | Session::Uninstall(UninstallStage::Settle(stage)) => poll_pending(
            stop_wait_hint(),
            stage,
        ),
        Session::Uninstall(UninstallStage::Remove) => CommandView::Delete,
        Session::Install(InstallStage::Connect) => CommandView::Connect {
            manager_access: install_access(),
        },
        Session::Install(InstallStage::Create) => CommandView::CreateService {
            info: service_record(definition),
            access: ServiceAccess { bits: 0 },
        },
    }
}

/// Whether `step` asks for the command that is outstanding in the session
/// that it leads to, and that session carries out `action`.
pub open spec fn in_order(
    definition: ServiceDefinitionView,
    action: ControlAction,
    step: StepView,
) -> bool {
    step.next matches NextView::Call { command, session } ==> session.action() == action && command
        == pending(definition, session)
}

/// The command that a step asks for is the one that is outstanding in the
/// session that the step leads to, and a session never changes its action.
pub proof fn steps_are_in_order(
    definition: ServiceDefinitionView,
    session: Session,
    reply: ReplyView,
)
    ensures
        in_order(definition, session.action(), next(definition, session, reply)),
        forall|action: ControlAction| in_order(definition, action, #[trigger] begin(action)),
{
}

/// Whether `reply` to `command` is a status that shows the service stopped.
pub open spec fn seen_stopped(command: CommandView, reply: ReplyView) -> bool {
    &&& command is QueryStatus
    &&& reply matches ReplyView::Status(status)
    &&& status.current_state == ServiceState::Stopped
}

/// Whether `result` is the failure of a wait that ran out of time.
pub open spec fn timed_out(result: Option<Result<(), ErrorView>>) -> bool {
    result matches Some(Err(ErrorView::PollTimeout { .. }))
}

/// Whether `run`, made against `replies`, keeps `command` for a stopped
/// service: the command is asked for only as the very last one, and only
/// directly after a status query whose answer showed the service stopped;
/// and it is not asked for at all where the run ends in a timeout.
pub open spec fn guarded(run: Run, replies: Seq<ReplyView>, command: CommandView) -> bool {
    &&& run.commands.len() <= replies.len() + 1
    &&& forall|j: int|
        0 <= j < run.commands.len() && #[trigger] run.commands[j] == command ==> j
            == run.commands.len() - 1
    &&& forall|j: int|
        1 <= j < run.commands.len() && #[trigger] run.commands[j] == command ==> seen_stopped(
            run.commands[j - 1],
            replies[j - 1],
        )
    &&& timed_out(run.result) ==> forall|j: int|
        0 <= j < run.commands.len() ==> #[trigger] run.commands[j] != command
}

/// The command that `action` keeps for a stopped service: a restart its
/// start, an uninstall its delete.
pub open spec fn kept_command(action: ControlAction) -> CommandView {
    if action == ControlAction::Uninstall {
        CommandView::Delete
    } else {
        CommandView::Start
    }
}

/// From any step of a restart or an uninstall on, the run keeps its last
/// command for a stopped service.
proof fn lemma_guarded(
    definition: ServiceDefinitionView,
    action: ControlAction,
    step: StepView,
    replies: Seq<ReplyView>,
)
    requires
        action == ControlAction::Restart || action == ControlAction::Uninstall,
        in_order(definition, action, step),
    ensures
        guarded(follow(definition, step, replies), replies, kept_command(action)),
    decreases replies.len(),
{
    let kept = kept_command(action);
    let whole = follow(definition, step, replies);
    match step.next {
        NextView::Finished { .. } => {},
        NextView::Call { command, session } => {
            if replies.len() > 0 {
                let later = replies.drop_first();
                let after = next(definition, session, replies[0]);
                let rest = follow(definition, after, later);
                steps_are_in_order(definition, session, replies[0]);
                lemma_guarded(definition, action, after, later);
                reveal_with_fuel(follow, 2);
                assert(whole.commands == seq![command] + rest.commands);
                assert(command == kept ==> after.next is Finished);
                assert(rest.commands.len() > 0 && rest.commands[0] == kept ==> seen_stopped(
                    command,
                    replies[0],
                ));
                assert forall|j: int|
                    0 <= j < whole.commands.len() && #[trigger] whole.commands[j]
                        == kept implies j == whole.commands.len() - 1 by {
                    if j > 0 {
                        assert(whole.commands[j] == rest.commands[j - 1]);
                    }
                }
                assert forall|j: int|
                    1 <= j < whole.commands.len() && #[trigger] whole.commands[j]
                        == kept implies seen_stopped(whole.commands[j - 1], replies[j - 1]) by {
                    assert(whole.commands[j] == rest.commands[j - 1]);
                    if j > 1 {
                        assert(whole.commands[j - 1] == rest.commands[j - 2]);
                        assert(replies[j - 1] == later[j - 2]);
                    }
                }
                if timed_out(whole.result) {
                    assert forall|j: int| 0 <= j < whole.commands.len() implies #[trigger]
                        whole.commands[j] != kept by {
                        if j > 0 {
                            assert(whole.commands[j] == rest.commands[j - 1]);
                        }
                    }
                }
            }
        },
    }
}

/// Whether no stop comes after a start in `commands`.
pub open spec fn stops_come_first(commands: Seq<CommandView>) -> bool {
    forall|i: int, j: int|
        0 <= i < j < commands.len() && #[trigger] commands[i] is Start ==> !(#[trigger] commands[j]
            is Stop)
}

/// A restart starts the service only once it has seen it stopped: the
/// start is the last command of the run and follows directly on a status
/// query whose answer showed the service stopped. No stop comes after the
/// start, and where the wait for the stop runs out of time there is no
/// start at all.
pub proof fn restart_starts_a_stopped_service(
    definition: ServiceDefinitionView,
    replies: Seq<ReplyView>,
)
    ensures
        guarded(run(definition, ControlAction::Restart, replies), replies, CommandView::Start),
        stops_come_first(run(definition, ControlAction::Restart, replies).commands),
{
    steps_are_in_order(definition, Session::first(ControlAction::Restart), ReplyView::Done);
    lemma_guarded(definition, ControlAction::Restart, begin(ControlAction::Restart), replies);
}

/// A restart that finds the service starting or running stops it first:
/// the stop is the command that follows the first status query, and no
/// start comes before it.
pub proof fn restart_stops_a_running_service(
    definition: ServiceDefinitionView,
    replies: Seq<ReplyView>,
    status: ServiceStatus,
)
    requires
        replies.len() >= 3,
        !(replies[0] is Failed),
        !(replies[1] is Failed),
        replies[2] == ReplyView::Status(status),
        is_starting(status.current_state),
    ensures
        ({
            let commands = run(definition, ControlAction::Restart, replies).commands;
            &&& commands.len() >= 4
            &&& commands[2] is QueryStatus
            &&& commands[3] is Stop
            &&& forall|j: int| 0 <= j < 3 ==> !(#[trigger] commands[j] is Start)
        }),
{
    let first = replies.drop_first();
    let second = first.drop_first();
    let third = second.drop_first();
    assert(first[0] == replies[1]);
    assert(second[0] == replies[2]);
    reveal_with_fuel(follow, 5);
}

/// An uninstall deletes the service only once it has seen it stopped: the
/// delete is the last command of the run and follows directly on a status
/// query whose answer showed the service stopped. Where the wait for the
/// stop runs out of time there is no delete at all.
pub proof fn uninstall_deletes_a_stopped_service(
    definition: ServiceDefinitionView,
    replies: Seq<ReplyView>,
)
    ensures
        guarded(run(definition, ControlAction::Uninstall, replies), replies, CommandView::Delete),
{
    steps_are_in_order(definition, Session::first(ControlAction::Uninstall), ReplyView::Done);
    lemma_guarded(definition, ControlAction::Uninstall, begin(ControlAction::Uninstall), replies);
}

/// What an action has done when the opening of the service failed with
/// `source`: it has connected and tried to open the service by its name,
/// and it fails with the failure of the registry.
pub open spec fn unopened(
    definition: ServiceDefinitionView,
    action: ControlAction,
    source: ProviderErrorView,
    events: Seq<Event>,
) -> Run {
    Run {
        commands: seq![
            CommandView::Connect { manager_access: connect_access() },
            CommandView::OpenService { name: definition.name, access: open_access(action) },
        ],
        events,
        exits: Seq::empty(),
        result: Some(Err(ErrorView::Service { source })),
    }
}

/// An action whose opening of the service fails ends there.
proof fn lemma_opening_fails(
    definition: ServiceDefinitionView,
    action: ControlAction,
    replies: Seq<ReplyView>,
    source: ProviderErrorView,
)
    requires
        action != ControlAction::Install,
        replies.len() >= 2,
        !(replies[0] is Failed),
        replies[1] == ReplyView::Failed(source),
    ensures
        run(definition, action, replies) == unopened(
            definition,
            action,
            source,
            if missing_service(source) {
                seq![Event::ServiceDoesNotExist]
            } else {
                Seq::empty()
            },
        ),
{
    let first = replies.drop_first();
    assert(first[0] == replies[1]);
    reveal_with_fuel(follow, 4);
    let whole = run(definition, action, replies);
    assert(whole.commands =~= seq![
        CommandView::Connect { manager_access: connect_access() },
        CommandView::OpenService { name: definition.name, access: open_access(action) },
    ]);
    if missing_service(source) {
        assert(whole.events =~= seq![Event::ServiceDoesNotExist]);
    } else {
        assert(whole.events =~= Seq::<Event>::empty());
    }
    assert(whole.exits =~= Seq::<ExitReport>::empty());
}

/// An action that opens a service which the registry does not hold ends
/// there: it has connected and tried to open the service by its name, it
/// announces once that the service does not exist and announces nothing
/// else, and it fails with the failure of the registry.
pub proof fn missing_service_is_announced_once(
    definition: ServiceDefinitionView,
    action: ControlAction,
    replies: Seq<ReplyView>,
    source: ProviderErrorView,
)
    requires
        action != ControlAction::Install,
        replies.len() >= 2,
        !(replies[0] is Failed),
        replies[1] == ReplyView::Failed(source),
        missing_service(source),
    ensures
        run(definition, action, replies) == unopened(
            definition,
            action,
            source,
            seq![Event::ServiceDoesNotExist],
        ),
{
    lemma_opening_fails(definition, action, replies, source);
}

/// An action that cannot open a service for any other reason than that the
/// registry does not hold it ends there too, with the failure of the
/// registry, and announces nothing: a service that exists is never
/// announced as missing.
pub proof fn other_opening_failures_announce_nothing(
    definition: ServiceDefinitionView,
    action: ControlAction,
    replies: Seq<ReplyView>,
    source: ProviderErrorView,
)
    requires
        action != ControlAction::Install,
        replies.len() >= 2,
        !(replies[0] is Failed),
        replies[1] == ReplyView::Failed(source),
        !missing_service(source),
    ensures
        run(definition, action, replies) == unopened(definition, action, source, Seq::empty()),
{
    lemma_opening_fails(definition, action, replies, source);
}

/// The session of a restart or an uninstall that waits for the stop at
/// `stage`.
pub open spec fn settling(action: ControlAction, stage: PollStage) -> Session {
    if action == ControlAction::Uninstall {
        Session::Uninstall(UninstallStage::Settle(stage))
    } else {
        Session::Restart(RestartStage::Settle(stage))
    }
}

/// The step of a restart or an uninstall that asks for a look at the
/// service, with `waited` counted as spent and `event` to announce.
pub open spec fn settle_step(action: ControlAction, event: Option<Event>, waited: Span)
    -> StepView {
    StepView {
        event,
        exit: None,
        next: NextView::Call {
            command: CommandView::QueryStatus,
            session: settling(action, PollStage::Query { waited }),
        },
    }
}

/// The event that announces the success of a restart or an uninstall.
pub open spec fn final_event(action: ControlAction) -> Event {
    if action == ControlAction::Uninstall {
        Event::ServiceUninstalled
    } else {
        Event::ServiceRestarted
    }
}

/// Whether a restart or an uninstall stops a service that it finds in
/// `state`: a restart one that is starting or running, an uninstall one that
/// has not stopped.
pub open spec fn stops(action: ControlAction, state: ServiceState) -> bool {
    if action == ControlAction::Uninstall {
        state != ServiceState::Stopped
    } else {
        is_starting(state)
    }
}

/// The event that a restart or an uninstall announces when its stop was
/// taken: an uninstall the stop, a restart nothing.
pub open spec fn stop_events(action: ControlAction, state: ServiceState) -> Seq<Event> {
    if action == ControlAction::Uninstall && stops(action, state) {
        seq![Event::ServiceStopped { already_stopped: false }]
    } else {
        Seq::empty()
    }
}

/// The replies of a registry that lets a restart or an uninstall connect and
/// open the service, shows it in the status `first`, takes the stop if one
/// is made, and then shows `statuses`, one at each look, and lets every
/// pause and the last command pass.
pub open spec fn replies_of(action: ControlAction, first: ServiceStatus, statuses: Seq<ServiceStatus>)
    -> Seq<ReplyView> {
    seq![ReplyView::Done, ReplyView::Done, ReplyView::Status(first)] + (if stops(
        action,
        first.current_state,
    ) {
        seq![ReplyView::Done]
    } else {
        Seq::empty()
    }) + answers(statuses)
}

/// The commands of a restart or an uninstall up to its wait for the stop,
/// when it finds the service in `state`.
pub open spec fn approach(
    definition: ServiceDefinitionView,
    action: ControlAction,
    state: ServiceState,
) -> Seq<CommandView> {
    seq![
        CommandView::Connect { manager_access: connect_access() },
        CommandView::OpenService { name: definition.name, access: open_access(action) },
        CommandView::QueryStatus,
    ] + (if stops(action, state) {
        seq![CommandView::Stop]
    } else {
        Seq::empty()
    })
}

/// A wait for the stop that stands before a look, and whose next `looks`
/// looks all miss, runs out of time at the last of them.
proof fn lemma_settle_misses(
    definition: ServiceDefinitionView,
    action: ControlAction,
    event: Option<Event>,
    waited: Span,
    looks: nat,
    statuses: Seq<ServiceStatus>,
)
    requires
        action == ControlAction::Restart || action == ControlAction::Uninstall,
        looks >= 1,
        statuses.len() >= looks,
        forall|i: int| 0 <= i < looks ==> statuses[i].current_state != ServiceState::Stopped,
        waited.nanos + looks * stop_wait_hint().nanos >= stop_timeout().nanos,
        looks == 1 || waited.nanos + (looks - 1) * stop_wait_hint().nanos < stop_timeout().nanos,
    ensures
        follow(definition, settle_step(action, event, waited), answers(statuses)) == (Run {
            commands: rounds(looks, stop_wait_hint()),
            events: items(event),
            exits: Seq::empty(),
            result: Some(
                Err(
                    ErrorView::PollTimeout {
                        state: statuses[looks - 1].current_state,
                        expected_state: ServiceState::Stopped,
                        timeout: stop_timeout(),
                    },
                ),
            ),
        }),
    decreases looks,
{
    let replies = answers(statuses);
    let whole = follow(definition, settle_step(action, event, waited), replies);
    lemma_answers_unfold(statuses);
    reveal_with_fuel(follow, 3);
    if looks == 1 {
        assert(whole.commands =~= rounds(1, stop_wait_hint()));
        assert(whole.events =~= items(event));
        assert(whole.exits =~= Seq::<ExitReport>::empty());
    } else {
        let later = Span { nanos: (waited.nanos + stop_wait_hint().nanos) as u128 };
        let tail = statuses.drop_first();
        assert forall|i: int| 0 <= i < looks - 1 implies tail[i].current_state
            != ServiceState::Stopped by {
            assert(tail[i] == statuses[i + 1]);
        }
        lemma_settle_misses(definition, action, None, later, (looks - 1) as nat, tail);
        let rest = follow(definition, settle_step(action, None, later), answers(tail));
        assert(replies.drop_first()[0] == replies[1]);
        assert(tail[looks - 2] == statuses[looks - 1]);
        assert(whole.result == rest.result);
        assert(whole.commands =~= seq![
            CommandView::QueryStatus,
            CommandView::Sleep { duration: stop_wait_hint() },
        ] + rest.commands);
        assert(whole.events =~= items(event));
        assert(whole.exits =~= Seq::<ExitReport>::empty());
    }
}

/// A wait for the stop that stands before a look, and whose look number
/// `looks` is the first to show the service stopped, while time is left for
/// that look, ends there; the action then makes its last command and
/// succeeds.
proof fn lemma_settle_finds(
    definition: ServiceDefinitionView,
    action: ControlAction,
    event: Option<Event>,
    waited: Span,
    looks: nat,
    statuses: Seq<ServiceStatus>,
)
    requires
        action == ControlAction::Restart || action == ControlAction::Uninstall,
        looks >= 1,
        statuses.len() >= looks,
        forall|i: int| 0 <= i < looks - 1 ==> statuses[i].current_state != ServiceState::Stopped,
        statuses[looks - 1].current_state == ServiceState::Stopped,
        looks == 1 || waited.nanos + (looks - 1) * stop_wait_hint().nanos < stop_timeout().nanos,
    ensures
        follow(definition, settle_step(action, event, waited), answers(statuses)) == (Run {
            commands: rounds(looks, stop_wait_hint()) + seq![kept_command(action)],
            events: items(event) + seq![final_event(action)],
            exits: seq![exit_report(statuses[looks - 1].exit_code)],
            result: Some(Ok(())),
        }),
    decreases looks,
{
    let replies = answers(statuses);
    let whole = follow(definition, settle_step(action, event, waited), replies);
    lemma_answers_unfold(statuses);
    reveal_with_fuel(follow, 3);
    assert(replies.drop_first()[0] == replies[1]);
    if looks == 1 {
        assert(whole.commands =~= rounds(1, stop_wait_hint()) + seq![kept_command(action)]);
        assert(whole.events =~= items(event) + seq![final_event(action)]);
        assert(whole.exits =~= seq![exit_report(statuses[0].exit_code)]);
    } else {
        let later = Span { nanos: (waited.nanos + stop_wait_hint().nanos) as u128 };
        let tail = statuses.drop_first();
        assert forall|i: int| 0 <= i < looks - 2 implies tail[i].current_state
            != ServiceState::Stopped by {
            assert(tail[i] == statuses[i + 1]);
        }
        assert(tail[looks - 2] == statuses[looks - 1]);
        lemma_settle_finds(definition, action, None, later, (looks - 1) as nat, tail);
        let rest = follow(definition, settle_step(action, None, later), answers(tail));
        assert(whole.result == rest.result);
        assert(whole.commands =~= seq![
            CommandView::QueryStatus,
            CommandView::Sleep { duration: stop_wait_hint() },
        ] + rest.commands);
        assert(whole.commands =~= rounds(looks, stop_wait_hint()) + seq![kept_command(action)]);
        assert(whole.events =~= items(event) + seq![final_event(action)]);
        assert(whole.exits =~= seq![exit_report(statuses[looks - 1].exit_code)]);
    }
}

/// A restart or an uninstall against such a registry comes to its wait for
/// the stop by the commands of its approach.
proof fn lemma_approach(
    definition: ServiceDefinitionView,
    action: ControlAction,
    first: ServiceStatus,
    statuses: Seq<ServiceStatus>,
)
    requires
        action == ControlAction::Restart || action == ControlAction::Uninstall,
    ensures
        ({
            let whole = run(definition, action, replies_of(action, first, statuses));
            let rest = follow(
                definition,
                settle_step(action, None, Span { nanos: 0 }),
                answers(statuses),
            );
            &&& whole.commands == approach(definition, action, first.current_state) + rest.commands
            &&& whole.events == stop_events(action, first.current_state) + rest.events
            &&& whole.exits == rest.exits
            &&& whole.result == rest.result
        }),
{
    let replies = replies_of(action, first, statuses);
    let whole = run(definition, action, replies);
    let rest = follow(definition, settle_step(action, None, Span { nanos: 0 }), answers(statuses));
    let second = replies.drop_first();
    let third = second.drop_first();
    let fourth = third.drop_first();
    assert(second[0] == replies[1]);
    assert(third[0] == replies[2]);
    reveal_with_fuel(follow, 5);
    if stops(action, first.current_state) {
        let fifth = fourth.drop_first();
        assert(fourth[0] == replies[3]);
        assert(fifth =~= answers(statuses));
        let waiting = follow(
            definition,
            settle_step(
                action,
                if action == ControlAction::Uninstall {
                    Some(Event::ServiceStopped { already_stopped: false })
                } else {
                    None
                },
                Span { nanos: 0 },
            ),
            answers(statuses),
        );
        lemma_settle_announces(definition, action, answers(statuses));
        assert(whole.commands =~= approach(definition, action, first.current_state)
            + waiting.commands);
        assert(whole.events =~= waiting.events);
        assert(whole.events =~= stop_events(action, first.current_state) + rest.events);
        assert(whole.exits =~= waiting.exits);
    } else {
        assert(fourth =~= answers(statuses));
        assert(whole.commands =~= approach(definition, action, first.current_state)
            + rest.commands);
        assert(whole.events =~= stop_events(action, first.current_state) + rest.events);
        assert(whole.exits =~= rest.exits);
    }
}

/// The announcement of the stop, made at the first look of an uninstall,
/// changes nothing else in what the wait does.
proof fn lemma_settle_announces(
    definition: ServiceDefinitionView,
    action: ControlAction,
    replies: Seq<ReplyView>,
)
    ensures
        ({
            let event = Event::ServiceStopped { already_stopped: false };
            let with = follow(
                definition,
                settle_step(action, Some(event), Span { nanos: 0 }),
                replies,
            );
            let without = follow(definition, settle_step(action, None, Span { nanos: 0 }), replies);
            &&& with.commands == without.commands
            &&& with.events == seq![event] + without.events
            &&& with.exits == without.exits
            &&& with.result == without.result
        }),
{
    let event = Event::ServiceStopped { already_stopped: false };
    let with = follow(definition, settle_step(action, Some(event), Span { nanos: 0 }), replies);
    let without = follow(definition, settle_step(action, None, Span { nanos: 0 }), replies);
    assert(with.events =~= seq![event] + without.events);
    assert(with.exits =~= without.exits);
}

/// What a restart or an uninstall has done when the service was seen
/// stopped at look number `looks` of its wait, and at none before.
pub open spec fn settled(
    definition: ServiceDefinitionView,
    action: ControlAction,
    first: ServiceStatus,
    seen: ServiceStatus,
    looks: nat,
) -> Run {
    Run {
        commands: approach(definition, action, first.current_state) + rounds(
            looks,
            stop_wait_hint(),
        ) + seq![kept_command(action)],
        events: stop_events(action, first.current_state) + seq![final_event(action)],
        exits: seq![exit_report(seen.exit_code)],
        result: Some(Ok(())),
    }
}

/// What a restart or an uninstall has done when the service was not seen
/// stopped at any of the ten looks of its wait, of which `seen` is the
/// last.
pub open spec fn unsettled(
    definition: ServiceDefinitionView,
    action: ControlAction,
    first: ServiceStatus,
    seen: ServiceStatus,
) -> Run {
    Run {
        commands: approach(definition, action, first.current_state) + rounds(
            10,
            stop_wait_hint(),
        ),
        events: stop_events(action, first.current_state),
        exits: Seq::empty(),
        result: Some(
            Err(
                ErrorView::PollTimeout {
                    state: seen.current_state,
                    expected_state: ServiceState::Stopped,
                    timeout: stop_timeout(),
                },
            ),
        ),
    }
}

/// A restart or an uninstall against such a registry, where look number
/// `looks` is the first to show the service stopped.
proof fn lemma_settled(
    definition: ServiceDefinitionView,
    action: ControlAction,
    first: ServiceStatus,
    statuses: Seq<ServiceStatus>,
    looks: nat,
)
    requires
        action == ControlAction::Restart || action == ControlAction::Uninstall,
        1 <= looks <= 10,
        statuses.len() >= looks,
        forall|i: int| 0 <= i < looks - 1 ==> statuses[i].current_state != ServiceState::Stopped,
        statuses[looks - 1].current_state == ServiceState::Stopped,
    ensures
        run(definition, action, replies_of(action, first, statuses)) == settled(
            definition,
            action,
            first,
            statuses[looks - 1],
            looks,
        ),
{
    lemma_approach(definition, action, first, statuses);
    lemma_settle_finds(definition, action, None, Span { nanos: 0 }, looks, statuses);
    let whole = run(definition, action, replies_of(action, first, statuses));
    let goal = settled(definition, action, first, statuses[looks - 1], looks);
    assert(whole.commands =~= goal.commands);
    assert(whole.events =~= goal.events);
    assert(whole.exits =~= goal.exits);
}

/// A restart or an uninstall against such a registry, where none of ten
/// looks shows the service stopped.
proof fn lemma_unsettled(
    definition: ServiceDefinitionView,
    action: ControlAction,
    first: ServiceStatus,
    statuses: Seq<ServiceStatus>,
)
    requires
        action == ControlAction::Restart || action == ControlAction::Uninstall,
        statuses.len() >= 10,
        forall|i: int| 0 <= i < 10 ==> statuses[i].current_state != ServiceState::Stopped,
    ensures
        run(definition, action, replies_of(action, first, statuses)) == unsettled(
            definition,
            action,
            first,
            statuses[9],
        ),
{
    lemma_approach(definition, action, first, statuses);
    lemma_settle_misses(definition, action, None, Span { nanos: 0 }, 10, statuses);
    let whole = run(definition, action, replies_of(action, first, statuses));
    let goal = unsettled(definition, action, first, statuses[9]);
    assert(whole.commands =~= goal.commands);
    assert(whole.events =~= goal.events);
    assert(whole.exits =~= goal.exits);
}

/// A restart succeeds when the service is seen stopped at one of the ten
/// looks of its wait. It has connected, opened the service and asked for its
/// status; it has stopped the service if it found it starting or running;
/// it has looked until the service was stopped, with a pause between two
/// looks; and it has started the service. It announces the restart and
/// reports how the service stopped.
pub proof fn restart_succeeds_once_the_service_has_stopped(
    definition: ServiceDefinitionView,
    first: ServiceStatus,
    statuses: Seq<ServiceStatus>,
    looks: nat,
)
    requires
        1 <= looks <= 10,
        statuses.len() >= looks,
        forall|i: int| 0 <= i < looks - 1 ==> statuses[i].current_state != ServiceState::Stopped,
        statuses[looks - 1].current_state == ServiceState::Stopped,
    ensures
        run(
            definition,
            ControlAction::Restart,
            replies_of(ControlAction::Restart, first, statuses),
        ) == settled(definition, ControlAction::Restart, first, statuses[looks - 1], looks),
{
    lemma_settled(definition, ControlAction::Restart, first, statuses, looks);
}

/// A restart fails when the service is not seen stopped at any of the ten
/// looks of its wait: with the timeout, and with the state seen last. It
/// has started nothing and announced nothing.
pub proof fn restart_fails_when_the_service_does_not_stop(
    definition: ServiceDefinitionView,
    first: ServiceStatus,
    statuses: Seq<ServiceStatus>,
)
    requires
        statuses.len() >= 10,
        forall|i: int| 0 <= i < 10 ==> statuses[i].current_state != ServiceState::Stopped,
    ensures
        ({
            let whole = run(
                definition,
                ControlAction::Restart,
                replies_of(ControlAction::Restart, first, statuses),
            );
            &&& whole == unsettled(definition, ControlAction::Restart, first, statuses[9])
            &&& whole.events.len() == 0
            &&& forall|j: int| 0 <= j < whole.commands.len() ==> !(#[trigger] whole.commands[j]
                is Start)
        }),
{
    lemma_unsettled(definition, ControlAction::Restart, first, statuses);
    restart_starts_a_stopped_service(
        definition,
        replies_of(ControlAction::Restart, first, statuses),
    );
}

/// An uninstall succeeds when the service is seen stopped at one of the ten
/// looks of its wait. It has connected, opened the service and asked for its
/// status; it has stopped the service, and announced that, if it found it
/// in any state but stopped; it has looked until the service was stopped,
/// with a pause between two looks; and it has deleted the service. It
/// announces the uninstall and reports how the service stopped.
pub proof fn uninstall_succeeds_once_the_service_has_stopped(
    definition: ServiceDefinitionView,
    first: ServiceStatus,
    statuses: Seq<ServiceStatus>,
    looks: nat,
)
    requires
        1 <= looks <= 10,
        statuses.len() >= looks,
        forall|i: int| 0 <= i < looks - 1 ==> statuses[i].current_state != ServiceState::Stopped,
        statuses[looks - 1].current_state == ServiceState::Stopped,
    ensures
        run(
            definition,
            ControlAction::Uninstall,
            replies_of(ControlAction::Uninstall, first, statuses),
        ) == settled(definition, ControlAction::Uninstall, first, statuses[looks - 1], looks),
{
    lemma_settled(definition, ControlAction::Uninstall, first, statuses, looks);
}

/// An uninstall fails when the service is not seen stopped at any of the
/// ten looks of its wait: with the timeout, and with the state seen last.
/// It has deleted nothing, and has announced nothing but the stop that it
/// made.
pub proof fn uninstall_fails_when_the_service_does_not_stop(
    definition: ServiceDefinitionView,
    first: ServiceStatus,
    statuses: Seq<ServiceStatus>,
)
    requires
        statuses.len() >= 10,
        forall|i: int| 0 <= i < 10 ==> statuses[i].current_state != ServiceState::Stopped,
    ensures
        ({
            let whole = run(
                definition,
                ControlAction::Uninstall,
                replies_of(ControlAction::Uninstall, first, statuses),
            );
            &&& whole == unsettled(definition, ControlAction::Uninstall, first, statuses[9])
            &&& forall|j: int| 0 <= j < whole.commands.len() ==> !(#[trigger] whole.commands[j]
                is Delete)
        }),
{
    lemma_unsettled(definition, ControlAction::Uninstall, first, statuses);
    uninstall_deletes_a_stopped_service(
        definition,
        replies_of(ControlAction::Uninstall, first, statuses),
    );
}

/// The longest that an action which stands at `session` may still ask to
/// pause for, all told. Only the wait for a stop pauses, and only a restart
/// and an uninstall wait.
pub open spec fn pause_ahead(session: Session) -> nat {
    match session {
        Session::Restart(RestartStage::Settle(stage))
        | Session::Uninstall(UninstallStage::Settle(stage)) => pause_left(
            stop_timeout(),
            stop_wait_hint(),
            stage,
        ),
        Session::Restart(RestartStage::Launch) | Session::Uninstall(UninstallStage::Remove) => 0,
        Session::Restart(_) | Session::Uninstall(_) => stop_timeout().nanos as nat,
        _ => 0,
    }
}

/// From any step on, an action asks to pause for no longer than is left.
proof fn lemma_action_pauses_are_bounded(
    definition: ServiceDefinitionView,
    step: StepView,
    replies: Seq<ReplyView>,
)
    requires
        step.next matches NextView::Call { command, session } ==> command == pending(
            definition,
            session,
        ),
    ensures
        step.next matches NextView::Call { session, .. } ==> slept(
            follow(definition, step, replies).commands,
        ) <= pause_ahead(session),
        step.next is Finished ==> slept(follow(definition, step, replies).commands) == 0,
    decreases replies.len(),
{
    let whole = follow(definition, step, replies);
    reveal_with_fuel(slept, 2);
    match step.next {
        NextView::Finished { .. } => {},
        NextView::Call { command, session } => {
            if replies.len() == 0 {
                assert(whole.commands.drop_first() =~= Seq::<CommandView>::empty());
            } else {
                let after = next(definition, session, replies[0]);
                let rest = follow(definition, after, replies.drop_first());
                assert(whole.commands.drop_first() =~= rest.commands);
                steps_are_in_order(definition, session, replies[0]);
                lemma_action_pauses_are_bounded(definition, after, replies.drop_first());
            }
        },
    }
}

/// Whatever the registry answers, the pauses that a control action asks for
/// add up to no more than the time that it allows a service to stop. A
/// start, a stop and an install never pause.
pub proof fn actions_pause_within_the_timeout(
    definition: ServiceDefinitionView,
    action: ControlAction,
    replies: Seq<ReplyView>,
)
    ensures
        slept(run(definition, action, replies).commands) <= stop_timeout().nanos,
        action != ControlAction::Restart && action != ControlAction::Uninstall ==> slept(
            run(definition, action, replies).commands,
        ) == 0,
{
    steps_are_in_order(definition, Session::first(action), ReplyView::Done);
    lemma_action_pauses_are_bounded(definition, begin(action), replies);
}

/// The number of status queries that a wait for the stop which has counted
/// `waited` as spent may still make.
pub open spec fn polls_left(waited: Span) -> nat {
    if waited.nanos < stop_timeout().nanos {
        ((stop_timeout().nanos - waited.nanos + stop_wait_hint().nanos - 1)
            / stop_wait_hint().nanos as int) as nat
    } else {
        1
    }
}

/// The number of commands that an action which stands at `session` may
/// still ask for, the outstanding one among them.
pub open spec fn commands_left(session: Session) -> nat {
    match session {
        Session::Start(StartStage::Opening(OpenStage::Connect))
        | Session::Stop(StopStage::Opening(OpenStage::Connect)) => 4,
        Session::Start(StartStage::Opening(OpenStage::Open))
        | Session::Stop(StopStage::Opening(OpenStage::Open)) => 3,
        Session::Start(StartStage::Inspect) | Session::Stop(StopStage::Inspect) => 2,
        Session::Start(StartStage::Launch) | Session::Stop(StopStage::Halt) => 1,
        Session::Install(InstallStage::Connect) => 2,
        Session::Install(InstallStage::Create) => 1,
        Session::Restart(RestartStage::Opening(OpenStage::Connect))
        | Session::Uninstall(UninstallStage::Opening(OpenStage::Connect)) => 24,
        Session::Restart(RestartStage::Opening(OpenStage::Open))
        | Session::Uninstall(UninstallStage::Opening(OpenStage::Open)) => 23,
        Session::Restart(RestartStage::Inspect)
        | Session::Uninstall(UninstallStage::Inspect) => 22,
        Session::Restart(RestartStage::Halt) | Session::Uninstall(UninstallStage::Halt) => 21,
        Session::Restart(RestartStage::Settle(PollStage::Query { waited }))
        | Session::Uninstall(UninstallStage::Settle(PollStage::Query { waited })) => 2
            * polls_left(waited),
        Session::Restart(RestartStage::Settle(PollStage::Sleep { waited }))
        | Session::Uninstall(UninstallStage::Settle(PollStage::Sleep { waited })) => 2
            * polls_left(waited) + 1,
        Session::Restart(RestartStage::Launch) | Session::Uninstall(UninstallStage::Remove) => 1,
    }
}

/// A pause that leaves time for another query leaves one query fewer.
proof fn lemma_polls_left(waited: Span)
    ensures
        polls_left(waited) >= 1,
        polls_left(Span { nanos: 0 }) == 10,
        waited.nanos + stop_wait_hint().nanos < stop_timeout().nanos ==> polls_left(
            Span { nanos: (waited.nanos + stop_wait_hint().nanos) as u128 },
        ) + 1 == polls_left(waited),
{
}

/// Every step leaves fewer commands to ask for.
proof fn lemma_step_shortens(definition: ServiceDefinitionView, session: Session, reply: ReplyView)
    ensures
        commands_left(session) >= 1,
        next(definition, session, reply).next matches NextView::Call { session: later, .. }
            ==> commands_left(later) < commands_left(session),
{
    lemma_polls_left(Span { nanos: 0 });
    match session {
        Session::Restart(RestartStage::Settle(PollStage::Query { waited }))
        | Session::Uninstall(UninstallStage::Settle(PollStage::Query { waited })) => {
            lemma_polls_left(waited);
        },
        Session::Restart(RestartStage::Settle(PollStage::Sleep { waited }))
        | Session::Uninstall(UninstallStage::Settle(PollStage::Sleep { waited })) => {
            lemma_polls_left(waited);
        },
        _ => {},
    }
}

/// From any step on, an action asks for no more commands than are left,
/// and has ended once they are answered.
proof fn lemma_actions_end(
    definition: ServiceDefinitionView,
    step: StepView,
    replies: Seq<ReplyView>,
)
    requires
        step.next matches NextView::Call { command, session } ==> command == pending(
            definition,
            session,
        ),
    ensures
        step.next matches NextView::Call { session, .. } ==> {
            &&& follow(definition, step, replies).commands.len() <= commands_left(session)
            &&& replies.len() >= commands_left(session) ==> follow(
                definition,
                step,
                replies,
            ).result is Some
        },
        step.next is Finished ==> follow(definition, step, replies).result is Some && follow(
            definition,
            step,
            replies,
        ).commands.len() == 0,
    decreases replies.len(),
{
    let whole = follow(definition, step, replies);
    match step.next {
        NextView::Finished { .. } => {},
        NextView::Call { command, session } => {
            if replies.len() == 0 {
                lemma_step_shortens(definition, session, ReplyView::Failed(arbitrary()));
            } else {
                let later = replies.drop_first();
                let after = next(definition, session, replies[0]);
                let rest = follow(definition, after, later);
                assert(whole.commands == seq![command] + rest.commands);
                assert(whole.commands[0] == command);
                steps_are_in_order(definition, session, replies[0]);
                lemma_step_shortens(definition, session, replies[0]);
                lemma_actions_end(definition, after, later);
            }
        },
    }
}

/// Whatever the registry answers, every control action ends: a start or a
/// stop after four commands at the
/// most, an install after two, a restart or an uninstall after twenty-four,
/// of which ten are the status queries of the wait for the stop and nine the
/// pauses between them.
pub proof fn actions_end(
    definition: ServiceDefinitionView,
    action: ControlAction,
    replies: Seq<ReplyView>,
)
    ensures
        run(definition, action, replies).commands.len() <= commands_left(Session::first(action)),
        replies.len() >= commands_left(Session::first(action)) ==> run(
            definition,
            action,
            replies,
        ).result is Some,
{
    steps_are_in_order(definition, Session::first(action), ReplyView::Done);
    lemma_actions_end(definition, begin(action), replies);
}

/// The record of a control action that was played against a list of
/// replies.
#[derive(Debug, PartialEq, Eq)]
pub struct Transcript {
    /// The commands asked for, in order.
    pub commands: Vec<Command>,
    /// The lifecycle events announced, in order.
    pub events: Vec<Event>,
    /// The reports on how the service stopped, in order.
    pub exits: Vec<ExitReport>,
    /// How the action ended; `None` where the replies ran out first.
    pub result: Option<Result<(), Error>>,
}

impl View for Transcript {
    type V = Run;

    open spec fn view(&self) -> Run {
        Run {
            commands: Seq::new(self.commands.len() as nat, |i: int| self.commands[i]@),
            events: self.events@,
            exits: self.exits@,
            result: match self.result {
                None => None,
                Some(Ok(())) => Some(Ok(())),
                Some(Err(error)) => Some(Err(error@)),
            },
        }
    }
}

/// The mathematical content of each of `replies`.
pub open spec fn reply_views(replies: Seq<Reply>) -> Seq<ReplyView> {
    Seq::new(replies.len(), |i: int| replies[i]@)
}

/// A run that goes on as `rest` after what `done` holds.
pub open spec fn joined(done: Run, rest: Run) -> Run {
    Run {
        commands: done.commands + rest.commands,
        events: done.events + rest.events,
        exits: done.exits + rest.exits,
        result: rest.result,
    }
}

/// A copy of `error`.
fn copy_error(error: &ProviderError) -> (copy: ProviderError)
    ensures
        copy@ == error@,
{
    ProviderError {
        description: error.description.clone(),
        os_error: match &error.os_error {
            Some(message) => Some(message.clone()),
            None => None,
        },
        os_code: error.os_code,
    }
}

/// A copy of `reply`.
fn copy_reply(reply: &Reply) -> (copy: Reply)
    ensures
        copy@ == reply@,
{
    match reply {
        Reply::Done => Reply::Done,
        Reply::Status(status) => Reply::Status(*status),
        Reply::Failed(error) => Reply::Failed(copy_error(error)),
    }
}

/// Plays the control action `action` on the service `service_def` against
/// a registry that gives `replies`, one for each command in turn, and
/// records what the action does. The action is carried as far as the
/// replies reach; replies left over when it has ended are not read.
pub fn replay(service_def: &ServiceDefinition, action: ControlAction, replies: &Vec<Reply>) -> (transcript:
    Transcript)
    ensures
        transcript@ == run(service_def@, action, reply_views(replies@)),
{
    let ghost views = reply_views(replies@);
    let mut transcript = Transcript {
        commands: Vec::new(),
        events: Vec::new(),
        exits: Vec::new(),
        result: None,
    };
    let mut step = control(action);
    let mut index: usize = 0;
    assert(views.skip(0) =~= views);
    assert(joined(transcript@, follow(service_def@, step@, views)) =~= follow(
        service_def@,
        step@,
        views,
    )) by {
        let rest = follow(service_def@, step@, views);
        assert(transcript@.commands + rest.commands =~= rest.commands);
        assert(transcript@.events + rest.events =~= rest.events);
        assert(transcript@.exits + rest.exits =~= rest.exits);
    }
    loop
        invariant_except_break
            transcript.result is None,
            run(service_def@, action, views) == joined(
                transcript@,
                follow(service_def@, step@, views.skip(index as int)),
            ),
        invariant
            index <= replies.len(),
            views == reply_views(replies@),
        ensures
            transcript@ == run(service_def@, action, views),
        decreases replies.len() - index,
    {
        let ghost before = transcript@;
        let ghost ahead = follow(service_def@, step@, views.skip(index as int));
        let ghost left = views.skip(index as int);
        let Step { event, exit, next } = step;
        if let Some(event) = event {
            transcript.events.push(event);
        }
        if let Some(exit) = exit {
            transcript.exits.push(exit);
        }
        match next {
            Next::Finished { result } => {
                transcript.result = Some(result);
                assert(transcript@.commands =~= before.commands + ahead.commands);
                assert(transcript@.events =~= before.events + ahead.events);
                assert(transcript@.exits =~= before.exits + ahead.exits);
                break ;
            },
            Next::Call { command, session } => {
                let ghost asked = command@;
                transcript.commands.push(command);
                assert(transcript@.commands =~= before.commands + seq![asked]);
                if index == replies.len() {
                    assert(left.len() == 0);
                    assert(transcript@.commands =~= before.commands + ahead.commands);
                    assert(transcript@.events =~= before.events + ahead.events);
                    assert(transcript@.exits =~= before.exits + ahead.exits);
                    break ;
                }
                let reply = copy_reply(&replies[index]);
                assert(left[0] == reply@);
                assert(left.drop_first() =~= views.skip(index + 1));
                step = resume(service_def, session, reply);
                index += 1;
                proof {
                    let rest = follow(service_def@, step@, views.skip(index as int));
                    assert(ahead.commands == seq![asked] + rest.commands);
                    assert(transcript@.commands + rest.commands =~= before.commands
                        + ahead.commands);
                    assert(transcript@.events + rest.events =~= before.events + ahead.events);
                    assert(transcript@.exits + rest.exits =~= before.exits + ahead.exits);
                }
            },
        }
    }
    transcript
}

} // verus!
