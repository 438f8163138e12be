//! What holds of the session's state machine over every state and every event.
use vstd::prelude::*;
use vstd::multiset::Multiset;
use crate::error::DevError;
use crate::event::{FsEventKind, InputEvent, OutputEvent};
use crate::state::{next, BuilderState};
use crate::startup::spec_initial_outputs;

verus! {

/// The builder processes that a state holds: the running one, if any.
pub open spec fn held<C>(s: BuilderState<C>) -> Multiset<C> {
    match s {
        BuilderState::Started(c) => Multiset::singleton(c),
        _ => Multiset::empty(),
    }
}

/// The builder processes that an event hands over: a freshly spawned one, if any.
pub open spec fn received<C>(input: InputEvent<C>) -> Multiset<C> {
    match input {
        InputEvent::BuilderStarted(Ok(c)) => Multiset::singleton(c),
        _ => Multiset::empty(),
    }
}

/// The builder processes that an output gives away to be killed.
pub open spec fn released<C>(output: Option<OutputEvent<C>>) -> Multiset<C> {
    match output {
        Some(OutputEvent::KillChildProcess(c)) => Multiset::singleton(c),
        _ => Multiset::empty(),
    }
}

/// The error, if any, that an event carries, as the session reports it.
pub open spec fn carried_error<C>(input: InputEvent<C>) -> Option<DevError> {
    match input {
        InputEvent::BuilderKilled(Err(e)) => Some(DevError::Io(e)),
        InputEvent::Notify(Err(e)) => Some(DevError::FsWatch(e)),
        InputEvent::BuilderStarted(Err(e)) => Some(DevError::Io(e)),
        InputEvent::BrowserOpened(Err(e)) => Some(DevError::Io(e)),
        InputEvent::ServerError(e) => Some(DevError::Io(e)),
        _ => None,
    }
}

/// The builder state after a sequence of events, and the outputs that they gave, in order.
pub open spec fn run<C>(s: BuilderState<C>, inputs: Seq<InputEvent<C>>) -> (BuilderState<C>, Seq<OutputEvent<C>>)
    decreases inputs.len(),
{
    if inputs.len() == 0 {
        (s, Seq::empty())
    } else {
        let (s1, out) = next(s, inputs[0]);
        let (s2, rest) = run(s1, inputs.drop_first());
        (s2, match out {
            Some(o) => seq![o] + rest,
            None => rest,
        })
    }
}

/// No builder process is lost or duplicated by a step: what the state held, plus what
/// the event hands over, is what the state holds afterwards, plus what the output gives
/// away to be killed. The one exception is a report that a kill succeeded while a builder
/// runs, which drops the running builder; `one_builder_at_a_time` shows that a session
/// never meets it.
pub proof fn builder_processes_are_conserved<C>(s: BuilderState<C>, input: InputEvent<C>)
    requires
        !(s is Started && input matches InputEvent::BuilderKilled(Ok(_))),
    ensures
        held(s).add(received(input)) =~= held(next(s, input).0).add(released(next(s, input).1)),
{
    broadcast use vstd::multiset::group_multiset_axioms;
    let (s1, out) = next(s, input);
    let before = held(s).add(received(input));
    let after = held(s1).add(released(out));
    assert forall|v: C| #[trigger] before.count(v) == after.count(v) by {
        assert(Multiset::<C>::empty().count(v) == 0);
    }
    assert(before =~= after);
}

/// Every error that an event carries ends up in an `Error` output and leaves the builder
/// state as it was; and an `Error` output comes only from such an event.
pub proof fn errors_are_reported_unchanged<C>(s: BuilderState<C>, input: InputEvent<C>)
    ensures
        carried_error(input) is Some ==> next(s, input) == (s, Some(OutputEvent::<C>::Error(carried_error(input)->0))),
        next(s, input).1 matches Some(OutputEvent::Error(d)) ==> carried_error(input) == Some(d),
{
}

/// The builder is asked to run again exactly when killing it succeeded, and then no
/// builder process is held.
pub proof fn rebuild_only_after_kill<C>(s: BuilderState<C>, input: InputEvent<C>)
    ensures
        (next(s, input).1 == Some(OutputEvent::<C>::RunBuilder)) <==> (input matches InputEvent::BuilderKilled(Ok(_))),
        next(s, input).1 == Some(OutputEvent::<C>::RunBuilder) ==> next(s, input).0 == BuilderState::<C>::Idle,
{
}

/// File-system events that do not change the sources change nothing and ask for nothing.
pub proof fn irrelevant_fs_events_are_ignored<C>(s: BuilderState<C>, kind: FsEventKind)
    requires
        !kind.spec_changes_sources(),
    ensures
        next(s, InputEvent::Notify(Ok(kind))) == (s, Option::<OutputEvent<C>>::None),
{
}

/// No event makes the state machine open the browser or print: those outputs come only from
/// the start-up outputs.
pub proof fn events_never_open_browser_or_print<C>(s: BuilderState<C>, input: InputEvent<C>)
    ensures
        next(s, input).1 != Some(OutputEvent::<C>::OpenBrowser),
        !(next(s, input).1 matches Some(OutputEvent::Stderr(_))),
{
}

/// A report that the browser was opened changes nothing and asks for nothing, whatever the
/// builder state.
pub proof fn browser_opened_is_quiet<C>(s: BuilderState<C>, opened: ())
    ensures
        next(s, InputEvent::BrowserOpened(Ok(opened))) == (s, Option::<OutputEvent<C>>::None),
{
}

/// A change of the sources while no builder runs (one was just sent to be killed, or the one
/// being spawned is already stale) changes nothing and asks for nothing: the builder runs
/// again once the kill is reported, or the stale one is killed once it starts.
pub proof fn change_without_running_builder_is_absorbed<C>(s: BuilderState<C>, kind: FsEventKind)
    requires
        kind.spec_changes_sources(),
        s is Idle || s is Obsolete,
    ensures
        next(s, InputEvent::Notify(Ok(kind))) == (s, Option::<OutputEvent<C>>::None),
{
}

/// Once a change makes the builder being spawned stale, it stays stale through further
/// changes, and is killed as soon as it starts.
pub proof fn repeated_changes_keep_builder_stale<C>(c: C, first: FsEventKind, second: FsEventKind)
    requires
        first.spec_changes_sources(),
        second.spec_changes_sources(),
    ensures
        next(BuilderState::<C>::Obsolete, InputEvent::Notify(Ok(second))) == (BuilderState::<C>::Obsolete, Option::<OutputEvent<C>>::None),
        run(
            BuilderState::Starting,
            seq![
                InputEvent::Notify(Ok(first)),
                InputEvent::Notify(Ok(second)),
                InputEvent::BuilderStarted(Ok(c)),
            ],
        ) == (BuilderState::<C>::Idle, seq![OutputEvent::KillChildProcess(c)]),
{
    let inputs = seq![
        InputEvent::<C>::Notify(Ok(first)),
        InputEvent::Notify(Ok(second)),
        InputEvent::BuilderStarted(Ok(c)),
    ];
    let i1 = inputs.drop_first();
    let i2 = i1.drop_first();
    assert(i2.drop_first() =~= Seq::<InputEvent<C>>::empty());
    reveal_with_fuel(run, 4);
    assert(run(BuilderState::<C>::Obsolete, i2).1 =~= seq![OutputEvent::<C>::KillChildProcess(c)]);
    assert(run(BuilderState::<C>::Obsolete, i1).1 =~= seq![OutputEvent::<C>::KillChildProcess(c)]);
}

/// A change of the sources while the builder runs kills it, and once it is killed the
/// builder runs again.
pub proof fn change_restarts_running_builder<C>(c: C, kind: FsEventKind, killed: ())
    requires
        kind.spec_changes_sources(),
    ensures
        run(
            BuilderState::Started(c),
            seq![InputEvent::Notify(Ok(kind)), InputEvent::BuilderKilled(Ok(killed))],
        ) == (BuilderState::<C>::Idle, seq![OutputEvent::KillChildProcess(c), OutputEvent::RunBuilder]),
{
    let inputs = seq![InputEvent::<C>::Notify(Ok(kind)), InputEvent::BuilderKilled(Ok(killed))];
    assert(inputs.drop_first().drop_first() =~= Seq::<InputEvent<C>>::empty());
    reveal_with_fuel(run, 3);
    assert(run(BuilderState::<C>::Idle, inputs.drop_first()).1 =~= seq![OutputEvent::<C>::RunBuilder]);
}

/// A builder process that was being spawned when the sources changed is not kept: it is
/// killed as soon as it starts, and once it is killed the builder runs again.
pub proof fn stale_builder_is_replaced<C>(c: C, kind: FsEventKind, killed: ())
    requires
        kind.spec_changes_sources(),
    ensures
        run(
            BuilderState::Starting,
            seq![
                InputEvent::Notify(Ok(kind)),
                InputEvent::BuilderStarted(Ok(c)),
                InputEvent::BuilderKilled(Ok(killed)),
            ],
        ) == (BuilderState::<C>::Idle, seq![OutputEvent::KillChildProcess(c), OutputEvent::RunBuilder]),
{
    let inputs = seq![
        InputEvent::<C>::Notify(Ok(kind)),
        InputEvent::BuilderStarted(Ok(c)),
        InputEvent::BuilderKilled(Ok(killed)),
    ];
    let i1 = inputs.drop_first();
    let i2 = i1.drop_first();
    assert(i2.drop_first() =~= Seq::<InputEvent<C>>::empty());
    reveal_with_fuel(run, 4);
    assert(run(BuilderState::<C>::Idle, i2).1 =~= seq![OutputEvent::<C>::RunBuilder]);
    assert(run(BuilderState::<C>::Obsolete, i1).1 =~= seq![OutputEvent::<C>::KillChildProcess(c), OutputEvent::RunBuilder]);
}

/// A development session as its environment sees it: the builder state, the spawns that
/// were asked for and not yet reported, and the builder processes sent to be killed whose
/// kill was not yet reported, oldest first.
pub struct Session<C> {
    pub builder: BuilderState<C>,
    pub spawns_pending: nat,
    pub kills_pending: Seq<C>,
}

/// A session right after its start-up outputs: the builder is being spawned once.
pub open spec fn session_start<C>() -> Session<C> {
    Session { builder: BuilderState::Starting, spawns_pending: 1, kills_pending: Seq::empty() }
}

/// Whether the environment can deliver this event: a spawn report answers a spawn that was
/// asked for, and a kill report answers a kill that was asked for.
pub open spec fn can_deliver<C>(session: Session<C>, input: InputEvent<C>) -> bool {
    match input {
        InputEvent::BuilderStarted(_) => session.spawns_pending > 0,
        InputEvent::BuilderKilled(_) => session.kills_pending.len() > 0,
        _ => true,
    }
}

/// The session after the state machine reacts to one event and its output is handed on.
pub open spec fn session_step<C>(session: Session<C>, input: InputEvent<C>) -> Session<C> {
    let (builder, out) = next(session.builder, input);
    let spawns: int = match input {
        InputEvent::BuilderStarted(_) => session.spawns_pending - 1,
        _ => session.spawns_pending as int,
    };
    let kills = match input {
        InputEvent::BuilderKilled(_) => session.kills_pending.drop_first(),
        _ => session.kills_pending,
    };
    Session {
        builder,
        spawns_pending: (match out {
            Some(OutputEvent::RunBuilder) => spawns + 1,
            _ => spawns,
        }) as nat,
        kills_pending: match out {
            Some(OutputEvent::KillChildProcess(c)) => kills.push(c),
            _ => kills,
        },
    }
}

/// The session after a sequence of events, each delivered and reacted to in turn.
pub open spec fn session_run<C>(session: Session<C>, inputs: Seq<InputEvent<C>>) -> Session<C>
    decreases inputs.len(),
{
    if inputs.len() == 0 {
        session
    } else {
        session_run(session_step(session, inputs[0]), inputs.drop_first())
    }
}

/// Whether a sequence of events, delivered in turn from this session, is one that the
/// environment can deliver and that carries no error (an error ends the session).
pub open spec fn deliverable<C>(session: Session<C>, inputs: Seq<InputEvent<C>>) -> bool
    decreases inputs.len(),
{
    inputs.len() == 0 || {
        &&& can_deliver(session, inputs[0])
        &&& carried_error(inputs[0]) is None
        &&& deliverable(session_step(session, inputs[0]), inputs.drop_first())
    }
}

/// Exactly one builder process is running, being spawned, or being killed; and while the
/// state says that one is being spawned, it is.
pub open spec fn one_builder<C>(session: Session<C>) -> bool {
    &&& held(session.builder).len() + session.spawns_pending + session.kills_pending.len() == 1
    &&& (session.builder is Starting || session.builder is Obsolete) ==> session.spawns_pending == 1
}

/// How many spawns a sequence of outputs asks for.
pub open spec fn spawns_asked<C>(outputs: Seq<OutputEvent<C>>) -> nat
    decreases outputs.len(),
{
    if outputs.len() == 0 {
        0
    } else {
        (if outputs[0] is RunBuilder { 1nat } else { 0nat }) + spawns_asked(outputs.drop_first())
    }
}

/// A session starts as `session_start` describes it: the start-up outputs ask for exactly
/// one spawn and no kill, while the state says that the builder is being spawned.
pub proof fn startup_begins_session<C>(launch_browser: bool, message: String)
    ensures
        spawns_asked(spec_initial_outputs::<C>(launch_browser, message)) == session_start::<C>().spawns_pending,
        forall|i: int| 0 <= i < spec_initial_outputs::<C>(launch_browser, message).len()
            ==> !(#[trigger] spec_initial_outputs::<C>(launch_browser, message)[i] is KillChildProcess),
        session_start::<C>().kills_pending.len() == 0,
        session_start::<C>().builder == BuilderState::<C>::Starting,
{
    let outs = spec_initial_outputs::<C>(launch_browser, message);
    reveal_with_fuel(spawns_asked, 4);
    if launch_browser {
        assert(outs.drop_first().drop_first().drop_first() =~= Seq::<OutputEvent<C>>::empty());
    } else {
        assert(outs.drop_first().drop_first() =~= Seq::<OutputEvent<C>>::empty());
    }
}

/// One step of a session keeps exactly one builder process in play, and in such a session a
/// spawn report never meets a running builder and a kill report comes only when none runs.
pub proof fn one_builder_is_kept<C>(session: Session<C>, input: InputEvent<C>)
    requires
        one_builder(session),
        can_deliver(session, input),
        carried_error(input) is None,
    ensures
        one_builder(session_step(session, input)),
        input matches InputEvent::BuilderStarted(_) ==> !(session.builder is Started),
        input matches InputEvent::BuilderKilled(_) ==> session.builder is Idle,
{
    broadcast use vstd::multiset::group_multiset_axioms;
    assert(Multiset::<C>::empty().len() == 0);
}

/// Throughout a session, whatever the environment delivers, exactly one builder process is
/// running, being spawned, or being killed: two builders never run side by side, and none
/// is forgotten.
pub proof fn one_builder_at_a_time<C>(inputs: Seq<InputEvent<C>>)
    requires
        deliverable(session_start(), inputs),
    ensures
        one_builder(session_run(session_start(), inputs)),
{
    broadcast use vstd::multiset::group_multiset_axioms;
    assert(Multiset::<C>::empty().len() == 0);
    one_builder_preserved_by_run(session_start(), inputs);
}

proof fn one_builder_preserved_by_run<C>(session: Session<C>, inputs: Seq<InputEvent<C>>)
    requires
        one_builder(session),
        deliverable(session, inputs),
    ensures
        one_builder(session_run(session, inputs)),
    decreases inputs.len(),
{
    if inputs.len() > 0 {
        one_builder_is_kept(session, inputs[0]);
        one_builder_preserved_by_run(session_step(session, inputs[0]), inputs.drop_first());
    }
}

} // verus!
