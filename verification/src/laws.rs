//! What holds of every run of the session manager.

use vstd::prelude::*;
use crate::command::{argument_tokens, class_of, is_long_running, CommandClass};
use crate::height::{rewound, REWIND_MARGIN};
use crate::model::{
    after_call, after_calls, answers, answers_left, begin, begin_existing, begin_new, dispatch,
    engine_in, handed_in, hands_in, next, run, run_both, torn_down, Call,
};
use crate::protocol::{EventView, PhaseView};
use crate::reply::{failure_text, no_session_text, ok_text, seed_text};

verus! {

/// A new wallet starts exactly `REWIND_MARGIN` blocks below the tip, and at
/// genesis when the chain is no longer than the margin.
pub proof fn law_rewind_margin(tip: u64)
    ensures
        rewound(tip) <= tip,
        tip >= REWIND_MARGIN ==> rewound(tip) + REWIND_MARGIN == tip,
        tip < REWIND_MARGIN ==> rewound(tip) == 0,
{
}

/// The long-running commands are `sync`, `rescan` and `import`, letter for
/// letter, and no others; every other name is an immediate command.
pub proof fn law_long_running_set(name: Seq<char>)
    ensures
        is_long_running(name) <==> name == seq!['s', 'y', 'n', 'c'] || name == seq![
            'r',
            'e',
            's',
            'c',
            'a',
            'n',
        ] || name == seq!['i', 'm', 'p', 'o', 'r', 't'],
        class_of(name) == CommandClass::LongRunning <==> is_long_running(name),
        class_of(name) == CommandClass::Immediate <==> !is_long_running(name),
{
    reveal_strlit("sync");
    reveal_strlit("rescan");
    reveal_strlit("import");
    assert("sync"@ =~= seq!['s', 'y', 'n', 'c']);
    assert("rescan"@ =~= seq!['r', 'e', 's', 'c', 'a', 'n']);
    assert("import"@ =~= seq!['i', 'm', 'p', 'o', 'r', 't']);
}

/// An argument string reaches the engine whole or not at all: the empty
/// string as no argument, any other as one argument that is the string.
pub proof fn law_arguments_are_never_split(args: Seq<char>)
    ensures
        argument_tokens(args).len() <= 1,
        argument_tokens(args).len() == 0 <==> args.len() == 0,
        args.len() > 0 ==> argument_tokens(args)[0] == args,
{
}

/// The replies, letter for letter: the success marker is `OK`, and a
/// failure is reported as `Error: ` followed by what the outside said.
pub proof fn law_reply_texts(why: Seq<char>)
    ensures
        ok_text() == seq!['O', 'K'],
        failure_text(why) == seq!['E', 'r', 'r', 'o', 'r', ':', ' '] + why,
        failure_text(why).len() == why.len() + 7,
        no_session_text() == failure_text(
            seq![
                'L', 'i', 'g', 'h', 't', ' ', 'C', 'l', 'i', 'e', 'n', 't', ' ', 'i', 's', ' ',
                'n', 'o', 't', ' ', 'i', 'n', 'i', 't', 'i', 'a', 'l', 'i', 'z', 'e', 'd',
            ],
        ),
{
    reveal_strlit("OK");
    reveal_strlit("Error: ");
    reveal_strlit("Error: Light Client is not initialized");
    assert("OK"@ =~= seq!['O', 'K']);
    assert("Error: "@ =~= seq!['E', 'r', 'r', 'o', 'r', ':', ' ']);
    assert("Error: Light Client is not initialized"@ =~= seq![
        'E', 'r', 'r', 'o', 'r', ':', ' ',
    ] + seq![
        'L', 'i', 'g', 'h', 't', ' ', 'C', 'l', 'i', 'e', 'n', 't', ' ', 'i', 's', ' ', 'n', 'o',
        't', ' ', 'i', 'n', 'i', 't', 'i', 'a', 'l', 'i', 'z', 'e', 'd',
    ]);
}

/// An event that does not answer the outstanding request changes neither
/// the registry nor the phase.
pub proof fn law_stray_event_is_ignored<E>(
    slot: Option<E>,
    phase: PhaseView<E>,
    event: EventView<E>,
)
    requires
        !answers(phase, event),
    ensures
        next(slot, phase, event) == (slot, phase),
{
}

/// The registry is written only when a started monitor is reported, and
/// what it holds then is the engine that the monitor was started for.
pub proof fn law_registry_changes_only_on_install<E>(
    slot: Option<E>,
    phase: PhaseView<E>,
    event: EventView<E>,
)
    ensures
        next(slot, phase, event).0 == slot || (phase is StartingMonitor && event is MonitorStarted
            && next(slot, phase, event).0 == Some(phase->StartingMonitor_engine)),
{
}

/// Every answer brings the reply nearer, and a flow that needs no more
/// answers has its reply. Bringing a session up so takes four answers at
/// most, and a command one.
pub proof fn law_every_answer_makes_progress<E>(
    slot: Option<E>,
    phase: PhaseView<E>,
    event: EventView<E>,
)
    ensures
        answers(phase, event) ==> answers_left(next(slot, phase, event).1) < answers_left(phase),
        answers_left(phase) == 0 <==> phase is Finished,
        answers_left(phase) <= 4,
{
}

/// A command is one piece of outside work away from its reply, or has it
/// already. For a long-running command that piece is the hand-over to the
/// detached execution unit, not the work itself.
pub proof fn law_dispatch_is_one_answer_from_reply<E>(
    slot: Option<E>,
    name: Seq<char>,
    args: Seq<char>,
)
    ensures
        answers_left(dispatch(slot, name, args)) <= 1,
        slot is Some && is_long_running(name) ==> answers(
            dispatch(slot, name, args),
            EventView::CommandSpawned,
        ),
{
}

/// Once a reply is out nothing the driver reports changes the state.
pub proof fn law_finished_is_final<E>(
    slot: Option<E>,
    reply: Seq<char>,
    events: Seq<EventView<E>>,
)
    ensures
        run(slot, PhaseView::Finished { reply }, events) == (slot, PhaseView::<E>::Finished { reply }),
    decreases events.len(),
{
    if events.len() > 0 {
        law_finished_is_final(slot, reply, events.drop_last());
    }
}

/// Running one more event is one more step.
pub proof fn law_run_extends<E>(
    slot: Option<E>,
    phase: PhaseView<E>,
    events: Seq<EventView<E>>,
    event: EventView<E>,
)
    ensures
        run(slot, phase, events.push(event)) == ({
            let before = run(slot, phase, events);
            next(before.0, before.1, event)
        }),
{
    assert(events.push(event).drop_last() =~= events);
}

/// Whatever the registry held before, a new session whose engine could be
/// constructed leaves exactly that engine in it. The engine is seeded
/// `REWIND_MARGIN` blocks below the reported tip, and the caller gets the
/// seed phrase, or the report of why it could not be read: the session is
/// installed either way. Tearing the session down leaves the registry empty.
pub proof fn law_new_session_lifecycle<E>(
    slot: Option<E>,
    tip: u64,
    engine: E,
    seed: Result<Seq<char>, Seq<char>>,
)
    ensures
        run(slot, begin_new(), seq![EventView::HeightQueried(Ok(tip))]) == (
            slot,
            PhaseView::<E>::Constructing { start_height: rewound(tip) },
        ),
        run(
            slot,
            begin_new(),
            seq![
                EventView::HeightQueried(Ok(tip)),
                EventView::EngineConstructed(Ok(engine)),
                EventView::SeedPhraseRead(seed),
                EventView::MonitorStarted,
            ],
        ) == (Some(engine), PhaseView::<E>::Finished { reply: seed_text(seed) }),
        torn_down(Some(engine)) is None,
{
    let e1 = EventView::<E>::HeightQueried(Ok(tip));
    let e2 = EventView::EngineConstructed(Ok(engine));
    let e3 = EventView::SeedPhraseRead(seed);
    let e4 = EventView::<E>::MonitorStarted;
    let start = begin_new::<E>();
    assert(run(slot, start, Seq::empty()) == (slot, start));
    law_run_extends(slot, start, Seq::empty(), e1);
    assert(Seq::empty().push(e1) =~= seq![e1]);
    law_run_extends(slot, start, seq![e1], e2);
    assert(seq![e1].push(e2) =~= seq![e1, e2]);
    law_run_extends(slot, start, seq![e1, e2], e3);
    assert(seq![e1, e2].push(e3) =~= seq![e1, e2, e3]);
    law_run_extends(slot, start, seq![e1, e2, e3], e4);
    assert(seq![e1, e2, e3].push(e4) =~= seq![e1, e2, e3, e4]);
}

/// Whatever the registry held before, resuming a session whose engine could
/// be restored leaves exactly that engine in it and hands out the success
/// marker. Tearing the session down leaves the registry empty.
pub proof fn law_resumed_session_lifecycle<E>(slot: Option<E>, engine: E)
    ensures
        run(
            slot,
            begin_existing(),
            seq![EventView::EngineRestored(Ok(engine)), EventView::MonitorStarted],
        ) == (Some(engine), PhaseView::<E>::Finished { reply: ok_text() }),
        torn_down(Some(engine)) is None,
{
    let e1 = EventView::EngineRestored(Ok(engine));
    let e2 = EventView::<E>::MonitorStarted;
    let start = begin_existing::<E>();
    assert(run(slot, start, Seq::empty()) == (slot, start));
    law_run_extends(slot, start, Seq::empty(), e1);
    assert(Seq::empty().push(e1) =~= seq![e1]);
    law_run_extends(slot, start, seq![e1], e2);
    assert(seq![e1].push(e2) =~= seq![e1, e2]);
}

/// A session that cannot be brought up leaves the registry as it was and
/// reports why: when the chain height cannot be had, when the engine cannot
/// be constructed, and when there is nothing usable to restore.
pub proof fn law_failed_initialization_installs_nothing<E>(
    slot: Option<E>,
    tip: u64,
    why: Seq<char>,
)
    ensures
        run(slot, begin_new(), seq![EventView::HeightQueried(Err(why))]) == (
            slot,
            PhaseView::<E>::Finished { reply: failure_text(why) },
        ),
        run(
            slot,
            begin_new(),
            seq![EventView::HeightQueried(Ok(tip)), EventView::EngineConstructed(Err(why))],
        ) == (slot, PhaseView::<E>::Finished { reply: failure_text(why) }),
        run(slot, begin_existing(), seq![EventView::EngineRestored(Err(why))]) == (
            slot,
            PhaseView::<E>::Finished { reply: failure_text(why) },
        ),
{
    let h_err = EventView::<E>::HeightQueried(Err(why));
    let h_ok = EventView::<E>::HeightQueried(Ok(tip));
    let c_err = EventView::<E>::EngineConstructed(Err(why));
    let r_err = EventView::<E>::EngineRestored(Err(why));
    assert(run(slot, begin_new::<E>(), Seq::empty()) == (slot, begin_new::<E>()));
    assert(run(slot, begin_existing::<E>(), Seq::empty()) == (slot, begin_existing::<E>()));
    law_run_extends(slot, begin_new(), Seq::empty(), h_err);
    assert(Seq::empty().push(h_err) =~= seq![h_err]);
    law_run_extends(slot, begin_new(), Seq::empty(), h_ok);
    assert(Seq::empty().push(h_ok) =~= seq![h_ok]);
    law_run_extends(slot, begin_new(), seq![h_ok], c_err);
    assert(seq![h_ok].push(c_err) =~= seq![h_ok, c_err]);
    law_run_extends(slot, begin_existing(), Seq::empty(), r_err);
    assert(Seq::empty().push(r_err) =~= seq![r_err]);
}

/// What one call leaves in the registry: a session that came up is the one
/// the registry holds, whatever it held before; a session that did not come
/// up changes nothing; tearing down leaves nothing.
pub proof fn law_registry_after_call<E>(slot: Option<E>, call: Call<E>)
    ensures
        after_call(slot, call) == (match call {
            Call::InitializeNew { tip: Ok(_), engine: Ok(engine), .. } => Some(engine),
            Call::InitializeNew { .. } => slot,
            Call::InitializeExisting { engine: Ok(engine) } => Some(engine),
            Call::InitializeExisting { .. } => slot,
            Call::Deinitialize => None,
        }),
{
    match call {
        Call::InitializeNew { tip, engine, seed } => {
            let e1 = EventView::<E>::HeightQueried(tip);
            let e2 = EventView::EngineConstructed(engine);
            let e3 = EventView::<E>::SeedPhraseRead(seed);
            let e4 = EventView::<E>::MonitorStarted;
            let start = begin_new::<E>();
            assert(run(slot, start, Seq::empty()) == (slot, start));
            law_run_extends(slot, start, Seq::empty(), e1);
            assert(Seq::empty().push(e1) =~= seq![e1]);
            law_run_extends(slot, start, seq![e1], e2);
            assert(seq![e1].push(e2) =~= seq![e1, e2]);
            law_run_extends(slot, start, seq![e1, e2], e3);
            assert(seq![e1, e2].push(e3) =~= seq![e1, e2, e3]);
            law_run_extends(slot, start, seq![e1, e2, e3], e4);
            assert(seq![e1, e2, e3].push(e4) =~= seq![e1, e2, e3, e4]);
        },
        Call::InitializeExisting { engine } => {
            let e1 = EventView::EngineRestored(engine);
            let e2 = EventView::<E>::MonitorStarted;
            let start = begin_existing::<E>();
            assert(run(slot, start, Seq::empty()) == (slot, start));
            law_run_extends(slot, start, Seq::empty(), e1);
            assert(Seq::empty().push(e1) =~= seq![e1]);
            law_run_extends(slot, start, seq![e1], e2);
            assert(seq![e1].push(e2) =~= seq![e1, e2]);
        },
        Call::Deinitialize => {},
    }
}

/// After any sequence of calls the registry holds exactly the session that
/// the last successful initialization brought up, and nothing if a tear-down
/// came after it. In particular it holds one session after an
/// initialization that succeeded and none after a tear-down, whatever went
/// before.
pub proof fn law_registry_after_calls<E>(slot: Option<E>, calls: Seq<Call<E>>)
    requires
        calls.len() > 0,
    ensures
        after_calls(slot, calls) == (match calls.last() {
            Call::InitializeNew { tip: Ok(_), engine: Ok(engine), .. } => Some(engine),
            Call::InitializeNew { .. } => after_calls(slot, calls.drop_last()),
            Call::InitializeExisting { engine: Ok(engine) } => Some(engine),
            Call::InitializeExisting { .. } => after_calls(slot, calls.drop_last()),
            Call::Deinitialize => None,
        }),
{
    law_registry_after_call(after_calls(slot, calls.drop_last()), calls.last());
}

/// While a session is brought up, the registry holds what it held before
/// or an engine that the driver handed in, whatever the driver reports and
/// in whatever order. Nothing else can become visible through it.
pub proof fn law_only_engines_handed_in_are_installed<E>(
    slot: Option<E>,
    storage_exists: bool,
    events: Seq<EventView<E>>,
)
    ensures
        ({
            let end = run(slot, begin(storage_exists), events);
            &&& end.0 == slot || (end.0 matches Some(engine) && handed_in(events, engine))
            &&& engine_in(end.1) matches Some(engine) ==> handed_in(events, engine)
            &&& !(end.1 is Spawning) && !(end.1 is Running)
        }),
    decreases events.len(),
{
    if events.len() > 0 {
        let earlier = events.drop_last();
        law_only_engines_handed_in_are_installed(slot, storage_exists, earlier);
        let before = run(slot, begin::<E>(storage_exists), earlier);
        let end = run(slot, begin::<E>(storage_exists), events);
        assert(end == next(before.0, before.1, events.last()));
        assert forall|engine: E| handed_in(earlier, engine) implies handed_in(events, engine) by {
            let i = choose|i: int| 0 <= i < earlier.len() && hands_in(#[trigger] earlier[i], engine);
            assert(events[i] == earlier[i]);
        }
        assert forall|engine: E| hands_in(events.last(), engine) implies handed_in(
            events,
            engine,
        ) by {
            assert(events[events.len() - 1] == events.last());
        }
    }
}

/// A command that arrives while the registry is empty is answered with the
/// no-session reply, and nothing the driver reports afterwards changes that:
/// no phase of its run asks for an engine.
pub proof fn law_no_session_no_dispatch<E>(
    name: Seq<char>,
    args: Seq<char>,
    events: Seq<EventView<E>>,
)
    ensures
        dispatch(None::<E>, name, args) == (PhaseView::<E>::Finished { reply: no_session_text() }),
        run(None, dispatch(None::<E>, name, args), events) == (
            None::<E>,
            PhaseView::<E>::Finished { reply: no_session_text() },
        ),
{
    law_finished_is_final(None::<E>, no_session_text(), events);
}

/// Carrying out a command never writes the registry, whatever the command
/// and whatever the driver reports, and never leads into bringing a session
/// up.
pub proof fn law_dispatch_keeps_registry<E>(
    slot: Option<E>,
    name: Seq<char>,
    args: Seq<char>,
    events: Seq<EventView<E>>,
)
    ensures
        run(slot, dispatch(slot, name, args), events).0 == slot,
        ({
            let end = run(slot, dispatch(slot, name, args), events).1;
            end is Spawning || end is Running || end is Finished
        }),
    decreases events.len(),
{
    if events.len() > 0 {
        law_dispatch_keeps_registry(slot, name, args, events.drop_last());
    }
}

/// Two commands carried out at the same time against one registry leave
/// it holding what it held, however the steps of the two interleave and
/// whatever is reported to either.
pub proof fn law_concurrent_dispatch_keeps_registry<E>(
    slot: Option<E>,
    first: (Seq<char>, Seq<char>),
    second: (Seq<char>, Seq<char>),
    turns: Seq<(bool, EventView<E>)>,
)
    ensures
        run_both(
            slot,
            dispatch(slot, first.0, first.1),
            dispatch(slot, second.0, second.1),
            turns,
        ).0 == slot,
        ({
            let end = run_both(
                slot,
                dispatch(slot, first.0, first.1),
                dispatch(slot, second.0, second.1),
                turns,
            );
            &&& end.1 is Spawning || end.1 is Running || end.1 is Finished
            &&& end.2 is Spawning || end.2 is Running || end.2 is Finished
        }),
    decreases turns.len(),
{
    if turns.len() > 0 {
        law_concurrent_dispatch_keeps_registry(slot, first, second, turns.drop_last());
    }
}

/// The reply to a long-running command is the acknowledgement and nothing
/// else. Until the hand-over is reported the command stays as it was
/// dispatched; then the acknowledgement is out, and no result that is ever
/// reported finds its way into it.
pub proof fn law_long_running_is_acknowledged<E>(
    engine: E,
    name: Seq<char>,
    args: Seq<char>,
    events: Seq<EventView<E>>,
)
    requires
        is_long_running(name),
    ensures
        next(Some(engine), dispatch(Some(engine), name, args), EventView::CommandSpawned).1 == (
            PhaseView::<E>::Finished { reply: ok_text() }
        ),
        ({
            let start = dispatch(Some(engine), name, args);
            let end = run(Some(engine), start, events).1;
            end == start || end == (PhaseView::<E>::Finished { reply: ok_text() })
        }),
    decreases events.len(),
{
    if events.len() > 0 {
        law_long_running_is_acknowledged(engine, name, args, events.drop_last());
    }
}

/// An immediate command is answered with exactly what the engine returned,
/// and not before: as long as no result is reported the command stays
/// outstanding.
pub proof fn law_immediate_reply_is_verbatim<E>(
    engine: E,
    name: Seq<char>,
    args: Seq<char>,
    events: Seq<EventView<E>>,
    result: Seq<char>,
)
    requires
        !is_long_running(name),
        forall|i: int| 0 <= i < events.len() ==> !(#[trigger] events[i] is CommandReturned),
    ensures
        run(Some(engine), dispatch(Some(engine), name, args), events) == (
            Some(engine),
            dispatch(Some(engine), name, args),
        ),
        run(
            Some(engine),
            dispatch(Some(engine), name, args),
            events.push(EventView::CommandReturned(result)),
        ) == (Some(engine), PhaseView::<E>::Finished { reply: result }),
    decreases events.len(),
{
    let start = dispatch(Some(engine), name, args);
    if events.len() > 0 {
        law_immediate_reply_is_verbatim(engine, name, args, events.drop_last(), result);
    }
    law_run_extends(Some(engine), start, events, EventView::CommandReturned(result));
}

} // verus!
