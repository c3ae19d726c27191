//! Runs of pointer turns, and what holds of the stream of primitives that a
//! run emits.

use vstd::prelude::*;
use crate::capture::CaptureProgress;
use crate::device::{emitted_by, pointer_outcome};
use crate::emitter::{native_call_of, VirtualDeviceIdentity};
use crate::pointer::{
    consistent,
    idle,
    is_motion,
    is_press,
    is_release,
    DeviceState,
    EmitterVariant,
    PointerPrimitive,
};
use crate::protocol::PointerEvent;

verus! {

/// One turn on a pointer event: the event, and how far its queries had come
/// when the device was asked.
pub struct Turn {
    pub event: PointerEvent,
    pub progress: CaptureProgress,
}

/// A turn reaches the transition table if its event is primary and every
/// query for it succeeded.
pub open spec fn handled(turn: Turn) -> bool {
    turn.event.is_primary && turn.progress is Ready
}

/// Whether some turn of the run reaches the transition table.
pub open spec fn any_handled(turns: Seq<Turn>) -> bool {
    exists|i: int| 0 <= i < turns.len() && #[trigger] handled(turns[i])
}

/// The state after one turn, and the primitives that it emits.
pub open spec fn deliver(variant: EmitterVariant, state: DeviceState, turn: Turn) -> (
    DeviceState,
    Seq<PointerPrimitive>,
) {
    let (next, decision) = pointer_outcome(variant, state, turn.event, turn.progress);
    (next, emitted_by(decision))
}

/// The state after a run of turns, and the primitives that the run emits, in
/// order.
pub open spec fn run(variant: EmitterVariant, state: DeviceState, turns: Seq<Turn>) -> (
    DeviceState,
    Seq<PointerPrimitive>,
)
    decreases turns.len(),
{
    if turns.len() == 0 {
        (state, Seq::empty())
    } else {
        let (next, first) = deliver(variant, state, turns[0]);
        let (last, rest) = run(variant, next, turns.drop_first());
        (last, first + rest)
    }
}

/// How often a primitive occurs in a stream.
pub open spec fn occurrences(stream: Seq<PointerPrimitive>, primitive: PointerPrimitive) -> nat
    decreases stream.len(),
{
    if stream.len() == 0 {
        0
    } else {
        occurrences(stream.drop_last(), primitive) + if stream.last() == primitive {
            1nat
        } else {
            0nat
        }
    }
}

/// A stream of `count` drags.
pub open spec fn drags(count: nat) -> Seq<PointerPrimitive> {
    Seq::new(count, |i: int| PointerPrimitive::Drag)
}

/// How many turns of a run are motions that reach the transition table.
pub open spec fn handled_motions(turns: Seq<Turn>) -> nat
    decreases turns.len(),
{
    if turns.len() == 0 {
        0
    } else {
        handled_motions(turns.drop_first()) + if handled(turns[0]) && is_motion(
            turns[0].event.event_type,
        ) {
            1nat
        } else {
            0nat
        }
    }
}

/// Occurrences add up over a concatenation.
pub proof fn lemma_occurrences_concat(
    front: Seq<PointerPrimitive>,
    back: Seq<PointerPrimitive>,
    primitive: PointerPrimitive,
)
    ensures
        occurrences(front + back, primitive) == occurrences(front, primitive) + occurrences(
            back,
            primitive,
        ),
    decreases back.len(),
{
    if back.len() == 0 {
        assert(front + back =~= front);
    } else {
        assert((front + back).drop_last() =~= front + back.drop_last());
        lemma_occurrences_concat(front, back.drop_last(), primitive);
    }
}

/// A stream of drags holds nothing but its drags.
pub proof fn lemma_occurrences_in_drags(count: nat, primitive: PointerPrimitive)
    ensures
        occurrences(drags(count), primitive) == if primitive == PointerPrimitive::Drag {
            count
        } else {
            0
        },
    decreases count,
{
    if count > 0 {
        assert(drags(count).drop_last() =~= drags((count - 1) as nat));
        lemma_occurrences_in_drags((count - 1) as nat, primitive);
    }
}

/// A run of two parts is the run of the first part followed by the run of
/// the second from where the first ended.
pub proof fn lemma_run_concat(
    variant: EmitterVariant,
    state: DeviceState,
    front: Seq<Turn>,
    back: Seq<Turn>,
)
    ensures
        run(variant, state, front + back).0 == run(
            variant,
            run(variant, state, front).0,
            back,
        ).0,
        run(variant, state, front + back).1 == run(variant, state, front).1 + run(
            variant,
            run(variant, state, front).0,
            back,
        ).1,
    decreases front.len(),
{
    if front.len() == 0 {
        assert(front + back =~= back);
        assert(Seq::<PointerPrimitive>::empty() + run(variant, state, back).1 =~= run(
            variant,
            state,
            back,
        ).1);
    } else {
        let next = deliver(variant, state, front[0]).0;
        let first = deliver(variant, state, front[0]).1;
        assert((front + back).drop_first() =~= front.drop_first() + back);
        assert((front + back)[0] == front[0]);
        lemma_run_concat(variant, next, front.drop_first(), back);
        let rest = run(variant, next, front.drop_first());
        assert(first + (rest.1 + run(variant, rest.0, back).1) =~= (first + rest.1) + run(
            variant,
            rest.0,
            back,
        ).1);
    }
}

/// A run of one turn is that turn.
pub proof fn lemma_run_single(variant: EmitterVariant, state: DeviceState, turn: Turn)
    ensures
        run(variant, state, seq![turn]) == deliver(variant, state, turn),
{
    let turns = seq![turn];
    assert(turns.drop_first() =~= Seq::<Turn>::empty());
    assert(run(variant, deliver(variant, state, turn).0, turns.drop_first()).1
        =~= Seq::<PointerPrimitive>::empty());
    assert(deliver(variant, state, turn).1 + Seq::<PointerPrimitive>::empty() =~= deliver(
        variant,
        state,
        turn,
    ).1);
}

/// No run leads out of the consistent states: the baseline variant never
/// enters proximity, and the pen emulation is in proximity exactly while the
/// button is down.
pub proof fn lemma_run_keeps_consistent(
    variant: EmitterVariant,
    state: DeviceState,
    turns: Seq<Turn>,
)
    requires
        consistent(variant, state),
    ensures
        consistent(variant, run(variant, state, turns).0),
    decreases turns.len(),
{
    if turns.len() > 0 {
        lemma_run_keeps_consistent(
            variant,
            deliver(variant, state, turns[0]).0,
            turns.drop_first(),
        );
    }
}

/// A turn that does not reach the transition table changes nothing and emits
/// nothing: an event that is not primary, whatever its type, and an event
/// whose capture target could not be made ready.
pub proof fn lemma_unhandled_turn_is_inert(
    variant: EmitterVariant,
    state: DeviceState,
    turn: Turn,
)
    requires
        !handled(turn),
    ensures
        deliver(variant, state, turn) == (state, Seq::<PointerPrimitive>::empty()),
{
}

/// Pressing is idempotent. A run of presses with no release between them
/// emits exactly one button-down primitive if the button was up and one of
/// the presses reached the transition table, and none otherwise; the button
/// is down afterwards in the first case, and as it was in the second.
pub proof fn lemma_presses_emit_one_button_down(
    variant: EmitterVariant,
    state: DeviceState,
    turns: Seq<Turn>,
)
    requires
        forall|i: int| 0 <= i < turns.len() ==> is_press(#[trigger] turns[i].event.event_type),
    ensures
        occurrences(run(variant, state, turns).1, PointerPrimitive::ButtonDown) == if
            !state.left_button_down && any_handled(turns) {
            1nat
        } else {
            0nat
        },
        occurrences(run(variant, state, turns).1, PointerPrimitive::ButtonUp) == 0,
        run(variant, state, turns).0.left_button_down == (state.left_button_down || any_handled(
            turns,
        )),
    decreases turns.len(),
{
    let down = PointerPrimitive::ButtonDown;
    let up = PointerPrimitive::ButtonUp;
    if turns.len() > 0 {
        let (next, first) = deliver(variant, state, turns[0]);
        let rest = turns.drop_first();
        assert(forall|i: int| 0 <= i < rest.len() ==> rest[i] == turns[i + 1]);
        assert(is_press(turns[0].event.event_type));
        lemma_presses_emit_one_button_down(variant, next, rest);
        lemma_occurrences_concat(first, run(variant, next, rest).1, down);
        lemma_occurrences_concat(first, run(variant, next, rest).1, up);
        if any_handled(rest) {
            let i = choose|i: int| 0 <= i < rest.len() && #[trigger] handled(rest[i]);
            assert(handled(turns[i + 1]));
        }
        if any_handled(turns) && !handled(turns[0]) {
            let i = choose|i: int| 0 <= i < turns.len() && #[trigger] handled(turns[i]);
            assert(handled(rest[i - 1]));
        }
        if handled(turns[0]) && !state.left_button_down {
            assert(first == match variant {
                EmitterVariant::Baseline => seq![PointerPrimitive::Move, down],
                EmitterVariant::PressureTablet => if state.in_proximity {
                    seq![down]
                } else {
                    seq![PointerPrimitive::ProximityEnter, down]
                },
            });
            lemma_occurrences_small(first, down);
            lemma_occurrences_small(first, up);
        } else {
            assert(first =~= Seq::<PointerPrimitive>::empty());
        }
    }
}

/// Occurrences in a stream of at most two primitives.
proof fn lemma_occurrences_small(stream: Seq<PointerPrimitive>, primitive: PointerPrimitive)
    requires
        stream.len() <= 2,
    ensures
        occurrences(stream, primitive) == (if stream.len() >= 1 && stream[0] == primitive {
            1nat
        } else {
            0nat
        }) + (if stream.len() == 2 && stream[1] == primitive {
            1nat
        } else {
            0nat
        }),
{
    reveal_with_fuel(occurrences, 3);
    if stream.len() == 2 {
        assert(stream.drop_last().len() == 1);
        assert(stream.drop_last()[0] == stream[0]);
        assert(stream.drop_last().drop_last().len() == 0);
    } else if stream.len() == 1 {
        assert(stream.drop_last().len() == 0);
    }
}

/// Releasing is idempotent. While the button is up, a run of releases emits
/// nothing and changes nothing.
pub proof fn lemma_releases_while_up_are_inert(
    variant: EmitterVariant,
    state: DeviceState,
    turns: Seq<Turn>,
)
    requires
        !state.left_button_down,
        forall|i: int| 0 <= i < turns.len() ==> is_release(#[trigger] turns[i].event.event_type),
    ensures
        run(variant, state, turns) == (state, Seq::<PointerPrimitive>::empty()),
    decreases turns.len(),
{
    if turns.len() > 0 {
        let rest = turns.drop_first();
        assert(forall|i: int| 0 <= i < rest.len() ==> rest[i] == turns[i + 1]);
        assert(is_release(turns[0].event.event_type));
        lemma_releases_while_up_are_inert(variant, state, rest);
        assert(deliver(variant, state, turns[0]).1 + run(variant, state, rest).1
            =~= Seq::<PointerPrimitive>::empty());
    }
}

/// A press followed by a release emits one button-down and then one
/// button-up primitive, and leaves the device as it was. The baseline variant
/// moves the cursor before each of the two; the pen emulation enters
/// proximity before the first and leaves it after the second. A second
/// release emits nothing.
pub proof fn lemma_press_then_release(
    variant: EmitterVariant,
    state: DeviceState,
    press: Turn,
    release: Turn,
    again: Turn,
)
    requires
        consistent(variant, state),
        !state.left_button_down,
        handled(press),
        is_press(press.event.event_type),
        handled(release),
        is_release(release.event.event_type),
        is_release(again.event.event_type),
    ensures
        run(variant, state, seq![press, release]).0 == state,
        run(variant, state, seq![press, release]).1 == match variant {
            EmitterVariant::Baseline => seq![
                PointerPrimitive::Move,
                PointerPrimitive::ButtonDown,
                PointerPrimitive::Move,
                PointerPrimitive::ButtonUp,
            ],
            EmitterVariant::PressureTablet => seq![
                PointerPrimitive::ProximityEnter,
                PointerPrimitive::ButtonDown,
                PointerPrimitive::ButtonUp,
                PointerPrimitive::ProximityLeave,
            ],
        },
        run(variant, state, seq![press, release, again]) == run(
            variant,
            state,
            seq![press, release],
        ),
{
    let pressed = deliver(variant, state, press);
    let released = deliver(variant, pressed.0, release);
    lemma_run_single(variant, state, press);
    lemma_run_single(variant, pressed.0, release);
    lemma_run_single(variant, released.0, again);
    lemma_run_concat(variant, state, seq![press], seq![release]);
    assert(seq![press] + seq![release] =~= seq![press, release]);
    lemma_run_concat(variant, state, seq![press, release], seq![again]);
    assert(seq![press, release] + seq![again] =~= seq![press, release, again]);
    assert(released.0 == state);
    assert(deliver(variant, state, again).1 =~= Seq::<PointerPrimitive>::empty());
    assert(run(variant, state, seq![press, release]).1 + Seq::<PointerPrimitive>::empty() =~= run(
        variant,
        state,
        seq![press, release],
    ).1);
    assert(pressed.1 + released.1 =~= match variant {
        EmitterVariant::Baseline => seq![
            PointerPrimitive::Move,
            PointerPrimitive::ButtonDown,
            PointerPrimitive::Move,
            PointerPrimitive::ButtonUp,
        ],
        EmitterVariant::PressureTablet => seq![
            PointerPrimitive::ProximityEnter,
            PointerPrimitive::ButtonDown,
            PointerPrimitive::ButtonUp,
            PointerPrimitive::ProximityLeave,
        ],
    });
}

/// While the pen is down, turns that release nothing keep it down and in
/// proximity; each motion among them that reaches the transition table
/// emits one drag, and nothing else is emitted.
pub proof fn lemma_held_pen_only_drags(turns: Seq<Turn>)
    requires
        forall|i: int|
            0 <= i < turns.len() ==> !(#[trigger] handled(turns[i]) && is_release(
                turns[i].event.event_type,
            )),
    ensures
        run(
            EmitterVariant::PressureTablet,
            DeviceState { left_button_down: true, in_proximity: true },
            turns,
        ) == (
            DeviceState { left_button_down: true, in_proximity: true },
            drags(handled_motions(turns)),
        ),
    decreases turns.len(),
{
    let variant = EmitterVariant::PressureTablet;
    let held = DeviceState { left_button_down: true, in_proximity: true };
    if turns.len() == 0 {
        assert(drags(0) =~= Seq::<PointerPrimitive>::empty());
    } else {
        let rest = turns.drop_first();
        assert(forall|i: int| 0 <= i < rest.len() ==> rest[i] == turns[i + 1]);
        assert(!(handled(turns[0]) && is_release(turns[0].event.event_type)));
        lemma_held_pen_only_drags(rest);
        let first = deliver(variant, held, turns[0]);
        assert(first.0 == held);
        if handled(turns[0]) && is_motion(turns[0].event.event_type) {
            assert(first.1 + drags(handled_motions(rest)) =~= drags(handled_motions(turns)));
        } else {
            assert(first.1 + drags(handled_motions(rest)) =~= drags(handled_motions(turns)));
        }
    }
}

/// One cycle of the pen emulation, from a press of the idle device to the
/// next release. The stream begins with proximity-enter and button-down,
/// ends with button-up and proximity-leave, and holds only drags between
/// them. So proximity-enter is emitted once, before the button-down
/// primitive, and proximity-leave once, after the button-up primitive; and
/// the device is idle again.
pub proof fn lemma_proximity_brackets_cycle(press: Turn, between: Seq<Turn>, release: Turn)
    requires
        handled(press),
        is_press(press.event.event_type),
        handled(release),
        is_release(release.event.event_type),
        forall|i: int|
            0 <= i < between.len() ==> !(#[trigger] handled(between[i]) && is_release(
                between[i].event.event_type,
            )),
    ensures
        ({
            let cycle = seq![press] + between + seq![release];
            let outcome = run(EmitterVariant::PressureTablet, idle(), cycle);
            let stream = outcome.1;
            &&& outcome.0 == idle()
            &&& stream == seq![PointerPrimitive::ProximityEnter, PointerPrimitive::ButtonDown]
                + drags(handled_motions(between)) + seq![
                PointerPrimitive::ButtonUp,
                PointerPrimitive::ProximityLeave,
            ]
            &&& occurrences(stream, PointerPrimitive::ProximityEnter) == 1
            &&& occurrences(stream, PointerPrimitive::ProximityLeave) == 1
            &&& occurrences(stream, PointerPrimitive::ButtonDown) == 1
            &&& occurrences(stream, PointerPrimitive::ButtonUp) == 1
            &&& stream[0] == PointerPrimitive::ProximityEnter
            &&& stream[1] == PointerPrimitive::ButtonDown
            &&& stream[stream.len() - 2] == PointerPrimitive::ButtonUp
            &&& stream[stream.len() - 1] == PointerPrimitive::ProximityLeave
        }),
{
    let variant = EmitterVariant::PressureTablet;
    let held = DeviceState { left_button_down: true, in_proximity: true };
    let head = seq![PointerPrimitive::ProximityEnter, PointerPrimitive::ButtonDown];
    let middle = drags(handled_motions(between));
    let tail = seq![PointerPrimitive::ButtonUp, PointerPrimitive::ProximityLeave];
    let cycle = seq![press] + between + seq![release];
    lemma_run_single(variant, idle(), press);
    lemma_held_pen_only_drags(between);
    lemma_run_single(variant, held, release);
    lemma_run_concat(variant, idle(), seq![press], between);
    lemma_run_concat(variant, idle(), seq![press] + between, seq![release]);
    assert(deliver(variant, idle(), press) == (held, head));
    assert(deliver(variant, held, release) == (idle(), tail));
    let stream = run(variant, idle(), cycle).1;
    assert(stream == head + middle + tail);
    lemma_occurrences_concat(head + middle, tail, PointerPrimitive::ProximityEnter);
    lemma_occurrences_concat(head + middle, tail, PointerPrimitive::ProximityLeave);
    lemma_occurrences_concat(head + middle, tail, PointerPrimitive::ButtonDown);
    lemma_occurrences_concat(head + middle, tail, PointerPrimitive::ButtonUp);
    lemma_occurrences_concat(head, middle, PointerPrimitive::ProximityEnter);
    lemma_occurrences_concat(head, middle, PointerPrimitive::ProximityLeave);
    lemma_occurrences_concat(head, middle, PointerPrimitive::ButtonDown);
    lemma_occurrences_concat(head, middle, PointerPrimitive::ButtonUp);
    lemma_occurrences_in_drags(handled_motions(between), PointerPrimitive::ProximityEnter);
    lemma_occurrences_in_drags(handled_motions(between), PointerPrimitive::ProximityLeave);
    lemma_occurrences_in_drags(handled_motions(between), PointerPrimitive::ButtonDown);
    lemma_occurrences_in_drags(handled_motions(between), PointerPrimitive::ButtonUp);
    lemma_occurrences_small(head, PointerPrimitive::ProximityEnter);
    lemma_occurrences_small(head, PointerPrimitive::ProximityLeave);
    lemma_occurrences_small(head, PointerPrimitive::ButtonDown);
    lemma_occurrences_small(head, PointerPrimitive::ButtonUp);
    lemma_occurrences_small(tail, PointerPrimitive::ProximityEnter);
    lemma_occurrences_small(tail, PointerPrimitive::ProximityLeave);
    lemma_occurrences_small(tail, PointerPrimitive::ButtonDown);
    lemma_occurrences_small(tail, PointerPrimitive::ButtonUp);
}

/// What a turn tells the button to do: `Some(true)` for a press that reaches
/// the transition table, `Some(false)` for a release that does, and `None`
/// for every other turn.
pub open spec fn button_command(turn: Turn) -> Option<bool> {
    if !handled(turn) {
        None
    } else if is_press(turn.event.event_type) {
        Some(true)
    } else if is_release(turn.event.event_type) {
        Some(false)
    } else {
        None
    }
}

/// The last thing that a run tells the button to do, if it tells it anything.
pub open spec fn last_button_command(turns: Seq<Turn>) -> Option<bool>
    decreases turns.len(),
{
    if turns.len() == 0 {
        None
    } else {
        match button_command(turns.last()) {
            Some(down) => Some(down),
            None => last_button_command(turns.drop_last()),
        }
    }
}

/// The button flag follows the events: after a run it is down exactly if the
/// last press or release that reached the transition table was a press, and
/// it is as it was if there was none.
pub proof fn lemma_button_follows_last_command(
    variant: EmitterVariant,
    state: DeviceState,
    turns: Seq<Turn>,
)
    ensures
        run(variant, state, turns).0.left_button_down == match last_button_command(turns) {
            Some(down) => down,
            None => state.left_button_down,
        },
    decreases turns.len(),
{
    if turns.len() > 0 {
        let earlier = turns.drop_last();
        lemma_button_follows_last_command(variant, state, earlier);
        lemma_run_concat(variant, state, earlier, seq![turns.last()]);
        assert(earlier + seq![turns.last()] =~= turns);
        lemma_run_single(variant, run(variant, state, earlier).0, turns.last());
    }
}

/// Whatever a run emits, the variant can perform: each primitive of the
/// stream has a native call. In particular the baseline variant emits no
/// proximity primitive.
pub proof fn lemma_emitted_primitives_have_native_calls(
    variant: EmitterVariant,
    identity: VirtualDeviceIdentity,
    state: DeviceState,
    turns: Seq<Turn>,
)
    ensures
        forall|k: int|
            0 <= k < run(variant, state, turns).1.len() ==> native_call_of(
                variant,
                identity,
                #[trigger] run(variant, state, turns).1[k],
            ) is Some,
    decreases turns.len(),
{
    if turns.len() > 0 {
        let (next, first) = deliver(variant, state, turns[0]);
        let rest = run(variant, next, turns.drop_first()).1;
        lemma_emitted_primitives_have_native_calls(variant, identity, next, turns.drop_first());
        assert forall|k: int| 0 <= k < first.len() implies native_call_of(
            variant,
            identity,
            #[trigger] first[k],
        ) is Some by {}
        assert forall|k: int| 0 <= k < (first + rest).len() implies native_call_of(
            variant,
            identity,
            #[trigger] (first + rest)[k],
        ) is Some by {
            if k < first.len() {
                assert((first + rest)[k] == first[k]);
            } else {
                assert((first + rest)[k] == rest[k - first.len()]);
            }
        }
    }
}

} // verus!
