//! What the interrupt handler does over many invocations.
//!
//! A history is the sequence of invocations of the handler, each reduced to
//! what the dispatcher and the interface were told in it. From a history and
//! the state of the configuration latch before it follows everything the
//! handler does to the outside: when it runs the hardware-configuration step,
//! which packets it hands to the deferred worker, and which faults it signals.
//! The statements proved here hold for every history.

use crate::dispatch::{latch_after_poll, poll_action, read_effect, PollAction, ReadEffect};
use crate::enumeration::EnumerationState;
use crate::fault::{ReadError, UsbFault};
use crate::packet::PACKET_CAPACITY;
use crate::usb_class::{credible_read, read_result, OUT_MAX_PACKET_SIZE};
use vstd::prelude::*;

verus! {

/// One invocation of the interrupt handler.
pub struct Invocation {
    /// Whether the poll of the bus reported pending activity.
    pub pending: bool,
    /// The enumeration state after the poll.
    pub state: EnumerationState,
    /// What the OUT endpoint reports when a read is attempted.
    pub report: Result<usize, UsbFault>,
    /// The staging buffer after that read.
    pub buffer: Seq<u8>,
}

/// Something the handler does to the outside.
pub enum Effect {
    /// It runs the hardware-configuration step.
    Configure,
    /// It hands a packet with these bytes to the deferred worker.
    Dispatch(Seq<u8>),
    /// It signals the overflow fault.
    SignalOverflow,
    /// It signals the other fault.
    SignalFault,
}

/// Whether the handler attempts a read in `invocation`: the bus had activity
/// pending and the device is configured.
pub open spec fn serviced(invocation: Invocation) -> bool {
    invocation.pending && invocation.state is Configured
}

/// The bytes that a successful read in `invocation` received, if the
/// invocation is serviced and its read succeeds.
pub open spec fn received_in(invocation: Invocation) -> Option<Seq<u8>> {
    if serviced(invocation) {
        match read_result(invocation.report, invocation.buffer.len()) {
            Ok(count) => Some(invocation.buffer.subrange(0, count as int)),
            Err(_) => None,
        }
    } else {
        None
    }
}

/// The enumeration state that `invocation` lets the handler observe, if any:
/// the state is looked at only when the bus had activity pending.
pub open spec fn observed_in(invocation: Invocation) -> Option<EnumerationState> {
    if invocation.pending {
        Some(invocation.state)
    } else {
        None
    }
}

/// The packet that `effect` hands to the deferred worker, if it is a dispatch.
pub open spec fn payload_of(effect: Effect) -> Option<Seq<u8>> {
    match effect {
        Effect::Dispatch(bytes) => Some(bytes),
        _ => None,
    }
}

/// The effect of what the dispatcher decides after a read.
pub open spec fn effects_of_read(effect: ReadEffect) -> Seq<Effect> {
    match effect {
        ReadEffect::Dispatch(bytes) => seq![Effect::Dispatch(bytes)],
        ReadEffect::Idle => Seq::empty(),
        ReadEffect::SignalOverflow => seq![Effect::SignalOverflow],
        ReadEffect::SignalFault => seq![Effect::SignalFault],
    }
}

/// What the handler does in one invocation that starts with the latch at
/// `latch`: what the dispatcher decides after the poll, then, if the device
/// is serviced, what it decides after the read that the interface settled.
pub open spec fn invocation_effects(latch: bool, invocation: Invocation) -> Seq<Effect> {
    match poll_action(latch, invocation.pending, invocation.state) {
        PollAction::Return => Seq::empty(),
        PollAction::Service { configure } => {
            let first = if configure {
                seq![Effect::Configure]
            } else {
                Seq::empty()
            };
            first + effects_of_read(
                read_effect(
                    read_result(invocation.report, invocation.buffer.len()),
                    invocation.buffer,
                ),
            )
        },
    }
}

/// The latch after `history`, which started with the latch at `latch`.
pub open spec fn latch_after_history(latch: bool, history: Seq<Invocation>) -> bool
    decreases history.len(),
{
    if history.len() == 0 {
        latch
    } else {
        let last = history.last();
        latch_after_poll(latch_after_history(latch, history.drop_last()), last.pending, last.state)
    }
}

/// Everything the handler does over `history`, in order.
pub open spec fn history_effects(latch: bool, history: Seq<Invocation>) -> Seq<Effect>
    decreases history.len(),
{
    if history.len() == 0 {
        Seq::empty()
    } else {
        let rest = history.drop_last();
        history_effects(latch, rest) + invocation_effects(
            latch_after_history(latch, rest),
            history.last(),
        )
    }
}

/// Whether the handler runs the hardware-configuration step in invocation
/// `i` of `history`.
pub open spec fn configures_at(latch: bool, history: Seq<Invocation>, i: int) -> bool {
    invocation_effects(latch_after_history(latch, history.take(i)), history[i]).contains(
        Effect::Configure,
    )
}

/// How often the handler runs the hardware-configuration step in `effects`.
pub open spec fn configurations(effects: Seq<Effect>) -> nat {
    effects.filter(|effect: Effect| effect is Configure).len()
}

/// The packets that the deferred worker is invoked with in `effects`, one
/// invocation each, in order.
pub open spec fn dispatched(effects: Seq<Effect>) -> Seq<Seq<u8>> {
    effects.filter_map(|effect: Effect| payload_of(effect))
}

/// The bytes of the successful reads of `history`, in order of arrival.
pub open spec fn received(history: Seq<Invocation>) -> Seq<Seq<u8>> {
    history.filter_map(|invocation: Invocation| received_in(invocation))
}

/// The enumeration states that the handler observes over `history`, in order.
pub open spec fn observations(history: Seq<Invocation>) -> Seq<EnumerationState> {
    history.filter_map(|invocation: Invocation| observed_in(invocation))
}

/// Whether observation `i` enters the configured state: it sees the device
/// configured, and the observation before it did not. Before the first
/// observation the latch tells whether a session was already under way.
pub open spec fn enters_configured(latch: bool, states: Seq<EnumerationState>, i: int) -> bool {
    &&& states[i] is Configured
    &&& if i == 0 {
        !latch
    } else {
        !(states[i - 1] is Configured)
    }
}

/// How many of the first `n` observations enter the configured state.
pub open spec fn sessions_within(latch: bool, states: Seq<EnumerationState>, n: nat) -> nat
    decreases n,
{
    if n == 0 {
        0
    } else {
        let before = sessions_within(latch, states, (n - 1) as nat);
        if enters_configured(latch, states, n - 1) {
            before + 1
        } else {
            before
        }
    }
}

/// How many configuration sessions begin in `states`: the number of maximal
/// runs of the configured state, not counting one that the latch says was
/// under way before.
pub open spec fn sessions(latch: bool, states: Seq<EnumerationState>) -> nat {
    sessions_within(latch, states, states.len())
}

proof fn lemma_filter_map_add<A, B>(a: Seq<A>, b: Seq<A>, f: spec_fn(A) -> Option<B>)
    ensures
        (a + b).filter_map(f) == a.filter_map(f) + b.filter_map(f),
    decreases b.len(),
{
    if b.len() == 0 {
        assert(a + b =~= a);
        assert(a.filter_map(f) + b.filter_map(f) =~= a.filter_map(f));
    } else {
        let whole = a + b;
        assert(whole.drop_last() =~= a + b.drop_last());
        assert(whole.last() == b.last());
        lemma_filter_map_add(a, b.drop_last(), f);
        assert((a + b).filter_map(f) =~= a.filter_map(f) + b.filter_map(f));
    }
}

proof fn lemma_filter_map_push<A, B>(s: Seq<A>, x: A, f: spec_fn(A) -> Option<B>)
    ensures
        s.push(x).filter_map(f) == match f(x) {
            Some(y) => s.filter_map(f).push(y),
            None => s.filter_map(f),
        },
{
    assert(s.push(x).drop_last() =~= s);
    assert(s.push(x).last() == x);
    match f(x) {
        Some(y) => {
            assert(s.filter_map(f) + seq![y] =~= s.filter_map(f).push(y));
        },
        None => {},
    }
}

proof fn lemma_configurations_add(a: Seq<Effect>, b: Seq<Effect>)
    ensures
        configurations(a + b) == configurations(a) + configurations(b),
{
    Seq::filter_distributes_over_add(a, b, |effect: Effect| effect is Configure);
}

proof fn lemma_invocation_configurations(latch: bool, invocation: Invocation)
    ensures
        configurations(invocation_effects(latch, invocation)) == if serviced(invocation) && !latch {
            1nat
        } else {
            0nat
        },
        invocation_effects(latch, invocation).contains(Effect::Configure) <==> serviced(invocation)
            && !latch,
{
    let is_configure = |effect: Effect| effect is Configure;
    let effects = invocation_effects(latch, invocation);
    let tail = effects_of_read(
        read_effect(read_result(invocation.report, invocation.buffer.len()), invocation.buffer),
    );
    reveal_with_fuel(Seq::filter, 3);
    assert(tail.filter(is_configure) =~= Seq::<Effect>::empty());
    assert(!tail.contains(Effect::Configure));
    if serviced(invocation) {
        if !latch {
            let first = seq![Effect::Configure];
            assert(effects == first + tail);
            Seq::filter_distributes_over_add(first, tail, is_configure);
            assert(first.filter(is_configure) =~= first);
            assert(effects[0] == Effect::Configure);
        } else {
            assert(effects =~= tail);
        }
    } else {
        assert(effects.filter(is_configure) =~= Seq::<Effect>::empty());
    }
}

proof fn lemma_invocation_dispatched(latch: bool, invocation: Invocation)
    ensures
        dispatched(invocation_effects(latch, invocation)) == match received_in(invocation) {
            Some(bytes) => seq![bytes],
            None => Seq::empty(),
        },
{
    let payload = |effect: Effect| payload_of(effect);
    let effects = invocation_effects(latch, invocation);
    reveal_with_fuel(Seq::filter_map, 3);
    if serviced(invocation) {
        let tail = effects_of_read(
            read_effect(
                read_result(invocation.report, invocation.buffer.len()),
                invocation.buffer,
            ),
        );
        let first: Seq<Effect> = if !latch {
            seq![Effect::Configure]
        } else {
            Seq::empty()
        };
        assert(effects == first + tail);
        lemma_filter_map_add(first, tail, payload);
        assert(first.filter_map(payload) =~= Seq::<Seq<u8>>::empty());
        match received_in(invocation) {
            Some(bytes) => {
                assert(tail =~= seq![Effect::Dispatch(bytes)]);
                assert(tail.filter_map(payload) =~= seq![bytes]);
            },
            None => {
                assert(tail.filter_map(payload) =~= Seq::<Seq<u8>>::empty());
            },
        }
        assert(dispatched(effects) =~= first.filter_map(payload) + tail.filter_map(payload));
    } else {
        assert(effects =~= Seq::<Effect>::empty());
    }
}

proof fn lemma_latch_follows_observations(latch: bool, history: Seq<Invocation>)
    ensures
        latch_after_history(latch, history) == if observations(history).len() == 0 {
            latch
        } else {
            observations(history).last() is Configured
        },
    decreases history.len(),
{
    if history.len() > 0 {
        let rest = history.drop_last();
        let last = history.last();
        lemma_latch_follows_observations(latch, rest);
        assert(history =~= rest.push(last));
        lemma_filter_map_push(rest, last, |invocation: Invocation| observed_in(invocation));
    }
}

proof fn lemma_sessions_ignore_later(
    latch: bool,
    states: Seq<EnumerationState>,
    state: EnumerationState,
    n: nat,
)
    requires
        n <= states.len(),
    ensures
        sessions_within(latch, states.push(state), n) == sessions_within(latch, states, n),
    decreases n,
{
    if n > 0 {
        lemma_sessions_ignore_later(latch, states, state, (n - 1) as nat);
    }
}

proof fn lemma_latch_cleared_between(latch: bool, history: Seq<Invocation>, from: int, to: int)
    requires
        0 <= from <= to <= history.len(),
        latch_after_history(latch, history.take(from)),
        !latch_after_history(latch, history.take(to)),
    ensures
        exists|k: int|
            from <= k < to && (#[trigger] history[k]).pending && !(history[k].state is Configured),
    decreases to - from,
{
    if from < to {
        let shorter = history.take(to - 1);
        assert(history.take(to).drop_last() =~= shorter);
        assert(history.take(to).last() == history[to - 1]);
        if history[to - 1].pending {
            assert(!(history[to - 1].state is Configured));
        } else {
            lemma_latch_cleared_between(latch, history, from, to - 1);
        }
    }
}

/// The staging buffer of the handler holds every packet that the OUT endpoint
/// can deliver, up to the largest.
pub proof fn staging_buffer_holds_every_packet(count: usize)
    requires
        count <= OUT_MAX_PACKET_SIZE,
    ensures
        credible_read(count, PACKET_CAPACITY as nat),
        OUT_MAX_PACKET_SIZE <= PACKET_CAPACITY,
{
}

/// A read with no transfer pending would block, and the handler does nothing
/// about it: no packet, no signal, and the latch as it was.
pub proof fn idle_read_changes_nothing(invocation: Invocation)
    requires
        serviced(invocation),
        invocation.report == Err::<usize, UsbFault>(UsbFault::WouldBlock),
    ensures
        read_result(invocation.report, invocation.buffer.len()) == Err::<usize, ReadError>(
            ReadError::WouldBlock,
        ),
        invocation_effects(true, invocation) == Seq::<Effect>::empty(),
        latch_after_poll(true, invocation.pending, invocation.state),
{
    assert(invocation_effects(true, invocation) =~= Seq::<Effect>::empty());
}

/// A read with a transfer of `count` bytes pending, of any size up to the
/// endpoint's maximum and within the buffer, succeeds with that count, and
/// the packet that the handler dispatches holds the first `count` bytes of
/// the buffer.
pub proof fn pending_transfer_is_delivered(count: usize, buffer: Seq<u8>)
    requires
        count <= OUT_MAX_PACKET_SIZE,
        count <= buffer.len(),
    ensures
        read_result(Ok(count), buffer.len()) == Ok::<usize, ReadError>(count),
        read_effect(read_result(Ok(count), buffer.len()), buffer) == ReadEffect::Dispatch(
            buffer.subrange(0, count as int),
        ),
        buffer.subrange(0, count as int).len() == count,
{
}

/// The hardware-configuration step never runs in an invocation that sees the
/// device in any state but configured, whatever came before.
pub proof fn configuration_needs_configured_state(
    latch: bool,
    history: Seq<Invocation>,
    i: int,
)
    requires
        0 <= i < history.len(),
        !(history[i].state is Configured),
    ensures
        !configures_at(latch, history, i),
{
    lemma_invocation_configurations(latch_after_history(latch, history.take(i)), history[i]);
}

/// Over any history the hardware-configuration step runs once for each
/// configuration session that begins in it: once for every maximal run of
/// observations that see the device configured.
pub proof fn configuration_once_per_session(latch: bool, history: Seq<Invocation>)
    ensures
        configurations(history_effects(latch, history)) == sessions(latch, observations(history)),
    decreases history.len(),
{
    if history.len() == 0 {
        assert(history_effects(latch, history).filter(|effect: Effect| effect is Configure)
            =~= Seq::<Effect>::empty()) by {
            reveal_with_fuel(Seq::filter, 1);
        }
    } else {
        let rest = history.drop_last();
        let last = history.last();
        let before = latch_after_history(latch, rest);
        let states = observations(rest);
        configuration_once_per_session(latch, rest);
        lemma_configurations_add(history_effects(latch, rest), invocation_effects(before, last));
        lemma_invocation_configurations(before, last);
        lemma_latch_follows_observations(latch, rest);
        assert(history =~= rest.push(last));
        lemma_filter_map_push(rest, last, |invocation: Invocation| observed_in(invocation));
        if last.pending {
            let longer = states.push(last.state);
            assert(observations(history) == longer);
            lemma_sessions_ignore_later(latch, states, last.state, states.len());
            assert(enters_configured(latch, longer, states.len() as int) == (serviced(last)
                && !before));
        }
    }
}

/// The hardware-configuration step never runs twice within one session:
/// between two invocations that run it lies one that sees the device in
/// another state than configured.
pub proof fn no_reconfiguration_within_session(
    latch: bool,
    history: Seq<Invocation>,
    i: int,
    j: int,
)
    requires
        0 <= i < j < history.len(),
        configures_at(latch, history, i),
        configures_at(latch, history, j),
    ensures
        exists|k: int|
            i < k < j && (#[trigger] history[k]).pending && !(history[k].state is Configured),
{
    lemma_invocation_configurations(latch_after_history(latch, history.take(i)), history[i]);
    lemma_invocation_configurations(latch_after_history(latch, history.take(j)), history[j]);
    assert(history.take(i + 1).drop_last() =~= history.take(i));
    assert(history.take(i + 1).last() == history[i]);
    lemma_latch_cleared_between(latch, history, i + 1, j);
}

/// Every successful read hands exactly one packet to the deferred worker,
/// with the bytes of that read, and the packets leave in the order in which
/// the reads arrived.
pub proof fn every_read_dispatched_in_order(latch: bool, history: Seq<Invocation>)
    ensures
        dispatched(history_effects(latch, history)) == received(history),
    decreases history.len(),
{
    if history.len() == 0 {
        assert(dispatched(history_effects(latch, history)) =~= received(history));
    } else {
        let rest = history.drop_last();
        let last = history.last();
        let before = latch_after_history(latch, rest);
        every_read_dispatched_in_order(latch, rest);
        lemma_filter_map_add(
            history_effects(latch, rest),
            invocation_effects(before, last),
            |effect: Effect| payload_of(effect),
        );
        lemma_invocation_dispatched(before, last);
        assert(history =~= rest.push(last));
        lemma_filter_map_push(rest, last, |invocation: Invocation| received_in(invocation));
        assert(dispatched(history_effects(latch, history)) =~= received(history));
    }
}

/// What the handler does after an invocation depends on that invocation only
/// through the latch it leaves, and the latch depends only on what the poll
/// saw. A fault in a read, an overflow included, therefore changes nothing
/// about the invocations that follow.
pub proof fn later_invocations_ignore_reads(
    latch: bool,
    invocation: Invocation,
    later: Seq<Invocation>,
)
    ensures
        history_effects(latch, seq![invocation] + later) == invocation_effects(latch, invocation)
            + history_effects(
            latch_after_poll(latch, invocation.pending, invocation.state),
            later,
        ),
        latch_after_history(latch, seq![invocation] + later) == latch_after_history(
            latch_after_poll(latch, invocation.pending, invocation.state),
            later,
        ),
    decreases later.len(),
{
    let whole = seq![invocation] + later;
    let next = latch_after_poll(latch, invocation.pending, invocation.state);
    if later.len() == 0 {
        let nothing = Seq::<Invocation>::empty();
        assert(whole.drop_last() =~= nothing);
        assert(whole.last() == invocation);
        assert(later =~= nothing);
        assert(history_effects(latch, nothing) =~= Seq::<Effect>::empty());
        assert(latch_after_history(latch, nothing) == latch);
        assert(history_effects(next, nothing) =~= Seq::<Effect>::empty());
        assert(history_effects(latch, whole) =~= invocation_effects(latch, invocation)
            + history_effects(next, later));
    } else {
        let shorter = later.drop_last();
        later_invocations_ignore_reads(latch, invocation, shorter);
        assert(whole.drop_last() =~= seq![invocation] + shorter);
        assert(whole.last() == later.last());
        assert(history_effects(latch, whole) =~= invocation_effects(latch, invocation)
            + history_effects(next, later));
    }
}

/// After a read that overflowed the staging buffer the handler is not stuck:
/// the overflow is signalled, the device stays configured, and a packet that
/// arrives in the next serviced invocation is dispatched as any other, with
/// no second configuration step.
pub proof fn service_resumes_after_overflow(latch: bool, overflowed: Invocation, next: Invocation)
    requires
        serviced(overflowed),
        overflowed.report == Err::<usize, UsbFault>(UsbFault::BufferOverflow),
        serviced(next),
        received_in(next) is Some,
    ensures
        invocation_effects(latch, overflowed).last() == Effect::SignalOverflow,
        latch_after_poll(latch, overflowed.pending, overflowed.state),
        invocation_effects(latch_after_poll(latch, overflowed.pending, overflowed.state), next)
            == seq![Effect::Dispatch(received_in(next)->0)],
{
    let after = latch_after_poll(latch, overflowed.pending, overflowed.state);
    assert(invocation_effects(after, next) =~= seq![Effect::Dispatch(received_in(next)->0)]);
}

} // verus!
