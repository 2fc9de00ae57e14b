//! What holds of the dashboard's transitions and of its event channel, for
//! every state and event.

use vstd::prelude::*;
use vstd::arithmetic::div_mod::{
    lemma_add_mod_noop,
    lemma_mod_add_multiples_vanish,
    lemma_mod_self_0,
    lemma_mod_sub_multiples_vanish,
    lemma_small_mod,
    lemma_sub_mod_noop,
};
use crate::events::{Action, AppEvent, Channel, Closed, Command, Polled};
use crate::state::{AppState, ServerRecord};

verus! {

proof fn lemma_succ_mod(x: int, m: int)
    requires
        0 < m,
    ensures
        ((x % m) + 1) % m == (x + 1) % m,
{
    lemma_add_mod_noop(x, 1, m);
    if m > 1 {
        lemma_small_mod(1, m as nat);
    }
}

proof fn lemma_pred_mod(x: int, m: int)
    requires
        0 < m,
    ensures
        ((x % m) - 1) % m == (x - 1) % m,
        (x % m) == 0 ==> (x - 1) % m == m - 1,
        (x % m) > 0 ==> (x - 1) % m == (x % m) - 1,
{
    lemma_sub_mod_noop(x, 1, m);
    if m > 1 {
        lemma_small_mod(1, m as nat);
    }
    if x % m == 0 {
        lemma_mod_add_multiples_vanish(-1, m);
        lemma_small_mod((m - 1) as nat, m as nat);
    } else {
        lemma_small_mod(((x % m) - 1) as nat, m as nat);
    }
}

/// Every transition keeps the invariant: the highlighted row and the shown
/// tab stay valid whatever event arrives.
pub proof fn lemma_step_keeps_invariant(state: AppState, event: AppEvent)
    requires
        state.wf(),
    ensures
        state.step(event).wf(),
{
}

/// Every state that the dashboard reaches from start-up, by whatever events,
/// satisfies the invariant.
pub proof fn lemma_reachable_states_are_valid(servers: Seq<ServerRecord>, events: Seq<AppEvent>)
    ensures
        AppState::initial(servers).run(events).wf(),
    decreases events.len(),
{
    if events.len() > 0 {
        lemma_reachable_states_are_valid(servers, events.drop_last());
        lemma_step_keeps_invariant(
            AppState::initial(servers).run(events.drop_last()),
            events.last(),
        );
    }
}

/// The management operations keep the invariant too, whatever index they
/// are given.
pub proof fn lemma_management_keeps_invariant(state: AppState, index: nat, record: ServerRecord)
    requires
        state.wf(),
    ensures
        state.add_server(record).wf(),
        state.remove_server(index).wf(),
        state.update_server(index, record).wf(),
{
}

/// Where the highlight stands after `n` steps down: `n` rows further,
/// counted round the list.
pub proof fn lemma_next_repeated(state: AppState, n: nat)
    requires
        state.wf(),
        state.servers.len() > 0,
    ensures
        state.repeat(Command::Next, n) == (AppState {
            selected: (state.selected + n) % state.servers.len(),
            ..state
        }),
    decreases n,
{
    let len = state.servers.len() as int;
    if n == 0 {
        lemma_small_mod(state.selected, len as nat);
    } else {
        lemma_next_repeated(state, (n - 1) as nat);
        lemma_succ_mod(state.selected + n - 1, len);
    }
}

/// Where the highlight stands after `n` steps up: `n` rows back, counted
/// round the list.
pub proof fn lemma_previous_repeated(state: AppState, n: nat)
    requires
        state.wf(),
        state.servers.len() > 0,
    ensures
        state.repeat(Command::Previous, n) == (AppState {
            selected: ((state.selected - n) % (state.servers.len() as int)) as nat,
            ..state
        }),
    decreases n,
{
    let len = state.servers.len() as int;
    if n == 0 {
        lemma_small_mod(state.selected, len as nat);
    } else {
        lemma_previous_repeated(state, (n - 1) as nat);
        lemma_pred_mod(state.selected - (n - 1), len);
    }
}

/// Walking down a list of `N` services `N` times, or up `N` times, brings
/// the highlight back to where it was and changes nothing else; fewer steps
/// down leave it on another row.
pub proof fn lemma_selection_cycles(state: AppState)
    requires
        state.wf(),
        state.servers.len() > 0,
    ensures
        state.repeat(Command::Next, state.servers.len()) == state,
        state.repeat(Command::Previous, state.servers.len()) == state,
        forall|n: nat|
            0 < n < state.servers.len() ==> #[trigger] state.repeat(Command::Next, n).selected
                != state.selected,
{
    let len = state.servers.len() as int;
    lemma_next_repeated(state, state.servers.len());
    lemma_previous_repeated(state, state.servers.len());
    lemma_mod_add_multiples_vanish(state.selected as int, len);
    lemma_mod_sub_multiples_vanish(state.selected as int, len);
    lemma_small_mod(state.selected, len as nat);
    assert forall|n: nat| 0 < n < state.servers.len() implies #[trigger] state.repeat(
        Command::Next,
        n,
    ).selected != state.selected by {
        lemma_next_repeated(state, n);
        if state.selected + n < len {
            lemma_small_mod(state.selected + n, len as nat);
        } else {
            lemma_mod_sub_multiples_vanish((state.selected + n) as int, len);
            lemma_small_mod((state.selected + n - len) as nat, len as nat);
        }
    }
}

/// A step down undoes a step up, and a step up undoes a step down.
pub proof fn lemma_next_previous_inverse(state: AppState)
    requires
        state.wf(),
    ensures
        state.next().previous() == state,
        state.previous().next() == state,
{
    if state.servers.len() > 0 {
        let len = state.servers.len();
        lemma_mod_self_0(len as int);
        if state.selected + 1 < len {
            lemma_small_mod(state.selected + 1, len);
        }
        if state.selected > 0 {
            lemma_small_mod(state.selected, len);
        }
    }
}

/// With no service in the list, walking it changes nothing, however often.
pub proof fn lemma_empty_list_stays(state: AppState, n: nat)
    requires
        state.servers.len() == 0,
    ensures
        state.next() == state,
        state.previous() == state,
        state.repeat(Command::Next, n) == state,
        state.repeat(Command::Previous, n) == state,
    decreases n,
{
    if n > 0 {
        lemma_empty_list_stays(state, (n - 1) as nat);
    }
}

/// Where the shown tab stands after `n` steps to the right.
pub proof fn lemma_next_tab_repeated(state: AppState, n: nat)
    requires
        state.wf(),
    ensures
        state.repeat(Command::NextTab, n) == (AppState {
            tab: (state.tab + n) % state.tabs.len(),
            ..state
        }),
    decreases n,
{
    let len = state.tabs.len() as int;
    if n == 0 {
        lemma_small_mod(state.tab, len as nat);
    } else {
        lemma_next_tab_repeated(state, (n - 1) as nat);
        lemma_succ_mod(state.tab + n - 1, len);
    }
}

/// Where the shown tab stands after `n` steps to the left.
pub proof fn lemma_previous_tab_repeated(state: AppState, n: nat)
    requires
        state.wf(),
    ensures
        state.repeat(Command::PreviousTab, n) == (AppState {
            tab: ((state.tab - n) % (state.tabs.len() as int)) as nat,
            ..state
        }),
    decreases n,
{
    let len = state.tabs.len() as int;
    if n == 0 {
        lemma_small_mod(state.tab, len as nat);
    } else {
        lemma_previous_tab_repeated(state, (n - 1) as nat);
        lemma_pred_mod(state.tab - (n - 1), len);
    }
}

/// The tabs form one cycle: as many steps as there are tabs, in either
/// direction, show the same tab again, and fewer steps to the right show
/// another one.
pub proof fn lemma_tabs_cycle(state: AppState)
    requires
        state.wf(),
    ensures
        state.repeat(Command::NextTab, state.tabs.len()) == state,
        state.repeat(Command::PreviousTab, state.tabs.len()) == state,
        forall|n: nat|
            0 < n < state.tabs.len() ==> #[trigger] state.repeat(Command::NextTab, n).tab
                != state.tab,
{
    let len = state.tabs.len() as int;
    lemma_next_tab_repeated(state, state.tabs.len());
    lemma_previous_tab_repeated(state, state.tabs.len());
    lemma_mod_add_multiples_vanish(state.tab as int, len);
    lemma_mod_sub_multiples_vanish(state.tab as int, len);
    lemma_small_mod(state.tab, len as nat);
    assert forall|n: nat| 0 < n < state.tabs.len() implies #[trigger] state.repeat(
        Command::NextTab,
        n,
    ).tab != state.tab by {
        lemma_next_tab_repeated(state, n);
        if state.tab + n < len {
            lemma_small_mod(state.tab + n, len as nat);
        } else {
            lemma_mod_sub_multiples_vanish((state.tab + n) as int, len);
            lemma_small_mod((state.tab + n - len) as nat, len as nat);
        }
    }
}

/// A step to the right undoes a step to the left, and the other way round.
pub proof fn lemma_tab_steps_inverse(state: AppState)
    requires
        state.wf(),
    ensures
        state.next_tab().previous_tab() == state,
        state.previous_tab().next_tab() == state,
{
    let len = state.tabs.len();
    lemma_mod_self_0(len as int);
    if state.tab + 1 < len {
        lemma_small_mod(state.tab + 1, len);
    }
    if state.tab > 0 {
        lemma_small_mod(state.tab, len);
    }
}

/// Taking a service out leaves the highlight on a row that exists. When the
/// last row is highlighted and taken out, the highlight moves to the row
/// before it; when the only row goes, it rests on row zero of an empty list.
/// A row above the highlight that goes leaves the highlight's number alone.
pub proof fn lemma_remove_keeps_selection_valid(state: AppState, index: nat)
    requires
        state.wf(),
        index < state.servers.len(),
    ensures
        state.remove_server(index).wf(),
        state.remove_server(index).servers.len() == state.servers.len() - 1,
        state.selected == state.servers.len() - 1 && state.servers.len() >= 2
            ==> state.remove_server(index).selected == state.servers.len() - 2,
        state.servers.len() == 1 ==> state.remove_server(index).selected == 0
            && state.remove_server(index).servers.len() == 0,
        state.selected + 1 < state.servers.len() ==> state.remove_server(index).selected
            == state.selected,
{
}

/// The store is written for a change of the list and never for navigation:
/// an event that asks for no write leaves the list as it was, and only
/// enter, on the servers tab with a service highlighted, asks for one.
pub proof fn lemma_persist_only_on_select(state: AppState, event: AppEvent)
    ensures
        state.action(event) != Action::Persist ==> state.step(event).servers == state.servers,
        state.action(event) == Action::Persist <==> (event matches AppEvent::Key(key)
            && key.command_of() == Command::Select && state.can_select()),
        state.action(event) == Action::Quit ==> state.step(event) == state,
{
}

/// A tick moves the tick count and nothing else, so it can be handled
/// before or after any other event with the same outcome: of a key press and
/// a tick that arrive together, neither hides the other.
pub proof fn lemma_tick_commutes(state: AppState, event: AppEvent)
    ensures
        state.tick() == (AppState { ticks: state.tick().ticks, ..state }),
        state.step(AppEvent::Tick).step(event) == state.step(event).step(AppEvent::Tick),
        state.step(AppEvent::Tick).action(event) == state.action(event),
{
}

/// The tick count wraps: as many ticks as the machine's word has values
/// after zero bring it back to zero.
pub proof fn lemma_tick_wraps(state: AppState)
    requires
        state.ticks <= usize::MAX,
    ensures
        state.tick().ticks <= usize::MAX,
        state.ticks < usize::MAX ==> state.tick().ticks == state.ticks + 1,
        state.ticks == usize::MAX ==> state.tick().ticks == 0,
{
}

/// Enter on a running service stops it, on a stopped one starts it, and on
/// one that is starting or has failed changes nothing in the list.
pub proof fn lemma_select_follows_table(state: AppState)
    requires
        state.wf(),
        state.can_select(),
    ensures
        state.select_item().servers.len() == state.servers.len(),
        state.select_item().servers[state.selected as int] == state.servers[state.selected
            as int].toggled(),
        forall|i: int|
            0 <= i < state.servers.len() && i != state.selected
                ==> state.select_item().servers[i] == state.servers[i],
        state.servers[state.selected as int].status.toggled() == state.servers[state.selected
            as int].status ==> state.select_item() == state,
{
    if state.servers[state.selected as int].status.toggled() == state.servers[state.selected
        as int].status {
        assert(state.select_item().servers =~= state.servers);
    }
}

/// The channel keeps the order of sending: on an open channel, what was
/// sent waits behind what waited before, first sent first.
pub proof fn lemma_sends_queue_in_order(channel: Channel, events: Seq<AppEvent>)
    requires
        channel.open,
    ensures
        channel.send_all(events).pending == channel.pending + events,
        channel.send_all(events).open,
        channel.send_all(events).tick_rate_nanos == channel.tick_rate_nanos,
    decreases events.len(),
{
    if events.len() == 0 {
        assert(channel.pending + events =~= channel.pending);
    } else {
        lemma_sends_queue_in_order(channel, events.drop_last());
        assert(channel.pending + events =~= (channel.pending + events.drop_last()).push(
            events.last(),
        ));
    }
}

/// The consumer receives the waiting events oldest first: its `n`-th
/// request from now is answered with the `n`-th waiting event, and with
/// `Empty` once all of them were handed out.
pub proof fn lemma_received_in_order(channel: Channel, n: nat)
    requires
        channel.open,
    ensures
        channel.advance_by(n).open,
        n <= channel.pending.len() ==> channel.advance_by(n).pending == channel.pending.skip(
            n as int,
        ),
        n < channel.pending.len() ==> channel.advance_by(n).front() == Ok::<Polled, Closed>(
            Polled::Event(channel.pending[n as int]),
        ),
        n >= channel.pending.len() ==> channel.advance_by(n).front() == Ok::<Polled, Closed>(
            Polled::Empty,
        ),
    decreases n,
{
    if n == 0 {
        assert(channel.pending.skip(0) =~= channel.pending);
    } else {
        lemma_received_in_order(channel.advance(), (n - 1) as nat);
        if n <= channel.pending.len() {
            assert(channel.pending.drop_first().skip(n - 1) =~= channel.pending.skip(n as int));
        }
    }
}

/// No event is lost: of two events that two producers send to an open
/// channel at the same moment, in whichever order they are enqueued, the
/// consumer receives both, right after everything that waited before.
pub proof fn lemma_no_event_lost(channel: Channel, first: AppEvent, second: AppEvent)
    requires
        channel.open,
    ensures
        ({
            let after = channel.send(first).send(second);
            let waited = channel.pending.len();
            &&& after.pending.len() == waited + 2
            &&& after.advance_by(waited).front() == Ok::<Polled, Closed>(Polled::Event(first))
            &&& after.advance_by(waited + 1).front() == Ok::<Polled, Closed>(Polled::Event(second))
            &&& after.advance_by(waited + 2).front() == Ok::<Polled, Closed>(Polled::Empty)
        }),
        channel.send(first).send(second).pending.to_multiset() =~= channel.send(second).send(
            first,
        ).pending.to_multiset(),
{
    let after = channel.send(first).send(second);
    let waited = channel.pending.len();
    lemma_received_in_order(after, waited);
    lemma_received_in_order(after, waited + 1);
    lemma_received_in_order(after, waited + 2);
    channel.pending.to_multiset_ensures();
    channel.pending.push(first).to_multiset_ensures();
    channel.pending.push(second).to_multiset_ensures();
    assert(channel.pending.push(first).push(second).to_multiset() =~= channel.pending.push(
        second,
    ).push(first).to_multiset());
}

/// Once the consumer has left, every send fails and changes nothing, and
/// nothing is received any more.
pub proof fn lemma_closed_channel_is_silent(channel: Channel, event: AppEvent)
    ensures
        !channel.close().open,
        channel.close().send(event) == channel.close(),
        channel.close().front() == Err::<Polled, Closed>(Closed),
        channel.close().advance() == channel.close(),
{
}

} // verus!
