//! What holds of every run of the provisioning steps.

use crate::json::json_parse;
use crate::provision::{
    action_of, initial, next_state, rank, session_response, state_after, ActionView, ConfigView,
    Event, ProvisionerView, Step,
};
use crate::search::search_simulator;
use crate::simctl::simulator_name;
use crate::text::trimmed;
use vstd::prelude::*;

verus! {

/// The event tells of a search that found no simulator to use.
pub open spec fn finds_none(config: ConfigView, event: Event) -> bool {
    match event {
        Event::Tool { stdout, .. } => search_simulator(
            json_parse(stdout@),
            simulator_name(config.target_device, config.target_os),
            config.target_os,
        ) is NotFound,
        _ => false,
    }
}

/// The event tells that the tool created a simulator and printed `text`.
pub open spec fn tells_created(event: Event, text: Seq<char>) -> bool {
    match event {
        Event::Tool { success, stdout, .. } => success && stdout@ == text,
        _ => false,
    }
}

/// A step at which a tool is run on the session's simulator.
pub open spec fn names_device(step: Step) -> bool {
    &&& 2 <= rank(step) <= 15
    &&& step != Step::OpeningApp
    &&& step != Step::StartingLogMonitor
    &&& step != Step::AllocatingPort
}

/// No event takes provisioning back: the step after it is the step before
/// it or a later one in the order of steps. Only while a port is looked for
/// or the application is awaited, and once provisioning is over, can an
/// event leave the step where it is.
pub proof fn lemma_step_advances(
    state: ProvisionerView,
    ports: Seq<(Seq<char>, u16)>,
    event: Event,
)
    ensures
        rank(next_state(state, ports, event).0.step) >= rank(state.step),
        rank(next_state(state, ports, event).0.step) == rank(state.step) ==> {
            ||| state.step == Step::AllocatingPort
            ||| state.step == Step::AwaitingHandshake
            ||| state.step == Step::Ready
            ||| state.step == Step::Failed
        },
{
}

/// A simulator is created only where the search came first and found none.
pub proof fn lemma_create_follows_empty_search(
    state: ProvisionerView,
    ports: Seq<(Seq<char>, u16)>,
    event: Event,
)
    requires
        next_state(state, ports, event).0.step == Step::CreateNew,
    ensures
        state.step == Step::SearchExisting,
        finds_none(state.config, event),
{
}

/// Once the simulator is found or created, no event changes its identifier.
pub proof fn lemma_identifier_is_kept(
    state: ProvisionerView,
    ports: Seq<(Seq<char>, u16)>,
    event: Event,
)
    requires
        rank(state.step) >= 2,
    ensures
        next_state(state, ports, event).0.udid == state.udid,
{
}

/// Every action that names a simulator names the session's own, and the
/// response that ends provisioning gives its identifier as the session's.
pub proof fn lemma_actions_name_the_session(state: ProvisionerView)
    ensures
        names_device(state.step) ==> (action_of(state) matches ActionView::Run(command)
            && command.args.len() > 2 && command.args[2] == state.udid),
        state.step == Step::StartingLogMonitor ==> (action_of(state)
            matches ActionView::StartLogMonitor(command) && command.args.len() > 2
            && command.args[2] == state.udid),
        state.step == Step::Ready ==> action_of(state) == ActionView::Finish(
            session_response(state.udid),
        ),
{
}

/// Once the session has its port, no event changes what the session is:
/// its configuration, its simulator and its port stay, and only the step
/// moves on.
pub proof fn lemma_session_is_fixed(
    state: ProvisionerView,
    ports: Seq<(Seq<char>, u16)>,
    event: Event,
)
    requires
        rank(state.step) >= 14,
    ensures
        next_state(state, ports, event).0.config == state.config,
        next_state(state, ports, event).0.udid == state.udid,
        next_state(state, ports, event).0.created == state.created,
        next_state(state, ports, event).0.port == state.port,
        next_state(state, ports, event).1 == ports,
{
}

/// Along a run, steps never go back.
pub proof fn lemma_run_advances(
    start: ProvisionerView,
    ports: Seq<(Seq<char>, u16)>,
    events: Seq<Event>,
    earlier: nat,
    later: nat,
)
    requires
        earlier <= later <= events.len(),
    ensures
        rank(state_after(start, ports, events, earlier).0.step) <= rank(
            state_after(start, ports, events, later).0.step,
        ),
    decreases later,
{
    if earlier < later {
        lemma_run_advances(start, ports, events, earlier, (later - 1) as nat);
        let before = state_after(start, ports, events, (later - 1) as nat);
        lemma_step_advances(before.0, before.1, events[later - 1]);
    }
}

/// Along a run, a simulator is created at most once: the step at which one
/// is created does not come twice.
pub proof fn lemma_create_at_most_once(
    start: ProvisionerView,
    ports: Seq<(Seq<char>, u16)>,
    events: Seq<Event>,
    earlier: nat,
    later: nat,
)
    requires
        earlier < later <= events.len(),
        state_after(start, ports, events, earlier).0.step == Step::CreateNew,
    ensures
        state_after(start, ports, events, later).0.step != Step::CreateNew,
{
    let before = state_after(start, ports, events, earlier);
    lemma_step_advances(before.0, before.1, events[earlier as int]);
    assert(state_after(start, ports, events, earlier + 1) == next_state(
        before.0,
        before.1,
        events[earlier as int],
    ));
    lemma_run_advances(start, ports, events, earlier + 1, later);
}

/// From the beginning, a simulator is created exactly when the search finds
/// none, and then at once: after the first event and at no other time.
pub proof fn lemma_create_exactly_once(
    config: ConfigView,
    ports: Seq<(Seq<char>, u16)>,
    events: Seq<Event>,
    count: nat,
)
    requires
        count <= events.len(),
    ensures
        state_after(initial(config), ports, events, count).0.step == Step::CreateNew <==> (count
            == 1 && finds_none(config, events[0])),
{
    let start = initial(config);
    if count >= 1 {
        assert(state_after(start, ports, events, 0) == (start, ports));
        assert(state_after(start, ports, events, 1) == next_state(start, ports, events[0]));
        if count >= 2 {
            lemma_run_advances(start, ports, events, 1, count);
            if state_after(start, ports, events, 1).0.step == Step::CreateNew {
                lemma_create_at_most_once(start, ports, events, 1, count);
            }
        }
    }
}

/// Along a run, the identifier of the simulator stays what it was when the
/// simulator was found or created.
pub proof fn lemma_run_keeps_identifier(
    start: ProvisionerView,
    ports: Seq<(Seq<char>, u16)>,
    events: Seq<Event>,
    earlier: nat,
    later: nat,
)
    requires
        earlier <= later <= events.len(),
        rank(state_after(start, ports, events, earlier).0.step) >= 2,
    ensures
        state_after(start, ports, events, later).0.udid == state_after(
            start,
            ports,
            events,
            earlier,
        ).0.udid,
    decreases later,
{
    if earlier < later {
        lemma_run_keeps_identifier(start, ports, events, earlier, (later - 1) as nat);
        lemma_run_advances(start, ports, events, earlier, (later - 1) as nat);
        let before = state_after(start, ports, events, (later - 1) as nat);
        lemma_identifier_is_kept(before.0, before.1, events[later - 1]);
    }
}

/// The identifier of a simulator that was created is what the tool printed
/// when it created it, without the white space around it, and stays so for
/// the rest of the run.
pub proof fn lemma_created_identifier_is_used(
    start: ProvisionerView,
    ports: Seq<(Seq<char>, u16)>,
    events: Seq<Event>,
    created_at: nat,
    later: nat,
    printed: Seq<char>,
)
    requires
        created_at < later <= events.len(),
        state_after(start, ports, events, created_at).0.step == Step::CreateNew,
        tells_created(events[created_at as int], printed),
    ensures
        state_after(start, ports, events, later).0.udid == trimmed(printed),
{
    let before = state_after(start, ports, events, created_at);
    assert(state_after(start, ports, events, created_at + 1) == next_state(
        before.0,
        before.1,
        events[created_at as int],
    ));
    lemma_run_keeps_identifier(start, ports, events, created_at + 1, later);
}

} // verus!
