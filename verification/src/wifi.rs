//! Joining the Wi-Fi network, and telling the rest of the badge how far that got.

use vstd::prelude::*;

verus! {

/// How long a join may take before it is given up, in seconds.
pub const JOIN_TIMEOUT_SECONDS: u64 = 30;

/// How long to wait after a failed join before the next one, in seconds.
pub const JOIN_RETRY_SECONDS: u64 = 2;

/// How far the connection has come, as it is published and shown.
#[derive(Clone, Copy, Debug, PartialEq, Eq, Structural)]
pub enum WifiState {
    Disconnected,
    Joining,
    Connected,
    LinkUp,
    NetworkUp,
}

impl WifiState {
    /// What [`WifiState::to_str`] returns.
    pub open spec fn name(self) -> Seq<char> {
        match self {
            WifiState::Disconnected => "Disconnected"@,
            WifiState::Joining => "Joining"@,
            WifiState::Connected => "Connected"@,
            WifiState::LinkUp => "LinkUp"@,
            WifiState::NetworkUp => "NetworkUp"@,
        }
    }

    /// A human-readable name of the state.
    pub fn to_str(&self) -> (r: &'static str)
        ensures
            r@ == self.name(),
    {
        match self {
            WifiState::Disconnected => "Disconnected",
            WifiState::Joining => "Joining",
            WifiState::Connected => "Connected",
            WifiState::LinkUp => "LinkUp",
            WifiState::NetworkUp => "NetworkUp",
        }
    }
}

/// No two states have the same name.
pub proof fn law_names_differ(a: WifiState, b: WifiState)
    requires
        a.name() == b.name(),
    ensures
        a == b,
{
    reveal_strlit("Disconnected");
    reveal_strlit("Joining");
    reveal_strlit("Connected");
    reveal_strlit("LinkUp");
    reveal_strlit("NetworkUp");
    assert("Disconnected"@.len() == 12 && "Joining"@.len() == 7 && "LinkUp"@.len() == 6);
    assert("Connected"@.len() == 9 && "Connected"@[0] == 'C');
    assert("NetworkUp"@.len() == 9 && "NetworkUp"@[0] == 'N');
}

/// What a join is asked for.
#[derive(Clone, Copy, Debug, PartialEq, Eq)]
pub struct JoinRequest {
    /// The name of the network.
    pub ssid: &'static str,
    /// The passphrase of the network, which is protected by WPA2 or WPA3.
    pub password: &'static str,
    /// How long the join may take before it is given up, in seconds; `None` is
    /// without limit.
    pub limit_seconds: Option<u64>,
}

impl JoinRequest {
    /// A join that is given up after [`JOIN_TIMEOUT_SECONDS`].
    pub open spec fn limited(ssid: &'static str, password: &'static str) -> JoinRequest {
        JoinRequest { ssid, password, limit_seconds: Some(JOIN_TIMEOUT_SECONDS) }
    }

    /// A join that is waited for until it succeeds or fails.
    pub open spec fn unlimited(ssid: &'static str, password: &'static str) -> JoinRequest {
        JoinRequest { ssid, password, limit_seconds: None }
    }
}

/// What the Wi-Fi task does next, and then reports on.
#[derive(Clone, Copy, Debug, PartialEq, Eq)]
pub enum WifiAction {
    /// Join the network, giving up when the time of the request is over.
    Join(JoinRequest),
    /// Sleep for a number of seconds.
    Sleep(u64),
    /// Wait for the link to come up.
    AwaitLinkUp,
    /// Wait for an address.
    AwaitConfigUp,
    /// Wait for the link to go down.
    AwaitLinkDown,
}

/// What came of a [`WifiAction`].
#[derive(Clone, Copy, Debug, PartialEq, Eq, Structural)]
pub enum WifiEvent {
    Joined,
    JoinFailed,
    JoinTimedOut,
    Slept,
    LinkUp,
    ConfigUp,
    LinkDown,
}

/// Whether the event can come of the action.
pub open spec fn answers(action: WifiAction, event: WifiEvent) -> bool {
    match event {
        WifiEvent::Joined | WifiEvent::JoinFailed => action is Join,
        WifiEvent::JoinTimedOut => action matches WifiAction::Join(request)
            && request.limit_seconds is Some,
        WifiEvent::Slept => action is Sleep,
        WifiEvent::LinkUp => action is AwaitLinkUp,
        WifiEvent::ConfigUp => action is AwaitConfigUp,
        WifiEvent::LinkDown => action is AwaitLinkDown,
    }
}

/// What is published when the task starts.
pub open spec fn published_at_start() -> Seq<WifiState> {
    seq![WifiState::Joining]
}

/// What is published on an event, in order.
pub open spec fn published_on(event: WifiEvent) -> Seq<WifiState> {
    match event {
        WifiEvent::Joined => seq![WifiState::Connected],
        WifiEvent::JoinFailed | WifiEvent::JoinTimedOut => seq![WifiState::Disconnected],
        WifiEvent::Slept => seq![WifiState::Joining],
        WifiEvent::LinkUp => seq![WifiState::LinkUp],
        WifiEvent::ConfigUp => seq![WifiState::NetworkUp],
        WifiEvent::LinkDown => seq![WifiState::Disconnected, WifiState::Joining],
    }
}

/// What is done next after an event, by a task that joins as requested.
pub open spec fn action_after(request: JoinRequest, event: WifiEvent) -> WifiAction {
    match event {
        WifiEvent::Joined => WifiAction::AwaitLinkUp,
        WifiEvent::JoinFailed | WifiEvent::JoinTimedOut => WifiAction::Sleep(JOIN_RETRY_SECONDS),
        WifiEvent::Slept => WifiAction::Join(request),
        WifiEvent::LinkUp => WifiAction::AwaitConfigUp,
        WifiEvent::ConfigUp => WifiAction::AwaitLinkDown,
        WifiEvent::LinkDown => WifiAction::Join(request),
    }
}

/// The Wi-Fi task: it joins, waits for link and address, and starts over when
/// the link is lost.
pub struct WifiTask {
    pub action: WifiAction,
    /// How the network is joined, each time.
    pub request: JoinRequest,
}

impl WifiTask {
    /// The task as it starts.
    pub open spec fn initial(request: JoinRequest) -> WifiTask {
        WifiTask { action: WifiAction::Join(request), request }
    }

    /// The task after an event.
    pub open spec fn after(self, event: WifiEvent) -> WifiTask {
        WifiTask { action: action_after(self.request, event), ..self }
    }

    /// Starts the task of the badge, which gives a join up after
    /// [`JOIN_TIMEOUT_SECONDS`]. Returns it with the states to publish first.
    pub fn start(ssid: &'static str, password: &'static str) -> (r: (WifiTask, Vec<WifiState>))
        ensures
            r.0 == WifiTask::initial(JoinRequest::limited(ssid, password)),
            r.1@ == published_at_start(),
    {
        let request = JoinRequest { ssid, password, limit_seconds: Some(JOIN_TIMEOUT_SECONDS) };
        (WifiTask { action: WifiAction::Join(request), request }, vec![WifiState::Joining])
    }

    /// Starts the task of the plain clock, which waits for a join until it succeeds
    /// or fails. Returns it with the states to publish first.
    pub fn start_unlimited(ssid: &'static str, password: &'static str) -> (r: (
        WifiTask,
        Vec<WifiState>,
    ))
        ensures
            r.0 == WifiTask::initial(JoinRequest::unlimited(ssid, password)),
            r.1@ == published_at_start(),
    {
        let request = JoinRequest { ssid, password, limit_seconds: None };
        (WifiTask { action: WifiAction::Join(request), request }, vec![WifiState::Joining])
    }

    /// Takes what came of the current action, moves on to the next one, and
    /// returns the states to publish before it, in order.
    pub fn step(&mut self, event: WifiEvent) -> (publish: Vec<WifiState>)
        requires
            answers(old(self).action, event),
        ensures
            publish@ == published_on(event),
            *final(self) == old(self).after(event),
    {
        match event {
            WifiEvent::Joined => {
                self.action = WifiAction::AwaitLinkUp;
                vec![WifiState::Connected]
            },
            WifiEvent::JoinFailed | WifiEvent::JoinTimedOut => {
                self.action = WifiAction::Sleep(JOIN_RETRY_SECONDS);
                vec![WifiState::Disconnected]
            },
            WifiEvent::Slept => {
                self.action = WifiAction::Join(self.request);
                vec![WifiState::Joining]
            },
            WifiEvent::LinkUp => {
                self.action = WifiAction::AwaitConfigUp;
                vec![WifiState::LinkUp]
            },
            WifiEvent::ConfigUp => {
                self.action = WifiAction::AwaitLinkDown;
                vec![WifiState::NetworkUp]
            },
            WifiEvent::LinkDown => {
                self.action = WifiAction::Join(self.request);
                vec![WifiState::Disconnected, WifiState::Joining]
            },
        }
    }
}

/// The task after a run of events, from its start.
pub open spec fn task_of_run(request: JoinRequest, events: Seq<WifiEvent>) -> WifiTask
    decreases events.len(),
{
    if events.len() == 0 {
        WifiTask::initial(request)
    } else {
        task_of_run(request, events.drop_last()).after(events.last())
    }
}

/// Whether every event of the run came of the action that the task was at.
pub open spec fn possible_run(request: JoinRequest, events: Seq<WifiEvent>) -> bool
    decreases events.len(),
{
    events.len() == 0 || (possible_run(request, events.drop_last()) && answers(
        task_of_run(request, events.drop_last()).action,
        events.last(),
    ))
}

/// Everything that is published over a run of events, in order.
pub open spec fn published_by_run(events: Seq<WifiEvent>) -> Seq<WifiState>
    decreases events.len(),
{
    if events.len() == 0 {
        published_at_start()
    } else {
        published_by_run(events.drop_last()) + published_on(events.last())
    }
}

/// Which state may be published right after which.
pub open spec fn may_follow(earlier: WifiState, later: WifiState) -> bool {
    match later {
        WifiState::Disconnected => earlier is Joining || earlier is NetworkUp,
        WifiState::Joining => earlier is Disconnected,
        WifiState::Connected => earlier is Joining,
        WifiState::LinkUp => earlier is Connected,
        WifiState::NetworkUp => earlier is LinkUp,
    }
}

/// Whether each state of the sequence may follow the one before it.
pub open spec fn in_order(states: Seq<WifiState>) -> bool {
    forall|i: int, j: int|
        0 <= i && j == i + 1 && j < states.len() ==> may_follow(
            #[trigger] states[i],
            #[trigger] states[j],
        )
}

/// The state that was published last when the task is at an action.
pub open spec fn state_during(action: WifiAction) -> WifiState {
    match action {
        WifiAction::Join(_) => WifiState::Joining,
        WifiAction::Sleep(_) => WifiState::Disconnected,
        WifiAction::AwaitLinkUp => WifiState::Connected,
        WifiAction::AwaitConfigUp => WifiState::LinkUp,
        WifiAction::AwaitLinkDown => WifiState::NetworkUp,
    }
}

/// Whatever the network does, the state that was published last tells what the
/// task is doing; in particular it is `NetworkUp` exactly while the task waits
/// for the link to go down.
pub proof fn law_last_state_tells_the_action(request: JoinRequest, events: Seq<WifiEvent>)
    requires
        possible_run(request, events),
    ensures
        published_by_run(events).len() > 0,
        published_by_run(events).last() == state_during(task_of_run(request, events).action),
        published_by_run(events).last() is NetworkUp <==> task_of_run(
            request,
            events,
        ).action is AwaitLinkDown,
    decreases events.len(),
{
    if events.len() > 0 {
        law_last_state_tells_the_action(request, events.drop_last());
    }
}

/// Whatever the network does, every join, the first and each later one, asks for
/// what the task was started with, and the state that was published last is then
/// `Joining`.
pub proof fn law_every_join_is_the_same(request: JoinRequest, events: Seq<WifiEvent>)
    requires
        possible_run(request, events),
    ensures
        task_of_run(request, events).request == request,
        task_of_run(request, events).action matches WifiAction::Join(asked) ==> asked == request
            && published_by_run(events).last() is Joining,
    decreases events.len(),
{
    law_last_state_tells_the_action(request, events);
    if events.len() > 0 {
        law_every_join_is_the_same(request, events.drop_last());
    }
}

/// Whatever the network does, the badge never waits longer than 30 seconds for a join.
pub proof fn law_no_join_is_awaited_longer(
    ssid: &'static str,
    password: &'static str,
    events: Seq<WifiEvent>,
)
    requires
        possible_run(JoinRequest::limited(ssid, password), events),
    ensures
        task_of_run(JoinRequest::limited(ssid, password), events).action matches WifiAction::Join(
            asked,
        ) ==> asked.limit_seconds == Some(30u64),
{
    law_every_join_is_the_same(JoinRequest::limited(ssid, password), events);
}

/// A join that took too long is handled just as one that failed: `Disconnected`
/// is published, two seconds pass, `Joining` is published, and the same join is
/// tried again.
pub proof fn law_timed_out_join_is_tried_again(task: WifiTask)
    ensures
        task.after(WifiEvent::JoinTimedOut) == task.after(WifiEvent::JoinFailed),
        published_on(WifiEvent::JoinTimedOut) == published_on(WifiEvent::JoinFailed),
        published_on(WifiEvent::JoinTimedOut) == seq![WifiState::Disconnected],
        task.after(WifiEvent::JoinTimedOut).action == WifiAction::Sleep(2),
        published_on(WifiEvent::Slept) == seq![WifiState::Joining],
        task.after(WifiEvent::JoinTimedOut).after(WifiEvent::Slept).action == WifiAction::Join(
            task.request,
        ),
{
}

/// Whatever the network does, states are published in the order of connecting:
/// first `Joining`, and each state only after one that may come before it. So
/// `NetworkUp` always comes after `Joining`, `Connected` and `LinkUp`, and after
/// `NetworkUp` the next is always `Disconnected`.
pub proof fn law_states_come_in_order(request: JoinRequest, events: Seq<WifiEvent>)
    requires
        possible_run(request, events),
    ensures
        published_by_run(events)[0] is Joining,
        in_order(published_by_run(events)),
    decreases events.len(),
{
    if events.len() > 0 {
        let before = published_by_run(events.drop_last());
        let more = published_on(events.last());
        law_states_come_in_order(request, events.drop_last());
        law_last_state_tells_the_action(request, events.drop_last());
        assert forall|i: int, j: int|
            0 <= i && j == i + 1 && j < (before + more).len() implies may_follow(
            #[trigger] (before + more)[i],
            #[trigger] (before + more)[j],
        ) by {
            if j < before.len() {
                assert(may_follow(before[i], before[j]));
            }
        }
    }
}

/// The states are called what they are.
pub proof fn law_names_of_the_states(state: WifiState)
    ensures
        state == WifiState::Disconnected ==> state.name() == "Disconnected"@,
        state == WifiState::Joining ==> state.name() == "Joining"@,
        state == WifiState::Connected ==> state.name() == "Connected"@,
        state == WifiState::LinkUp ==> state.name() == "LinkUp"@,
        state == WifiState::NetworkUp ==> state.name() == "NetworkUp"@,
{
}

/// Nothing changes how the network is joined, and the task first joins that way. The
/// name and the password are those that the task was started with.
pub proof fn law_joins_as_started(
    ssid: &'static str,
    password: &'static str,
    task: WifiTask,
    event: WifiEvent,
)
    ensures
        task.after(event).request == task.request,
        WifiTask::initial(task.request).request == task.request,
        WifiTask::initial(task.request).action == WifiAction::Join(task.request),
        JoinRequest::limited(ssid, password).ssid == ssid,
        JoinRequest::limited(ssid, password).password == password,
        JoinRequest::limited(ssid, password).limit_seconds == Some(30u64),
        JoinRequest::unlimited(ssid, password).ssid == ssid,
        JoinRequest::unlimited(ssid, password).password == password,
        JoinRequest::unlimited(ssid, password).limit_seconds is None,
{
}

/// Each wait is followed by the next one on the way to the network, and each success
/// is published as the state that it leads to. When the link goes down, that is
/// published, and then the new attempt to join.
pub proof fn law_each_success_leads_on(task: WifiTask)
    ensures
        published_at_start() == seq![WifiState::Joining],
        task.after(WifiEvent::Joined).action is AwaitLinkUp,
        published_on(WifiEvent::Joined) == seq![WifiState::Connected],
        task.after(WifiEvent::LinkUp).action is AwaitConfigUp,
        published_on(WifiEvent::LinkUp) == seq![WifiState::LinkUp],
        task.after(WifiEvent::ConfigUp).action is AwaitLinkDown,
        published_on(WifiEvent::ConfigUp) == seq![WifiState::NetworkUp],
        task.after(WifiEvent::LinkDown).action == WifiAction::Join(task.request),
        published_on(WifiEvent::LinkDown) == seq![WifiState::Disconnected, WifiState::Joining],
        task.after(WifiEvent::JoinFailed).action == WifiAction::Sleep(2),
        published_on(WifiEvent::JoinFailed) == seq![WifiState::Disconnected],
        task.after(WifiEvent::Slept).action == WifiAction::Join(task.request),
        published_on(WifiEvent::Slept) == seq![WifiState::Joining],
{
}

/// Whatever can come of an action is taken; a join without a limit does not time out.
pub proof fn law_every_outcome_is_taken(request: JoinRequest, seconds: u64)
    ensures
        answers(WifiAction::Join(request), WifiEvent::Joined),
        answers(WifiAction::Join(request), WifiEvent::JoinFailed),
        answers(WifiAction::Join(request), WifiEvent::JoinTimedOut) <==> request.limit_seconds is Some,
        answers(WifiAction::Sleep(seconds), WifiEvent::Slept),
        answers(WifiAction::AwaitLinkUp, WifiEvent::LinkUp),
        answers(WifiAction::AwaitConfigUp, WifiEvent::ConfigUp),
        answers(WifiAction::AwaitLinkDown, WifiEvent::LinkDown),
{
}

} // verus!
