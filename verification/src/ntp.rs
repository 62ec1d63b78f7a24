//! Asking a time server for the time once per connection.

use crate::time_util::{in_range, Timestamp, MAX_SECOND};
use crate::wifi::WifiState;
use vstd::prelude::*;

verus! {

/// The server that is asked.
pub const NTP_SERVER: &'static str = "pool.ntp.org";

/// The port of the server that is asked.
pub const NTP_PORT: u16 = 123;

/// The local port that the question is sent from.
pub const LOCAL_PORT: u16 = 1234;

/// How long to wait after a failure before the network is waited for again, in seconds.
pub const RETRY_SECONDS: u64 = 30;

const USEC_IN_SEC: u64 = 1_000_000;

/// The uptime that a question carries as its time of origin.
#[derive(Clone, Copy, Debug, PartialEq, Eq)]
pub struct EmbassyTimestamp {
    pub micros: u64,
}

impl Default for EmbassyTimestamp {
    fn default() -> (r: EmbassyTimestamp)
        ensures
            r.micros == 0,
    {
        EmbassyTimestamp { micros: 0 }
    }
}

impl EmbassyTimestamp {
    /// Takes the uptime, in microseconds.
    pub fn init(&mut self, now_micros: u64)
        ensures
            final(self).micros == now_micros,
    {
        self.micros = now_micros;
    }

    /// The whole seconds.
    pub fn timestamp_sec(&self) -> (r: u64)
        ensures
            r == self.micros / 1_000_000,
    {
        self.micros / 1_000_000
    }

    /// The microseconds beyond the whole seconds.
    pub fn timestamp_subsec_micros(&self) -> (r: u32)
        ensures
            r == self.micros % 1_000_000,
    {
        (self.micros % 1_000_000) as u32
    }
}

/// The whole seconds and the microseconds beyond them make up the uptime.
pub proof fn law_uptime_is_kept(t: EmbassyTimestamp, sec: u64, subsec: u32)
    requires
        sec == t.micros / 1_000_000,
        subsec == t.micros % 1_000_000,
    ensures
        sec * 1_000_000 + subsec == t.micros,
        subsec < 1_000_000,
{
}

/// The time that a server told, `sec` seconds and `fraction` parts of 2^32 of a
/// second after the Unix epoch, in whole microseconds.
pub open spec fn ntp_microseconds(sec: int, fraction: int) -> int {
    (sec * 0x1_0000_0000 + fraction) * 1_000_000 / 0x1_0000_0000
}

/// The time that a server told, in microseconds from the Unix epoch, rounded down.
pub fn ntp_usec(sec: u32, sec_fraction: u32) -> (r: u64)
    ensures
        r == ntp_microseconds(sec as int, sec_fraction as int),
{
    let scaled: u64 = sec_fraction as u64 * USEC_IN_SEC;
    assert(scaled >> 32 == scaled / 0x1_0000_0000) by (bit_vector);
    sec as u64 * USEC_IN_SEC + (scaled >> 32)
}

/// The instant that a server told, to the microsecond. There always is one.
pub fn ntp_instant(sec: u32, sec_fraction: u32) -> (r: Timestamp)
    ensures
        r@ == ntp_microseconds(sec as int, sec_fraction as int) * 1_000,
        in_range(r@),
{
    let usec: u64 = ntp_usec(sec, sec_fraction);
    assert(MAX_SECOND * 1_000_000 > u32::MAX * 1_000_000 + 1_000_000);
    Timestamp::from_microsecond(usec as i64).unwrap()
}

/// The instant lies less than a microsecond before the time that the server
/// told. With `told` the server's time in parts of 2^32 of a second, that is
/// `usec / 10^6 <= told / 2^32 < (usec + 1) / 10^6`.
pub proof fn law_instant_is_within_a_microsecond(sec: u32, fraction: u32)
    ensures
        ({
            let told = sec * 0x1_0000_0000 + fraction;
            let usec = ntp_microseconds(sec as int, fraction as int);
            usec * 0x1_0000_0000 <= told * 1_000_000 < (usec + 1) * 0x1_0000_0000
        }),
{
}

/// A server that tells a later time is never understood to tell an earlier one.
pub proof fn law_later_stays_later(sec1: u32, fraction1: u32, sec2: u32, fraction2: u32)
    requires
        sec1 < sec2 || (sec1 == sec2 && fraction1 <= fraction2),
    ensures
        ntp_microseconds(sec1 as int, fraction1 as int) <= ntp_microseconds(
            sec2 as int,
            fraction2 as int,
        ),
{
}

/// An IPv4 address.
#[derive(Clone, Copy, Debug, PartialEq, Eq)]
pub struct Address {
    pub octets: [u8; 4],
}

/// What the NTP task does next, and then reports on.
#[derive(Clone, Copy, Debug, PartialEq, Eq)]
pub enum NtpAction {
    /// Receive the next Wi-Fi state, until the network is up.
    AwaitNetworkUp,
    /// Look up [`NTP_SERVER`].
    Resolve,
    /// Bind a socket to [`LOCAL_PORT`], to ask the address.
    Bind(Address),
    /// Ask the address at [`NTP_PORT`].
    Query(Address),
    /// Hand out the time.
    Send(Timestamp),
    /// Sleep for a number of seconds.
    Sleep(u64),
    /// Receive the next Wi-Fi state, until the connection is lost.
    AwaitDisconnected,
}

/// What came of an [`NtpAction`].
pub enum NtpEvent {
    Wifi(WifiState),
    Resolved(Vec<Address>),
    ResolveFailed,
    Bound,
    BindFailed,
    Reply { sec: u32, sec_fraction: u32 },
    QueryFailed,
    Sent,
    Slept,
}

/// Whether the event can come of the action.
pub open spec fn answers(action: NtpAction, event: NtpEvent) -> bool {
    match event {
        NtpEvent::Wifi(_) => action is AwaitNetworkUp || action is AwaitDisconnected,
        NtpEvent::Resolved(_) | NtpEvent::ResolveFailed => action is Resolve,
        NtpEvent::Bound | NtpEvent::BindFailed => action is Bind,
        NtpEvent::Reply { .. } | NtpEvent::QueryFailed => action is Query,
        NtpEvent::Sent => action is Send,
        NtpEvent::Slept => action is Sleep,
    }
}

/// Whether `next` is what is done after the event has come of the action.
pub open spec fn leads_to(action: NtpAction, event: NtpEvent, next: NtpAction) -> bool {
    match event {
        NtpEvent::Wifi(state) => next == match action {
            NtpAction::AwaitNetworkUp if state is NetworkUp => NtpAction::Resolve,
            NtpAction::AwaitDisconnected if state is Disconnected => NtpAction::AwaitNetworkUp,
            _ => action,
        },
        NtpEvent::Resolved(addresses) => if addresses@.len() > 0 {
            next == NtpAction::Bind(addresses@[0])
        } else {
            next == NtpAction::Sleep(RETRY_SECONDS)
        },
        NtpEvent::Bound => next == NtpAction::Query(action->Bind_0),
        NtpEvent::Reply { sec, sec_fraction } => {
            &&& next is Send
            &&& next->Send_0@ == ntp_microseconds(sec as int, sec_fraction as int) * 1_000
        },
        NtpEvent::ResolveFailed | NtpEvent::BindFailed => next == NtpAction::Sleep(RETRY_SECONDS),
        NtpEvent::QueryFailed | NtpEvent::Sent => next == NtpAction::AwaitDisconnected,
        NtpEvent::Slept => next == NtpAction::AwaitNetworkUp,
    }
}

/// The NTP task: each time the network comes up it asks for the time once, and
/// then leaves the server alone until the connection is lost.
pub struct NtpTask {
    pub action: NtpAction,
}

impl NtpTask {
    /// Starts the task.
    pub fn start() -> (r: NtpTask)
        ensures
            r.action is AwaitNetworkUp,
    {
        NtpTask { action: NtpAction::AwaitNetworkUp }
    }

    /// Takes what came of the current action, and moves on to the next one.
    pub fn step(&mut self, event: NtpEvent)
        requires
            answers(old(self).action, event),
        ensures
            leads_to(old(self).action, event, final(self).action),
    {
        match event {
            NtpEvent::Wifi(state) => match self.action {
                NtpAction::AwaitNetworkUp => if state == WifiState::NetworkUp {
                    self.action = NtpAction::Resolve;
                },
                _ => if state == WifiState::Disconnected {
                    self.action = NtpAction::AwaitNetworkUp;
                },
            },
            NtpEvent::Resolved(addresses) => if addresses.len() > 0 {
                self.action = NtpAction::Bind(addresses[0]);
            } else {
                self.action = NtpAction::Sleep(RETRY_SECONDS);
            },
            NtpEvent::Bound => if let NtpAction::Bind(address) = self.action {
                self.action = NtpAction::Query(address);
            },
            NtpEvent::Reply { sec, sec_fraction } => {
                self.action = NtpAction::Send(ntp_instant(sec, sec_fraction));
            },
            NtpEvent::ResolveFailed | NtpEvent::BindFailed => {
                self.action = NtpAction::Sleep(RETRY_SECONDS);
            },
            NtpEvent::QueryFailed | NtpEvent::Sent => {
                self.action = NtpAction::AwaitDisconnected;
            },
            NtpEvent::Slept => {
                self.action = NtpAction::AwaitNetworkUp;
            },
        }
    }
}

/// Whether the task, started, can do the actions one after another, with each
/// event coming of the action of the same number.
pub open spec fn possible_run(actions: Seq<NtpAction>, events: Seq<NtpEvent>) -> bool {
    &&& actions.len() == events.len() + 1
    &&& actions[0] is AwaitNetworkUp
    &&& forall|i: int|
        0 <= i < events.len() ==> {
            &&& answers(actions[i], #[trigger] events[i])
            &&& leads_to(actions[i], events[i], actions[i + 1])
        }
}

/// The server is looked up only on hearing that the network is up.
pub proof fn law_asks_only_when_network_is_up(action: NtpAction, event: NtpEvent, next: NtpAction)
    requires
        answers(action, event),
        leads_to(action, event, next),
        next is Resolve,
    ensures
        action is AwaitNetworkUp,
        event == NtpEvent::Wifi(WifiState::NetworkUp),
{
}

/// Whether the action is one of asking for the time, from looking the server up
/// to handing the time out.
pub open spec fn is_asking(action: NtpAction) -> bool {
    action is Resolve || action is Bind || action is Query || action is Send
}

/// From waiting for the network, the time is asked for only after the network
/// has come up.
proof fn lemma_up_before_asking(
    actions: Seq<NtpAction>,
    events: Seq<NtpEvent>,
    i: int,
    j: int,
) -> (up: int)
    requires
        possible_run(actions, events),
        0 <= i < j < actions.len(),
        actions[i] is AwaitNetworkUp,
        is_asking(actions[j]),
    ensures
        i <= up < j,
        events[up] == NtpEvent::Wifi(WifiState::NetworkUp),
    decreases j - i,
{
    if events[i] == NtpEvent::Wifi(WifiState::NetworkUp) {
        i
    } else {
        lemma_up_before_asking(actions, events, i + 1, j)
    }
}

/// From waiting for the loss of the connection, the time is asked for only after
/// the connection was lost and the network has come up again.
proof fn lemma_down_and_up_before_asking(
    actions: Seq<NtpAction>,
    events: Seq<NtpEvent>,
    i: int,
    j: int,
) -> (r: (int, int))
    requires
        possible_run(actions, events),
        0 <= i < j < actions.len(),
        actions[i] is AwaitDisconnected,
        is_asking(actions[j]),
    ensures
        i <= r.0 < r.1 < j,
        events[r.0] == NtpEvent::Wifi(WifiState::Disconnected),
        events[r.1] == NtpEvent::Wifi(WifiState::NetworkUp),
    decreases j - i,
{
    if events[i] == NtpEvent::Wifi(WifiState::Disconnected) {
        (i, lemma_up_before_asking(actions, events, i + 1, j))
    } else {
        lemma_down_and_up_before_asking(actions, events, i + 1, j)
    }
}

/// The server is asked once per connection: after it was asked, whether it
/// answered or not, it is neither looked up nor asked again before the connection
/// was lost, and after that the network came up again.
pub proof fn law_asks_once_per_connection(
    actions: Seq<NtpAction>,
    events: Seq<NtpEvent>,
    i: int,
    j: int,
)
    requires
        possible_run(actions, events),
        0 <= i < j < actions.len(),
        actions[i] is Query,
        actions[j] is Resolve || actions[j] is Bind || actions[j] is Query,
    ensures
        exists|down: int, up: int|
            i < down < up < j && #[trigger] events[down] == NtpEvent::Wifi(WifiState::Disconnected)
                && #[trigger] events[up] == NtpEvent::Wifi(WifiState::NetworkUp),
{
    assert(leads_to(actions[i], events[i], actions[i + 1]));
    if events[i] is Reply {
        assert(leads_to(actions[i + 1], events[i + 1], actions[i + 2]));
        let (down, up) = lemma_down_and_up_before_asking(actions, events, i + 2, j);
    } else {
        let (down, up) = lemma_down_and_up_before_asking(actions, events, i + 1, j);
    }
}

/// The time is handed out at most once per connection: between two times the
/// connection was lost, and after that the network came up again.
pub proof fn law_once_per_connection(
    actions: Seq<NtpAction>,
    events: Seq<NtpEvent>,
    i: int,
    j: int,
)
    requires
        possible_run(actions, events),
        0 <= i < j < actions.len(),
        actions[i] is Send,
        actions[j] is Send,
    ensures
        exists|down: int, up: int|
            i < down < up < j && #[trigger] events[down] == NtpEvent::Wifi(WifiState::Disconnected)
                && #[trigger] events[up] == NtpEvent::Wifi(WifiState::NetworkUp),
{
    assert(leads_to(actions[i], events[i], actions[i + 1]));
    let (down, up) = lemma_down_and_up_before_asking(actions, events, i + 1, j);
}

/// What is handed out for a reply is the time that the server told: the same second
/// since the Unix epoch, in whole microseconds, and less than a microsecond before
/// `sec` seconds and `fraction` parts of 2^32 of a second.
pub proof fn law_the_told_time_is_handed_out(
    address: Address,
    sec: u32,
    fraction: u32,
    next: NtpAction,
)
    requires
        leads_to(NtpAction::Query(address), NtpEvent::Reply { sec, sec_fraction: fraction }, next),
    ensures
        next matches NtpAction::Send(ts) && ts@ / 1_000_000_000 == sec && ts@ % 1_000 == 0 && ({
            let told = sec * 0x1_0000_0000 + fraction;
            ts@ * 0x1_0000_0000 <= told * 1_000_000_000 < (ts@ + 1_000) * 0x1_0000_0000
        }),
{
}

/// A later reply never leads to an earlier time being handed out, and replies a
/// microsecond or more apart lead to different times.
pub proof fn law_later_replies_are_handed_out_later(
    address: Address,
    sec1: u32,
    fraction1: u32,
    sec2: u32,
    fraction2: u32,
    next1: NtpAction,
    next2: NtpAction,
)
    requires
        leads_to(
            NtpAction::Query(address),
            NtpEvent::Reply { sec: sec1, sec_fraction: fraction1 },
            next1,
        ),
        leads_to(
            NtpAction::Query(address),
            NtpEvent::Reply { sec: sec2, sec_fraction: fraction2 },
            next2,
        ),
        sec1 < sec2 || (sec1 == sec2 && fraction1 <= fraction2),
    ensures
        next1->Send_0@ <= next2->Send_0@,
        (sec2 - sec1) * 0x1_0000_0000 + (fraction2 - fraction1) >= 4295 ==> next1->Send_0@
            < next2->Send_0@,
{
}

/// While it waits for the network, the task goes on to the server exactly on hearing
/// that the network is up; while it waits for the loss of the connection, it goes
/// back to waiting for the network exactly on hearing of it. Any other state leaves
/// it where it is.
pub proof fn law_reacts_to_the_state_it_waits_for(state: WifiState, next: NtpAction)
    ensures
        leads_to(NtpAction::AwaitNetworkUp, NtpEvent::Wifi(state), next) ==> (if state
            == WifiState::NetworkUp {
            next is Resolve
        } else {
            next is AwaitNetworkUp
        }),
        leads_to(NtpAction::AwaitDisconnected, NtpEvent::Wifi(state), next) ==> (if state
            == WifiState::Disconnected {
            next is AwaitNetworkUp
        } else {
            next is AwaitDisconnected
        }),
{
}

/// The address that is asked is the first one that the server's name stands for, and
/// it is the same from binding the socket to asking. Without an address, or where
/// looking up or binding fails, thirty seconds pass and the network is waited for.
pub proof fn law_the_first_address_is_asked(
    action: NtpAction,
    found: Vec<Address>,
    address: Address,
    next: NtpAction,
)
    ensures
        leads_to(action, NtpEvent::Resolved(found), next) && found@.len() > 0 ==> next
            == NtpAction::Bind(found@[0]),
        leads_to(action, NtpEvent::Resolved(found), next) && found@.len() == 0 ==> next
            == NtpAction::Sleep(30),
        leads_to(action, NtpEvent::ResolveFailed, next) ==> next == NtpAction::Sleep(30),
        leads_to(action, NtpEvent::BindFailed, next) ==> next == NtpAction::Sleep(30),
        leads_to(NtpAction::Bind(address), NtpEvent::Bound, next) ==> next == NtpAction::Query(
            address,
        ),
        leads_to(action, NtpEvent::Slept, next) ==> next is AwaitNetworkUp,
{
}

/// Once the server was asked in vain, or the time was handed out, the task waits for
/// the loss of the connection.
pub proof fn law_rests_after_asking(action: NtpAction, next: NtpAction)
    ensures
        leads_to(action, NtpEvent::QueryFailed, next) ==> next is AwaitDisconnected,
        leads_to(action, NtpEvent::Sent, next) ==> next is AwaitDisconnected,
{
}

/// Whatever can come of an action is taken.
pub proof fn law_every_outcome_is_taken(
    address: Address,
    now: Timestamp,
    seconds: u64,
    state: WifiState,
    found: Vec<Address>,
    sec: u32,
    sec_fraction: u32,
)
    ensures
        answers(NtpAction::AwaitNetworkUp, NtpEvent::Wifi(state)),
        answers(NtpAction::AwaitDisconnected, NtpEvent::Wifi(state)),
        answers(NtpAction::Resolve, NtpEvent::Resolved(found)),
        answers(NtpAction::Resolve, NtpEvent::ResolveFailed),
        answers(NtpAction::Bind(address), NtpEvent::Bound),
        answers(NtpAction::Bind(address), NtpEvent::BindFailed),
        answers(NtpAction::Query(address), NtpEvent::Reply { sec, sec_fraction }),
        answers(NtpAction::Query(address), NtpEvent::QueryFailed),
        answers(NtpAction::Send(now), NtpEvent::Sent),
        answers(NtpAction::Sleep(seconds), NtpEvent::Slept),
{
}

/// The server is a member of the public pool, asked at the port of the protocol.
pub proof fn law_the_public_pool_is_asked()
    ensures
        NTP_SERVER@ == "pool.ntp.org"@,
        NTP_PORT == 123,
        LOCAL_PORT == 1234,
{
}

} // verus!
