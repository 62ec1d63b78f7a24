//! Receiving the two outdoor temperatures from an MQTT broker.

use crate::ntp::Address;
use crate::reading::Reading;
use crate::text::{append_hex, digit, hex, hex_value, law_hex_text_is_the_bytes};
use crate::wifi::WifiState;
use vstd::prelude::*;

verus! {

/// The keep-alive interval where the connection has none, in seconds.
pub const MQTT_KEEP_ALIVE_SECONDS: u16 = 60;

/// The port of the broker.
pub const BROKER_PORT: u16 = 1883;

/// How long the connection may be silent before it counts as lost, in seconds.
pub const SOCKET_TIMEOUT_SECONDS: u64 = 60;

/// The keep-alive that the broker is asked for, in seconds.
pub const KEEP_ALIVE_SECONDS: u16 = 60;

/// The name that the badge authenticates with.
pub const USER_NAME: &'static str = "erik";

/// The password that the badge authenticates with.
pub const PASSWORD: &'static str = "sensor";

/// How long to wait after a failure before connecting again, in seconds.
pub const RECONNECT_SECONDS: u64 = 10;

/// What stands before the hardware address in the client identifier.
pub const CLIENT_ID_PREFIX: &'static str = "rp2040-badger-w-";

/// The identifier of the badge with a hardware address: the prefix and the
/// address in hexadecimal.
pub open spec fn client_id_of(mac: Seq<u8>) -> Seq<char> {
    CLIENT_ID_PREFIX@ + hex(mac)
}

/// The identifier under which the badge connects, made from its hardware address.
pub fn client_id(mac: &[u8; 6]) -> (r: String)
    ensures
        r@ == client_id_of(mac@),
        r@.len() == 28,
{
    let mut id = CLIENT_ID_PREFIX.to_owned();
    append_hex(&mut id, mac);
    proof {
        reveal_strlit("rp2040-badger-w-");
        lemma_hex_len(mac@);
    }
    id
}

proof fn lemma_hex_len(bytes: Seq<u8>)
    ensures
        hex(bytes).len() == 2 * bytes.len(),
    decreases bytes.len(),
{
    if bytes.len() > 0 {
        lemma_hex_len(bytes.drop_last());
    }
}

proof fn lemma_hex_injective(a: Seq<u8>, b: Seq<u8>)
    requires
        a.len() == b.len(),
        hex(a) == hex(b),
    ensures
        a == b,
    decreases a.len(),
{
    if a.len() > 0 {
        lemma_hex_len(a.drop_last());
        lemma_hex_len(b.drop_last());
        let n = hex(a.drop_last()).len() as int;
        assert(hex(a)[n] == digit(a.last() as int / 16));
        assert(hex(b)[n] == digit(b.last() as int / 16));
        assert(hex(a)[n + 1] == digit(a.last() as int % 16));
        assert(hex(b)[n + 1] == digit(b.last() as int % 16));
        assert(hex(a).take(n) == hex(a.drop_last()));
        assert(hex(b).take(n) == hex(b.drop_last()));
        lemma_hex_injective(a.drop_last(), b.drop_last());
        assert(a == a.drop_last().push(a.last()));
        assert(b == b.drop_last().push(b.last()));
    }
}

/// Badges with different hardware addresses connect under different identifiers.
pub proof fn law_client_ids_differ(a: Seq<u8>, b: Seq<u8>)
    requires
        a.len() == 6,
        b.len() == 6,
        client_id_of(a) == client_id_of(b),
    ensures
        a == b,
{
    let n = CLIENT_ID_PREFIX@.len() as int;
    assert(client_id_of(a).skip(n) == hex(a));
    assert(client_id_of(b).skip(n) == hex(b));
    lemma_hex_injective(a, b);
}

/// Where a temperature is measured.
#[derive(Clone, Copy, Debug, PartialEq, Eq, Structural)]
pub enum Sensor {
    North,
    South,
}

impl Sensor {
    /// The topic that the sensor publishes on.
    pub open spec fn topic_name(self) -> Seq<char> {
        match self {
            Sensor::North => "zigbee2mqtt/North"@,
            Sensor::South => "zigbee2mqtt/Balcony South"@,
        }
    }

    /// The topic that the sensor publishes on.
    pub fn topic(&self) -> (r: &'static str)
        ensures
            r@ == self.topic_name(),
    {
        match self {
            Sensor::North => "zigbee2mqtt/North",
            Sensor::South => "zigbee2mqtt/Balcony South",
        }
    }

    /// The sensor that publishes on the topic, if one does.
    pub fn of_topic(topic: &String) -> (r: Option<Sensor>)
        ensures
            r is None <==> topic@ != Sensor::North.topic_name() && topic@
                != Sensor::South.topic_name(),
            r matches Some(sensor) ==> topic@ == sensor.topic_name(),
    {
        if *topic == Sensor::North.topic().to_owned() {
            Some(Sensor::North)
        } else if *topic == Sensor::South.topic().to_owned() {
            Some(Sensor::South)
        } else {
            None
        }
    }
}

/// The two sensors publish on different topics.
proof fn lemma_topics_differ()
    ensures
        Sensor::North.topic_name() != Sensor::South.topic_name(),
{
    reveal_strlit("zigbee2mqtt/North");
    reveal_strlit("zigbee2mqtt/Balcony South");
    assert("zigbee2mqtt/North"@.len() == 17);
    assert("zigbee2mqtt/Balcony South"@.len() == 25);
}

/// The keep-alive that a connection was made with.
#[derive(Clone, Copy, Debug, PartialEq, Eq, Structural)]
pub enum KeepAlive {
    Infinite,
    Seconds(u16),
}

/// How often the broker is pinged, in seconds.
pub open spec fn ping_interval(keep_alive: KeepAlive) -> int {
    match keep_alive {
        KeepAlive::Infinite => MQTT_KEEP_ALIVE_SECONDS as int,
        KeepAlive::Seconds(seconds) => seconds as int / 2,
    }
}

/// How often the broker is pinged, in seconds: twice per keep-alive, or once per
/// [`MQTT_KEEP_ALIVE_SECONDS`] where the connection never expires.
pub fn keep_alive_interval(keep_alive: KeepAlive) -> (r: u64)
    ensures
        r == ping_interval(keep_alive),
{
    match keep_alive {
        KeepAlive::Infinite => MQTT_KEEP_ALIVE_SECONDS as u64,
        KeepAlive::Seconds(seconds) => seconds as u64 / 2,
    }
}

/// The broker is pinged at least twice within the keep-alive.
pub proof fn law_pings_twice_per_keep_alive(seconds: u16)
    ensures
        2 * ping_interval(KeepAlive::Seconds(seconds)) <= seconds,
{
}

/// How a connection to the broker is opened.
#[derive(Clone, Copy, Debug, PartialEq, Eq)]
pub struct TcpOptions {
    pub address: Address,
    pub port: u16,
    /// How long the connection may be silent before it counts as lost, in seconds.
    pub timeout_seconds: u64,
}

/// When the broker forgets the badge.
#[derive(Clone, Copy, Debug, PartialEq, Eq, Structural)]
pub enum SessionExpiry {
    EndOnDisconnect,
    NeverEnd,
    Seconds(u32),
}

/// How the badge introduces itself to the broker.
#[derive(Clone, Copy, Debug, PartialEq, Eq)]
pub struct ConnectOptions {
    /// The hardware address that [`client_id`] makes the identifier from.
    pub mac: [u8; 6],
    /// Whether a session that the broker remembers is given up for a new one.
    pub clean_start: bool,
    /// The keep-alive that is asked for.
    pub keep_alive: KeepAlive,
    pub session_expiry: SessionExpiry,
    pub user_name: &'static str,
    pub password: &'static str,
    /// Whether the broker is left a message to publish when the badge is lost.
    pub will: bool,
}

/// How often a message is delivered.
#[derive(Clone, Copy, Debug, PartialEq, Eq, Structural)]
pub enum QualityOfService {
    AtMostOnce,
    AtLeastOnce,
    ExactlyOnce,
}

/// Whether the broker sends the message that it retains on a topic when the topic
/// is subscribed to.
#[derive(Clone, Copy, Debug, PartialEq, Eq, Structural)]
pub enum RetainHandling {
    AlwaysSend,
    SendIfNotSubscribedBefore,
    NeverSend,
}

/// How a topic is subscribed to.
#[derive(Clone, Copy, Debug, PartialEq, Eq, Structural)]
pub struct SubscriptionOptions {
    pub qos: QualityOfService,
    pub retain_handling: RetainHandling,
    /// Whether messages keep their mark of being retained.
    pub retain_as_published: bool,
    /// Whether messages of the badge itself are left out.
    pub no_local: bool,
}

/// What [`broker`] returns: the broker is at 10.0.0.21.
pub open spec fn broker_route() -> TcpOptions {
    TcpOptions {
        address: Address { octets: [10, 0, 0, 21] },
        port: BROKER_PORT,
        timeout_seconds: SOCKET_TIMEOUT_SECONDS,
    }
}

/// What [`connect_options`] returns: a new session that ends with the connection,
/// without a will.
pub open spec fn introduction(mac: [u8; 6]) -> ConnectOptions {
    ConnectOptions {
        mac,
        clean_start: true,
        keep_alive: KeepAlive::Seconds(KEEP_ALIVE_SECONDS),
        session_expiry: SessionExpiry::EndOnDisconnect,
        user_name: USER_NAME,
        password: PASSWORD,
        will: false,
    }
}

/// What [`subscription_options`] returns: each message at most once, and at first
/// the one that the broker retains.
pub open spec fn subscription() -> SubscriptionOptions {
    SubscriptionOptions {
        qos: QualityOfService::AtMostOnce,
        retain_handling: RetainHandling::AlwaysSend,
        retain_as_published: false,
        no_local: false,
    }
}

/// How the connection to the broker is opened.
pub fn broker() -> (r: TcpOptions)
    ensures
        r == broker_route(),
{
    TcpOptions {
        address: Address { octets: [10, 0, 0, 21] },
        port: BROKER_PORT,
        timeout_seconds: SOCKET_TIMEOUT_SECONDS,
    }
}

/// How the badge with a hardware address introduces itself to the broker.
pub fn connect_options(mac: [u8; 6]) -> (r: ConnectOptions)
    ensures
        r == introduction(mac),
{
    ConnectOptions {
        mac,
        clean_start: true,
        keep_alive: KeepAlive::Seconds(KEEP_ALIVE_SECONDS),
        session_expiry: SessionExpiry::EndOnDisconnect,
        user_name: USER_NAME,
        password: PASSWORD,
        will: false,
    }
}

/// How the topics of the sensors are subscribed to.
pub fn subscription_options() -> (r: SubscriptionOptions)
    ensures
        r == subscription(),
{
    SubscriptionOptions {
        qos: QualityOfService::AtMostOnce,
        retain_handling: RetainHandling::AlwaysSend,
        retain_as_published: false,
        no_local: false,
    }
}

/// What the MQTT task does next, and then reports on.
#[derive(Clone, Copy, Debug, PartialEq, Eq)]
pub enum MqttAction {
    /// Receive a Wi-Fi state if one is waiting.
    TryNextWifiState,
    /// Receive the next Wi-Fi state.
    NextWifiState,
    /// Open a connection to the broker.
    ConnectTcp(TcpOptions),
    /// Introduce the badge to the broker.
    ConnectMqtt(ConnectOptions),
    /// Subscribe to the topic of the sensor.
    Subscribe(Sensor, SubscriptionOptions),
    /// Ping the broker for the first time, and look up the keep-alive.
    FirstPing,
    /// Start a ticker with a period in seconds.
    StartTicker(u64),
    /// Wait for the broker or for the ticker.
    Poll,
    /// Ping the broker.
    Ping,
    /// Hand out the temperatures, north and south, at once: they take the place of
    /// those that are still waiting, as [`Latest::put`] does.
    HandOut(Reading, Reading),
    /// Drop the connection and sleep for a number of seconds.
    Sleep(u64),
}

/// What came of an [`MqttAction`].
pub enum MqttEvent {
    NoWifiState,
    Wifi(WifiState),
    TcpConnected,
    TcpFailed,
    MqttConnected,
    MqttFailed,
    /// The subscription was asked for.
    Subscribed,
    FirstPinged(KeepAlive),
    TickerStarted,
    /// The broker published a message; `reading` is its temperature, if it has one.
    Published { topic: String, reading: Option<Reading> },
    /// The broker sent something else.
    OtherPacket,
    PollFailed,
    Ticked,
    Pinged,
    PingFailed,
    /// The temperatures were handed out.
    HandedOut,
    Slept,
}

/// Whether the event can come of the action.
pub open spec fn answers(action: MqttAction, event: MqttEvent) -> bool {
    match event {
        MqttEvent::NoWifiState => action is TryNextWifiState,
        MqttEvent::Wifi(_) => action is TryNextWifiState || action is NextWifiState,
        MqttEvent::TcpConnected | MqttEvent::TcpFailed => action is ConnectTcp,
        MqttEvent::MqttConnected | MqttEvent::MqttFailed => action is ConnectMqtt,
        MqttEvent::Subscribed => action is Subscribe,
        MqttEvent::FirstPinged(_) => action is FirstPing,
        MqttEvent::TickerStarted => action is StartTicker,
        MqttEvent::Published { .. }
        | MqttEvent::OtherPacket
        | MqttEvent::PollFailed
        | MqttEvent::Ticked => action is Poll,
        MqttEvent::Pinged | MqttEvent::PingFailed => action is Ping,
        MqttEvent::HandedOut => action is HandOut,
        MqttEvent::Slept => action is Sleep,
    }
}

/// The temperature of a sensor after an event, where it was `before` until then.
pub open spec fn reading_after(before: Option<Reading>, sensor: Sensor, event: MqttEvent) -> Option<
    Reading,
> {
    match event {
        MqttEvent::Published { topic, reading } => if reading is Some && topic@
            == sensor.topic_name() {
            reading
        } else {
            before
        },
        _ => before,
    }
}

/// Whether the network is known to be up after an event, where `before` was known until then.
pub open spec fn network_up_after(before: bool, event: MqttEvent) -> bool {
    match event {
        MqttEvent::Wifi(state) => state is NetworkUp,
        _ => before,
    }
}

/// The MQTT task: while the network is up it keeps a connection to the broker,
/// and remembers the last temperature of each sensor.
pub struct MqttTask {
    pub action: MqttAction,
    pub north: Option<Reading>,
    pub south: Option<Reading>,
    pub network_up: bool,
    /// The hardware address of the badge.
    pub mac: [u8; 6],
}

/// What is done after the event has come of the action, where `north` and
/// `south` are the temperatures after it, and `network_up` is what is then known
/// of the network; `mac` is the hardware address of the badge.
pub open spec fn action_after(
    mac: [u8; 6],
    action: MqttAction,
    event: MqttEvent,
    north: Option<Reading>,
    south: Option<Reading>,
    network_up: bool,
) -> MqttAction {
    match event {
        MqttEvent::NoWifiState => if network_up {
            MqttAction::ConnectTcp(broker_route())
        } else {
            MqttAction::NextWifiState
        },
        MqttEvent::Wifi(_) => if action is NextWifiState && network_up {
            MqttAction::ConnectTcp(broker_route())
        } else {
            action
        },
        MqttEvent::TcpConnected => MqttAction::ConnectMqtt(introduction(mac)),
        MqttEvent::MqttConnected => MqttAction::Subscribe(Sensor::North, subscription()),
        MqttEvent::Subscribed => if action matches MqttAction::Subscribe(sensor, _) && sensor
            is North {
            MqttAction::Subscribe(Sensor::South, subscription())
        } else {
            MqttAction::FirstPing
        },
        MqttEvent::FirstPinged(keep_alive) => MqttAction::StartTicker(
            ping_interval(keep_alive) as u64,
        ),
        MqttEvent::Published { topic, reading } => if reading is Some && north is Some
            && south is Some {
            MqttAction::HandOut(north.unwrap(), south.unwrap())
        } else {
            MqttAction::Poll
        },
        MqttEvent::TickerStarted
        | MqttEvent::OtherPacket
        | MqttEvent::Pinged
        | MqttEvent::HandedOut => MqttAction::Poll,
        MqttEvent::Ticked => MqttAction::Ping,
        MqttEvent::TcpFailed
        | MqttEvent::MqttFailed
        | MqttEvent::PollFailed
        | MqttEvent::PingFailed => MqttAction::Sleep(RECONNECT_SECONDS),
        MqttEvent::Slept => MqttAction::TryNextWifiState,
    }
}

impl MqttTask {
    /// The task of the badge with a hardware address, as it starts.
    pub open spec fn initial(mac: [u8; 6]) -> MqttTask {
        MqttTask {
            action: MqttAction::TryNextWifiState,
            north: None,
            south: None,
            network_up: false,
            mac,
        }
    }

    /// The task after an event.
    pub open spec fn after(self, event: MqttEvent) -> MqttTask {
        let north = reading_after(self.north, Sensor::North, event);
        let south = reading_after(self.south, Sensor::South, event);
        let network_up = network_up_after(self.network_up, event);
        MqttTask {
            action: action_after(self.mac, self.action, event, north, south, network_up),
            north,
            south,
            network_up,
            mac: self.mac,
        }
    }

    /// Starts the task of the badge with a hardware address.
    pub fn start(mac: [u8; 6]) -> (r: MqttTask)
        ensures
            r == MqttTask::initial(mac),
    {
        MqttTask {
            action: MqttAction::TryNextWifiState,
            north: None,
            south: None,
            network_up: false,
            mac,
        }
    }

    /// Takes what the broker published: remembers the temperature if it is that
    /// of a sensor, and hands both out if both are known.
    fn publish(&mut self, topic: String, reading: Option<Reading>)
        requires
            old(self).action is Poll,
        ensures
            *final(self) == old(self).after(MqttEvent::Published { topic, reading }),
    {
        if let Some(temperature) = reading {
            proof {
                lemma_topics_differ();
            }
            match Sensor::of_topic(&topic) {
                Some(Sensor::North) => {
                    self.north = Some(temperature);
                },
                Some(Sensor::South) => {
                    self.south = Some(temperature);
                },
                None => {},
            }
            match (self.north, self.south) {
                (Some(north), Some(south)) => {
                    self.action = MqttAction::HandOut(north, south);
                },
                _ => {},
            }
        }
    }

    /// Takes what came of the current action, and moves on to the next one.
    pub fn step(&mut self, event: MqttEvent)
        requires
            answers(old(self).action, event),
        ensures
            *final(self) == old(self).after(event),
    {
        match event {
            MqttEvent::NoWifiState => {
                self.action = if self.network_up {
                    MqttAction::ConnectTcp(broker())
                } else {
                    MqttAction::NextWifiState
                };
            },
            MqttEvent::Wifi(state) => {
                self.network_up = state == WifiState::NetworkUp;
                if let MqttAction::NextWifiState = self.action {
                    if self.network_up {
                        self.action = MqttAction::ConnectTcp(broker());
                    }
                }
            },
            MqttEvent::TcpConnected => {
                self.action = MqttAction::ConnectMqtt(connect_options(self.mac));
            },
            MqttEvent::MqttConnected => {
                self.action = MqttAction::Subscribe(Sensor::North, subscription_options());
            },
            MqttEvent::Subscribed => {
                self.action = if let MqttAction::Subscribe(Sensor::North, _) = self.action {
                    MqttAction::Subscribe(Sensor::South, subscription_options())
                } else {
                    MqttAction::FirstPing
                };
            },
            MqttEvent::FirstPinged(keep_alive) => {
                self.action = MqttAction::StartTicker(keep_alive_interval(keep_alive));
            },
            MqttEvent::Published { topic, reading } => {
                self.publish(topic, reading);
            },
            MqttEvent::TickerStarted
            | MqttEvent::OtherPacket
            | MqttEvent::Pinged
            | MqttEvent::HandedOut => {
                self.action = MqttAction::Poll;
            },
            MqttEvent::Ticked => {
                self.action = MqttAction::Ping;
            },
            MqttEvent::TcpFailed
            | MqttEvent::MqttFailed
            | MqttEvent::PollFailed
            | MqttEvent::PingFailed => {
                self.action = MqttAction::Sleep(RECONNECT_SECONDS);
            },
            MqttEvent::Slept => {
                self.action = MqttAction::TryNextWifiState;
            },
        }
    }
}

/// The task after a run of events, from its start.
pub open spec fn task_of_run(mac: [u8; 6], events: Seq<MqttEvent>) -> MqttTask
    decreases events.len(),
{
    if events.len() == 0 {
        MqttTask::initial(mac)
    } else {
        task_of_run(mac, events.drop_last()).after(events.last())
    }
}

/// Whether every event of the run came of the action that the task was at.
pub open spec fn possible_run(mac: [u8; 6], events: Seq<MqttEvent>) -> bool
    decreases events.len(),
{
    events.len() == 0 || (possible_run(mac, events.drop_last()) && answers(
        task_of_run(mac, events.drop_last()).action,
        events.last(),
    ))
}

/// The temperature of the last message of the run that had one and was on the
/// topic of the sensor.
pub open spec fn last_reading(events: Seq<MqttEvent>, sensor: Sensor) -> Option<Reading>
    decreases events.len(),
{
    if events.len() == 0 {
        None
    } else {
        reading_after(last_reading(events.drop_last(), sensor), sensor, events.last())
    }
}

/// Whether the last Wi-Fi state of the run was that the network is up.
pub open spec fn last_heard_up(events: Seq<MqttEvent>) -> bool
    decreases events.len(),
{
    if events.len() == 0 {
        false
    } else {
        network_up_after(last_heard_up(events.drop_last()), events.last())
    }
}

/// Over any run, and so over any number of lost connections, the task remembers
/// for each sensor the last temperature that came, and what it last heard of the
/// network.
pub proof fn law_remembers_the_latest(mac: [u8; 6], events: Seq<MqttEvent>)
    ensures
        task_of_run(mac, events).north == last_reading(events, Sensor::North),
        task_of_run(mac, events).south == last_reading(events, Sensor::South),
        task_of_run(mac, events).network_up == last_heard_up(events),
    decreases events.len(),
{
    if events.len() > 0 {
        law_remembers_the_latest(mac, events.drop_last());
    }
}

/// Temperatures are handed out only when both are known, and then they are the
/// last ones of the two sensors.
pub proof fn law_hands_out_the_latest(
    mac: [u8; 6],
    events: Seq<MqttEvent>,
    north: Reading,
    south: Reading,
)
    requires
        possible_run(mac, events),
        task_of_run(mac, events).action == MqttAction::HandOut(north, south),
    ensures
        last_reading(events, Sensor::North) == Some(north),
        last_reading(events, Sensor::South) == Some(south),
{
    law_remembers_the_latest(mac, events);
}

/// The broker is contacted only while the last that was heard of the network is
/// that it is up.
pub proof fn law_connects_only_when_network_is_up(mac: [u8; 6], events: Seq<MqttEvent>)
    requires
        possible_run(mac, events),
    ensures
        last_heard_up(events) || {
            let action = task_of_run(mac, events).action;
            action is TryNextWifiState || action is NextWifiState
        },
    decreases events.len(),
{
    if events.len() > 0 {
        law_connects_only_when_network_is_up(mac, events.drop_last());
        law_remembers_the_latest(mac, events.drop_last());
        law_remembers_the_latest(mac, events);
    }
}

/// A message without a temperature changes nothing, on whatever topic it comes.
pub proof fn law_ignores_malformed_messages(task: MqttTask, topic: String)
    requires
        task.action is Poll,
    ensures
        task.after(MqttEvent::Published { topic, reading: None }) == task,
{
}

/// Whatever happens, every connection is opened to the broker, every introduction
/// is that of the badge with the hardware address, and every subscription is made
/// in the same way.
pub proof fn law_asks_the_same_of_the_broker(mac: [u8; 6], events: Seq<MqttEvent>)
    requires
        possible_run(mac, events),
    ensures
        task_of_run(mac, events).mac == mac,
        match task_of_run(mac, events).action {
            MqttAction::ConnectTcp(options) => options == broker_route(),
            MqttAction::ConnectMqtt(options) => options == introduction(mac),
            MqttAction::Subscribe(_, options) => options == subscription(),
            _ => true,
        },
    decreases events.len(),
{
    if events.len() > 0 {
        law_asks_the_same_of_the_broker(mac, events.drop_last());
    }
}

/// Once the broker has taken the badge in, the task subscribes to the north sensor
/// and then to the south one, pings once and starts the ticker, whatever comes of
/// these, and only then waits for the broker.
pub proof fn law_subscribes_and_pings_before_polling(
    task: MqttTask,
    first: MqttEvent,
    second: MqttEvent,
    third: MqttEvent,
    fourth: MqttEvent,
)
    requires
        task.action is ConnectMqtt,
        ({
            let connected = task.after(MqttEvent::MqttConnected);
            &&& answers(connected.action, first)
            &&& answers(connected.after(first).action, second)
            &&& answers(connected.after(first).after(second).action, third)
            &&& answers(connected.after(first).after(second).after(third).action, fourth)
        }),
    ensures
        ({
            let connected = task.after(MqttEvent::MqttConnected);
            let subscribed = connected.after(first).after(second);
            &&& connected.action == MqttAction::Subscribe(Sensor::North, subscription())
            &&& connected.after(first).action == MqttAction::Subscribe(
                Sensor::South,
                subscription(),
            )
            &&& subscribed.action is FirstPing
            &&& subscribed.after(third).action is StartTicker
            &&& subscribed.after(third).after(fourth).action is Poll
        }),
{
}

/// Where the temperatures wait until the program takes them: only the latest do.
#[derive(Clone, Copy, Debug, PartialEq, Eq)]
pub struct Latest {
    /// The temperatures that wait, north and south.
    pub waiting: Option<(Reading, Reading)>,
}

impl Latest {
    /// A place where nothing waits.
    pub fn new() -> (r: Latest)
        ensures
            r.waiting is None,
    {
        Latest { waiting: None }
    }

    /// Lets the temperatures wait, in place of those that waited until then.
    pub fn put(&mut self, north: Reading, south: Reading)
        ensures
            final(self).waiting == Some((north, south)),
    {
        self.waiting = Some((north, south));
    }

    /// Takes the temperatures that wait, if any do.
    pub fn take(&mut self) -> (r: Option<(Reading, Reading)>)
        ensures
            r == old(self).waiting,
            final(self).waiting is None,
    {
        let taken = self.waiting;
        self.waiting = None;
        taken
    }
}

/// What happens between the task and the program.
pub enum Moment {
    /// An event comes to the task.
    Event(MqttEvent),
    /// The program takes what waits.
    Taken,
}

/// The events among the moments that come to the task.
pub open spec fn events_of(moments: Seq<Moment>) -> Seq<MqttEvent>
    decreases moments.len(),
{
    if moments.len() == 0 {
        Seq::empty()
    } else {
        match moments.last() {
            Moment::Event(event) => events_of(moments.drop_last()).push(event),
            Moment::Taken => events_of(moments.drop_last()),
        }
    }
}

/// What waits for the program after the moments, where the task hands out by
/// [`Latest::put`] and the program takes by [`Latest::take`].
pub open spec fn waiting_after(mac: [u8; 6], moments: Seq<Moment>) -> Option<(Reading, Reading)>
    decreases moments.len(),
{
    if moments.len() == 0 {
        None
    } else {
        let before = moments.drop_last();
        match moments.last() {
            Moment::Event(MqttEvent::HandedOut) => match task_of_run(
                mac,
                events_of(before),
            ).action {
                MqttAction::HandOut(north, south) => Some((north, south)),
                _ => waiting_after(mac, before),
            },
            Moment::Event(_) => waiting_after(mac, before),
            Moment::Taken => None,
        }
    }
}

/// However fast or slowly the program takes them, the temperatures that wait for it
/// are the last ones of the two sensors, unless the task is just handing out newer
/// ones. So what the program takes next is always the latest.
pub proof fn law_what_waits_is_the_latest(mac: [u8; 6], moments: Seq<Moment>)
    requires
        possible_run(mac, events_of(moments)),
    ensures
        waiting_after(mac, moments) matches Some((north, south)) ==> {
            let events = events_of(moments);
            &&& last_reading(events, Sensor::North) is Some
            &&& last_reading(events, Sensor::South) is Some
            &&& !(task_of_run(mac, events).action is HandOut) ==> {
                &&& last_reading(events, Sensor::North) == Some(north)
                &&& last_reading(events, Sensor::South) == Some(south)
            }
        },
    decreases moments.len(),
{
    if moments.len() > 0 {
        let before = events_of(moments.drop_last());
        if let Moment::Event(event) = moments.last() {
            let events = events_of(moments);
            assert(events.drop_last() == before);
            assert(events.last() == event);
            law_what_waits_is_the_latest(mac, moments.drop_last());
            law_remembers_the_latest(mac, before);
            law_remembers_the_latest(mac, events);
            if let MqttAction::HandOut(north, south) = task_of_run(mac, before).action {
                law_hands_out_the_latest(mac, before, north, south);
            }
        }
    }
}

/// Handing out never waits for the program: it always succeeds, and the task then
/// waits for the broker again, with everything else as it was.
pub proof fn law_keeps_polling_after_handing_out(task: MqttTask, event: MqttEvent)
    requires
        task.action is HandOut,
        answers(task.action, event),
    ensures
        event is HandedOut,
        task.after(event) == (MqttTask { action: MqttAction::Poll, ..task }),
{
}

/// A temperature on the topic of a sensor is remembered as it came, whatever was
/// remembered before, and the other sensor's stays. On any other topic it changes
/// neither.
pub proof fn law_the_published_temperature_is_remembered(
    task: MqttTask,
    topic: String,
    temperature: Reading,
)
    ensures
        ({
            let after = task.after(MqttEvent::Published { topic, reading: Some(temperature) });
            &&& topic@ == "zigbee2mqtt/North"@ ==> after.north == Some(temperature) && after.south
                == task.south
            &&& topic@ == "zigbee2mqtt/Balcony South"@ ==> after.south == Some(temperature)
                && after.north == task.north
            &&& topic@ != "zigbee2mqtt/North"@ && topic@ != "zigbee2mqtt/Balcony South"@ ==> after
                .north == task.north && after.south == task.south
        }),
{
    lemma_topics_differ();
}

/// Whenever a message has a temperature, and a temperature of each sensor is then
/// known, both are handed out as they are then known; while one is missing, the task
/// waits for the broker.
pub proof fn law_known_temperatures_are_handed_out(
    task: MqttTask,
    topic: String,
    temperature: Reading,
)
    ensures
        ({
            let after = task.after(MqttEvent::Published { topic, reading: Some(temperature) });
            match (after.north, after.south) {
                (Some(north), Some(south)) => after.action == MqttAction::HandOut(north, south),
                _ => after.action is Poll,
            }
        }),
{
}

/// Nothing but a message with a temperature changes what is remembered of the
/// sensors, and nothing but a Wi-Fi state changes what is known of the network: it is
/// up exactly if that state says so. The badge keeps its hardware address.
pub proof fn law_only_messages_change_the_temperatures(task: MqttTask, event: MqttEvent)
    ensures
        !(event is Published) ==> task.after(event).north == task.north && task.after(event).south
            == task.south,
        event matches MqttEvent::Published { reading, .. } && reading is None ==> task.after(
            event,
        ).north == task.north && task.after(event).south == task.south,
        event matches MqttEvent::Wifi(state) ==> (task.after(event).network_up <==> state
            == WifiState::NetworkUp),
        !(event is Wifi) ==> task.after(event).network_up == task.network_up,
        task.after(event).mac == task.mac,
{
}

/// Whether the event is a message with a temperature on the topic.
pub open spec fn tells_temperature(event: MqttEvent, topic: Seq<char>) -> bool {
    event matches MqttEvent::Published { topic: t, reading } && t@ == topic && reading is Some
}

/// Over any run, what is remembered of a sensor is the very temperature of the last
/// message that told one on its topic.
pub proof fn law_the_last_message_counts(mac: [u8; 6], events: Seq<MqttEvent>, i: int)
    requires
        0 <= i < events.len(),
    ensures
        tells_temperature(events[i], "zigbee2mqtt/North"@) && (forall|j: int|
            i < j < events.len() ==> !tells_temperature(
                #[trigger] events[j],
                "zigbee2mqtt/North"@,
            )) ==> task_of_run(mac, events).north == events[i]->reading,
        tells_temperature(events[i], "zigbee2mqtt/Balcony South"@) && (forall|j: int|
            i < j < events.len() ==> !tells_temperature(
                #[trigger] events[j],
                "zigbee2mqtt/Balcony South"@,
            )) ==> task_of_run(mac, events).south == events[i]->reading,
    decreases events.len(),
{
    let before = events.drop_last();
    lemma_topics_differ();
    if i < before.len() {
        law_the_last_message_counts(mac, before, i);
        assert(before[i] == events[i]);
        assert(forall|j: int| i < j < before.len() ==> before[j] == #[trigger] events[j]);
        let last = events[events.len() - 1];
        assert(events.last() == last);
    }
}

/// Over any run in which no message told a temperature on the topic of a sensor,
/// nothing is remembered of it.
pub proof fn law_without_a_message_nothing_is_known(mac: [u8; 6], events: Seq<MqttEvent>)
    ensures
        (forall|j: int|
            0 <= j < events.len() ==> !tells_temperature(
                #[trigger] events[j],
                "zigbee2mqtt/North"@,
            )) ==> task_of_run(mac, events).north is None,
        (forall|j: int|
            0 <= j < events.len() ==> !tells_temperature(
                #[trigger] events[j],
                "zigbee2mqtt/Balcony South"@,
            )) ==> task_of_run(mac, events).south is None,
    decreases events.len(),
{
    if events.len() > 0 {
        let before = events.drop_last();
        law_without_a_message_nothing_is_known(mac, before);
        assert(forall|j: int| 0 <= j < before.len() ==> before[j] == #[trigger] events[j]);
        assert(events.last() == events[events.len() - 1]);
    }
}

/// Two badges that have heard the same since a temperature of each sensor came
/// remember the same, whatever they remembered before.
pub proof fn law_the_past_does_not_matter(
    a: MqttTask,
    b: MqttTask,
    north: Reading,
    south: Reading,
    north_topic: String,
    south_topic: String,
)
    requires
        north_topic@ == "zigbee2mqtt/North"@,
        south_topic@ == "zigbee2mqtt/Balcony South"@,
    ensures
        ({
            let first = MqttEvent::Published { topic: north_topic, reading: Some(north) };
            let second = MqttEvent::Published { topic: south_topic, reading: Some(south) };
            &&& a.after(first).after(second).north == b.after(first).after(second).north
            &&& a.after(first).after(second).south == b.after(first).after(second).south
            &&& a.after(first).after(second).action == MqttAction::HandOut(north, south)
        }),
{
    lemma_topics_differ();
}

/// The task starts by looking for Wi-Fi states that wait, and knows nothing.
pub proof fn law_starts_knowing_nothing(mac: [u8; 6])
    ensures
        ({
            let task = MqttTask::initial(mac);
            &&& task.action is TryNextWifiState
            &&& task.north is None && task.south is None
            &&& !task.network_up
            &&& task.mac == mac
        }),
{
}

/// The Wi-Fi states that wait are taken first, all of them. If the network is then
/// up, the task connects at once; otherwise it waits for the state that says so, and
/// for no other.
pub proof fn law_connects_as_soon_as_the_network_is_up(task: MqttTask, state: WifiState)
    ensures
        task.action is TryNextWifiState ==> task.after(MqttEvent::Wifi(state)).action
            is TryNextWifiState,
        task.network_up ==> task.after(MqttEvent::NoWifiState).action == MqttAction::ConnectTcp(
            broker_route(),
        ),
        !task.network_up ==> task.after(MqttEvent::NoWifiState).action is NextWifiState,
        task.action is NextWifiState && state == WifiState::NetworkUp ==> task.after(
            MqttEvent::Wifi(state),
        ).action == MqttAction::ConnectTcp(broker_route()),
        task.action is NextWifiState && state != WifiState::NetworkUp ==> task.after(
            MqttEvent::Wifi(state),
        ).action is NextWifiState,
{
}

/// Whatever is asked of the broker has these terms: it is at 10.0.0.21, port 1883, and
/// may be silent for a minute; the badge starts a new session that ends with the
/// connection and is kept alive for a minute, authenticates, and leaves no will; a
/// topic is subscribed to for delivery at most once, with the retained message.
pub proof fn law_terms_of_the_connection(mac: [u8; 6])
    ensures
        broker_route().address.octets@ == seq![10u8, 0u8, 0u8, 21u8],
        broker_route().port == 1883,
        broker_route().timeout_seconds == 60,
        introduction(mac).mac == mac,
        introduction(mac).clean_start,
        introduction(mac).keep_alive == KeepAlive::Seconds(60),
        introduction(mac).session_expiry is EndOnDisconnect,
        introduction(mac).user_name@ == "erik"@,
        introduction(mac).password@ == "sensor"@,
        !introduction(mac).will,
        subscription().qos is AtMostOnce,
        subscription().retain_handling is AlwaysSend,
        !subscription().retain_as_published,
        !subscription().no_local,
{
}

/// Opening the connection is followed by the introduction of the badge, and then by
/// the subscriptions, north before south, the first ping and the ticker.
pub proof fn law_connecting_goes_step_by_step(
    task: MqttTask,
    options: SubscriptionOptions,
    keep_alive: KeepAlive,
)
    ensures
        task.after(MqttEvent::TcpConnected).action == MqttAction::ConnectMqtt(
            introduction(task.mac),
        ),
        task.after(MqttEvent::MqttConnected).action == MqttAction::Subscribe(
            Sensor::North,
            subscription(),
        ),
        task.action == MqttAction::Subscribe(Sensor::North, options) ==> task.after(
            MqttEvent::Subscribed,
        ).action == MqttAction::Subscribe(Sensor::South, subscription()),
        task.action == MqttAction::Subscribe(Sensor::South, options) ==> task.after(
            MqttEvent::Subscribed,
        ).action is FirstPing,
        task.after(MqttEvent::FirstPinged(keep_alive)).action is StartTicker,
        task.after(MqttEvent::TickerStarted).action is Poll,
{
}

/// The ticker that is started pings as often as fits twice into the keep-alive, and
/// once a minute where the connection never expires.
pub proof fn law_ticks_at_half_the_keep_alive(task: MqttTask, seconds: u16)
    ensures
        task.after(
            MqttEvent::FirstPinged(KeepAlive::Seconds(seconds)),
        ).action matches MqttAction::StartTicker(period) && 2 * period <= seconds < 2 * period + 2,
        task.after(MqttEvent::FirstPinged(KeepAlive::Infinite)).action == MqttAction::StartTicker(
            60,
        ),
        2 * ping_interval(KeepAlive::Seconds(seconds)) <= seconds < 2 * ping_interval(
            KeepAlive::Seconds(seconds),
        ) + 2,
        ping_interval(KeepAlive::Infinite) == 60,
{
}

/// While connected, the task goes on waiting for the broker after whatever was done
/// in between, and pings when the ticker ticks.
pub proof fn law_goes_on_polling(task: MqttTask)
    ensures
        task.after(MqttEvent::OtherPacket).action is Poll,
        task.after(MqttEvent::Ticked).action is Ping,
        task.after(MqttEvent::Pinged).action is Poll,
        task.after(MqttEvent::HandedOut).action is Poll,
{
}

/// After any failure ten seconds pass before the task looks at the network again.
pub proof fn law_failures_wait_ten_seconds(task: MqttTask)
    ensures
        task.after(MqttEvent::TcpFailed).action == MqttAction::Sleep(10),
        task.after(MqttEvent::MqttFailed).action == MqttAction::Sleep(10),
        task.after(MqttEvent::PollFailed).action == MqttAction::Sleep(10),
        task.after(MqttEvent::PingFailed).action == MqttAction::Sleep(10),
        task.after(MqttEvent::Slept).action is TryNextWifiState,
{
}

/// The identifier is the name of the badge and then its hardware address, two
/// hexadecimal digits for each byte.
pub proof fn law_client_id_tells_the_address(mac: Seq<u8>, i: int)
    requires
        mac.len() == 6,
        0 <= i < 6,
    ensures
        client_id_of(mac).len() == 28,
        client_id_of(mac).take(16) == "rp2040-badger-w-"@,
        hex_value(client_id_of(mac)[16 + 2 * i]) >= 0,
        hex_value(client_id_of(mac)[17 + 2 * i]) >= 0,
        16 * hex_value(client_id_of(mac)[16 + 2 * i]) + hex_value(client_id_of(mac)[17 + 2 * i])
            == mac[i],
{
    reveal_strlit("rp2040-badger-w-");
    law_hex_text_is_the_bytes(mac, i);
    assert(client_id_of(mac).take(16) == "rp2040-badger-w-"@);
}

/// The sensors publish on their topics.
pub proof fn law_topics_of_the_sensors(sensor: Sensor)
    ensures
        sensor == Sensor::North ==> sensor.topic_name() == "zigbee2mqtt/North"@,
        sensor == Sensor::South ==> sensor.topic_name() == "zigbee2mqtt/Balcony South"@,
{
}

/// Whatever can come of an action is taken.
pub proof fn law_every_outcome_is_taken(
    state: WifiState,
    tcp: TcpOptions,
    connect: ConnectOptions,
    sensor: Sensor,
    options: SubscriptionOptions,
    keep_alive: KeepAlive,
    seconds: u64,
    topic: String,
    reading: Option<Reading>,
    north: Reading,
    south: Reading,
)
    ensures
        answers(MqttAction::TryNextWifiState, MqttEvent::NoWifiState),
        answers(MqttAction::TryNextWifiState, MqttEvent::Wifi(state)),
        answers(MqttAction::NextWifiState, MqttEvent::Wifi(state)),
        answers(MqttAction::ConnectTcp(tcp), MqttEvent::TcpConnected),
        answers(MqttAction::ConnectTcp(tcp), MqttEvent::TcpFailed),
        answers(MqttAction::ConnectMqtt(connect), MqttEvent::MqttConnected),
        answers(MqttAction::ConnectMqtt(connect), MqttEvent::MqttFailed),
        answers(MqttAction::Subscribe(sensor, options), MqttEvent::Subscribed),
        answers(MqttAction::FirstPing, MqttEvent::FirstPinged(keep_alive)),
        answers(MqttAction::StartTicker(seconds), MqttEvent::TickerStarted),
        answers(MqttAction::Poll, MqttEvent::Published { topic, reading }),
        answers(MqttAction::Poll, MqttEvent::OtherPacket),
        answers(MqttAction::Poll, MqttEvent::PollFailed),
        answers(MqttAction::Poll, MqttEvent::Ticked),
        answers(MqttAction::Ping, MqttEvent::Pinged),
        answers(MqttAction::Ping, MqttEvent::PingFailed),
        answers(MqttAction::HandOut(north, south), MqttEvent::HandedOut),
        answers(MqttAction::Sleep(seconds), MqttEvent::Slept),
{
}

} // verus!
