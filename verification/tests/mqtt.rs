use rp2040_badger_w::mqtt::{
    broker, client_id, connect_options, keep_alive_interval, subscription_options, ConnectOptions,
    KeepAlive, Latest, MqttAction, MqttEvent, MqttTask, QualityOfService, RetainHandling, Sensor,
    SessionExpiry, SubscriptionOptions, TcpOptions,
};
use rp2040_badger_w::ntp::Address;
use rp2040_badger_w::reading::Reading;
use rp2040_badger_w::wifi::WifiState;

const MAC: [u8; 6] = [0xaa, 0xbb, 0xcc, 0xdd, 0xee, 0xff];

fn reading(value: f32) -> Reading {
    Reading { bits: value.to_bits() }
}

fn published(topic: &str, value: Option<f32>) -> MqttEvent {
    MqttEvent::Published { topic: topic.to_string(), reading: value.map(reading) }
}

fn connected() -> MqttTask {
    let mut task = MqttTask::start(MAC);
    task.step(MqttEvent::Wifi(WifiState::NetworkUp));
    task.step(MqttEvent::NoWifiState);
    task.step(MqttEvent::TcpConnected);
    task.step(MqttEvent::MqttConnected);
    task.step(MqttEvent::Subscribed);
    task.step(MqttEvent::Subscribed);
    task.step(MqttEvent::FirstPinged(KeepAlive::Seconds(60)));
    task.step(MqttEvent::TickerStarted);
    assert_eq!(task.action, MqttAction::Poll);
    task
}

#[test]
fn client_id_of_a_hardware_address() {
    let id = client_id(&[0xaa, 0xbb, 0xcc, 0xdd, 0xee, 0xff]);
    assert_eq!(id, "rp2040-badger-w-aabbccddeeff");
    assert_eq!(client_id(&[0x00, 0x19, 0x2a, 0x3b, 0x4c, 0x5d]), "rp2040-badger-w-00192a3b4c5d");
    assert_eq!(client_id(&[0; 6]), "rp2040-badger-w-000000000000");
    assert_ne!(client_id(&[1, 0, 0, 0, 0, 0]), client_id(&[0, 0, 0, 0, 0, 1]));
}

#[test]
fn topics_of_the_sensors() {
    assert_eq!(Sensor::North.topic(), "zigbee2mqtt/North");
    assert_eq!(Sensor::South.topic(), "zigbee2mqtt/Balcony South");
    assert_eq!(Sensor::of_topic(&"zigbee2mqtt/North".to_string()), Some(Sensor::North));
    assert_eq!(Sensor::of_topic(&"zigbee2mqtt/Balcony South".to_string()), Some(Sensor::South));
    assert_eq!(Sensor::of_topic(&"zigbee2mqtt/north".to_string()), None);
    assert_eq!(Sensor::of_topic(&String::new()), None);
}

#[test]
fn ping_interval_is_half_the_keep_alive() {
    assert_eq!(keep_alive_interval(KeepAlive::Seconds(60)), 30);
    assert_eq!(keep_alive_interval(KeepAlive::Seconds(61)), 30);
    assert_eq!(keep_alive_interval(KeepAlive::Seconds(u16::MAX)), 32_767);
    assert_eq!(keep_alive_interval(KeepAlive::Infinite), 60);
}

#[test]
fn connecting_step_by_step() {
    let mut task = MqttTask::start(MAC);
    assert_eq!(task.action, MqttAction::TryNextWifiState);
    let script = [
        (MqttEvent::Wifi(WifiState::NetworkUp), MqttAction::TryNextWifiState),
        (MqttEvent::Wifi(WifiState::Disconnected), MqttAction::TryNextWifiState),
        (MqttEvent::NoWifiState, MqttAction::NextWifiState),
        (MqttEvent::Wifi(WifiState::LinkUp), MqttAction::NextWifiState),
        (MqttEvent::Wifi(WifiState::NetworkUp), MqttAction::ConnectTcp(broker())),
        (MqttEvent::TcpConnected, MqttAction::ConnectMqtt(connect_options(MAC))),
        (MqttEvent::MqttConnected, MqttAction::Subscribe(Sensor::North, subscription_options())),
        (MqttEvent::Subscribed, MqttAction::Subscribe(Sensor::South, subscription_options())),
        (MqttEvent::Subscribed, MqttAction::FirstPing),
        (MqttEvent::FirstPinged(KeepAlive::Seconds(60)), MqttAction::StartTicker(30)),
        (MqttEvent::TickerStarted, MqttAction::Poll),
        (MqttEvent::OtherPacket, MqttAction::Poll),
        (MqttEvent::Ticked, MqttAction::Ping),
        (MqttEvent::Pinged, MqttAction::Poll),
        (MqttEvent::Ticked, MqttAction::Ping),
        (MqttEvent::PingFailed, MqttAction::Sleep(10)),
        (MqttEvent::Slept, MqttAction::TryNextWifiState),
        (MqttEvent::NoWifiState, MqttAction::ConnectTcp(broker())),
        (MqttEvent::TcpFailed, MqttAction::Sleep(10)),
        (MqttEvent::Slept, MqttAction::TryNextWifiState),
        (MqttEvent::NoWifiState, MqttAction::ConnectTcp(broker())),
        (MqttEvent::TcpConnected, MqttAction::ConnectMqtt(connect_options(MAC))),
        (MqttEvent::MqttFailed, MqttAction::Sleep(10)),
    ];
    for (event, action) in script {
        task.step(event);
        assert_eq!(task.action, action);
    }
}

#[test]
fn what_is_asked_of_the_broker() {
    assert_eq!(
        broker(),
        TcpOptions {
            address: Address { octets: [10, 0, 0, 21] },
            port: 1883,
            timeout_seconds: 60,
        }
    );
    assert_eq!(
        connect_options(MAC),
        ConnectOptions {
            mac: MAC,
            clean_start: true,
            keep_alive: KeepAlive::Seconds(60),
            session_expiry: SessionExpiry::EndOnDisconnect,
            user_name: "erik",
            password: "sensor",
            will: false,
        }
    );
    assert_eq!(
        subscription_options(),
        SubscriptionOptions {
            qos: QualityOfService::AtMostOnce,
            retain_handling: RetainHandling::AlwaysSend,
            retain_as_published: false,
            no_local: false,
        }
    );
}

#[test]
fn every_connection_is_opened_alike() {
    let mut task = connected();
    for _ in 0..3 {
        task.step(MqttEvent::PollFailed);
        task.step(MqttEvent::Slept);
        task.step(MqttEvent::NoWifiState);
        assert_eq!(task.action, MqttAction::ConnectTcp(broker()));
        task.step(MqttEvent::TcpConnected);
        assert_eq!(task.action, MqttAction::ConnectMqtt(connect_options(MAC)));
        task.step(MqttEvent::MqttConnected);
        task.step(MqttEvent::Subscribed);
        task.step(MqttEvent::Subscribed);
        task.step(MqttEvent::FirstPinged(KeepAlive::Infinite));
        assert_eq!(task.action, MqttAction::StartTicker(60));
        task.step(MqttEvent::TickerStarted);
    }
}

#[test]
fn the_program_takes_the_latest_temperatures() {
    let mut latest = Latest::new();
    assert_eq!(latest.take(), None);
    let mut task = connected();
    task.step(published("zigbee2mqtt/North", Some(21.5)));
    for south in [-3.25, 4.0, 5.5] {
        task.step(published("zigbee2mqtt/Balcony South", Some(south)));
        let MqttAction::HandOut(n, s) = task.action else {
            panic!("not handed out");
        };
        latest.put(n, s);
        task.step(MqttEvent::HandedOut);
        assert_eq!(task.action, MqttAction::Poll);
    }
    assert_eq!(latest.take(), Some((reading(21.5), reading(5.5))));
    assert_eq!(latest.take(), None);
}

#[test]
fn temperatures_are_handed_out_once_both_are_known() {
    let mut task = connected();
    task.step(published("zigbee2mqtt/North", Some(21.5)));
    assert_eq!(task.action, MqttAction::Poll);
    task.step(published("zigbee2mqtt/Balcony South", Some(-3.25)));
    assert_eq!(task.action, MqttAction::HandOut(reading(21.5), reading(-3.25)));
    task.step(MqttEvent::HandedOut);
    assert_eq!(task.action, MqttAction::Poll);
    task.step(published("zigbee2mqtt/North", Some(22.0)));
    assert_eq!(task.action, MqttAction::HandOut(reading(22.0), reading(-3.25)));
}

#[test]
fn another_topic_hands_out_what_is_known() {
    let mut task = connected();
    task.step(published("zigbee2mqtt/Kitchen", Some(1.0)));
    assert_eq!(task.action, MqttAction::Poll);
    assert_eq!((task.north, task.south), (None, None));
    task.north = Some(reading(1.0));
    task.south = Some(reading(2.0));
    task.step(published("zigbee2mqtt/Kitchen", Some(3.0)));
    assert_eq!(task.action, MqttAction::HandOut(reading(1.0), reading(2.0)));
}

#[test]
fn messages_without_a_temperature_change_nothing() {
    let mut task = connected();
    task.step(published("zigbee2mqtt/North", Some(21.5)));
    task.step(published("zigbee2mqtt/Balcony South", Some(4.0)));
    task.step(MqttEvent::HandedOut);
    task.step(published("zigbee2mqtt/North", None));
    assert_eq!(task.action, MqttAction::Poll);
    assert_eq!((task.north, task.south), (Some(reading(21.5)), Some(reading(4.0))));
}

#[test]
fn temperatures_survive_a_lost_connection() {
    let mut task = connected();
    task.step(published("zigbee2mqtt/North", Some(21.5)));
    task.step(MqttEvent::PollFailed);
    assert_eq!(task.action, MqttAction::Sleep(10));
    task.step(MqttEvent::Slept);
    task.step(MqttEvent::Wifi(WifiState::Disconnected));
    task.step(MqttEvent::NoWifiState);
    assert_eq!(task.action, MqttAction::NextWifiState);
    assert_eq!(task.north, Some(reading(21.5)));
}

#[test]
fn readings_are_equal_as_numbers() {
    let values = [0.0f32, -0.0, 1.0, -1.0, 21.5, f32::INFINITY, f32::NEG_INFINITY, f32::NAN,
        -f32::NAN, f32::MIN_POSITIVE, f32::MAX];
    for a in values {
        for b in values {
            assert_eq!(reading(a).equals(&reading(b)), a == b);
        }
    }
}
