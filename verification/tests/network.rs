use rp2040_badger_w::ntp::{
    ntp_instant, ntp_usec, Address, EmbassyTimestamp, NtpAction, NtpEvent, NtpTask,
    RETRY_SECONDS,
};
use rp2040_badger_w::time_util::Timestamp;
use rp2040_badger_w::wifi::{
    JoinRequest, WifiAction, WifiEvent, WifiState, WifiTask, JOIN_RETRY_SECONDS,
};

#[test]
fn names_of_the_states() {
    assert_eq!(WifiState::Disconnected.to_str(), "Disconnected");
    assert_eq!(WifiState::Joining.to_str(), "Joining");
    assert_eq!(WifiState::Connected.to_str(), "Connected");
    assert_eq!(WifiState::LinkUp.to_str(), "LinkUp");
    assert_eq!(WifiState::NetworkUp.to_str(), "NetworkUp");
}

fn request(limit_seconds: Option<u64>) -> JoinRequest {
    JoinRequest { ssid: "home", password: "open sesame", limit_seconds }
}

#[test]
fn wifi_joins_with_or_without_a_limit() {
    let (mut badge, first) = WifiTask::start("home", "open sesame");
    assert_eq!(first, vec![WifiState::Joining]);
    let (mut clock, first) = WifiTask::start_unlimited("home", "open sesame");
    assert_eq!(first, vec![WifiState::Joining]);
    for _ in 0..3 {
        assert_eq!(badge.action, WifiAction::Join(request(Some(30))));
        assert_eq!(clock.action, WifiAction::Join(request(None)));
        assert_eq!(badge.step(WifiEvent::JoinTimedOut), vec![WifiState::Disconnected]);
        assert_eq!(clock.step(WifiEvent::JoinFailed), vec![WifiState::Disconnected]);
        assert_eq!(badge.action, WifiAction::Sleep(2));
        assert_eq!(clock.action, WifiAction::Sleep(2));
        assert_eq!(badge.step(WifiEvent::Slept), vec![WifiState::Joining]);
        assert_eq!(clock.step(WifiEvent::Slept), vec![WifiState::Joining]);
    }
}

#[test]
fn wifi_connects_and_starts_over() {
    let (mut task, mut published) = WifiTask::start("home", "open sesame");
    let join = WifiAction::Join(request(Some(30)));
    assert_eq!(task.action, join);
    let script = [
        (WifiEvent::JoinFailed, WifiAction::Sleep(2)),
        (WifiEvent::Slept, join),
        (WifiEvent::JoinTimedOut, WifiAction::Sleep(JOIN_RETRY_SECONDS)),
        (WifiEvent::Slept, join),
        (WifiEvent::Joined, WifiAction::AwaitLinkUp),
        (WifiEvent::LinkUp, WifiAction::AwaitConfigUp),
        (WifiEvent::ConfigUp, WifiAction::AwaitLinkDown),
        (WifiEvent::LinkDown, join),
    ];
    for (event, action) in script {
        published.extend(task.step(event));
        assert_eq!(task.action, action);
    }
    assert_eq!(
        published,
        vec![
            WifiState::Joining,
            WifiState::Disconnected,
            WifiState::Joining,
            WifiState::Disconnected,
            WifiState::Joining,
            WifiState::Connected,
            WifiState::LinkUp,
            WifiState::NetworkUp,
            WifiState::Disconnected,
            WifiState::Joining,
        ]
    );
}

#[test]
fn uptime_is_split_into_seconds_and_microseconds() {
    let mut t = EmbassyTimestamp::default();
    assert_eq!((t.timestamp_sec(), t.timestamp_subsec_micros()), (0, 0));
    t.init(12_345_678);
    assert_eq!((t.timestamp_sec(), t.timestamp_subsec_micros()), (12, 345_678));
    t.init(u64::MAX);
    assert_eq!(t.timestamp_sec() * 1_000_000 + t.timestamp_subsec_micros() as u64, u64::MAX);
}

#[test]
fn server_time_in_microseconds() {
    assert_eq!(ntp_usec(0, 0), 0);
    assert_eq!(ntp_usec(1, 0x8000_0000), 1_500_000);
    assert_eq!(ntp_usec(0, 4_294), 0);
    assert_eq!(ntp_usec(0, 4_295), 1);
    assert_eq!(ntp_usec(7, u32::MAX), 7_999_999);
    assert_eq!(ntp_usec(u32::MAX, u32::MAX), 4_294_967_295_999_999);
}

#[test]
fn server_time_as_an_instant() {
    let ts = ntp_instant(1_704_067_200, 0x4000_0000);
    assert_eq!((ts.as_second(), ts.subsec_nanosecond()), (1_704_067_200, 250_000_000));
    assert_eq!(ntp_instant(u32::MAX, u32::MAX).as_second(), 4_294_967_295);
}

#[test]
fn ntp_asks_once_per_connection() {
    let first = Address { octets: [1, 2, 3, 4] };
    let second = Address { octets: [5, 6, 7, 8] };
    let mut task = NtpTask::start();
    task.step(NtpEvent::Wifi(WifiState::Joining));
    assert_eq!(task.action, NtpAction::AwaitNetworkUp);
    task.step(NtpEvent::Wifi(WifiState::NetworkUp));
    assert_eq!(task.action, NtpAction::Resolve);
    task.step(NtpEvent::Resolved(vec![first, second]));
    assert_eq!(task.action, NtpAction::Bind(first));
    task.step(NtpEvent::Bound);
    assert_eq!(task.action, NtpAction::Query(first));
    task.step(NtpEvent::Reply { sec: 60, sec_fraction: 0 });
    assert_eq!(task.action, NtpAction::Send(Timestamp::from_second(60).unwrap()));
    task.step(NtpEvent::Sent);
    assert_eq!(task.action, NtpAction::AwaitDisconnected);
    task.step(NtpEvent::Wifi(WifiState::NetworkUp));
    assert_eq!(task.action, NtpAction::AwaitDisconnected);
    task.step(NtpEvent::Wifi(WifiState::Disconnected));
    assert_eq!(task.action, NtpAction::AwaitNetworkUp);
}

#[test]
fn ntp_leaves_the_server_alone_after_a_failed_query() {
    let mut task = NtpTask { action: NtpAction::Query(Address { octets: [1, 2, 3, 4] }) };
    task.step(NtpEvent::QueryFailed);
    for state in [WifiState::NetworkUp, WifiState::Joining, WifiState::NetworkUp] {
        task.step(NtpEvent::Wifi(state));
        assert_eq!(task.action, NtpAction::AwaitDisconnected);
    }
    task.step(NtpEvent::Wifi(WifiState::Disconnected));
    assert_eq!(task.action, NtpAction::AwaitNetworkUp);
    task.step(NtpEvent::Wifi(WifiState::NetworkUp));
    assert_eq!(task.action, NtpAction::Resolve);
}

#[test]
fn ntp_failures_wait_for_the_network_again() {
    let address = Address { octets: [1, 2, 3, 4] };
    for event in [NtpEvent::Resolved(vec![]), NtpEvent::ResolveFailed] {
        let mut task = NtpTask { action: NtpAction::Resolve };
        task.step(event);
        assert_eq!(task.action, NtpAction::Sleep(30));
        task.step(NtpEvent::Slept);
        assert_eq!(task.action, NtpAction::AwaitNetworkUp);
    }
    let mut task = NtpTask { action: NtpAction::Bind(address) };
    task.step(NtpEvent::BindFailed);
    assert_eq!(task.action, NtpAction::Sleep(RETRY_SECONDS));
    let mut task = NtpTask { action: NtpAction::Query(address) };
    task.step(NtpEvent::QueryFailed);
    assert_eq!(task.action, NtpAction::AwaitDisconnected);
}
