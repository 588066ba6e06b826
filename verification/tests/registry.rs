use lanwake::addr::{Ipv4Addr, MacAddr};
use lanwake::error::Error;
use lanwake::interface::{IpNetwork, Ipv4Network, NetworkInterface};
use lanwake::probe::{DeviceStatus, ProbeOutcome};
use lanwake::settings::{Auth, Device, Settings};

fn nas() -> Device {
    Device { name: "nas".to_string(), mac: "00:11:22:33:44:55".to_string(), ip: "192.168.1.10".to_string() }
}

fn same_device(a: &Device, b: &Device) -> bool {
    a.name == b.name && a.mac == b.mac && a.ip == b.ip
}

fn eth0() -> NetworkInterface {
    NetworkInterface {
        name: "eth0".to_string(),
        mac: Some(MacAddr(1, 2, 3, 4, 5, 6)),
        ips: vec![IpNetwork::V4(Ipv4Network::new(Ipv4Addr(192, 168, 1, 5), 24).unwrap())],
        up: true,
        loopback: false,
    }
}

fn device_entry(device: &Device) -> serde_yaml::Value {
    let mut entry = serde_yaml::Mapping::new();
    entry.insert("name".into(), device.name.clone().into());
    entry.insert("mac".into(), device.mac.clone().into());
    entry.insert("ip".into(), device.ip.clone().into());
    serde_yaml::Value::Mapping(entry)
}

fn document(settings: &Settings) -> serde_yaml::Value {
    let mut root = serde_yaml::Mapping::new();
    let auth = match &settings.auth {
        Some(auth) => {
            let mut pair = serde_yaml::Mapping::new();
            pair.insert("username".into(), auth.username.clone().into());
            pair.insert("password".into(), auth.password.clone().into());
            serde_yaml::Value::Mapping(pair)
        }
        None => serde_yaml::Value::Null,
    };
    root.insert("auth".into(), auth);
    let devices = settings.devices.iter().map(device_entry).collect();
    root.insert("devices".into(), serde_yaml::Value::Sequence(devices));
    let chosen = match &settings.chosen_interface {
        Some(name) => name.clone().into(),
        None => serde_yaml::Value::Null,
    };
    root.insert("chosen_interface".into(), chosen);
    serde_yaml::Value::Mapping(root)
}

fn text_at(value: &serde_yaml::Value, key: &str) -> Option<String> {
    value.get(key).and_then(|v| v.as_str()).map(|s| s.to_string())
}

fn reload(document: &serde_yaml::Value) -> Settings {
    let auth = document.get("auth").and_then(|pair| {
        Some(Auth { username: text_at(pair, "username")?, password: text_at(pair, "password")? })
    });
    let devices = document.get("devices").and_then(|list| list.as_sequence()).and_then(|list| {
        list.iter()
            .map(|entry| {
                Some(Device {
                    name: text_at(entry, "name")?,
                    mac: text_at(entry, "mac")?,
                    ip: text_at(entry, "ip")?,
                })
            })
            .collect::<Option<Vec<Device>>>()
    });
    Settings::init(auth, devices, text_at(document, "chosen_interface"))
}

#[test]
fn init_keeps_what_the_document_yielded() {
    let auth = Auth { username: "admin".to_string(), password: "hunter2".to_string() };
    let settings = Settings::init(Some(auth), Some(vec![nas()]), Some("eth0".to_string()));
    assert_eq!(settings.auth.as_ref().unwrap().username, "admin");
    assert_eq!(settings.auth.as_ref().unwrap().password, "hunter2");
    assert_eq!(settings.devices.len(), 1);
    assert!(same_device(&settings.devices[0], &nas()));
    assert_eq!(settings.chosen_interface, Some("eth0".to_string()));
}

#[test]
fn init_defaults_to_an_empty_registry() {
    let settings = Settings::init(None, None, None);
    assert!(settings.auth.is_none());
    assert!(settings.devices.is_empty());
    assert!(settings.chosen_interface.is_none());
}

#[test]
fn configuration_round_trip() {
    let mut settings = Settings::init(None, None, None);
    settings.replace_devices(vec![nas()]);
    let persisted = serde_yaml::to_string(&document(&settings)).unwrap();
    let read: serde_yaml::Value = serde_yaml::from_str(&persisted).unwrap();
    let reloaded = reload(&read);
    assert_eq!(reloaded.devices.len(), 1);
    assert_eq!(reloaded.devices[0].name, "nas");
    assert_eq!(reloaded.devices[0].mac, "00:11:22:33:44:55");
    assert_eq!(reloaded.devices[0].ip, "192.168.1.10");
    assert!(reloaded.auth.is_none());
    assert!(reloaded.chosen_interface.is_none());
}

#[test]
fn configuration_round_trip_with_every_key_set() {
    let auth = Auth { username: "admin".to_string(), password: "p: w#d".to_string() };
    let second = Device { name: "pc".to_string(), mac: "aa:bb:cc:dd:ee:ff".to_string(), ip: "10.0.0.2".to_string() };
    let settings = Settings::init(Some(auth), Some(vec![nas(), second]), Some("eth0".to_string()));
    let persisted = serde_yaml::to_string(&document(&settings)).unwrap();
    let reloaded = reload(&serde_yaml::from_str(&persisted).unwrap());
    assert_eq!(reloaded.auth.as_ref().unwrap().username, "admin");
    assert_eq!(reloaded.auth.as_ref().unwrap().password, "p: w#d");
    assert_eq!(reloaded.devices.len(), 2);
    assert!(same_device(&reloaded.devices[0], &settings.devices[0]));
    assert!(same_device(&reloaded.devices[1], &settings.devices[1]));
    assert_eq!(reloaded.chosen_interface, Some("eth0".to_string()));
}

#[test]
fn replace_devices_hands_back_the_old_list() {
    let mut settings = Settings::init(None, Some(vec![nas()]), Some("eth0".to_string()));
    let previous = settings.replace_devices(vec![]);
    assert_eq!(previous.len(), 1);
    assert!(same_device(&previous[0], &nas()));
    assert!(settings.devices.is_empty());
    assert_eq!(settings.chosen_interface, Some("eth0".to_string()));
}

#[test]
fn replace_auth_sets_the_pair() {
    let mut settings = Settings::init(None, Some(vec![nas()]), None);
    settings.replace_auth(Auth { username: "u".to_string(), password: "p".to_string() });
    assert_eq!(settings.auth.as_ref().unwrap().username, "u");
    assert_eq!(settings.auth.as_ref().unwrap().password, "p");
    assert_eq!(settings.devices.len(), 1);
}

#[test]
fn choosing_a_known_interface_sets_it() {
    let mut settings = Settings::init(None, None, None);
    assert_eq!(settings.choose_interface(&vec![eth0()], "eth0".to_string()), Ok(()));
    assert_eq!(settings.chosen_interface, Some("eth0".to_string()));
}

#[test]
fn choosing_an_unknown_interface_fails_and_changes_nothing() {
    let mut settings = Settings::init(None, Some(vec![nas()]), Some("eth0".to_string()));
    assert_eq!(
        settings.choose_interface(&vec![eth0()], "wlan9".to_string()),
        Err(Error::InterfaceNotFound)
    );
    assert_eq!(settings.chosen_interface, Some("eth0".to_string()));
    assert_eq!(settings.devices.len(), 1);
    assert!(Error::InterfaceNotFound.is_configuration());

    let mut fresh = Settings::init(None, None, None);
    assert_eq!(fresh.choose_interface(&vec![], "eth0".to_string()), Err(Error::InterfaceNotFound));
    assert_eq!(fresh.chosen_interface, None);
}

#[test]
fn probe_without_a_reply_is_offline() {
    assert_eq!(DeviceStatus::from_probe(ProbeOutcome::Replied), DeviceStatus::Online);
    assert_eq!(DeviceStatus::from_probe(ProbeOutcome::TimedOut), DeviceStatus::Offline);
    assert_eq!(DeviceStatus::from_probe(ProbeOutcome::Unreachable), DeviceStatus::Offline);
    assert_eq!(DeviceStatus::from_probe(ProbeOutcome::Failed), DeviceStatus::Offline);
    assert!(DeviceStatus::Online.is_online());
    assert!(!DeviceStatus::Offline.is_online());
}

#[test]
fn status_labels() {
    assert_eq!(DeviceStatus::Online.label(), "Online");
    assert_eq!(DeviceStatus::Offline.label(), "Offline");
}

#[test]
fn error_messages() {
    assert_eq!(Error::NoIpv4Address.message(), "No IPv4 address found");
    assert_eq!(Error::NoHardwareAddress.message(), "No MAC address found");
    assert_eq!(Error::NoInterfaceChosen.message(), "No interface chosen");
    assert_eq!(Error::InterfaceNotFound.message(), "No interface found");
    assert_eq!(Error::Channel.message(), "Unknown channel type");
    assert_eq!(Error::Transmission.message(), "Datagram not sent");
    assert_eq!(Error::Receive.message(), "Receive failed");
    assert_eq!(Error::NoReply.message(), "No ARP reply");
    assert_eq!(Error::TargetOffline.message(), "Target did not answer the probe");
    assert_eq!(Error::InvalidHardwareAddress.message(), "Invalid MAC address");
    assert_eq!(Error::OutOfSequence.message(), "Event out of sequence");
}

#[test]
fn configuration_errors_are_told_apart() {
    for e in [Error::NoIpv4Address, Error::NoHardwareAddress, Error::NoInterfaceChosen, Error::InterfaceNotFound] {
        assert!(e.is_configuration());
    }
    for e in [Error::Channel, Error::Transmission, Error::Receive, Error::NoReply, Error::TargetOffline, Error::InvalidHardwareAddress, Error::OutOfSequence] {
        assert!(!e.is_configuration());
    }
}
