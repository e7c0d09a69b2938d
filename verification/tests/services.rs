use mantle::bridge::{ping, BridgeError};
use mantle::config::schema::PowerAction;
use mantle::layer_shell::{notifications_surface_config, ExclusiveZone, KeyboardMode, Layer, LayerShellManager, SurfaceConfig};
use mantle::services::audio::SinkTracker;
use mantle::services::battery::{first_battery, BatteryState};
use mantle::services::brightness::{brightness_changed, read_sysfs_u32};
use mantle::services::mpris::{
    extract_i64, extract_string, metadata_from, mpris_players, pick_player, player_changed,
    player_short_name, MetaValue, PlaybackStatus, PlayerKey,
};
use mantle::services::network::{
    connection_type_from, network_probe, network_step, ConnectionType, ConnectivityState,
    NetQuery, NetReply, NetStep, NetworkSnapshot, NetworkState,
};
use mantle::services::power::{logind_call_for, session_object_path, LogindCall};
use mantle::services::widget_config::WidgetLayerConfig;

#[test]
fn playback_status_parses_known_values() {
    assert_eq!(PlaybackStatus::from_str("Playing"), PlaybackStatus::Playing);
    assert_eq!(PlaybackStatus::from_str("Paused"), PlaybackStatus::Paused);
    assert_eq!(PlaybackStatus::from_str("Stopped"), PlaybackStatus::Stopped);
}

#[test]
fn playback_status_unknown_string_becomes_stopped() {
    assert_eq!(PlaybackStatus::from_str("unknown"), PlaybackStatus::Stopped);
    assert_eq!(PlaybackStatus::from_str(""), PlaybackStatus::Stopped);
}

#[test]
fn default_config_has_three_widgets() {
    let cfg = WidgetLayerConfig::default();
    assert_eq!(cfg.widgets.len(), 3);
    assert_eq!(cfg.widgets[0].id, "calendar");
    assert_eq!(cfg.widgets[1].id, "system-monitor");
    assert_eq!(cfg.widgets[2].id, "media-controls");
}

#[test]
fn all_default_widgets_are_visible() {
    assert!(WidgetLayerConfig::default().widgets.iter().all(|w| w.visible));
}

#[test]
fn default_anchors_are_set() {
    let cfg = WidgetLayerConfig::default();
    assert_eq!(cfg.widgets[0].anchor, "top-right");
    assert_eq!(cfg.widgets[2].anchor, "bottom-right");
}

#[test]
fn mpris_metadata_and_players() {
    let meta = vec![
        ("xesam:title".to_string(), MetaValue::Str("Song".to_string())),
        ("xesam:artist".to_string(), MetaValue::Array(vec![MetaValue::Str("A".to_string()), MetaValue::Str("B".to_string())])),
        ("mpris:length".to_string(), MetaValue::I64(1_000_000)),
        ("xesam:album".to_string(), MetaValue::I64(3)),
    ];
    assert_eq!(extract_string(&meta, "xesam:title").as_deref(), Some("Song"));
    assert_eq!(extract_i64(&meta, "mpris:length"), Some(1_000_000));
    let m = metadata_from(&meta);
    assert_eq!(m.artist.as_deref(), Some("A"));
    assert_eq!(m.album, None);
    assert_eq!(m.art_url, None);
    let names = vec![
        "org.freedesktop.DBus".to_string(),
        "org.mpris.MediaPlayer2.spotify".to_string(),
        "org.mpris.MediaPlayer2.firefox.instance1".to_string(),
    ];
    let players = mpris_players(&names);
    assert_eq!(players, vec!["org.mpris.MediaPlayer2.spotify", "org.mpris.MediaPlayer2.firefox.instance1"]);
    assert_eq!(player_short_name(&players[0]), "spotify");
    assert_eq!(player_short_name("other"), "other");
    assert_eq!(pick_player(&vec![false, true, true]), Some(1));
    assert_eq!(pick_player(&vec![false, false]), Some(0));
    assert_eq!(pick_player(&vec![]), None);
}

#[test]
fn mpris_changes_are_detected() {
    let a = PlayerKey { playback_status: PlaybackStatus::Playing, title: Some("x".to_string()), artist: None };
    let b = PlayerKey { playback_status: PlaybackStatus::Playing, title: Some("x".to_string()), artist: None };
    let c = PlayerKey { playback_status: PlaybackStatus::Paused, title: Some("x".to_string()), artist: None };
    assert!(!player_changed(&Some(a.clone()), &Some(b)));
    assert!(player_changed(&Some(a.clone()), &Some(c)));
    assert!(player_changed(&None, &Some(a)));
    assert!(!player_changed(&None, &None));
}

#[test]
fn battery_states_and_devices() {
    assert_eq!(BatteryState::from_u32(1), BatteryState::Charging);
    assert_eq!(BatteryState::from_u32(4), BatteryState::FullyCharged);
    assert_eq!(BatteryState::from_u32(99), BatteryState::Unknown);
    assert_eq!(first_battery(&vec![1, 2, 2]), Some(1));
    assert_eq!(first_battery(&vec![1, 3]), None);
}

#[test]
fn brightness_sysfs_values() {
    assert_eq!(read_sysfs_u32("255\n"), Some(255));
    assert_eq!(read_sysfs_u32("  +7 "), Some(7));
    assert_eq!(read_sysfs_u32("4294967296"), None);
    assert_eq!(read_sysfs_u32("abc"), None);
    assert_eq!(read_sysfs_u32(""), None);
    assert!(brightness_changed(None, 5));
    assert!(!brightness_changed(Some(5), 5));
}

#[test]
fn power_actions_map_to_logind() {
    assert_eq!(logind_call_for(PowerAction::Logout), LogindCall::TerminateSession);
    assert_eq!(logind_call_for(PowerAction::Poweroff), LogindCall::PowerOff);
    assert_eq!(session_object_path(None), "/org/freedesktop/login1/session/auto");
    assert_eq!(session_object_path(Some("c2".to_string())), "/org/freedesktop/login1/session/c2");
}

#[test]
fn network_codes_and_types() {
    assert_eq!(NetworkState::from_u32(70), NetworkState::ConnectedGlobal);
    assert_eq!(NetworkState::from_u32(5), NetworkState::Unknown);
    assert_eq!(ConnectivityState::from_u32(4), ConnectivityState::Full);
    assert_eq!(connection_type_from("802-11-wireless"), ConnectionType::Wifi);
    assert_eq!(connection_type_from(""), ConnectionType::NoConnection);
    assert_eq!(connection_type_from("bond"), ConnectionType::Other("bond".to_string()));
    let u = NetworkSnapshot::unavailable();
    assert!(!u.available);
    assert_eq!(u.connection_type, ConnectionType::NoConnection);
}

fn ask(step: NetStep) -> mantle::services::network::NetProbe {
    match step {
        NetStep::Ask(p) => p,
        NetStep::Done(_) => panic!("probe ended early"),
    }
}

#[test]
fn network_probe_fills_wifi_details() {
    let p = network_probe(Some(70), None);
    assert_eq!(p.pending, NetQuery::PrimaryConnection);
    let p = ask(network_step(p, NetReply::Path("/a/1".to_string())));
    assert_eq!(p.pending, NetQuery::ConnectionType { active: "/a/1".to_string() });
    let p = ask(network_step(p, NetReply::Text("802-11-wireless".to_string())));
    let p = ask(network_step(p, NetReply::Paths(vec!["/d/3".to_string(), "/d/4".to_string()])));
    assert_eq!(p.pending, NetQuery::DeviceInterface { device: "/d/3".to_string() });
    let p = ask(network_step(p, NetReply::Text("wlan0".to_string())));
    let p = ask(network_step(p, NetReply::Path("/ip4/1".to_string())));
    let p = ask(network_step(p, NetReply::Text("192.168.1.5".to_string())));
    assert_eq!(p.pending, NetQuery::AccessPoint { device: "/d/3".to_string() });
    let p = ask(network_step(p, NetReply::Path("/ap/9".to_string())));
    let p = ask(network_step(p, NetReply::Bytes(b"home".to_vec())));
    match network_step(p, NetReply::Byte(80)) {
        NetStep::Done(s) => {
            assert!(s.available);
            assert_eq!(s.state, NetworkState::ConnectedGlobal);
            assert_eq!(s.connectivity, ConnectivityState::Unknown);
            assert_eq!(s.connection_type, ConnectionType::Wifi);
            assert_eq!(s.interface.as_deref(), Some("wlan0"));
            assert_eq!(s.ip4_address.as_deref(), Some("192.168.1.5"));
            assert_eq!(s.ssid.as_deref(), Some("home"));
            assert_eq!(s.signal_strength, Some(80));
        }
        NetStep::Ask(_) => panic!("probe should be done"),
    }
}

#[test]
fn network_probe_stops_without_connection() {
    let p = network_probe(Some(20), Some(1));
    match network_step(p, NetReply::Path("/".to_string())) {
        NetStep::Done(s) => {
            assert_eq!(s.state, NetworkState::Disconnected);
            assert_eq!(s.connectivity, ConnectivityState::NoConnectivity);
            assert_eq!(s.connection_type, ConnectionType::NoConnection);
        }
        NetStep::Ask(_) => panic!("probe should end"),
    }
    let p = ask(network_step(network_probe(None, None), NetReply::Path("/a".to_string())));
    let p = ask(network_step(p, NetReply::Text("802-3-ethernet".to_string())));
    let p = ask(network_step(p, NetReply::Paths(vec!["/d".to_string()])));
    let p = ask(network_step(p, NetReply::Text(String::new())));
    match network_step(p, NetReply::Path("/".to_string())) {
        NetStep::Done(s) => {
            assert_eq!(s.connection_type, ConnectionType::Wired);
            assert_eq!(s.interface, None);
        }
        NetStep::Ask(_) => panic!("wired probe should end"),
    }
}

#[test]
fn audio_default_sink_is_followed() {
    let mut t = SinkTracker::new();
    t.on_sink_node(40, "alsa.speakers".to_string());
    t.on_sink_node(41, "bluez.headset".to_string());
    assert!(t.on_default_sink(Some("bluez.headset".to_string())));
    assert_eq!(t.command_target(), Some(41));
    assert!(!t.on_props(40, "alsa.speakers"));
    assert!(t.on_props(41, "bluez.headset"));
    t.on_global_remove(41);
    assert_eq!(t.command_target(), None);
    assert!(!t.on_default_sink(Some("missing".to_string())));
}

#[test]
fn surfaces_and_monitors() {
    let bar = SurfaceConfig::top_bar(36, "mantle-bar".to_string());
    assert_eq!(bar.layer, Layer::Top);
    assert_eq!(bar.anchors, [true, true, false, true]);
    assert_eq!(bar.exclusive_zone, ExclusiveZone::Fixed(36));
    let n = notifications_surface_config();
    assert_eq!(n.margins, (40, 0, 0, 0));
    assert_eq!(n.keyboard_mode, KeyboardMode::NoFocus);
    let m = LayerShellManager::monitor_info(2, None, Some("DP-1".to_string()));
    assert_eq!(m.name, "monitor-2");
    let m = LayerShellManager::monitor_info(0, Some("LG".to_string()), None);
    assert_eq!(m.name, "LG");
}

#[test]
fn bridge_error_and_ping() {
    let e = BridgeError::new("E42".to_string(), "bad thing".to_string());
    assert_eq!(e.display(), "[E42] bad thing");
    assert_eq!(ping("hello").unwrap(), "pong: hello");
}
