use mantle::config::paths::{config_path, config_path_in};
use mantle::config::watch::{is_write_to, FsEventKind};
use mantle::config::schema::{
    BarLayer, Config, KeyboardMode, NotificationPosition, OutputConfig, PowerAction,
    PowerMenuConfig,
};

#[test]
fn config_path_is_non_empty() {
    let p = config_path();
    assert!(!p.is_empty());
    assert!(p.contains("mantle"));
    assert!(p.ends_with("config.toml"));
}

#[test]
fn config_path_joins_directories() {
    assert_eq!(config_path_in(Some("/home/u/.config".to_string())), "/home/u/.config/mantle/config.toml");
    assert_eq!(config_path_in(Some("/cfg/".to_string())), "/cfg/mantle/config.toml");
    assert_eq!(config_path_in(None), "~/.config/mantle/config.toml");
}

#[test]
fn default_config_has_expected_values() {
    let cfg = Config::default();
    assert_eq!(cfg.clock.format, "%H:%M");
    assert_eq!(cfg.clock.interval, 1000);
    assert_eq!(cfg.clock.timezone, None);
    assert_eq!(cfg.outputs.len(), 1);
    assert_eq!(cfg.outputs[0].name, "*");
    assert_eq!(cfg.outputs[0].height, 36);
    assert!(cfg.outputs[0].exclusive);
    assert!(cfg.workspaces.show_names);
    assert!(!cfg.workspaces.show_empty);
}

#[test]
fn default_output_config_details() {
    let o = OutputConfig::default();
    assert_eq!(o.layer, BarLayer::Top);
    assert_eq!(o.keyboard, KeyboardMode::NoFocus);
    assert_eq!(f64::from_bits(o.opacity_bits), 0.95);
    assert_eq!(o.left.modules, vec!["workspaces"]);
    assert_eq!(o.center.modules, vec!["clock"]);
    assert_eq!(o.right.modules, vec!["power-menu"]);
    assert_eq!(o.theme.background, "#1e1e2e");
    assert_eq!(o.theme.font_size, 13);
    let cfg = Config::default();
    assert_eq!(cfg.notifications.position, NotificationPosition::TopRight);
    assert_eq!(cfg.notifications.max_visible, 5);
    assert_eq!(cfg.notifications.timeout, 5000);
    assert_eq!(cfg.general.gap, 0);
}

#[test]
fn output_config_resolve_exact_match_wins() {
    let wildcard = OutputConfig { name: "*".into(), height: 36, ..OutputConfig::default() };
    let specific = OutputConfig { name: "DP-1".into(), height: 50, ..OutputConfig::default() };
    let configs = vec![wildcard, specific];
    assert_eq!(OutputConfig::resolve(&configs, "DP-1").height, 50);
    assert_eq!(OutputConfig::resolve(&configs, "HDMI-A-1").height, 36);
}

#[test]
fn output_config_resolve_first_entry_fallback() {
    let only = OutputConfig { name: "eDP-1".into(), height: 32, ..OutputConfig::default() };
    let configs = vec![only];
    assert_eq!(OutputConfig::resolve(&configs, "DP-1").height, 32);
}

#[test]
fn output_config_resolve_prefers_wildcard_over_first() {
    let a = OutputConfig { name: "eDP-1".into(), height: 20, ..OutputConfig::default() };
    let b = OutputConfig { name: "*".into(), height: 40, ..OutputConfig::default() };
    let c = OutputConfig { name: "DP-2".into(), height: 60, ..OutputConfig::default() };
    let configs = vec![a, b, c];
    assert_eq!(OutputConfig::resolve(&configs, "HDMI-A-1").height, 40);
    assert_eq!(OutputConfig::resolve(&configs, "DP-2").height, 60);
}

#[test]
fn power_menu_default_actions_are_sensible() {
    let cfg = PowerMenuConfig::default();
    assert!(cfg.actions.contains(&PowerAction::Reboot));
    assert!(cfg.actions.contains(&PowerAction::Poweroff));
    assert!(cfg.actions.contains(&PowerAction::Lock));
    assert!(!cfg.actions.contains(&PowerAction::HybridSleep));
}

#[test]
fn only_writes_to_the_file_reload() {
    let target = "/home/u/.config/mantle/config.toml";
    let hit = vec!["/tmp/x".to_string(), target.to_string()];
    let miss = vec!["/home/u/.config/mantle/other.toml".to_string()];
    assert!(is_write_to(FsEventKind::Modify, &hit, target));
    assert!(is_write_to(FsEventKind::Create, &hit, target));
    assert!(!is_write_to(FsEventKind::Other, &hit, target));
    assert!(!is_write_to(FsEventKind::Modify, &miss, target));
    assert!(!is_write_to(FsEventKind::Create, &Vec::new(), target));
}
