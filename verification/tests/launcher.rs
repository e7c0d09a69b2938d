use mantle::launcher::desktop_entry::{
    application_dirs_for_user, collect_entries, has_empty_key_line, current_locale, parse_exec, shell_words_split, split_semicolons,
    xdg_application_dirs,
};
use mantle::launcher::search::{build_haystack, rank, rank_scored, usage_count_for};
use mantle::launcher::service::{
    command_argv, first_available_terminal, plan_launch, search, split_command, terminal_invocation,
};
use mantle::launcher::surface::launcher_surface_config;
use mantle::launcher::types::{AppEntry, LauncherError};
use mantle::launcher::usage::{count_bytes, count_from_stored, incremented, record_from_stored};
use mantle::layer_shell::{ExclusiveZone, KeyboardMode, Layer};

fn make_entry(name: &str, description: &str) -> AppEntry {
    AppEntry {
        id: name.to_lowercase().replace(' ', "_"),
        name: name.to_string(),
        description: Some(description.to_string()),
        icon: None,
        command: name.to_lowercase(),
        terminal: false,
        categories: vec![],
        keywords: vec![],
        desktop_file: format!("/usr/share/applications/{}.desktop", name.to_lowercase()),
    }
}

#[test]
fn parse_exec_simple() {
    let (prog, args) = parse_exec("firefox %u", "Firefox").unwrap();
    assert_eq!(prog, "firefox");
    assert!(args.is_empty(), "field code %u should be stripped, got {args:?}");
}

#[test]
fn parse_exec_quoted() {
    let (prog, args) = parse_exec(r#"/usr/bin/env "MY VAR=1" app %f"#, "App").unwrap();
    assert_eq!(prog, "/usr/bin/env");
    assert_eq!(args, vec!["MY VAR=1", "app"]);
}

#[test]
fn parse_exec_multiple_field_codes() {
    let (prog, args) = parse_exec("code --new-window %F", "VS Code").unwrap();
    assert_eq!(prog, "code");
    assert_eq!(args, vec!["--new-window"]);
}

#[test]
fn parse_exec_only_field_codes_is_an_error() {
    assert!(parse_exec("%u", "Nothing").is_err());
    assert!(parse_exec("", "Empty").is_err());
}

#[test]
fn shell_words_handle_quotes_and_escapes() {
    let words = shell_words_split(r#"a 'b c' "d\"e" f\ g"#).unwrap();
    assert_eq!(words, vec!["a", "b c", "d\"e", "f g"]);
}

#[test]
fn semicolon_lists_drop_empty_items() {
    assert_eq!(split_semicolons("Network;WebBrowser;;"), vec!["Network", "WebBrowser"]);
    assert!(split_semicolons("").is_empty());
}

#[test]
fn empty_query_sorts_by_frequency() {
    let entries = vec![
        make_entry("Firefox", "Web browser"),
        make_entry("Terminal", "Terminal emulator"),
        make_entry("Code", "Editor"),
    ];
    let usage = vec![("firefox".to_string(), 10), ("code".to_string(), 5)];
    let results = rank("", &entries, &usage, 10);
    assert_eq!(results[0].entry.name, "Firefox");
    assert_eq!(results[1].entry.name, "Code");
}

#[test]
fn fuzzy_match_returns_relevant() {
    let entries = vec![
        make_entry("Firefox", "Web browser"),
        make_entry("Files", "File manager"),
        make_entry("Terminal", "Terminal emulator"),
    ];
    let results = rank("fire", &entries, &[], 10);
    assert!(!results.is_empty());
    assert_eq!(results[0].entry.name, "Firefox");
}

#[test]
fn no_match_returns_empty() {
    let entries = vec![make_entry("Firefox", "Web browser")];
    let results = rank("zzzzzzzzz", &entries, &[], 10);
    assert!(results.is_empty());
}

#[test]
fn limit_is_respected() {
    let entries: Vec<AppEntry> = (0..20).map(|i| make_entry(&format!("App{i}"), "")).collect();
    let results = rank("App", &entries, &[], 5);
    assert!(results.len() <= 5);
}

#[test]
fn ranking_is_sorted_descending() {
    let entries: Vec<AppEntry> = (0..8).map(|i| make_entry(&format!("App{i}"), "")).collect();
    let usage = vec![("app3".to_string(), 7), ("app5".to_string(), 2)];
    let results = rank("", &entries, &usage, 8);
    for w in results.windows(2) {
        let a = w[0].score_num * w[1].score_den;
        let b = w[1].score_num * w[0].score_den;
        assert!(a >= b);
    }
    assert_eq!(results[0].entry.name, "App3");
    assert_eq!(results[0].launch_count, 7);
}

#[test]
fn search_empty_query_returns_results() {
    let entries = vec![make_entry("Firefox", "Web browser")];
    let results = search("", &entries, &[]);
    assert!(results.len() <= 10);
}

#[test]
fn haystack_joins_searchable_fields() {
    let mut e = make_entry("Firefox", "Web browser");
    e.keywords = vec!["internet".to_string()];
    assert_eq!(build_haystack(&e), "Firefox Web browser internet");
}

#[test]
fn usage_count_defaults_to_zero() {
    let usage = vec![("a".to_string(), 3)];
    assert_eq!(usage_count_for("a", &usage), 3);
    assert_eq!(usage_count_for("b", &usage), 0);
}

#[test]
fn launch_plan_for_known_and_unknown_apps() {
    let mut e = make_entry("Htop", "Processes");
    e.terminal = true;
    let entries = vec![e];
    let plan = plan_launch(&entries, "htop").unwrap();
    assert_eq!(plan.program, "htop");
    assert!(plan.terminal);
    let err = plan_launch(&entries, "nope").unwrap_err();
    assert_eq!(err.message, "unknown app id: nope");
}

#[test]
fn terminal_invocation_joins_command() {
    let (t, argv) = terminal_invocation("foot", "htop", &["-d".to_string(), "5".to_string()]);
    assert_eq!(t, "foot");
    assert_eq!(argv, vec!["-e", "htop -d 5"]);
    assert_eq!(first_available_terminal(&[false, false, true, true, false]).as_deref(), Some("kitty"));
    assert_eq!(first_available_terminal(&[false; 5]), None);
}

#[test]
fn typed_commands_split_at_first_space() {
    let (p, args) = split_command("ls  -la   /tmp");
    assert_eq!(p, "ls");
    assert_eq!(args, vec!["-la", "/tmp"]);
    let (p, args) = command_argv("echo hi");
    assert_eq!(p, "echo");
    assert_eq!(args, vec!["hi"]);
}

#[test]
fn usage_counts_round_trip() {
    assert_eq!(count_from_stored(Some(&count_bytes(77)[..])), 77);
    assert_eq!(count_from_stored(None), 0);
    assert_eq!(count_from_stored(Some(&incremented(u32::MAX)[..])), u32::MAX);
    assert_eq!(record_from_stored(b"firefox", &count_bytes(4)), Some(("firefox".to_string(), 4)));
    assert_eq!(record_from_stored(&[0xff], &count_bytes(4)), None);
}

#[test]
fn desktop_files_become_entries() {
    let files = vec![
        (
            "/usr/share/applications/firefox.desktop".to_string(),
            "[Desktop Entry]\nType=Application\nName=Firefox\nExec=firefox %u\nCategories=Network;WebBrowser;\n".to_string(),
        ),
        (
            "/usr/share/applications/hidden.desktop".to_string(),
            "[Desktop Entry]\nType=Application\nName=Hidden\nExec=hidden\nNoDisplay=true\n".to_string(),
        ),
        ("/usr/share/applications/broken.desktop".to_string(), "not a desktop file".to_string()),
    ];
    let entries = collect_entries(&files, None);
    assert_eq!(entries.len(), 1);
    assert_eq!(entries[0].name, "Firefox");
    assert_eq!(entries[0].command, "firefox %u");
    assert_eq!(entries[0].categories, vec!["Network", "WebBrowser"]);
}

#[test]
fn application_dirs_and_locale() {
    let dirs = xdg_application_dirs(Some("/home/u/.local/share".to_string()), Some("/a::/b/".to_string()));
    assert_eq!(dirs, vec!["/home/u/.local/share/applications", "/a/applications", "/b/applications"]);
    let dirs = xdg_application_dirs(None, None);
    assert_eq!(dirs, vec!["/usr/local/share/applications", "/usr/share/applications"]);
    assert_eq!(current_locale(Some("en_US.UTF-8".to_string())).as_deref(), Some("en-US"));
    assert_eq!(current_locale(None), None);
}

#[test]
fn launcher_surface_is_a_floating_overlay() {
    let cfg = launcher_surface_config();
    assert_eq!(cfg.namespace, "mantle-launcher");
    assert_eq!(cfg.layer, Layer::Overlay);
    assert_eq!(cfg.anchors, [false, false, false, false]);
    assert_eq!(cfg.exclusive_zone, ExclusiveZone::NoZone);
    assert_eq!(cfg.keyboard_mode, KeyboardMode::Exclusive);
}

fn stored_count(db: &sled::Db, id: &str) -> u32 {
    let v = db.get(id.as_bytes()).unwrap();
    count_from_stored(v.as_deref())
}

fn store_increment(db: &sled::Db, id: &str) {
    let next = incremented(stored_count(db, id));
    db.insert(id.as_bytes(), &next).unwrap();
    db.flush().unwrap();
}

#[test]
fn increment_and_count() {
    let db = sled::Config::new().temporary(true).open().unwrap();
    assert_eq!(stored_count(&db, "app.firefox"), 0);
    store_increment(&db, "app.firefox");
    store_increment(&db, "app.firefox");
    assert_eq!(stored_count(&db, "app.firefox"), 2);
}

#[test]
fn all_counts_returns_all() {
    let db = sled::Config::new().temporary(true).open().unwrap();
    store_increment(&db, "a");
    store_increment(&db, "b");
    store_increment(&db, "b");
    let counts: Vec<(String, u32)> = db
        .iter()
        .map(|r| r.unwrap())
        .filter_map(|(k, v)| record_from_stored(&k, &v))
        .collect();
    assert_eq!(counts.len(), 2);
    let b = counts.iter().find(|(id, _)| id == "b").unwrap();
    assert_eq!(b.1, 2);
}

#[test]
fn user_application_dirs_end_with_the_system_ones() {
    let dirs = application_dirs_for_user(Some("/opt/a:/opt/b".to_string()));
    let n = dirs.len();
    assert!(n == 2 || n == 3);
    assert_eq!(dirs[n - 2], "/opt/a/applications");
    assert_eq!(dirs[n - 1], "/opt/b/applications");
}

#[test]
fn launcher_error_message() {
    let e = LauncherError { message: "unknown app id: x".to_string() };
    assert_eq!(e.into_message(), "unknown app id: x");
}

#[test]
fn exec_tilde_is_expanded() {
    let (prog, args) = parse_exec("~/bin/mytool --flag", "MyTool").unwrap();
    assert!(!prog.starts_with('~'));
    assert!(prog.ends_with("/bin/mytool"));
    assert_eq!(args, vec!["--flag".to_string()]);
}

#[test]
fn typed_command_tilde_is_expanded() {
    let (prog, args) = command_argv("~/bin/run a  b");
    assert!(!prog.starts_with('~'));
    assert!(prog.ends_with("/bin/run"));
    assert_eq!(args, vec!["a".to_string(), "b".to_string()]);
}

#[test]
fn empty_key_lines_are_found() {
    assert!(has_empty_key_line("[Desktop Entry]\n=oops\n"));
    assert!(has_empty_key_line("[Desktop Entry]\nName=A\n  \t=x"));
    assert!(!has_empty_key_line("[Desktop Entry]\nName=A=B\n# =comment\n\n"));
    assert!(!has_empty_key_line(""));
}

#[test]
fn shell_words_never_yield_empty_words() {
    let w = shell_words_split("a  ''  \"\"   b").unwrap();
    assert!(w.iter().all(|s| !s.is_empty()));
    let plain = "foo\t bar  baz\r\n";
    let w = shell_words_split(plain).unwrap();
    let expected: Vec<String> = plain.split_ascii_whitespace().map(String::from).collect();
    assert_eq!(w, expected);
}

#[test]
fn ranking_from_given_scores() {
    let entries = vec![make_entry("Alpha", "a"), make_entry("Beta", "b"), make_entry("Gamma", "c")];
    let usage = vec![("beta".to_string(), 4)];
    let r = rank_scored(false, &entries, &usage, &vec![Some(10), None, Some(20)], 10);
    let names: Vec<&str> = r.iter().map(|x| x.entry.name.as_str()).collect();
    assert_eq!(names, vec!["Gamma", "Alpha"]);
    assert_eq!((r[0].score_num, r[0].score_den), (7 * 20 * 4, 10 * 20 * 4));
    assert_eq!((r[1].score_num, r[1].score_den), (7 * 10 * 4, 10 * 20 * 4));
    let r = rank_scored(true, &entries, &usage, &vec![None, None, None], 2);
    assert_eq!(r.len(), 2);
    assert_eq!(r[0].entry.name, "Beta");
    assert_eq!(r[0].launch_count, 4);
    assert!(r.iter().all(|x| x.score_num <= x.score_den));
}
