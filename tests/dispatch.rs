use rumpv::dispatch::{Action, Dispatch, Event, Phase};
use rumpv::launch::launch_plan;
use rumpv::window::{find_target_window, is_target_window, WindowInfo, WindowSearch};

fn files(names: &[&str]) -> Vec<String> {
    names.iter().map(|s| s.to_string()).collect()
}

fn dispatch(names: &[&str], player: Option<&str>) -> Dispatch {
    Dispatch::new(
        "\\\\.\\pipe\\umpv".to_string(),
        "replace".to_string(),
        files(names),
        player.map(|p| p.to_string()),
    )
}

fn window(class: &str, pid: u32) -> WindowInfo {
    WindowInfo { class_name: class.to_string(), pid }
}

#[test]
fn absent_channel_launches_with_same_files_and_address() {
    let mut d = dispatch(&["C:\\a.mp4", "http://b"], None);
    assert!(matches!(d.phase, Phase::Probing));
    match d.step(Event::ChannelUnavailable) {
        Action::Launch { plan } => {
            assert_eq!(plan.program, "mpv.exe");
            assert_eq!(
                plan.args,
                files(&["--input-ipc-server=\\\\.\\pipe\\umpv", "--", "C:\\a.mp4", "http://b"])
            );
        }
        _ => panic!("expected a launch"),
    }
    assert!(matches!(d.phase, Phase::Launching));
    assert!(matches!(d.step(Event::Launched), Action::Finish { ok: true }));
    assert!(matches!(d.phase, Phase::Done { ok: true }));
}

#[test]
fn player_override_names_the_program() {
    let mut d = dispatch(&[], Some("D:\\mpv\\mpv.com"));
    match d.step(Event::ChannelUnavailable) {
        Action::Launch { plan } => {
            assert_eq!(plan.program, "D:\\mpv\\mpv.com");
            assert_eq!(plan.args, files(&["--input-ipc-server=\\\\.\\pipe\\umpv", "--"]));
        }
        _ => panic!("expected a launch"),
    }
}

#[test]
fn launch_failure_fails_the_dispatch() {
    let mut d = dispatch(&["a"], None);
    let _ = d.step(Event::ChannelUnavailable);
    assert!(matches!(d.step(Event::LaunchFailed), Action::Finish { ok: false }));
}

#[test]
fn launch_plan_direct() {
    let plan = launch_plan(&files(&["x y.mkv"]), "\\\\.\\pipe\\p", None);
    assert_eq!(plan.program, "mpv.exe");
    assert_eq!(plan.args, files(&["--input-ipc-server=\\\\.\\pipe\\p", "--", "x y.mkv"]));
}

#[test]
fn existing_instance_gets_lines_in_order_then_its_window() {
    let mut d = dispatch(&["C:\\b.mp4", "C:\\a \"q\".mp4"], None);
    match d.step(Event::ChannelOpened { owner: Some(4242) }) {
        Action::Write { stream } => assert_eq!(
            stream,
            "raw loadfile \"C:\\\\b.mp4\" \"replace\"\n\
             raw loadfile \"C:\\\\a \\\"q\\\".mp4\" \"replace\"\n"
        ),
        _ => panic!("expected a write"),
    }
    let pid = match d.step(Event::Written) {
        Action::Activate { pid } => pid,
        _ => panic!("expected an activation"),
    };
    assert_eq!(pid, 4242);
    let windows = vec![
        window("Notepad", 4242),
        window("mpv", 17),
        window("mpv", 4242),
        window("mpv", 4242),
    ];
    assert_eq!(find_target_window(&windows, pid), Some(2));
    assert!(matches!(d.step(Event::Activated), Action::Finish { ok: true }));
}

#[test]
fn zero_files_activate_without_writing() {
    let mut d = dispatch(&[], None);
    match d.step(Event::ChannelOpened { owner: Some(7) }) {
        Action::Activate { pid } => assert_eq!(pid, 7),
        _ => panic!("expected an activation and no write"),
    }
    assert!(matches!(d.step(Event::Activated), Action::Finish { ok: true }));
}

#[test]
fn unknown_owner_skips_activation() {
    let mut d = dispatch(&["a"], None);
    assert!(matches!(d.step(Event::ChannelOpened { owner: None }), Action::Write { .. }));
    assert!(matches!(d.step(Event::Written), Action::Finish { ok: true }));

    let mut d = dispatch(&["a"], None);
    assert!(matches!(d.step(Event::ChannelOpened { owner: Some(0) }), Action::Write { .. }));
    assert!(matches!(d.step(Event::Written), Action::Finish { ok: true }));

    let mut d = dispatch(&[], None);
    assert!(matches!(d.step(Event::ChannelOpened { owner: None }), Action::Finish { ok: true }));
}

#[test]
fn failed_write_falls_back_to_launch() {
    let mut d = dispatch(&["a"], None);
    let _ = d.step(Event::ChannelOpened { owner: Some(9) });
    match d.step(Event::WriteFailed) {
        Action::Launch { plan } => {
            assert_eq!(plan.args, files(&["--input-ipc-server=\\\\.\\pipe\\umpv", "--", "a"]))
        }
        _ => panic!("expected a launch"),
    }
}

#[test]
fn unexpected_event_fails_the_dispatch() {
    let mut d = dispatch(&["a"], None);
    assert!(matches!(d.step(Event::Written), Action::Finish { ok: false }));
    assert!(matches!(d.phase, Phase::Done { ok: false }));
}

#[test]
fn window_search_stops_at_first_match() {
    let mut search: WindowSearch<&str> = WindowSearch::new(5);
    assert!(search.offer("mpv", 4, "h1"));
    assert!(search.offer("other", 5, "h2"));
    assert!(search.found.is_none());
    assert!(!search.offer("mpv", 5, "h3"));
    assert_eq!(search.found, Some("h3"));
}

#[test]
fn no_matching_window_finds_nothing() {
    let windows = vec![window("mpv", 1), window("mpvx", 2), window("MPV", 2)];
    assert_eq!(find_target_window(&windows, 2), None);
    assert_eq!(find_target_window(&Vec::new(), 2), None);
    assert!(is_target_window("mpv", 3, 3));
    assert!(!is_target_window("mp", 3, 3));
}
