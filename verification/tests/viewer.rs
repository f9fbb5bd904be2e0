use gremlin::dialog::{
    entry, handle_click, info, question, shown_answer, Click, Detection, DialogBackend,
};
use gremlin::effect::Fed;
use gremlin::error::{GremlinError, OllamaError};
use gremlin::ollama::ModelInfo;
use gremlin::process::{Invocation, Outcome, Output};
use gremlin::report::{model_report, vision_report};
use gremlin::service::{
    disable_command, find_gremlin_binary, install_step, status_command, status_report,
    uninstall_step, unit_text, BinaryStep, InstallStep, UninstallStep,
};
use gremlin::viewer::{
    ask_daemon, connect_error, decode_png, geometry_commands, hyprland_dispatch, hyprland_socket,
    move_command, poll_frame, socket_path, Backoff, Dispatch, ReplyReader, ReplyStep,
};
use gremlin::window::{
    display_size, move_due, pick_alpha, pick_format, placeholder_rgba, screen_side, size_ignored,
    start_position, AlphaMode, PollClock,
};

fn line(i: &Invocation) -> String {
    let mut all = vec![i.program.clone()];
    all.extend(i.args.iter().cloned());
    all.join("|")
}

fn out(success: bool, stdout: &[u8], stderr: &[u8]) -> Outcome {
    Ok(Output { success, stdout: stdout.to_vec(), stderr: stderr.to_vec() })
}

fn text(s: &str) -> Option<String> {
    Some(s.to_string())
}

#[test]
fn where_the_sockets_are() {
    assert_eq!(socket_path(&text("/run/user/7"), 7), "/run/user/7/gremlin.sock");
    assert_eq!(
        socket_path(&text("/run/user/7"), 7),
        gremlin::daemon::socket_path(&text("/run/user/7"), 7)
    );
    assert_eq!(socket_path(&None, 5), "/tmp/gremlin-5.sock");
    assert_eq!(
        hyprland_socket(&text("/r"), &text("sig")).unwrap(),
        "/r/hypr/sig/.socket.sock"
    );
    assert_eq!(hyprland_socket(&None, &None).unwrap_err(), "XDG_RUNTIME_DIR is not set");
    assert_eq!(
        hyprland_socket(&text("/r"), &None).unwrap_err(),
        "HYPRLAND_INSTANCE_SIGNATURE is not set"
    );
    assert_eq!(connect_error("s", "e"), "s: e");
}

#[test]
fn commands_to_hyprland() {
    assert_eq!(
        move_command(-3, 40),
        "dispatch movewindowpixel exact -3 40,class:^(gremlin-sprite)$"
    );
    assert_eq!(
        geometry_commands(192),
        [
            "dispatch setfloating class:^(gremlin-sprite)$",
            "dispatch resizewindowpixel exact 192 192,class:^(gremlin-sprite)$",
            "dispatch pin class:^(gremlin-sprite)$"
        ]
    );
    let e = || "e".to_string();
    assert!(hyprland_dispatch("s", &Dispatch::Sent).is_ok());
    assert_eq!(
        hyprland_dispatch("s", &Dispatch::NoConnection(e())).unwrap_err(),
        "cannot connect to s: e"
    );
    assert_eq!(
        hyprland_dispatch("s", &Dispatch::NotSent(e())).unwrap_err(),
        "cannot send Hyprland command: e"
    );
    assert_eq!(
        hyprland_dispatch("s", &Dispatch::NotClosed(e())).unwrap_err(),
        "cannot close Hyprland IPC socket: e"
    );
}

#[test]
fn attempts_to_connect_back_off() {
    let mut b = Backoff::new(1_000);
    let waits: Vec<u64> = (0..6).map(|_| b.failed(2_000, "e").unwrap()).collect();
    assert_eq!(waits, [500, 1_000, 2_000, 4_000, 5_000, 5_000]);
    assert!(b.failed(60_999, "e").is_ok());
    assert_eq!(b.failed(61_000, "e").unwrap_err(), "cannot connect to daemon after 60s: e");
}

#[test]
fn replies_come_in_pieces() {
    let mut r = ReplyReader::new();
    assert!(matches!(r.feed(&b"{\"resp".to_vec()), ReplyStep::More));
    match r.feed(&b"onse\":\"hi\"}\nrest\n".to_vec()) {
        ReplyStep::Line(l) => {
            assert_eq!(l, b"{\"response\":\"hi\"}");
            assert_eq!(ask_daemon(&l).as_deref(), Some("hi"));
        }
        other => panic!("{:?}", other),
    }
    let mut r = ReplyReader::new();
    assert!(matches!(r.feed(&vec![b'x'; 8_388_608]), ReplyStep::More));
    assert!(matches!(r.feed(&vec![b'x']), ReplyStep::Broken));
    assert!(ask_daemon(&b"{\"response\":1}".to_vec()).is_none());
    assert!(ask_daemon(&b"nonsense".to_vec()).is_none());
}

#[test]
fn pictures_in_replies() {
    let poll = |s: &str| poll_frame(&s.as_bytes().to_vec());
    assert_eq!(
        poll("{\"response\":\"data:image/png;base64,aGVsbG8=\"}"),
        Some(b"hello".to_vec())
    );
    assert_eq!(poll("{\"response\":\"aGVsbG8=\"}"), None);
    assert_eq!(poll("{\"response\":\"data:image/png;base64,%%\"}"), None);
    assert_eq!(poll("{}"), None);
    assert_eq!(poll("["), None);
    assert!(decode_png(&b"hello".to_vec()).is_none());
}

#[test]
fn dialogs_are_looked_for_in_turn() {
    let yes = || out(true, b"", b"");
    let no = || out(false, b"", b"");
    let run = |o: Vec<Outcome>| match DialogBackend::detect(&o) {
        Detection::Run(i) => line(&i),
        Detection::Done(b) => format!("{:?}", b),
    };
    assert_eq!(run(vec![]), "which|zenity");
    assert_eq!(run(vec![yes()]), "Some(Zenity)");
    assert_eq!(run(vec![no()]), "which|rofi");
    assert_eq!(run(vec![no(), yes()]), "Some(Rofi)");
    assert_eq!(run(vec![no(), Err("e".to_string())]), "which|wofi");
    assert_eq!(run(vec![no(), no(), yes()]), "Some(Wofi)");
    assert_eq!(run(vec![no(), no(), no()]), "None");
}

#[test]
fn dialogs_ask_and_tell() {
    assert_eq!(
        line(&DialogBackend::Zenity.entry_command("T", "P")),
        "zenity|--entry|--title|T|--text|P|--width=400"
    );
    assert_eq!(
        line(&DialogBackend::Rofi.entry_command("T", "P")),
        "rofi|-dmenu|-p|P|-theme-str|window {width: 400;}"
    );
    assert_eq!(
        line(&DialogBackend::Wofi.entry_command("T", "P")),
        "wofi|--dmenu|-p|P|--width|400"
    );
    assert_eq!(
        line(&DialogBackend::Zenity.info_command("T", "X")),
        "zenity|--info|--title|T|--text|X|--width=500"
    );
    assert_eq!(
        line(&DialogBackend::Rofi.info_command("T", "X")),
        "rofi|-e|-no-fixed-num-lines|-theme-str|window {width: 500;}"
    );
    assert_eq!(line(&DialogBackend::Wofi.info_command("T", "X")), "wofi|--show|dmenu|-p|T");
    assert_eq!(entry(&out(true, " what? \n".as_bytes(), b"")).as_deref(), Some("what?"));
    assert_eq!(entry(&out(true, &[0xc3, 0xa4, 0x0a], b"")).as_deref(), Some("ä"));
    assert!(entry(&out(true, &[0xff], b"")).is_none());
    assert!(entry(&out(false, b"x", b"")).is_none());
    assert!(entry(&Err("e".to_string())).is_none());
    assert!(info(&Fed::Ended(true)));
    assert!(!info(&Fed::Ended(false)));
    assert!(!info(&Fed::NotStarted("e".to_string())));
    assert!(!info(&Fed::Broken("e".to_string())));
    assert_eq!(question(&text(" hm ")).as_deref(), Some("hm"));
    assert!(question(&text("  ")).is_none());
    assert!(question(&None).is_none());
    assert_eq!(shown_answer(text("a")), "a");
    assert_eq!(shown_answer(None), "No response from daemon.");
}

#[test]
fn clicks_open_one_dialog() {
    let mut active = false;
    assert_eq!(handle_click(&mut active, None), Click::NoBackend);
    assert!(!active);
    let b = Some(DialogBackend::Rofi);
    assert_eq!(handle_click(&mut active, b), Click::Open(DialogBackend::Rofi));
    assert!(active);
    assert_eq!(handle_click(&mut active, b), Click::Ignored);
}

#[test]
fn polling_has_its_pace() {
    let mut c = PollClock::new(1_000);
    assert!(!c.poll_due(1_015));
    assert!(c.poll_due(1_016));
    assert!(!c.poll_due(1_031));
    assert_eq!(c.poll_failed(2_999), None);
    assert_eq!(c.poll_failed(3_000), Some(true));
    assert_eq!(c.poll_failed(5_000), Some(false));
    c.reconnected();
    assert_eq!(c.poll_failed(7_000), Some(true));
    let mut last: u64 = 100;
    assert!(!move_due(&mut last, 132));
    assert!(move_due(&mut last, 133));
    assert_eq!(last, 133);
}

#[test]
fn windows_start_near_the_corner() {
    assert_eq!(display_size(4), 192);
    assert_eq!(screen_side(1920, 192), 1920);
    assert_eq!(screen_side(100, 192), 256);
    assert_eq!(start_position(1920, 192), 1696);
    assert_eq!(start_position(200, 192), 0);
    assert!(!size_ignored(192, 192, 192));
    assert!(size_ignored(192, 1080, 192));
}

#[test]
fn the_placeholder_fades() {
    let f = placeholder_rgba();
    assert_eq!((f.width, f.height), (48, 48));
    let sz = 48usize;
    let mut expected = vec![0u8; sz * sz * 4];
    for y in 0..sz {
        for x in 0..sz {
            let i = (y * sz + x) * 4;
            let dx = (x as f64 - sz as f64 / 2.0).abs();
            let dy = (y as f64 - sz as f64 / 2.0).abs();
            let dist = (dx * dx + dy * dy).sqrt() / (sz as f64 / 2.0);
            expected[i + 1] = ((1.0 - dist) * 40.0).clamp(0.0, 40.0) as u8;
            expected[i + 3] = 255;
        }
    }
    assert_eq!(f.pixels, expected);
    assert_eq!(f.pixels[(24 * 48 + 24) * 4 + 1], 40);
    assert_eq!(f.pixels[1], 0);
}

fn binary(home: &str, present: Vec<bool>, found: Option<Outcome>) -> String {
    match find_gremlin_binary(home, &present, &found) {
        BinaryStep::Look(p) => format!("look {}", p),
        BinaryStep::Run(i) => line(&i),
        BinaryStep::Done(Ok(p)) => p,
        BinaryStep::Done(Err(e)) => e.message(),
    }
}

#[test]
fn the_binary_is_looked_for() {
    let none = || vec![false, false, false];
    assert_eq!(binary("/home/me", vec![], None), "look /home/me/.cargo/bin/gremlin");
    assert_eq!(binary("", vec![true], None), ".cargo/bin/gremlin");
    assert_eq!(binary("/h/", vec![false], None), "look /usr/local/bin/gremlin");
    assert_eq!(binary("/h/", vec![false, false], None), "look /usr/bin/gremlin");
    assert_eq!(binary("/h/", vec![false, false, true], None), "/usr/bin/gremlin");
    assert_eq!(binary("/h", none(), None), "which|gremlin");
    assert_eq!(binary("/h", none(), Some(out(true, b"/opt/gremlin\n", b""))), "/opt/gremlin");
    let missing = "tool error: gremlin binary not found. Build with `cargo build --release` and ensure target/release/gremlin is in PATH or ~/.cargo/bin/.";
    assert_eq!(binary("/h", none(), Some(out(true, b" ", b""))), missing);
    assert_eq!(binary("/h", none(), Some(out(false, b"x", b""))), missing);
    assert_eq!(binary("/h", none(), Some(Err("e".to_string()))), missing);
}

#[test]
fn the_unit_file_is_filled_in() {
    assert_eq!(
        unit_text("ExecStart=%h/.cargo/bin/gremlin daemon\nCwd=%h\n%h%h", "/b/gremlin", "/home/me"),
        "ExecStart=/b/gremlin daemon\nCwd=/home/me\n/home/me/home/me"
    );
    assert_eq!(unit_text("nothing", "b", "h"), "nothing");
}

#[test]
fn the_service_is_installed_in_steps() {
    let step = |s: Vec<Result<(), String>>| match install_step(&s) {
        InstallStep::Run(i) => line(&i),
        InstallStep::Done(Ok(())) => "done".to_string(),
        InstallStep::Done(Err(e)) => e.message(),
    };
    assert_eq!(step(vec![]), "systemctl|--user|daemon-reload");
    assert_eq!(step(vec![Ok(())]), "systemctl|--user|enable|--now|gremlin.service");
    assert_eq!(step(vec![Ok(()), Ok(())]), "done");
    assert_eq!(step(vec![Err("e".to_string())]), "tool error: systemctl not available: e");
    assert_eq!(
        step(vec![Ok(()), Err("e".to_string())]),
        "tool error: Failed to enable service: e"
    );
    assert_eq!(line(&disable_command()), "systemctl|--user|disable|--now|gremlin.service");
    assert_eq!(line(&status_command()), "systemctl|--user|status|gremlin.service");
    assert_eq!(status_report(&out(true, b"up", b"x")), ("up".to_string(), None));
    assert_eq!(
        status_report(&out(false, b"down", b"x")),
        ("down".to_string(), Some("x".to_string()))
    );
    assert_eq!(
        status_report(&Err("e".to_string())).0,
        "systemctl not available: e\nCheck daemon manually: gremlin.sock should be at $XDG_RUNTIME_DIR/gremlin.sock"
    );
}

#[test]
fn the_service_is_removed_in_steps() {
    let step = |exists: Option<bool>, removed: Option<Result<(), String>>, reloaded: bool| {
        match uninstall_step(exists, &removed, reloaded) {
            UninstallStep::Disable(i) | UninstallStep::Reload(i) => line(&i),
            UninstallStep::Remove => "remove".to_string(),
            UninstallStep::Done(Ok(())) => "done".to_string(),
            UninstallStep::Done(Err(e)) => e.message(),
        }
    };
    assert_eq!(step(None, None, false), "systemctl|--user|disable|--now|gremlin.service");
    assert_eq!(step(Some(false), None, false), "done");
    assert_eq!(step(Some(true), None, false), "remove");
    assert_eq!(
        step(Some(true), Some(Err("busy".to_string())), false),
        GremlinError::Io("busy".to_string()).message()
    );
    assert_eq!(step(Some(true), Some(Ok(())), false), "systemctl|--user|daemon-reload");
    assert_eq!(step(Some(true), Some(Ok(())), true), "done");
}

#[test]
fn models_are_reported() {
    let models = vec![ModelInfo { name: "a\"b".to_string() }, ModelInfo { name: "c".to_string() }];
    assert_eq!(model_report("m", &Ok(true), &models), ["  ✅ Model 'm' is available"]);
    assert_eq!(
        model_report("m", &Ok(false), &models),
        [
            "  ❌ Model 'm' not found. Pull it with: ollama pull m".to_string(),
            format!("     Available models: {:?}", vec!["a\"b", "c"])
        ]
    );
    assert_eq!(
        model_report("m", &Err(OllamaError::Http("x".to_string())), &models),
        ["  ❌ Failed to check model: http: x"]
    );
    assert_eq!(
        vision_report("v", true),
        ["  ✅ Vision model 'v' is available (screenshots enabled)"]
    );
    assert_eq!(
        vision_report("v", false),
        [
            "  ⚠️  Vision model 'v' not found — screenshots won't work",
            "     Pull it with: ollama pull v"
        ]
    );
}

#[test]
fn surfaces_are_chosen() {
    assert_eq!(pick_format(&vec![true, false, false]), 1);
    assert_eq!(pick_format(&vec![false, true]), 0);
    assert_eq!(pick_format(&vec![true, true]), 0);
    let (pre, post) = (AlphaMode::PreMultiplied, AlphaMode::PostMultiplied);
    let (inherit, other) = (AlphaMode::Inherit, AlphaMode::Other);
    assert_eq!(pick_alpha(&vec![other, inherit, post, pre, pre]), 3);
    assert_eq!(pick_alpha(&vec![inherit, other, post]), 2);
    assert_eq!(pick_alpha(&vec![other, inherit]), 1);
    assert_eq!(pick_alpha(&vec![other, other]), 0);
}
