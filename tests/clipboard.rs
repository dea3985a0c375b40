use clipp::{
    copy, is_wsl_version, names_vendor, next_step, paste, paste_text, Action, Backend, ClipError,
    Clipboard, Facts, Host, Invocation, Klipper, PbCopy, Platform, Probe, Step, Tool, Wayland,
    Windows, Wsl, XClip, XSel,
};

fn strs(v: &[String]) -> Vec<&str> {
    v.iter().map(|s| s.as_str()).collect()
}

fn expect_call(i: &Invocation, program: &str, args: &[&str]) {
    assert_eq!(i.program, program);
    assert_eq!(strs(&i.args), args.to_vec());
}

fn expect_feed(a: Action, program: &str, args: &[&str], text: &str) {
    match a {
        Action::Feed(i, t) => {
            expect_call(&i, program, args);
            assert_eq!(t, text);
        }
        other => panic!("expected a feed, got {other:?}"),
    }
}

fn expect_capture(a: Action, program: &str, args: &[&str]) {
    match a {
        Action::Capture(i) => expect_call(&i, program, args),
        other => panic!("expected a capture, got {other:?}"),
    }
}

fn expect_quiet_capture(a: Action, program: &str, args: &[&str]) {
    match a {
        Action::CaptureQuiet(i) => expect_call(&i, program, args),
        other => panic!("expected a quiet capture, got {other:?}"),
    }
}

/// Runs the resolution against a host, recording each question asked.
fn run(platform: Platform, host: &Host) -> (Step, Vec<Probe>) {
    let mut facts = Facts::unknown();
    let mut asked = Vec::new();
    loop {
        match next_step(platform, &facts) {
            Step::Ask(p) => {
                assert!(!asked.contains(&p), "asked twice: {p:?}");
                asked.push(p);
                let a = match p {
                    Probe::Wsl => host.wsl,
                    Probe::WaylandDisplay => host.wayland_display,
                    Probe::XDisplay => host.x_display,
                    Probe::OnPath(Tool::WlCopy) => host.wl_copy,
                    Probe::OnPath(Tool::Xsel) => host.xsel,
                    Probe::OnPath(Tool::Xclip) => host.xclip,
                    Probe::OnPath(Tool::Klipper) => host.klipper,
                    Probe::OnPath(Tool::Qdbus) => host.qdbus,
                };
                facts.record(p, a);
            }
            done => return (done, asked),
        }
    }
}

fn bare_host() -> Host {
    Host {
        wsl: false,
        wayland_display: false,
        x_display: false,
        wl_copy: false,
        xsel: false,
        xclip: false,
        klipper: false,
        qdbus: false,
    }
}

#[test]
fn xclip_selects_clipboard() {
    expect_feed(XClip::copy("text"), "xclip", &["-selection", "c"], "text");
    expect_quiet_capture(XClip::paste(), "xclip", &["-selection", "c", "-o"]);
}

#[test]
fn xsel_selects_clipboard() {
    expect_feed(XSel::copy("text"), "xsel", &["-b", "-i"], "text");
    expect_quiet_capture(XSel::paste(), "xsel", &["-b", "-o"]);
}

#[test]
fn pbcopy_and_pbpaste() {
    expect_feed(PbCopy::copy("text"), "pbcopy", &[], "text");
    expect_capture(PbCopy::paste(), "pbpaste", &[]);
}

#[test]
fn wayland_pipes_nonempty_text() {
    expect_feed(Wayland::copy("text"), "wl-copy", &["-p"], "text");
    expect_capture(Wayland::paste(), "wl-paste", &["-n", "-p"]);
}

#[test]
fn wayland_empty_copy_clears() {
    match copy(Backend::Wayland, "") {
        Action::Check(i) => expect_call(&i, "wl-copy", &["-p", "--clear"]),
        other => panic!("expected a checked clear, got {other:?}"),
    }
}

#[test]
fn klipper_notifies_with_text() {
    match Klipper::copy("hello") {
        Action::Notify(i) => expect_call(
            &i,
            "qdbus",
            &["org.kde.klipper", "/klipper", "setClipboardContents", "hello"],
        ),
        other => panic!("expected a notification, got {other:?}"),
    }
    expect_capture(
        Klipper::paste(),
        "qdbus",
        &["org.kde.klipper", "/klipper", "getClipboardContents"],
    );
}

#[test]
fn windows_uses_native_api() {
    match Windows::copy("text") {
        Action::NativeSet(t) => assert_eq!(t, "text"),
        other => panic!("expected a native set, got {other:?}"),
    }
    assert!(matches!(Windows::paste(), Action::NativeGet));
}

#[test]
fn wsl_bridge_commands() {
    expect_feed(Wsl::copy("text"), "clip.exe", &[], "text");
    expect_capture(
        Wsl::paste(),
        "powershell.exe",
        &["-noprofile", "-command", "Get-Clipboard"],
    );
}

#[test]
fn copy_and_paste_dispatch_on_backend() {
    expect_feed(copy(Backend::XSel, "wow such clipboard"), "xsel", &["-b", "-i"], "wow such clipboard");
    expect_quiet_capture(paste(Backend::XClip), "xclip", &["-selection", "c", "-o"]);
    expect_feed(copy(Backend::Wsl, "x"), "clip.exe", &[], "x");
}

#[test]
fn klipper_strips_one_newline() {
    assert_eq!(paste_text(Backend::Klipper, "hello\n"), Ok("hello".to_string()));
    assert_eq!(paste_text(Backend::Klipper, "hello\n\n"), Ok("hello\n".to_string()));
    assert_eq!(paste_text(Backend::Klipper, "\n"), Ok(String::new()));
}

#[test]
fn klipper_without_newline_is_refused() {
    assert_eq!(paste_text(Backend::Klipper, "hello"), Err(ClipError::MissingTerminator));
    assert_eq!(paste_text(Backend::Klipper, ""), Err(ClipError::MissingTerminator));
}

#[test]
fn wsl_strips_crlf() {
    assert_eq!(paste_text(Backend::Wsl, "text\r\n"), Ok("text".to_string()));
    assert_eq!(paste_text(Backend::Wsl, "\r\n"), Ok(String::new()));
    assert_eq!(paste_text(Backend::Wsl, "text\n"), Err(ClipError::MissingTerminator));
    assert_eq!(paste_text(Backend::Wsl, "\n"), Err(ClipError::MissingTerminator));
}

#[test]
fn other_backends_keep_output() {
    assert_eq!(paste_text(Backend::XSel, "a\n"), Ok("a\n".to_string()));
    assert_eq!(paste_text(Backend::Wayland, ""), Ok(String::new()));
    assert_eq!(paste_text(Backend::PbCopy, "é ü\r\n"), Ok("é ü\r\n".to_string()));
}

#[test]
fn round_trip_through_tool_output() {
    let s = "wow such clipboard";
    for b in [Backend::XSel, Backend::XClip, Backend::Wayland, Backend::PbCopy] {
        expect_feed_text(copy(b, s), s);
        assert_eq!(paste_text(b, s), Ok(s.to_string()));
    }
    assert_eq!(paste_text(Backend::Klipper, &format!("{s}\n")), Ok(s.to_string()));
    assert_eq!(paste_text(Backend::Wsl, &format!("{s}\r\n")), Ok(s.to_string()));
}

fn expect_feed_text(a: Action, text: &str) {
    match a {
        Action::Feed(_, t) => assert_eq!(t, text),
        other => panic!("expected a feed, got {other:?}"),
    }
}

#[test]
fn paste_twice_asks_and_reads_the_same() {
    for b in [Backend::XSel, Backend::Klipper, Backend::Wsl] {
        let first = format!("{:?}", paste(b));
        let second = format!("{:?}", paste(b));
        assert_eq!(first, second);
        assert_eq!(paste_text(b, "same\r\n"), paste_text(b, "same\r\n"));
    }
}

#[test]
fn native_platform_wins_over_wsl() {
    let mut facts = Facts::unknown();
    facts.record(Probe::Wsl, true);
    assert_eq!(next_step(Platform::Windows, &facts), Step::Bind(Backend::Windows));
    assert_eq!(next_step(Platform::MacOs, &facts), Step::Bind(Backend::PbCopy));
    assert_eq!(next_step(Platform::Unix, &facts), Step::Bind(Backend::Wsl));
}

#[test]
fn native_platform_asks_nothing() {
    let host = Host { wsl: true, ..bare_host() };
    assert_eq!(run(Platform::Windows, &host), (Step::Bind(Backend::Windows), vec![]));
    assert_eq!(run(Platform::MacOs, &host), (Step::Bind(Backend::PbCopy), vec![]));
}

#[test]
fn no_display_fails_without_probing_tools() {
    let host = Host { xsel: true, xclip: true, wl_copy: true, ..bare_host() };
    let (step, asked) = run(Platform::Unix, &host);
    assert_eq!(step, Step::Unavailable);
    assert_eq!(asked, vec![Probe::Wsl, Probe::WaylandDisplay, Probe::XDisplay]);
}

#[test]
fn x11_with_only_xsel() {
    let host = Host { x_display: true, xsel: true, ..bare_host() };
    let (step, asked) = run(Platform::Unix, &host);
    assert_eq!(step, Step::Bind(Backend::XSel));
    assert_eq!(
        asked,
        vec![Probe::Wsl, Probe::WaylandDisplay, Probe::XDisplay, Probe::OnPath(Tool::Xsel)]
    );
    expect_feed(copy(Backend::XSel, "wow such clipboard"), "xsel", &["-b", "-i"], "wow such clipboard");
}

#[test]
fn xsel_before_xclip() {
    let host = Host { x_display: true, xsel: true, xclip: true, ..bare_host() };
    assert_eq!(run(Platform::Unix, &host).0, Step::Bind(Backend::XSel));
    let host = Host { x_display: true, xclip: true, ..bare_host() };
    assert_eq!(run(Platform::Unix, &host).0, Step::Bind(Backend::XClip));
}

#[test]
fn wayland_first_when_tool_present() {
    let host = Host { wayland_display: true, wl_copy: true, xsel: true, ..bare_host() };
    let (step, asked) = run(Platform::Unix, &host);
    assert_eq!(step, Step::Bind(Backend::Wayland));
    assert_eq!(asked, vec![Probe::Wsl, Probe::WaylandDisplay, Probe::OnPath(Tool::WlCopy)]);
    let host = Host { wayland_display: true, xclip: true, ..bare_host() };
    assert_eq!(run(Platform::Unix, &host).0, Step::Bind(Backend::XClip));
}

#[test]
fn klipper_needs_qdbus() {
    let host = Host { x_display: true, klipper: true, qdbus: true, ..bare_host() };
    assert_eq!(run(Platform::Unix, &host).0, Step::Bind(Backend::Klipper));
    let host = Host { x_display: true, klipper: true, ..bare_host() };
    assert_eq!(run(Platform::Unix, &host).0, Step::Unavailable);
    let host = Host { x_display: true, qdbus: true, ..bare_host() };
    let (step, asked) = run(Platform::Unix, &host);
    assert_eq!(step, Step::Unavailable);
    assert!(!asked.contains(&Probe::OnPath(Tool::Qdbus)));
}

#[test]
fn wsl_wins_over_display() {
    let host = Host { wsl: true, x_display: true, xsel: true, ..bare_host() };
    assert_eq!(run(Platform::Unix, &host), (Step::Bind(Backend::Wsl), vec![Probe::Wsl]));
}

#[test]
fn wsl_version_detection() {
    assert!(is_wsl_version("Linux version 5.15.90.1-microsoft-standard-WSL2 (gcc)"));
    assert!(is_wsl_version("Linux version 4.4.0-19041-Microsoft"));
    assert!(is_wsl_version("MICROSOFT"));
    assert!(!is_wsl_version("Linux version 6.1.0-13-amd64 (debian-kernel@lists.debian.org)"));
    assert!(!is_wsl_version(""));
    assert!(!is_wsl_version("micro soft"));
}

#[test]
fn vendor_needs_lowercase_text() {
    assert!(names_vendor("4.4.0-19041-microsoft"));
    assert!(!names_vendor("4.4.0-19041-Microsoft"));
    assert!(!names_vendor("microsof"));
}

#[test]
fn record_sets_one_answer() {
    let mut facts = Facts::unknown();
    facts.record(Probe::OnPath(Tool::Xclip), true);
    assert_eq!(facts.xclip, Some(true));
    assert_eq!(facts.xsel, None);
    assert_eq!(facts.wsl, None);
}
