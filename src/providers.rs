//! The clipboard mechanisms, and what each asks of the host to copy and to paste.
use vstd::prelude::*;
use vstd::string::StrSliceExecFns;
use vstd::string::StringExecFns;
use crate::action::{Action, ActionView, Invocation, InvocationView};
use crate::text::{ends_with, text_ends_with};

verus! {

/// The clipboard mechanisms this library can drive.
#[derive(Clone, Copy, Debug, PartialEq, Eq, Structural)]
pub enum Backend {
    /// macOS's `pbcopy` / `pbpaste` tools.
    PbCopy,
    /// The X11 `xclip` tool.
    XClip,
    /// The X11 `xsel` tool.
    XSel,
    /// The Wayland `wl-copy` / `wl-paste` tools.
    Wayland,
    /// KDE's Klipper daemon, reached over D-Bus with `qdbus`.
    Klipper,
    /// The native Windows clipboard API.
    Windows,
    /// The Windows host's clipboard, seen from the Windows Subsystem for Linux.
    Wsl,
}

/// A paste whose raw output did not have the shape its mechanism promises.
#[derive(Clone, Copy, Debug, PartialEq, Eq, Structural)]
pub enum ClipError {
    /// The output lacked the line terminator that the mechanism always appends.
    MissingTerminator,
}

/// The invocation of `program` with `args`.
pub open spec fn call(program: Seq<char>, args: Seq<Seq<char>>) -> InvocationView {
    InvocationView { program, args }
}

/// What copying `text` asks of the host under backend `b`.
pub open spec fn copy_action(b: Backend, text: Seq<char>) -> ActionView {
    match b {
        Backend::PbCopy => ActionView::Feed(call("pbcopy"@, Seq::empty()), text),
        Backend::XClip => ActionView::Feed(call("xclip"@, Seq::empty().push("-selection"@).push("c"@)), text),
        Backend::XSel => ActionView::Feed(call("xsel"@, Seq::empty().push("-b"@).push("-i"@)), text),
        Backend::Wayland => if text.len() == 0 {
            ActionView::Check(call("wl-copy"@, Seq::empty().push("-p"@).push("--clear"@)))
        } else {
            ActionView::Feed(call("wl-copy"@, Seq::empty().push("-p"@)), text)
        },
        Backend::Klipper => ActionView::Notify(
            call("qdbus"@, Seq::empty().push("org.kde.klipper"@).push("/klipper"@).push("setClipboardContents"@).push(text)),
        ),
        Backend::Windows => ActionView::NativeSet(text),
        Backend::Wsl => ActionView::Feed(call("clip.exe"@, Seq::empty()), text),
    }
}

/// What pasting asks of the host under backend `b`.
pub open spec fn paste_action(b: Backend) -> ActionView {
    match b {
        Backend::PbCopy => ActionView::Capture(call("pbpaste"@, Seq::empty())),
        Backend::XClip => ActionView::CaptureQuiet(call("xclip"@, Seq::empty().push("-selection"@).push("c"@).push("-o"@))),
        Backend::XSel => ActionView::CaptureQuiet(call("xsel"@, Seq::empty().push("-b"@).push("-o"@))),
        Backend::Wayland => ActionView::Capture(call("wl-paste"@, Seq::empty().push("-n"@).push("-p"@))),
        Backend::Klipper => ActionView::Capture(
            call("qdbus"@, Seq::empty().push("org.kde.klipper"@).push("/klipper"@).push("getClipboardContents"@)),
        ),
        Backend::Windows => ActionView::NativeGet,
        Backend::Wsl => ActionView::Capture(
            call("powershell.exe"@, Seq::empty().push("-noprofile"@).push("-command"@).push("Get-Clipboard"@)),
        ),
    }
}

/// The line terminator that backend `b` always appends to pasted text.
pub open spec fn terminator(b: Backend) -> Seq<char> {
    match b {
        Backend::Klipper => seq!['\n'],
        Backend::Wsl => seq!['\r', '\n'],
        _ => Seq::empty(),
    }
}

/// The text that a paste under backend `b` returns for the tool's raw output.
pub open spec fn paste_result(b: Backend, raw: Seq<char>) -> Result<Seq<char>, ClipError> {
    if ends_with(raw, terminator(b)) {
        Ok(raw.subrange(0, raw.len() - terminator(b).len()))
    } else {
        Err(ClipError::MissingTerminator)
    }
}

/// The terminator of backend `b`, as text.
fn terminator_text(b: Backend) -> (r: &'static str)
    ensures
        r@ == terminator(b),
{
    match b {
        Backend::Klipper => {
            proof {
                reveal_strlit("\n");
            }
            "\n"
        },
        Backend::Wsl => {
            proof {
                reveal_strlit("\r\n");
            }
            "\r\n"
        },
        _ => {
            proof {
                reveal_strlit("");
            }
            ""
        },
    }
}

/// The text that a paste under backend `b` returns, given the raw output of
/// its paste action: the output with the backend's terminator taken off, or
/// an error where the output lacks that terminator.
pub fn paste_text(b: Backend, raw: &str) -> (r: Result<String, ClipError>)
    ensures
        match r {
            Ok(s) => paste_result(b, raw@) == Ok::<Seq<char>, ClipError>(s@),
            Err(e) => paste_result(b, raw@) == Err::<Seq<char>, ClipError>(e),
        },
{
    let term = terminator_text(b);
    if !text_ends_with(raw, term) {
        return Err(ClipError::MissingTerminator);
    }
    let n = raw.unicode_len();
    let m = term.unicode_len();
    Ok(String::from_str(raw.substring_char(0, n - m)))
}

/// For every backend and every text but the empty text under Wayland, which
/// clears the clipboard instead: copying hands the host that very text, and
/// a paste whose tool answers with the text and the backend's terminator
/// returns the text unchanged.
pub proof fn lemma_round_trip(b: Backend, s: Seq<char>)
    requires
        !(b == Backend::Wayland && s.len() == 0),
    ensures
        copy_action(b, s).handed_text() == Some(s),
        paste_result(b, s + terminator(b)) == Ok::<Seq<char>, ClipError>(s),
{
    let raw = s + terminator(b);
    assert(raw.subrange(s.len() as int, raw.len() as int) =~= terminator(b));
    assert(raw.subrange(0, s.len() as int) =~= s);
}

/// Pasting only reads the clipboard and hands the host no text, so two
/// pastes with no copy between them find the same clipboard; and a paste's
/// text is a function of what the tool answered.
pub proof fn lemma_paste_reads_only(b: Backend)
    ensures
        paste_action(b).reads_only(),
        paste_action(b).handed_text() is None,
{
}

/// Klipper's answer `raw` followed by one newline pastes as `raw`; an answer
/// that does not end in a newline is refused.
pub proof fn lemma_klipper_newline(raw: Seq<char>)
    ensures
        paste_result(Backend::Klipper, raw.push('\n')) == Ok::<Seq<char>, ClipError>(raw),
        raw.len() == 0 || raw.last() != '\n' ==> paste_result(Backend::Klipper, raw) == Err::<
            Seq<char>,
            ClipError,
        >(ClipError::MissingTerminator),
{
    let full = raw.push('\n');
    assert(full.subrange(raw.len() as int, full.len() as int) =~= seq!['\n']);
    assert(full.subrange(0, raw.len() as int) =~= raw);
    if raw.len() > 0 && raw.last() != '\n' {
        assert(raw.subrange(raw.len() - 1, raw.len() as int)[0] == raw.last());
    }
}

/// The capability pair that every clipboard mechanism offers.
pub trait Clipboard {
    /// The backend this mechanism is.
    spec fn variant() -> Backend;

    /// What copying `text` asks of the host.
    fn copy(text: &str) -> (r: Action)
        ensures
            r@ == copy_action(Self::variant(), text@),
    ;

    /// What pasting asks of the host.
    fn paste() -> (r: Action)
        ensures
            r@ == paste_action(Self::variant()),
    ;
}

/// macOS's `pbcopy` and `pbpaste`.
pub struct PbCopy {}

impl Clipboard for PbCopy {
    open spec fn variant() -> Backend {
        Backend::PbCopy
    }

    fn copy(text: &str) -> (r: Action) {
        Action::Feed(Invocation::new("pbcopy"), String::from_str(text))
    }

    fn paste() -> (r: Action) {
        Action::Capture(Invocation::new("pbpaste"))
    }
}

/// The X11 `xclip` tool, on the clipboard selection.
pub struct XClip {}

impl Clipboard for XClip {
    open spec fn variant() -> Backend {
        Backend::XClip
    }

    fn copy(text: &str) -> (r: Action) {
        Action::Feed(Invocation::new("xclip").arg("-selection").arg("c"), String::from_str(text))
    }

    fn paste() -> (r: Action) {
        // xclip is talkative on standard error
        Action::CaptureQuiet(Invocation::new("xclip").arg("-selection").arg("c").arg("-o"))
    }
}

/// The X11 `xsel` tool, on the clipboard selection.
pub struct XSel {}

impl Clipboard for XSel {
    open spec fn variant() -> Backend {
        Backend::XSel
    }

    fn copy(text: &str) -> (r: Action) {
        Action::Feed(Invocation::new("xsel").arg("-b").arg("-i"), String::from_str(text))
    }

    fn paste() -> (r: Action) {
        Action::CaptureQuiet(Invocation::new("xsel").arg("-b").arg("-o"))
    }
}

/// The Wayland `wl-copy` and `wl-paste` tools.
pub struct Wayland {}

impl Clipboard for Wayland {
    open spec fn variant() -> Backend {
        Backend::Wayland
    }

    fn copy(text: &str) -> (r: Action) {
        if text.unicode_len() == 0 {
            // piping nothing to wl-copy does not give up the selection: clear it
            Action::Check(Invocation::new("wl-copy").arg("-p").arg("--clear"))
        } else {
            Action::Feed(Invocation::new("wl-copy").arg("-p"), String::from_str(text))
        }
    }

    fn paste() -> (r: Action) {
        Action::Capture(Invocation::new("wl-paste").arg("-n").arg("-p"))
    }
}

/// KDE's Klipper, over D-Bus.
pub struct Klipper {}

impl Clipboard for Klipper {
    open spec fn variant() -> Backend {
        Backend::Klipper
    }

    fn copy(text: &str) -> (r: Action) {
        Action::Notify(
            Invocation::new("qdbus").arg("org.kde.klipper").arg("/klipper").arg(
                "setClipboardContents",
            ).arg(text),
        )
    }

    fn paste() -> (r: Action) {
        Action::Capture(
            Invocation::new("qdbus").arg("org.kde.klipper").arg("/klipper").arg(
                "getClipboardContents",
            ),
        )
    }
}

/// The native Windows clipboard.
pub struct Windows {}

impl Clipboard for Windows {
    open spec fn variant() -> Backend {
        Backend::Windows
    }

    fn copy(text: &str) -> (r: Action) {
        Action::NativeSet(String::from_str(text))
    }

    fn paste() -> (r: Action) {
        Action::NativeGet
    }
}

/// The Windows host's clipboard, from inside WSL.
pub struct Wsl {}

impl Clipboard for Wsl {
    open spec fn variant() -> Backend {
        Backend::Wsl
    }

    fn copy(text: &str) -> (r: Action) {
        Action::Feed(Invocation::new("clip.exe"), String::from_str(text))
    }

    fn paste() -> (r: Action) {
        Action::Capture(
            Invocation::new("powershell.exe").arg("-noprofile").arg("-command").arg("Get-Clipboard"),
        )
    }
}

} // verus!
