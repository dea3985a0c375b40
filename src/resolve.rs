//! Choosing the clipboard mechanism: a decision procedure that asks the host
//! one question at a time, in a fixed order of priority.
use vstd::prelude::*;
use crate::providers::Backend;

verus! {

/// The platform the program was built for.
#[derive(Clone, Copy, Debug, PartialEq, Eq, Structural)]
pub enum Platform {
    /// Windows: the native clipboard API is always there.
    Windows,
    /// macOS: `pbcopy` and `pbpaste` are always there.
    MacOs,
    /// Any other platform, where the host has to be probed.
    Unix,
}

/// A program whose presence on the search path the resolution may ask about.
#[derive(Clone, Copy, Debug, PartialEq, Eq, Structural)]
pub enum Tool {
    WlCopy,
    Xsel,
    Xclip,
    Klipper,
    Qdbus,
}

/// A question about the host.
#[derive(Clone, Copy, Debug, PartialEq, Eq, Structural)]
pub enum Probe {
    /// Is this process running inside WSL?
    Wsl,
    /// Is the Wayland display variable set?
    WaylandDisplay,
    /// Is the X display variable set?
    XDisplay,
    /// Is this tool on the search path?
    OnPath(Tool),
}

/// The answers that the host has given so far; `None` where not asked yet.
#[derive(Clone, Copy, Debug, PartialEq, Eq, Structural)]
pub struct Facts {
    pub wsl: Option<bool>,
    pub wayland_display: Option<bool>,
    pub x_display: Option<bool>,
    pub wl_copy: Option<bool>,
    pub xsel: Option<bool>,
    pub xclip: Option<bool>,
    pub klipper: Option<bool>,
    pub qdbus: Option<bool>,
}

/// Everything the resolution could learn of a host.
pub struct Host {
    pub wsl: bool,
    pub wayland_display: bool,
    pub x_display: bool,
    pub wl_copy: bool,
    pub xsel: bool,
    pub xclip: bool,
    pub klipper: bool,
    pub qdbus: bool,
}

/// What to do next in the resolution.
#[derive(Clone, Copy, Debug, PartialEq, Eq, Structural)]
pub enum Step {
    /// Put this question to the host and record the answer.
    Ask(Probe),
    /// Bind this backend for the rest of the process.
    Bind(Backend),
    /// No clipboard is available on this host.
    Unavailable,
}

/// The backend chosen for `host` on `platform`, or `None` where there is no
/// clipboard: native API, then WSL, then Wayland, xsel, xclip, Klipper.
pub open spec fn resolve(platform: Platform, host: Host) -> Option<Backend> {
    match platform {
        Platform::Windows => Some(Backend::Windows),
        Platform::MacOs => Some(Backend::PbCopy),
        Platform::Unix => if host.wsl {
            Some(Backend::Wsl)
        } else if !host.wayland_display && !host.x_display {
            None
        } else if host.wayland_display && host.wl_copy {
            Some(Backend::Wayland)
        } else if host.xsel {
            Some(Backend::XSel)
        } else if host.xclip {
            Some(Backend::XClip)
        } else if host.klipper && host.qdbus {
            Some(Backend::Klipper)
        } else {
            None
        },
    }
}

/// Whether the resolution for `host` on `platform` puts question `p` to the
/// host: only platforms without a native clipboard are probed, and each
/// question only where every earlier one left the choice open.
pub open spec fn consults(platform: Platform, host: Host, p: Probe) -> bool {
    let has_display = host.wayland_display || host.x_display;
    let past_wayland = !host.wsl && has_display && !(host.wayland_display && host.wl_copy);
    platform == Platform::Unix && match p {
        Probe::Wsl => true,
        Probe::WaylandDisplay => !host.wsl,
        Probe::XDisplay => !host.wsl && !host.wayland_display,
        Probe::OnPath(Tool::WlCopy) => !host.wsl && host.wayland_display,
        Probe::OnPath(Tool::Xsel) => past_wayland,
        Probe::OnPath(Tool::Xclip) => past_wayland && !host.xsel,
        Probe::OnPath(Tool::Klipper) => past_wayland && !host.xsel && !host.xclip,
        Probe::OnPath(Tool::Qdbus) => past_wayland && !host.xsel && !host.xclip && host.klipper,
    }
}

/// A recorded answer, if any, is `v`.
pub open spec fn fits(o: Option<bool>, v: bool) -> bool {
    o is Some ==> o == Some(v)
}

impl Host {
    /// The answer this host gives to question `p`.
    pub open spec fn answer(self, p: Probe) -> bool {
        match p {
            Probe::Wsl => self.wsl,
            Probe::WaylandDisplay => self.wayland_display,
            Probe::XDisplay => self.x_display,
            Probe::OnPath(Tool::WlCopy) => self.wl_copy,
            Probe::OnPath(Tool::Xsel) => self.xsel,
            Probe::OnPath(Tool::Xclip) => self.xclip,
            Probe::OnPath(Tool::Klipper) => self.klipper,
            Probe::OnPath(Tool::Qdbus) => self.qdbus,
        }
    }
}

impl Facts {
    /// The recorded answer to question `p`, if any.
    pub open spec fn known(self, p: Probe) -> Option<bool> {
        match p {
            Probe::Wsl => self.wsl,
            Probe::WaylandDisplay => self.wayland_display,
            Probe::XDisplay => self.x_display,
            Probe::OnPath(Tool::WlCopy) => self.wl_copy,
            Probe::OnPath(Tool::Xsel) => self.xsel,
            Probe::OnPath(Tool::Xclip) => self.xclip,
            Probe::OnPath(Tool::Klipper) => self.klipper,
            Probe::OnPath(Tool::Qdbus) => self.qdbus,
        }
    }

    /// `host` gave every answer recorded here.
    pub open spec fn agrees(self, host: Host) -> bool {
        &&& fits(self.wsl, host.wsl)
        &&& fits(self.wayland_display, host.wayland_display)
        &&& fits(self.x_display, host.x_display)
        &&& fits(self.wl_copy, host.wl_copy)
        &&& fits(self.xsel, host.xsel)
        &&& fits(self.xclip, host.xclip)
        &&& fits(self.klipper, host.klipper)
        &&& fits(self.qdbus, host.qdbus)
    }

    /// No question answered yet.
    pub fn unknown() -> (r: Facts)
        ensures
            forall|p: Probe| #[trigger] r.known(p) is None,
            forall|h: Host| #[trigger] r.agrees(h),
    {
        Facts {
            wsl: None,
            wayland_display: None,
            x_display: None,
            wl_copy: None,
            xsel: None,
            xclip: None,
            klipper: None,
            qdbus: None,
        }
    }

    /// Records the host's answer to question `p`.
    pub fn record(&mut self, p: Probe, answer: bool)
        ensures
            final(self).known(p) == Some(answer),
            forall|q: Probe| q != p ==> #[trigger] final(self).known(q) == old(self).known(q),
    {
        match p {
            Probe::Wsl => self.wsl = Some(answer),
            Probe::WaylandDisplay => self.wayland_display = Some(answer),
            Probe::XDisplay => self.x_display = Some(answer),
            Probe::OnPath(Tool::WlCopy) => self.wl_copy = Some(answer),
            Probe::OnPath(Tool::Xsel) => self.xsel = Some(answer),
            Probe::OnPath(Tool::Xclip) => self.xclip = Some(answer),
            Probe::OnPath(Tool::Klipper) => self.klipper = Some(answer),
            Probe::OnPath(Tool::Qdbus) => self.qdbus = Some(answer),
        }
    }
}

/// The next step of the resolution on `platform`, given the answers so far.
/// It binds a backend, or gives up, only once the answers settle the choice
/// for every host that could have given them; otherwise it asks a question
/// not answered yet, and one that the resolution puts to every such host.
pub fn next_step(platform: Platform, facts: &Facts) -> (r: Step)
    ensures
        match r {
            Step::Ask(p) => facts.known(p) is None && forall|h: Host|
                #[trigger] facts.agrees(h) ==> consults(platform, h, p),
            Step::Bind(b) => forall|h: Host|
                #[trigger] facts.agrees(h) ==> resolve(platform, h) == Some(b),
            Step::Unavailable => forall|h: Host|
                #[trigger] facts.agrees(h) ==> resolve(platform, h) is None,
        },
{
    match platform {
        Platform::Windows => return Step::Bind(Backend::Windows),
        Platform::MacOs => return Step::Bind(Backend::PbCopy),
        Platform::Unix => {},
    }
    match facts.wsl {
        None => return Step::Ask(Probe::Wsl),
        Some(true) => return Step::Bind(Backend::Wsl),
        Some(false) => {},
    }
    let wayland = match facts.wayland_display {
        None => return Step::Ask(Probe::WaylandDisplay),
        Some(w) => w,
    };
    if wayland {
        match facts.wl_copy {
            None => return Step::Ask(Probe::OnPath(Tool::WlCopy)),
            Some(true) => return Step::Bind(Backend::Wayland),
            Some(false) => {},
        }
    } else {
        match facts.x_display {
            None => return Step::Ask(Probe::XDisplay),
            Some(true) => {},
            Some(false) => return Step::Unavailable,
        }
    }
    match facts.xsel {
        None => return Step::Ask(Probe::OnPath(Tool::Xsel)),
        Some(true) => return Step::Bind(Backend::XSel),
        Some(false) => {},
    }
    match facts.xclip {
        None => return Step::Ask(Probe::OnPath(Tool::Xclip)),
        Some(true) => return Step::Bind(Backend::XClip),
        Some(false) => {},
    }
    match facts.klipper {
        None => Step::Ask(Probe::OnPath(Tool::Klipper)),
        Some(true) => match facts.qdbus {
            None => Step::Ask(Probe::OnPath(Tool::Qdbus)),
            Some(true) => Step::Bind(Backend::Klipper),
            Some(false) => Step::Unavailable,
        },
        Some(false) => Step::Unavailable,
    }
}

/// A platform with a native clipboard binds it for every host, one inside WSL
/// too, and asks the host nothing.
pub proof fn lemma_native_first(platform: Platform, h: Host)
    requires
        platform != Platform::Unix,
    ensures
        resolve(platform, h) == Some(
            if platform == Platform::Windows {
                Backend::Windows
            } else {
                Backend::PbCopy
            },
        ),
        forall|p: Probe| !consults(platform, h, p),
{
}

/// A host outside WSL with no display has no clipboard, and the resolution
/// learns that without looking for any program on the search path.
pub proof fn lemma_no_display_fails_fast(h: Host)
    requires
        !h.wsl,
        !h.wayland_display,
        !h.x_display,
    ensures
        resolve(Platform::Unix, h) is None,
        forall|p: Probe| consults(Platform::Unix, h, p) ==> !(p is OnPath),
{
}

} // verus!
