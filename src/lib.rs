//! A small cross-platform clipboard library.
//!
//! The library decides which clipboard mechanism serves the host, and what to
//! run against it; the program around it launches the tools it names.
use vstd::prelude::*;

pub mod action;
pub mod probe;
pub mod providers;
pub mod resolve;
pub mod text;

pub use action::{Action, ActionView, Invocation, InvocationView};
pub use providers::{
    Backend, ClipError, Clipboard, Klipper, PbCopy, Wayland, Windows, Wsl, XClip, XSel,
    copy_action, paste_action, paste_result, paste_text, terminator,
};
pub use resolve::{Facts, Host, Platform, Probe, Step, Tool, consults, next_step, resolve};
pub use probe::{is_wsl_version, names_vendor};

verus! {

/// What copying `text` to the clipboard asks of the host, under the backend
/// that was bound for this process.
pub fn copy(backend: Backend, text: &str) -> (r: Action)
    ensures
        r@ == copy_action(backend, text@),
{
    match backend {
        Backend::PbCopy => PbCopy::copy(text),
        Backend::XClip => XClip::copy(text),
        Backend::XSel => XSel::copy(text),
        Backend::Wayland => Wayland::copy(text),
        Backend::Klipper => Klipper::copy(text),
        Backend::Windows => Windows::copy(text),
        Backend::Wsl => Wsl::copy(text),
    }
}

/// What pasting from the clipboard asks of the host, under the backend that
/// was bound for this process. The text comes from [`paste_text`], given
/// what the host answered.
pub fn paste(backend: Backend) -> (r: Action)
    ensures
        r@ == paste_action(backend),
{
    match backend {
        Backend::PbCopy => PbCopy::paste(),
        Backend::XClip => XClip::paste(),
        Backend::XSel => XSel::paste(),
        Backend::Wayland => Wayland::paste(),
        Backend::Klipper => Klipper::paste(),
        Backend::Windows => Windows::paste(),
        Backend::Wsl => Wsl::paste(),
    }
}

} // verus!
