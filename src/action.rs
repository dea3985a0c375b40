//! What a clipboard operation asks of the host: a tool to launch and how to
//! talk to it, or a call into the native clipboard API.
use vstd::prelude::*;
use vstd::string::StringExecFns;

verus! {

/// A program and its arguments, as handed to the host's process launcher.
#[derive(Debug)]
pub struct Invocation {
    pub program: String,
    pub args: Vec<String>,
}

/// The mathematical value of an [`Invocation`].
pub struct InvocationView {
    pub program: Seq<char>,
    pub args: Seq<Seq<char>>,
}

impl View for Invocation {
    type V = InvocationView;

    open spec fn view(&self) -> InvocationView {
        InvocationView { program: self.program@, args: self.args@.map_values(|a: String| a@) }
    }
}

impl Invocation {
    /// An invocation of `program` with no arguments yet.
    pub fn new(program: &str) -> (r: Invocation)
        ensures
            r@ == (InvocationView { program: program@, args: Seq::empty() }),
    {
        let r = Invocation { program: String::from_str(program), args: Vec::new() };
        assert(r@.args =~= Seq::<Seq<char>>::empty());
        r
    }

    /// The same invocation with `a` appended to its arguments.
    pub fn arg(self, a: &str) -> (r: Invocation)
        ensures
            r@ == (InvocationView { program: self@.program, args: self@.args.push(a@) }),
    {
        let ghost before = self@;
        let mut args = self.args;
        args.push(String::from_str(a));
        let r = Invocation { program: self.program, args };
        assert(r@.args =~= before.args.push(a@));
        r
    }
}

/// One exchange with the host's clipboard.
#[derive(Debug)]
pub enum Action {
    /// Launch the tool, write the text to its standard input, wait for it to exit.
    Feed(Invocation, String),
    /// Launch the tool and read its standard output to the end.
    Capture(Invocation),
    /// As `Capture`, with the tool's diagnostics on standard error discarded.
    CaptureQuiet(Invocation),
    /// Run the tool to completion; an exit status other than success is fatal.
    Check(Invocation),
    /// Run the tool to completion as a one-way notification, without a pipe.
    Notify(Invocation),
    /// Replace the clipboard's text through the native clipboard API.
    NativeSet(String),
    /// Read the clipboard's text through the native clipboard API.
    NativeGet,
}

/// The mathematical value of an [`Action`].
pub enum ActionView {
    Feed(InvocationView, Seq<char>),
    Capture(InvocationView),
    CaptureQuiet(InvocationView),
    Check(InvocationView),
    Notify(InvocationView),
    NativeSet(Seq<char>),
    NativeGet,
}

impl View for Action {
    type V = ActionView;

    open spec fn view(&self) -> ActionView {
        match self {
            Action::Feed(i, t) => ActionView::Feed(i@, t@),
            Action::Capture(i) => ActionView::Capture(i@),
            Action::CaptureQuiet(i) => ActionView::CaptureQuiet(i@),
            Action::Check(i) => ActionView::Check(i@),
            Action::Notify(i) => ActionView::Notify(i@),
            Action::NativeSet(t) => ActionView::NativeSet(t@),
            Action::NativeGet => ActionView::NativeGet,
        }
    }
}

impl ActionView {
    /// The action only reads the clipboard: it hands the host no text.
    pub open spec fn reads_only(self) -> bool {
        self is Capture || self is CaptureQuiet || self is NativeGet
    }

    /// The text that the action hands the host to hold, if any: the text fed
    /// to the tool, set through the native API, or sent as the last argument
    /// of a notification.
    pub open spec fn handed_text(self) -> Option<Seq<char>> {
        match self {
            ActionView::Feed(_, t) => Some(t),
            ActionView::NativeSet(t) => Some(t),
            ActionView::Notify(i) => if i.args.len() > 0 {
                Some(i.args.last())
            } else {
                None
            },
            _ => None,
        }
    }
}

} // verus!
