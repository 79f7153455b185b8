//! The arguments of the `winmux` command line, as plain values.
//!
//! The command-line front end fills these from `argv`; the rest of the
//! command-line logic reads them. Paths are kept as the text the user gave.
use vstd::prelude::*;

verus! {

/// The whole command line: global flags and one subcommand.
#[derive(Debug)]
pub struct Cli {
    /// Flags accepted before or after the subcommand.
    pub global: GlobalFlags,
    /// The subcommand.
    pub command: Command,
}

/// Flags accepted anywhere on the command line.
#[derive(Clone, Copy, Debug, PartialEq, Eq, Structural)]
pub struct GlobalFlags {
    /// `-q`, `--quiet`: no informational output.
    pub quiet: bool,
    /// `--json`: machine-readable output.
    pub json: bool,
    /// `--no-color`: no ANSI colours.
    pub no_color: bool,
}

/// The subcommands.
#[derive(Debug)]
pub enum Command {
    /// `ls`: list sessions.
    Ls(LsArgs),
    /// `new-session`.
    NewSession(NewSessionArgs),
    /// `attach`.
    Attach(AttachArgs),
    /// `detach`.
    Detach,
    /// `kill-session`.
    KillSession(KillSessionArgs),
    /// `kill-window`.
    KillWindow(TargetOnlyArgs),
    /// `kill-pane`.
    KillPane(TargetOnlyArgs),
    /// `send-keys`.
    SendKeys(SendKeysArgs),
    /// `list-windows`.
    ListWindows(OptionalTargetArgs),
    /// `list-panes`.
    ListPanes(OptionalTargetArgs),
    /// `split-window`.
    SplitWindow(SplitWindowArgs),
    /// `select-pane`.
    SelectPane(SelectPaneArgs),
    /// `resize-pane`.
    ResizePane(ResizePaneArgs),
    /// `capture-pane`.
    CapturePane(CapturePaneArgs),
    /// `display-message`.
    DisplayMessage(DisplayMessageArgs),
    /// `source-file`.
    SourceFile(SourceFileArgs),
    /// `show-options`.
    ShowOptions(ShowOptionsArgs),
    /// `bind-key`.
    BindKey(BindKeyArgs),
    /// `unbind-key`.
    UnbindKey(UnbindKeyArgs),
    /// `kill-server`.
    KillServer,
    /// `start-server`.
    StartServer,
    /// `version`.
    Version,
}

/// `ls` arguments.
#[derive(Debug)]
pub struct LsArgs {
    /// `--all`: also list detached sessions.
    pub all: bool,
}

/// `new-session` arguments.
#[derive(Debug)]
pub struct NewSessionArgs {
    /// `-s`: session name.
    pub session: Option<String>,
    /// `-d`: create without attaching.
    pub detached: bool,
    /// `-c`: working directory.
    pub cwd: Option<String>,
    /// `--shell`: shell binary.
    pub shell: Option<String>,
    /// Everything after `--`: the shell and its arguments.
    pub shell_argv: Vec<String>,
}

/// `attach` arguments.
#[derive(Debug)]
pub struct AttachArgs {
    /// `-t`: target session.
    pub target: Option<String>,
    /// `-d`: detach other clients.
    pub detach_others: bool,
}

/// `kill-session` arguments.
#[derive(Debug)]
pub struct KillSessionArgs {
    /// `-t`: target session (name or id).
    pub target: String,
}

/// Arguments of commands that need a target.
#[derive(Debug)]
pub struct TargetOnlyArgs {
    /// `-t`: target.
    pub target: String,
}

/// Arguments of commands whose target is optional.
#[derive(Debug)]
pub struct OptionalTargetArgs {
    /// `-t`: target.
    pub target: Option<String>,
}

/// `send-keys` arguments.
#[derive(Debug)]
pub struct SendKeysArgs {
    /// `-t`: target pane or session.
    pub target: Option<String>,
    /// Key tokens (at least one).
    pub keys: Vec<String>,
}

/// `split-window` arguments.
#[derive(Debug)]
pub struct SplitWindowArgs {
    /// `-t`: target.
    pub target: Option<String>,
    /// `-h`: split left and right.
    pub horizontal: bool,
    /// `-v`: split top and bottom.
    pub vertical: bool,
    /// `-p`: size of the new pane in percent.
    pub percent: Option<u8>,
    /// `-c`: working directory.
    pub cwd: Option<String>,
    /// `--help`.
    pub help: Option<bool>,
}

/// `select-pane` arguments.
#[derive(Debug)]
pub struct SelectPaneArgs {
    /// `-t`: target.
    pub target: Option<String>,
    /// `-L`.
    pub left: bool,
    /// `-R`.
    pub right: bool,
    /// `-U`.
    pub up: bool,
    /// `-D`.
    pub down: bool,
}

/// `resize-pane` arguments.
#[derive(Debug)]
pub struct ResizePaneArgs {
    /// `-t`: target.
    pub target: Option<String>,
    /// `-L N`.
    pub left: Option<u16>,
    /// `-R N`.
    pub right: Option<u16>,
    /// `-U N`.
    pub up: Option<u16>,
    /// `-D N`.
    pub down: Option<u16>,
    /// `-Z`: toggle zoom.
    pub zoom: bool,
}

/// `capture-pane` arguments.
#[derive(Debug)]
pub struct CapturePaneArgs {
    /// `-t`: target.
    pub target: Option<String>,
    /// `-p`: print to standard output.
    pub print: bool,
    /// `-S`: first line.
    pub start: Option<i32>,
    /// `-E`: last line.
    pub end: Option<i32>,
}

/// `display-message` arguments.
#[derive(Debug)]
pub struct DisplayMessageArgs {
    /// `-t`: target.
    pub target: Option<String>,
    /// The message.
    pub message: String,
}

/// `source-file` arguments.
#[derive(Debug)]
pub struct SourceFileArgs {
    /// The file.
    pub path: String,
}

/// `show-options` arguments.
#[derive(Debug)]
pub struct ShowOptionsArgs {
    /// `-g`: global options.
    pub global: bool,
}

/// `bind-key` arguments.
#[derive(Debug)]
pub struct BindKeyArgs {
    /// The key.
    pub key: String,
    /// The command (at least one token).
    pub command: Vec<String>,
}

/// `unbind-key` arguments.
#[derive(Debug)]
pub struct UnbindKeyArgs {
    /// The key.
    pub key: String,
}

} // verus!
