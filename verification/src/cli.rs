//! What a command line asks for, and how a capture is set up.

use vstd::prelude::*;
use vstd::string::StringExecFns;
use crate::gateway::Surface;
use crate::launch::{surface_url, surface_url_of};

verus! {

/// The host that is used where none is given.
pub const DEFAULT_HOST: &'static str = "127.0.0.1";

/// The port that is used where none is given.
pub const DEFAULT_PORT: u16 = 17171;

/// What is printed for the stop option.
pub const STOP_MESSAGE: &'static str = "stop server";

/// What is printed when the directories could not be created.
pub const DIRECTORIES_WARNING: &'static str = "Failed to create the data directories.";

/// What stands before the address of the JSON listing.
pub const API_LABEL: &'static str = "API: ";

/// What stands before the address of the HTML listing.
pub const WEB_LABEL: &'static str = "Web: ";

/// What stands before the address of the plain text listing.
pub const RAW_LABEL: &'static str = "Raw: ";

/// The options of one invocation.
#[derive(Clone, Debug, PartialEq, Eq)]
pub struct Options {
    pub start: bool,
    pub stop: bool,
    pub status: bool,
    pub ls: bool,
    pub follow: Option<String>,
    pub reopen: Option<String>,
    pub host: String,
    pub port: u16,
}

/// One thing that an invocation does.
#[derive(Clone, Debug, PartialEq, Eq)]
pub enum Command {
    /// Probe the server and say whether it is alive.
    Status,
    /// Make sure that a server runs, then capture: into the named session,
    /// or into a new one.
    Capture(Option<String>),
    /// Print the stop message.
    Stop,
    /// Print the ids of the sessions.
    List,
}

/// A command as contracts see it.
pub enum CommandView {
    Status,
    Capture(Option<Seq<char>>),
    Stop,
    List,
}

impl DeepView for Command {
    type V = CommandView;

    open spec fn deep_view(&self) -> CommandView {
        match *self {
            Command::Status => CommandView::Status,
            Command::Capture(id) => CommandView::Capture(
                match id {
                    Some(id) => Some(id@),
                    None => None,
                },
            ),
            Command::Stop => CommandView::Stop,
            Command::List => CommandView::List,
        }
    }
}

/// How the setup of a capture ended.
#[derive(Clone, Debug, PartialEq, Eq)]
pub enum Setup {
    /// The directories are there: these lines are printed, and the capture
    /// goes on.
    Proceed(Vec<String>),
    /// The directories could not be created: this line is printed, and
    /// nothing more is done.
    Abort(String),
}

/// The commands of an invocation, in the order in which they are run:
/// status, start, stop, list, reopen. The follow option asks for nothing.
pub open spec fn plan_of(
    start: bool,
    stop: bool,
    status: bool,
    ls: bool,
    reopen: Option<Seq<char>>,
) -> Seq<CommandView> {
    let for_status = if status {
        seq![CommandView::Status]
    } else {
        seq![]
    };
    let for_start = if start {
        seq![CommandView::Capture(None)]
    } else {
        seq![]
    };
    let for_stop = if stop {
        seq![CommandView::Stop]
    } else {
        seq![]
    };
    let for_ls = if ls {
        seq![CommandView::List]
    } else {
        seq![]
    };
    let for_reopen = match reopen {
        Some(id) => seq![CommandView::Capture(Some(id))],
        None => seq![],
    };
    for_status + for_start + for_stop + for_ls + for_reopen
}

/// The three lines that tell the operator where the sessions are served.
pub open spec fn banner_of(host: Seq<char>, port: u16) -> Seq<Seq<char>> {
    seq![
        API_LABEL@ + surface_url_of(host, port, Surface::Api),
        WEB_LABEL@ + surface_url_of(host, port, Surface::Web),
        RAW_LABEL@ + surface_url_of(host, port, Surface::Raw),
    ]
}

/// The view of an optional id.
pub open spec fn id_view(id: Option<String>) -> Option<Seq<char>> {
    match id {
        Some(id) => Some(id@),
        None => None,
    }
}

/// The commands of an invocation, in the order in which they are run.
pub fn plan(options: &Options) -> (commands: Vec<Command>)
    ensures
        commands.deep_view() == plan_of(
            options.start,
            options.stop,
            options.status,
            options.ls,
            id_view(options.reopen),
        ),
{
    let mut commands: Vec<Command> = Vec::new();
    assert(commands.deep_view() =~= Seq::<CommandView>::empty());
    if options.status {
        let ghost before = commands.deep_view();
        commands.push(Command::Status);
        assert(commands.deep_view() =~= before.push(CommandView::Status));
    }
    if options.start {
        let ghost before = commands.deep_view();
        commands.push(Command::Capture(None));
        assert(commands.deep_view() =~= before.push(CommandView::Capture(None)));
    }
    if options.stop {
        let ghost before = commands.deep_view();
        commands.push(Command::Stop);
        assert(commands.deep_view() =~= before.push(CommandView::Stop));
    }
    if options.ls {
        let ghost before = commands.deep_view();
        commands.push(Command::List);
        assert(commands.deep_view() =~= before.push(CommandView::List));
    }
    match &options.reopen {
        Some(id) => {
            let ghost before = commands.deep_view();
            commands.push(Command::Capture(Some(id.clone())));
            assert(commands.deep_view() =~= before.push(CommandView::Capture(Some(id@))));
        },
        None => {},
    }
    assert(commands.deep_view() =~= plan_of(
        options.start,
        options.stop,
        options.status,
        options.ls,
        id_view(options.reopen),
    ));
    commands
}

/// One line of the banner.
fn labelled(label: &str, url: String) -> (line: String)
    ensures
        line@ == label@ + url@,
{
    let mut line = String::from_str(label);
    line.append(url.as_str());
    line
}

/// The three lines that tell the operator where the sessions are served.
pub fn banner(host: &str, port: u16) -> (lines: Vec<String>)
    ensures
        lines.deep_view() == banner_of(host@, port),
{
    let mut lines: Vec<String> = Vec::new();
    lines.push(labelled(API_LABEL, surface_url(host, port, Surface::Api)));
    lines.push(labelled(WEB_LABEL, surface_url(host, port, Surface::Web)));
    lines.push(labelled(RAW_LABEL, surface_url(host, port, Surface::Raw)));
    assert(lines.deep_view() =~= banner_of(host@, port));
    lines
}

/// The setup of a capture, once it is known whether the directories are
/// there. Without them nothing can be captured: the setup is given up.
pub fn setup_and_start_server(directories_ready: bool, host: &str, port: u16) -> (setup: Setup)
    ensures
        match setup {
            Setup::Proceed(lines) => directories_ready && lines.deep_view() == banner_of(
                host@,
                port,
            ),
            Setup::Abort(message) => !directories_ready && message@ == DIRECTORIES_WARNING@,
        },
{
    if directories_ready {
        Setup::Proceed(banner(host, port))
    } else {
        Setup::Abort(String::from_str(DIRECTORIES_WARNING))
    }
}

/// The exit code of an invocation: zero, or one where a setup was given up.
pub fn exit_code(gave_up: bool) -> (code: i32)
    ensures
        code == if gave_up {
            1i32
        } else {
            0i32
        },
{
    if gave_up {
        1
    } else {
        0
    }
}

} // verus!
