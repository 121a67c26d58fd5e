//! The daemon: its command line, and how it winds down.

use crate::text;
use vstd::prelude::*;
use vstd::string::*;

verus! {

/// What `--help` prints.
pub const HELP: &'static str = "xembsni — bridge XEmbed system-tray icons to StatusNotifierItem (SNI)

USAGE:
    xembsni [OPTIONS]

OPTIONS:
    -h, --help       Print this help and exit
    -V, --version    Print version and exit

The daemon runs in the foreground and logs to stderr. Set RUST_LOG to control
verbosity (e.g. RUST_LOG=debug). It exits cleanly on SIGINT/SIGTERM.
";

/// The exit status for a command line that is not understood.
pub const USAGE_ERROR: i32 = 2;

/// Something to do in place of running.
#[derive(Clone, Copy, Debug, PartialEq, Eq)]
pub enum CliAction {
    Help,
    Version,
}

/// What the arguments ask for: the first of them decides.
pub open spec fn asked(args: Seq<Seq<char>>) -> Result<Option<CliAction>, Seq<char>> {
    if args.len() == 0 {
        Ok(None)
    } else if args[0] == "-h"@ || args[0] == "--help"@ {
        Ok(Some(CliAction::Help))
    } else if args[0] == "-V"@ || args[0] == "--version"@ {
        Ok(Some(CliAction::Version))
    } else {
        Err("unknown argument: "@ + args[0])
    }
}

/// The arguments as texts.
pub open spec fn texts(args: Seq<String>) -> Seq<Seq<char>> {
    Seq::new(args.len(), |i: int| args[i]@)
}

/// Whether an outcome is what the arguments ask for.
pub open spec fn is_outcome(
    outcome: Result<Option<CliAction>, String>,
    expected: Result<Option<CliAction>, Seq<char>>,
) -> bool {
    match (outcome, expected) {
        (Ok(action), Ok(expected)) => action == expected,
        (Err(message), Err(expected)) => message@ == expected,
        _ => false,
    }
}

/// Understands the arguments behind the program's name.
pub fn parse_args(args: &Vec<String>) -> (outcome: Result<Option<CliAction>, String>)
    ensures
        is_outcome(outcome, asked(texts(args@))),
{
    if args.len() == 0 {
        return Ok(None);
    }
    let first: &str = args[0].as_str();
    assert(texts(args@)[0] == first@);
    if text::same_text(first, "-h") || text::same_text(first, "--help") {
        Ok(Some(CliAction::Help))
    } else if text::same_text(first, "-V") || text::same_text(first, "--version") {
        Ok(Some(CliAction::Version))
    } else {
        let mut message: String = "unknown argument: ".to_owned();
        message.append(first);
        Err(message)
    }
}

/// How the daemon starts.
#[derive(Clone, Debug, PartialEq, Eq)]
pub enum Startup {
    /// Run.
    Run,
    /// Print this to the standard output and exit cleanly.
    Print(String),
    /// Print this to the standard error and exit with this status.
    Refuse { message: String, status: i32 },
}

/// The model of a [`Startup`].
#[verifier::ext_equal]
pub enum StartupView {
    Run,
    Print(Seq<char>),
    Refuse { message: Seq<char>, status: i32 },
}

impl View for Startup {
    type V = StartupView;

    open spec fn view(&self) -> StartupView {
        match *self {
            Startup::Run => StartupView::Run,
            Startup::Print(text) => StartupView::Print(text@),
            Startup::Refuse { message, status } => StartupView::Refuse {
                message: message@,
                status,
            },
        }
    }
}

/// How a daemon of the given version starts.
pub open spec fn start_of(args: Seq<Seq<char>>, version: Seq<char>) -> StartupView {
    match asked(args) {
        Ok(None) => StartupView::Run,
        Ok(Some(CliAction::Help)) => StartupView::Print(HELP@),
        Ok(Some(CliAction::Version)) => StartupView::Print("xembsni "@ + version + "\n"@),
        Err(message) => StartupView::Refuse {
            message: message + "\n\n"@ + HELP@ + "\n"@,
            status: USAGE_ERROR,
        },
    }
}

/// Decides from the arguments how a daemon of the given version starts.
pub fn startup(args: &Vec<String>, version: &str) -> (start: Startup)
    ensures
        start@ == start_of(texts(args@), version@),
{
    match parse_args(args) {
        Ok(None) => Startup::Run,
        Ok(Some(CliAction::Help)) => Startup::Print(HELP.to_owned()),
        Ok(Some(CliAction::Version)) => {
            let mut text: String = "xembsni ".to_owned();
            text.append(version);
            text.append("\n");
            Startup::Print(text)
        },
        Err(complaint) => {
            let mut message: String = complaint;
            message.append("\n\n");
            message.append(HELP);
            message.append("\n");
            Startup::Refuse { message, status: USAGE_ERROR }
        },
    }
}

/// What ends the daemon's wait.
#[derive(Clone, Copy, Debug, PartialEq, Eq)]
pub enum Cause {
    /// A signal asks it to terminate.
    Signal,
    /// The bridge came to its end, in this way.
    Bridge(TaskEnd),
}

/// How a task or thread ended.
#[derive(Clone, Copy, Debug, PartialEq, Eq)]
pub enum TaskEnd {
    Clean,
    Error,
    Cancelled,
    Panicked,
}

/// Something that went wrong at the end.
#[derive(Clone, Copy, Debug, PartialEq, Eq)]
pub enum Complaint {
    BridgeError,
    BridgePanic,
    HostError,
    HostPanic,
}

/// A step of winding down.
#[derive(Clone, Copy, Debug, PartialEq, Eq)]
pub enum WindDown {
    /// Wake the tray host, whatever becomes of it.
    Wake,
    /// Wait for the bridge, and report how it ended.
    AwaitBridge,
    /// Wait for the tray host's thread, and report how it ended.
    JoinHost,
}

/// The steps of winding down. The bridge is only waited for where it has not
/// ended by itself; the host is woken in any case, so that it is not waited for
/// in vain.
pub open spec fn steps_of(cause: Cause) -> Seq<WindDown> {
    match cause {
        Cause::Signal => seq![
            WindDown::Wake,
            WindDown::AwaitBridge,
            WindDown::Wake,
            WindDown::JoinHost,
        ],
        Cause::Bridge(_) => seq![WindDown::Wake, WindDown::JoinHost],
    }
}

/// Plans how the daemon winds down.
pub fn wind_down(cause: Cause) -> (steps: Vec<WindDown>)
    ensures
        steps@ == steps_of(cause),
{
    let mut steps: Vec<WindDown> = Vec::new();
    if let Cause::Signal = cause {
        steps.push(WindDown::Wake);
        steps.push(WindDown::AwaitBridge);
    }
    steps.push(WindDown::Wake);
    steps.push(WindDown::JoinHost);
    assert(steps@ =~= steps_of(cause));
    steps
}

/// What there is to say of how the bridge ended: nothing where it ended cleanly
/// or was cancelled.
pub fn report_bridge(end: TaskEnd) -> (complaint: Option<Complaint>)
    ensures
        complaint == match end {
            TaskEnd::Clean => None,
            TaskEnd::Error => Some(Complaint::BridgeError),
            TaskEnd::Cancelled => None,
            TaskEnd::Panicked => Some(Complaint::BridgePanic),
        },
{
    match end {
        TaskEnd::Clean => None,
        TaskEnd::Error => Some(Complaint::BridgeError),
        TaskEnd::Cancelled => None,
        TaskEnd::Panicked => Some(Complaint::BridgePanic),
    }
}

/// What there is to say of how the tray host's thread ended: nothing where it
/// ended cleanly.
pub fn report_host(end: TaskEnd) -> (complaint: Option<Complaint>)
    ensures
        complaint == match end {
            TaskEnd::Clean => None,
            TaskEnd::Error => Some(Complaint::HostError),
            TaskEnd::Cancelled => Some(Complaint::HostPanic),
            TaskEnd::Panicked => Some(Complaint::HostPanic),
        },
{
    match end {
        TaskEnd::Clean => None,
        TaskEnd::Error => Some(Complaint::HostError),
        TaskEnd::Cancelled => Some(Complaint::HostPanic),
        TaskEnd::Panicked => Some(Complaint::HostPanic),
    }
}

impl Complaint {
    /// The complaint as the log has it.
    pub fn message(&self) -> (message: &'static str)
        ensures
            message@ == match *self {
                Complaint::BridgeError => "bridge exited with an error"@,
                Complaint::BridgePanic => "bridge task panicked"@,
                Complaint::HostError => "X11 event loop exited with an error"@,
                Complaint::HostPanic => "X11 thread panicked"@,
            },
    {
        match self {
            Complaint::BridgeError => "bridge exited with an error",
            Complaint::BridgePanic => "bridge task panicked",
            Complaint::HostError => "X11 event loop exited with an error",
            Complaint::HostPanic => "X11 thread panicked",
        }
    }
}

/// Only the first argument counts.
pub proof fn law_first_argument_decides(first: Seq<char>, rest: Seq<Seq<char>>)
    ensures
        asked(seq![first] + rest) == asked(seq![first]),
{
}

/// The host's thread is waited for last, and right after the host was woken.
pub proof fn law_host_is_woken_before_join(cause: Cause, i: int)
    requires
        0 <= i < steps_of(cause).len(),
    ensures
        steps_of(cause).last() == WindDown::JoinHost,
        steps_of(cause)[i] == WindDown::JoinHost ==> i == steps_of(cause).len() - 1
            && steps_of(cause)[i - 1] == WindDown::Wake,
        steps_of(cause)[i] == WindDown::AwaitBridge ==> cause is Signal && steps_of(cause)[i - 1]
            == WindDown::Wake,
{
}

/// A daemon without arguments runs. Asked for help or for its version, in the short or
/// the long form, it prints that; any other argument it names, with the help, and
/// refuses with a status of two.
pub proof fn law_what_arguments_do(args: Seq<Seq<char>>, version: Seq<char>)
    ensures
        args.len() == 0 ==> start_of(args, version) is Run,
        args.len() > 0 && (args[0] == "-h"@ || args[0] == "--help"@) ==> start_of(args, version)
            == StartupView::Print(HELP@),
        args.len() > 0 && (args[0] == "-V"@ || args[0] == "--version"@) ==> start_of(args, version)
            == StartupView::Print("xembsni "@ + version + "\n"@),
        args.len() > 0 && args[0] != "-h"@ && args[0] != "--help"@ && args[0] != "-V"@ && args[0]
            != "--version"@ ==> start_of(args, version) == (StartupView::Refuse {
            message: "unknown argument: "@ + args[0] + "\n\n"@ + HELP@ + "\n"@,
            status: 2,
        }),
        args.len() > 0 && args[0] != "-h"@ && args[0] != "--help"@ && args[0] != "-V"@ && args[0]
            != "--version"@ ==> asked(args) == Err::<Option<CliAction>, Seq<char>>(
            "unknown argument: "@ + args[0],
        ),
{
    reveal_strlit("-h");
    reveal_strlit("--help");
    reveal_strlit("-V");
    reveal_strlit("--version");
    assert("-h"@[1] != "-V"@[1]);
    assert("-h"@.len() != "--version"@.len() && "-V"@.len() != "--help"@.len());
    assert("--help"@.len() != "--version"@.len());
}

/// A daemon that was signalled waits for the bridge, once; one whose bridge has ended
/// does not. The host's thread is waited for once, in either case.
pub proof fn law_what_is_waited_for(cause: Cause)
    ensures
        cause is Signal ==> steps_of(cause).to_multiset().count(WindDown::AwaitBridge) == 1,
        !(cause is Signal) ==> steps_of(cause).to_multiset().count(WindDown::AwaitBridge) == 0,
        steps_of(cause).to_multiset().count(WindDown::JoinHost) == 1,
        steps_of(cause)[0] == WindDown::Wake,
{
    broadcast use vstd::seq_lib::group_to_multiset_ensures;
    let steps = steps_of(cause);
    let short = Seq::<WindDown>::empty().push(WindDown::Wake).push(WindDown::JoinHost);
    let long = Seq::<WindDown>::empty().push(WindDown::Wake).push(WindDown::AwaitBridge).push(
        WindDown::Wake,
    ).push(WindDown::JoinHost);
    if cause is Signal {
        assert(steps =~= long);
    } else {
        assert(steps =~= short);
    }
}

/// Whatever ended in an error or a panic is complained of, as what it was; what ended
/// cleanly, and a bridge that was cancelled, is not.
pub proof fn law_what_is_complained_of(
    end: TaskEnd,
    complaint: Option<Complaint>,
    told: Complaint,
    message: &'static str,
)
    ensures
        call_ensures(report_bridge, (end,), complaint) ==> {
            &&& complaint is None <==> end is Clean || end is Cancelled
            &&& end is Error ==> complaint == Some(Complaint::BridgeError)
            &&& end is Panicked ==> complaint == Some(Complaint::BridgePanic)
        },
        call_ensures(report_host, (end,), complaint) ==> {
            &&& complaint is None <==> end is Clean
            &&& end is Error ==> complaint == Some(Complaint::HostError)
            &&& end is Panicked ==> complaint == Some(Complaint::HostPanic)
        },
        call_ensures(Complaint::message, (&told,), message) ==> {
            &&& told is BridgeError ==> message@ == "bridge exited with an error"@
            &&& told is BridgePanic ==> message@ == "bridge task panicked"@
            &&& told is HostError ==> message@ == "X11 event loop exited with an error"@
            &&& told is HostPanic ==> message@ == "X11 thread panicked"@
        },
{
}

} // verus!
