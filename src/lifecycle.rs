use vstd::prelude::*;
use vstd::string::*;

verus! {

/// What the process was started with: the plugin to load and the four
/// identifiers handed verbatim to the plugin's initialization.
pub struct LaunchArgs {
    pub plugin_path: String,
    pub site_id: String,
    pub service_url: String,
    pub database_url: String,
    pub directory_url: String,
}

/// Why the process arguments cannot be used.
#[derive(PartialEq, Eq, Structural, Clone, Copy, Debug)]
pub enum LaunchError {
    /// No plugin path follows the program name.
    MissingPluginPath,
}

/// The argument at `i`, or the empty text where there are fewer arguments.
pub open spec fn arg_or_empty(args: Seq<String>, i: int) -> Seq<char> {
    if 0 <= i < args.len() {
        args[i]@
    } else {
        Seq::empty()
    }
}

fn arg_or_empty_exec(args: &Vec<String>, i: usize) -> (r: String)
    ensures
        r@ == arg_or_empty(args@, i as int),
{
    if i < args.len() {
        args[i].clone()
    } else {
        String::new()
    }
}

/// Reads the process arguments (program name first): the plugin path, then
/// up to four identifiers, each empty when left out; further ones are ignored.
pub fn parse_arguments(args: &Vec<String>) -> (r: Result<LaunchArgs, LaunchError>)
    ensures
        args@.len() < 2 <==> r is Err,
        r matches Err(e) ==> e == LaunchError::MissingPluginPath,
        r matches Ok(a) ==> {
            &&& a.plugin_path@ == args@[1]@
            &&& a.site_id@ == arg_or_empty(args@, 2)
            &&& a.service_url@ == arg_or_empty(args@, 3)
            &&& a.database_url@ == arg_or_empty(args@, 4)
            &&& a.directory_url@ == arg_or_empty(args@, 5)
        },
{
    if args.len() < 2 {
        return Err(LaunchError::MissingPluginPath);
    }
    Ok(LaunchArgs {
        plugin_path: args[1].clone(),
        site_id: arg_or_empty_exec(args, 2),
        service_url: arg_or_empty_exec(args, 3),
        database_url: arg_or_empty_exec(args, 4),
        directory_url: arg_or_empty_exec(args, 5),
    })
}

/// What `url::Url::parse` followed by `Url::port` gives for a text: `None`
/// where the text is no URL, `Some(None)` where the URL names no port or the
/// default port of its scheme, `Some(Some(p))` otherwise.
pub uninterp spec fn url_port_of(text: Seq<char>) -> Option<Option<u16>>;

/// Relies on `url::Url::parse` to read the text as a URL, and on `Url::port`
/// for the explicit port it holds.
#[verifier::external_body]
fn url_port(text: &str) -> (r: Option<Option<u16>>)
    ensures
        r == url_port_of(text@),
{
    url::Url::parse(text).ok().map(|u| u.port())
}

/// The scheme under which the plugin's service address is read.
pub const SERVICE_SCHEME_PREFIX: &'static str = "https://";

/// The port to listen on for a service address such as `host:port`: the
/// explicit port of the address read as an `https` URL.
pub open spec fn bind_port_of(address: Seq<char>) -> Option<u16> {
    match url_port_of(SERVICE_SCHEME_PREFIX@ + address) {
        Some(Some(p)) => Some(p),
        _ => None,
    }
}

/// Why startup stopped before serving.
#[derive(PartialEq, Eq, Structural, Clone, Copy, Debug)]
pub enum StartupFailure {
    /// The plugin could not be loaded, or lacks an entry point.
    PluginUnavailable,
    /// The plugin's initialization returned a non-zero code.
    InitializationFailed,
    /// The service address is no URL, or names no explicit port.
    NoBindPort,
    /// The certificate, key or trusted-root files could not be used.
    TrustUnavailable,
    /// The listening socket could not be bound.
    BindFailed,
    /// An event came that the current phase does not expect.
    OutOfOrder,
}

/// Exit code for a startup failure that carries no code of its own.
pub const STARTUP_FAILURE_EXIT_CODE: i32 = 1;

/// The phases of startup; each names what it waits for.
#[derive(PartialEq, Eq, Structural, Clone, Copy, Debug)]
pub enum StartupPhase {
    Idle,
    LoadingPlugin,
    Initializing,
    ResolvingAddress,
    LoadingTrust { port: u16 },
    Binding { port: u16 },
    Serving,
    Stopped { failure: StartupFailure, code: i32 },
}

/// What the surrounding program reports back after doing an action.
pub enum StartupEvent {
    Launched,
    /// Whether the plugin loaded with all its entry points.
    PluginLoaded(bool),
    /// The code that the plugin's initialization returned.
    Initialized(i32),
    /// The service address that the plugin resolved.
    AddressResolved(String),
    /// Whether the certificate, key and trusted roots were loaded.
    TrustLoaded(bool),
    /// Whether the listening socket was bound.
    Bound(bool),
}

/// What the surrounding program is to do next.
#[derive(PartialEq, Eq, Structural, Clone, Copy, Debug)]
pub enum StartupAction {
    LoadPlugin,
    Initialize,
    ResolveAddress,
    LoadTrust,
    /// Listen on `0.0.0.0` at this port.
    Bind(u16),
    Serve,
    /// End the process with this code, before any connection is accepted.
    Exit { failure: StartupFailure, code: i32 },
}

pub open spec fn stop(failure: StartupFailure, code: i32) -> (StartupPhase, StartupAction) {
    (StartupPhase::Stopped { failure, code }, StartupAction::Exit { failure, code })
}

/// One step of startup: from a phase and an event, the next phase and action.
pub open spec fn startup_next(phase: StartupPhase, event: StartupEvent) -> (StartupPhase, StartupAction) {
    match (phase, event) {
        (StartupPhase::Stopped { failure, code }, _) => stop(failure, code),
        (StartupPhase::Idle, StartupEvent::Launched) =>
            (StartupPhase::LoadingPlugin, StartupAction::LoadPlugin),
        (StartupPhase::LoadingPlugin, StartupEvent::PluginLoaded(ok)) =>
            if ok {
                (StartupPhase::Initializing, StartupAction::Initialize)
            } else {
                stop(StartupFailure::PluginUnavailable, STARTUP_FAILURE_EXIT_CODE)
            },
        (StartupPhase::Initializing, StartupEvent::Initialized(code)) =>
            if code == 0 {
                (StartupPhase::ResolvingAddress, StartupAction::ResolveAddress)
            } else {
                stop(StartupFailure::InitializationFailed, code)
            },
        (StartupPhase::ResolvingAddress, StartupEvent::AddressResolved(address)) =>
            match bind_port_of(address@) {
                Some(port) => (StartupPhase::LoadingTrust { port }, StartupAction::LoadTrust),
                None => stop(StartupFailure::NoBindPort, STARTUP_FAILURE_EXIT_CODE),
            },
        (StartupPhase::LoadingTrust { port }, StartupEvent::TrustLoaded(ok)) =>
            if ok {
                (StartupPhase::Binding { port }, StartupAction::Bind(port))
            } else {
                stop(StartupFailure::TrustUnavailable, STARTUP_FAILURE_EXIT_CODE)
            },
        (StartupPhase::Binding { port }, StartupEvent::Bound(ok)) =>
            if ok {
                (StartupPhase::Serving, StartupAction::Serve)
            } else {
                stop(StartupFailure::BindFailed, STARTUP_FAILURE_EXIT_CODE)
            },
        _ => stop(StartupFailure::OutOfOrder, STARTUP_FAILURE_EXIT_CODE),
    }
}

/// The phase reached and the actions asked for when `events` come in order.
pub open spec fn startup_run(phase: StartupPhase, events: Seq<StartupEvent>) -> (StartupPhase, Seq<StartupAction>)
    decreases events.len(),
{
    if events.len() == 0 {
        (phase, Seq::empty())
    } else {
        let (next, action) = startup_next(phase, events[0]);
        let (last, rest) = startup_run(next, events.drop_first());
        (last, seq![action] + rest)
    }
}

/// Reads the port to listen on from the service address that the plugin
/// resolved.
pub fn bind_port(address: &str) -> (r: Option<u16>)
    ensures
        r == bind_port_of(address@),
{
    let url = SERVICE_SCHEME_PREFIX.to_owned().concat(address);
    match url_port(url.as_str()) {
        Some(Some(p)) => Some(p),
        _ => None,
    }
}

/// The startup sequence: load the plugin, initialize it, resolve the
/// service address and its port, load the trust material, bind, serve.
pub struct Startup {
    pub phase: StartupPhase,
}

impl Startup {
    pub fn new() -> (s: Startup)
        ensures
            s.phase == StartupPhase::Idle,
    {
        Startup { phase: StartupPhase::Idle }
    }

    /// Takes in what the last action gave and says what to do next.
    pub fn step(&mut self, event: StartupEvent) -> (action: StartupAction)
        ensures
            (final(self).phase, action) == startup_next(old(self).phase, event),
    {
        let (next, action) = match (self.phase, event) {
            (StartupPhase::Stopped { failure, code }, _) => (
                StartupPhase::Stopped { failure, code },
                StartupAction::Exit { failure, code },
            ),
            (StartupPhase::Idle, StartupEvent::Launched) => (StartupPhase::LoadingPlugin, StartupAction::LoadPlugin),
            (StartupPhase::LoadingPlugin, StartupEvent::PluginLoaded(true)) => (StartupPhase::Initializing, StartupAction::Initialize),
            (StartupPhase::LoadingPlugin, StartupEvent::PluginLoaded(false)) => stop_exec(StartupFailure::PluginUnavailable, STARTUP_FAILURE_EXIT_CODE),
            (StartupPhase::Initializing, StartupEvent::Initialized(code)) => {
                if code == 0 {
                    (StartupPhase::ResolvingAddress, StartupAction::ResolveAddress)
                } else {
                    stop_exec(StartupFailure::InitializationFailed, code)
                }
            },
            (StartupPhase::ResolvingAddress, StartupEvent::AddressResolved(address)) => {
                match bind_port(address.as_str()) {
                    Some(port) => (StartupPhase::LoadingTrust { port }, StartupAction::LoadTrust),
                    None => stop_exec(StartupFailure::NoBindPort, STARTUP_FAILURE_EXIT_CODE),
                }
            },
            (StartupPhase::LoadingTrust { port }, StartupEvent::TrustLoaded(ok)) => {
                if ok {
                    (StartupPhase::Binding { port }, StartupAction::Bind(port))
                } else {
                    stop_exec(StartupFailure::TrustUnavailable, STARTUP_FAILURE_EXIT_CODE)
                }
            },
            (StartupPhase::Binding { port: _ }, StartupEvent::Bound(ok)) => {
                if ok {
                    (StartupPhase::Serving, StartupAction::Serve)
                } else {
                    stop_exec(StartupFailure::BindFailed, STARTUP_FAILURE_EXIT_CODE)
                }
            },
            _ => stop_exec(StartupFailure::OutOfOrder, STARTUP_FAILURE_EXIT_CODE),
        };
        self.phase = next;
        action
    }
}

fn stop_exec(failure: StartupFailure, code: i32) -> (r: (StartupPhase, StartupAction))
    ensures
        r == stop(failure, code),
{
    (StartupPhase::Stopped { failure, code }, StartupAction::Exit { failure, code })
}

/// Once startup has stopped it stays stopped: every later event is answered
/// with the same exit.
pub proof fn lemma_stopped_stays_stopped(failure: StartupFailure, code: i32, events: Seq<StartupEvent>)
    ensures
        startup_run(StartupPhase::Stopped { failure, code }, events).0 == (StartupPhase::Stopped { failure, code }),
        startup_run(StartupPhase::Stopped { failure, code }, events).1.len() == events.len(),
        forall|i: int| 0 <= i < events.len()
            ==> #[trigger] startup_run(StartupPhase::Stopped { failure, code }, events).1[i]
                == (StartupAction::Exit { failure, code }),
    decreases events.len(),
{
    if events.len() > 0 {
        lemma_stopped_stays_stopped(failure, code, events.drop_first());
        let rest = startup_run(StartupPhase::Stopped { failure, code }, events.drop_first()).1;
        assert forall|i: int| 0 <= i < events.len()
            implies #[trigger] startup_run(StartupPhase::Stopped { failure, code }, events).1[i]
                == (StartupAction::Exit { failure, code }) by {
            if i > 0 {
                assert(rest[i - 1] == (StartupAction::Exit { failure, code }));
            }
        }
    }
}

/// A non-zero code from the plugin's initialization ends startup: the process
/// exits with that same code, whatever comes after, and no socket is bound.
pub proof fn lemma_failed_initialization_exits_with_its_code(code: i32, later: Seq<StartupEvent>)
    requires
        code != 0,
    ensures
        ({
            let (last, actions) = startup_run(StartupPhase::Initializing, seq![StartupEvent::Initialized(code)] + later);
            &&& last == (StartupPhase::Stopped { failure: StartupFailure::InitializationFailed, code })
            &&& actions.len() == later.len() + 1
            &&& forall|i: int| 0 <= i < actions.len()
                ==> #[trigger] actions[i] == (StartupAction::Exit { failure: StartupFailure::InitializationFailed, code })
            &&& forall|i: int| 0 <= i < actions.len() ==> !(#[trigger] actions[i] is Bind)
        }),
{
    let events = seq![StartupEvent::Initialized(code)] + later;
    assert(events.drop_first() =~= later);
    lemma_stopped_stays_stopped(StartupFailure::InitializationFailed, code, later);
    let actions = startup_run(StartupPhase::Initializing, events).1;
    let rest = startup_run(StartupPhase::Stopped { failure: StartupFailure::InitializationFailed, code }, later).1;
    assert forall|i: int| 0 <= i < actions.len()
        implies #[trigger] actions[i] == (StartupAction::Exit { failure: StartupFailure::InitializationFailed, code }) by {
        if i > 0 {
            assert(actions[i] == rest[i - 1]);
        }
    }
}

/// A service address with no explicit port ends startup before anything is
/// bound: the process exits with a non-zero code, whatever comes after.
pub proof fn lemma_portless_address_never_binds(address: String, later: Seq<StartupEvent>)
    ensures
        bind_port_of(address@) is None ==> ({
            let (last, actions) = startup_run(StartupPhase::ResolvingAddress, seq![StartupEvent::AddressResolved(address)] + later);
            &&& last == (StartupPhase::Stopped { failure: StartupFailure::NoBindPort, code: STARTUP_FAILURE_EXIT_CODE })
            &&& actions.len() == later.len() + 1
            &&& forall|i: int| 0 <= i < actions.len()
                ==> #[trigger] actions[i] == (StartupAction::Exit { failure: StartupFailure::NoBindPort, code: STARTUP_FAILURE_EXIT_CODE })
            &&& forall|i: int| 0 <= i < actions.len() ==> !(#[trigger] actions[i] is Bind)
        }),
{
    if bind_port_of(address@) is None {
        let failure = StartupFailure::NoBindPort;
        let code = STARTUP_FAILURE_EXIT_CODE;
        let events = seq![StartupEvent::AddressResolved(address)] + later;
        assert(events.drop_first() =~= later);
        lemma_stopped_stays_stopped(failure, code, later);
        let actions = startup_run(StartupPhase::ResolvingAddress, events).1;
        let rest = startup_run(StartupPhase::Stopped { failure, code }, later).1;
        assert forall|i: int| 0 <= i < actions.len()
            implies #[trigger] actions[i] == (StartupAction::Exit { failure, code }) by {
            if i > 0 {
                assert(actions[i] == rest[i - 1]);
            }
        }
    }
}

} // verus!
