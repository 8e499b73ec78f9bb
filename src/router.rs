use vstd::prelude::*;
use vstd::string::*;
use crate::connection::{RequestContext, identity_view};
use crate::handler::{self, Rejection, forwarded, shutdown_outcome, call_view};
use crate::service::{Operation, PluginCall, PluginCallView, Reply, ReplyView};
use crate::text::text_equals;

verus! {

/// What `std::path::Path::file_stem` gives for a path: its last component
/// without the final extension, `None` where there is no last component.
pub uninterp spec fn file_stem_of(path: Seq<char>) -> Option<Seq<char>>;

/// Relies on `std::path::Path::file_stem` for the name of the plugin file
/// without its extension.
#[verifier::external_body]
fn file_stem(path: &str) -> (r: Option<String>)
    ensures
        match r {
            Some(s) => file_stem_of(path@) == Some(s@),
            None => file_stem_of(path@) is None,
        },
{
    match std::path::Path::new(path).file_stem() {
        Some(stem) => stem.to_str().map(String::from),
        None => None,
    }
}

/// The routes, each under one method and one path.
#[derive(PartialEq, Eq, Structural, Clone, Copy, Debug)]
pub enum Route {
    Info,
    Execute,
    ExecuteOneWayTls,
    Queue,
    Shutdown,
}

pub open spec fn route_path(r: Route) -> Seq<char> {
    match r {
        Route::Info => "/"@,
        Route::Execute => "/execute"@,
        Route::ExecuteOneWayTls => "/execute-one-way-tls"@,
        Route::Queue => "/queue"@,
        Route::Shutdown => "/shutdown"@,
    }
}

pub open spec fn route_method(r: Route) -> Seq<char> {
    match r {
        Route::Info => "GET"@,
        _ => "POST"@,
    }
}

/// Whether the route is refused to a client that presented no certificate.
pub open spec fn requires_identity(r: Route) -> bool {
    r == Route::Execute || r == Route::Queue || r == Route::Shutdown
}

pub open spec fn route_for_path(path: Seq<char>) -> Option<Route> {
    if path == "/"@ {
        Some(Route::Info)
    } else if path == "/execute"@ {
        Some(Route::Execute)
    } else if path == "/execute-one-way-tls"@ {
        Some(Route::ExecuteOneWayTls)
    } else if path == "/queue"@ {
        Some(Route::Queue)
    } else if path == "/shutdown"@ {
        Some(Route::Shutdown)
    } else {
        None
    }
}

/// What to do with one request.
pub enum Dispatch {
    /// Send this reply.
    Respond(Reply),
    /// Call the plugin, then reply as the call's protocol says.
    Invoke(PluginCall),
    /// End the process with code 0 at once, sending nothing.
    Shutdown,
    /// Answer with the rejection's status.
    Reject(Rejection),
}

pub enum DispatchView {
    Respond(ReplyView),
    Invoke(PluginCallView),
    Shutdown,
    Reject(Rejection),
}

impl View for Dispatch {
    type V = DispatchView;

    open spec fn view(&self) -> DispatchView {
        match self {
            Dispatch::Respond(r) => DispatchView::Respond(r@),
            Dispatch::Invoke(c) => DispatchView::Invoke(c@),
            Dispatch::Shutdown => DispatchView::Shutdown,
            Dispatch::Reject(e) => DispatchView::Reject(*e),
        }
    }
}

pub const STATUS_CREATED: u16 = 201;

pub const INFO_PREFIX: &'static str = "OpenTwin Microservice (";

pub const INFO_SUFFIX: &'static str = ")";

/// The service name shown where the plugin file has no name.
pub const UNKNOWN_SERVICE: &'static str = "UNKNOWN";

/// The name of the service that offers the installer download page.
pub const INSTALLER_SERVICE: &'static str = "GlobalSessionService";

/// The service's name: the plugin file's name without its extension.
pub open spec fn service_name_of(plugin_path: Seq<char>) -> Option<Seq<char>> {
    file_stem_of(plugin_path)
}

/// The text that `GET /` answers with.
pub open spec fn info_text_of(name: Option<Seq<char>>) -> Seq<char> {
    INFO_PREFIX@ + (match name {
        Some(n) => n,
        None => UNKNOWN_SERVICE@,
    }) + INFO_SUFFIX@
}

fn forwarded_dispatch(r: Result<PluginCall, Rejection>) -> (d: Dispatch)
    ensures
        d@ == dispatch_of_call(call_view(r)),
{
    match r {
        Ok(c) => Dispatch::Invoke(c),
        Err(e) => Dispatch::Reject(e),
    }
}

pub open spec fn dispatch_of_call(r: Result<PluginCallView, Rejection>) -> DispatchView {
    match r {
        Ok(c) => DispatchView::Invoke(c),
        Err(e) => DispatchView::Reject(e),
    }
}

/// What the route table makes of a request, given the text of `GET /`.
pub open spec fn dispatch_of(
    info: Seq<char>,
    method: Seq<char>,
    path: Seq<char>,
    peer: Option<Seq<u8>>,
    remote: Seq<char>,
    body: Seq<u8>,
) -> DispatchView {
    match route_for_path(path) {
        None => DispatchView::Reject(Rejection::NotFound),
        Some(r) => if method != route_method(r) {
            DispatchView::Reject(Rejection::MethodNotAllowed)
        } else {
            match r {
                Route::Info => DispatchView::Respond(ReplyView { status: STATUS_CREATED, body: info }),
                Route::Execute => dispatch_of_call(forwarded(Operation::PerformAction, true, peer, remote, body)),
                Route::ExecuteOneWayTls => dispatch_of_call(
                    forwarded(Operation::PerformActionOneWayTls, false, None, remote, body),
                ),
                Route::Queue => dispatch_of_call(forwarded(Operation::QueueAction, true, peer, remote, body)),
                Route::Shutdown => match shutdown_outcome(peer, body) {
                    Ok(()) => DispatchView::Shutdown,
                    Err(e) => DispatchView::Reject(e),
                },
            }
        },
    }
}

/// The fixed route table of one service, set up once at startup.
pub struct Router {
    service_name: Option<String>,
}

impl Router {
    pub closed spec fn name_view(&self) -> Option<Seq<char>> {
        match self.service_name {
            Some(n) => Some(n@),
            None => None,
        }
    }

    /// The route table for the plugin loaded from `plugin_path`.
    pub fn new(plugin_path: &str) -> (r: Router)
        ensures
            r.name_view() == service_name_of(plugin_path@),
    {
        Router { service_name: file_stem(plugin_path) }
    }

    pub fn service_name(&self) -> (r: &Option<String>)
        ensures
            match r {
                Some(n) => self.name_view() == Some(n@),
                None => self.name_view() is None,
            },
    {
        &self.service_name
    }

    /// The text that `GET /` answers with.
    pub fn info_text(&self) -> (t: String)
        ensures
            t@ == info_text_of(self.name_view()),
    {
        let name: &str = match &self.service_name {
            Some(n) => n.as_str(),
            None => UNKNOWN_SERVICE,
        };
        INFO_PREFIX.to_owned().concat(name).concat(INFO_SUFFIX)
    }

    /// Whether this service also offers the installer download page.
    pub fn offers_installer_download(&self) -> (r: bool)
        ensures
            r == (self.name_view() == Some(INSTALLER_SERVICE@)),
    {
        match &self.service_name {
            Some(n) => text_equals(n.as_str(), INSTALLER_SERVICE),
            None => false,
        }
    }

    /// Routes one request with the context of the connection it came on.
    pub fn dispatch(&self, method: &str, path: &str, ctx: &RequestContext, body: &[u8]) -> (d: Dispatch)
        ensures
            d@ == dispatch_of(info_text_of(self.name_view()), method@, path@, identity_view(ctx.peer), ctx.remote@, body@),
    {
        let route = if text_equals(path, "/") {
            Route::Info
        } else if text_equals(path, "/execute") {
            Route::Execute
        } else if text_equals(path, "/execute-one-way-tls") {
            Route::ExecuteOneWayTls
        } else if text_equals(path, "/queue") {
            Route::Queue
        } else if text_equals(path, "/shutdown") {
            Route::Shutdown
        } else {
            return Dispatch::Reject(Rejection::NotFound);
        };
        let wanted = match route {
            Route::Info => "GET",
            _ => "POST",
        };
        if !text_equals(method, wanted) {
            return Dispatch::Reject(Rejection::MethodNotAllowed);
        }
        match route {
            Route::Info => Dispatch::Respond(Reply { status: STATUS_CREATED, body: self.info_text() }),
            Route::Execute => forwarded_dispatch(handler::execute(&ctx.peer, &ctx.remote, body)),
            Route::ExecuteOneWayTls => forwarded_dispatch(handler::execute_one_way_tls(&ctx.remote, body)),
            Route::Queue => forwarded_dispatch(handler::queue(&ctx.peer, &ctx.remote, body)),
            Route::Shutdown => match handler::shutdown(&ctx.peer, body) {
                Ok(()) => Dispatch::Shutdown,
                Err(e) => Dispatch::Reject(e),
            },
        }
    }
}

/// A route that needs the client's identity, asked for under its own method
/// and path over a connection whose client presented no certificate, is
/// rejected as unauthorized, whatever the body, and never reaches the plugin.
pub proof fn lemma_identity_routes_refuse_anonymous(info: Seq<char>, r: Route, remote: Seq<char>, body: Seq<u8>)
    requires
        requires_identity(r),
    ensures
        dispatch_of(info, route_method(r), route_path(r), None, remote, body) == DispatchView::Reject(Rejection::Unauthorized),
{
    reveal_strlit("/");
    reveal_strlit("/execute");
    reveal_strlit("/execute-one-way-tls");
    reveal_strlit("/queue");
    reveal_strlit("/shutdown");
    // the five paths differ in length
    assert("/"@.len() == 1);
    assert("/execute"@.len() == 8);
    assert("/execute-one-way-tls"@.len() == 20);
    assert("/queue"@.len() == 6);
    assert("/shutdown"@.len() == 9);
    assert(route_for_path(route_path(r)) == Some(r));
}

} // verus!
