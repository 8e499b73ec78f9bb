use vstd::prelude::*;

verus! {

/// The plugin's entry point that initializes it.
pub const INIT_ENTRY_POINT: &'static str = "init";

/// The plugin's entry point that gives the address to serve under.
pub const SERVICE_ADDRESS_ENTRY_POINT: &'static str = "getServiceURL";

/// The plugin's entry point that frees a text that the plugin handed out.
pub const RELEASE_ENTRY_POINT: &'static str = "deallocateData";

/// The operations a request can forward to the plugin.
#[derive(PartialEq, Eq, Structural, Clone, Copy, Debug)]
pub enum Operation {
    PerformAction,
    PerformActionOneWayTls,
    QueueAction,
}

pub open spec fn entry_point_of(op: Operation) -> Seq<char> {
    match op {
        Operation::PerformAction => "performAction"@,
        Operation::PerformActionOneWayTls => "performActionOneWayTLS"@,
        Operation::QueueAction => "queueAction"@,
    }
}

/// Whether the reply to the operation is the text the plugin returned, and
/// not a fixed acknowledgement.
pub open spec fn replies_with_plugin_text(op: Operation) -> bool {
    op != Operation::QueueAction
}

impl Operation {
    /// The name of the plugin's entry point for this operation.
    pub fn entry_point(&self) -> (r: &'static str)
        ensures
            r@ == entry_point_of(*self),
    {
        match self {
            Operation::PerformAction => "performAction",
            Operation::PerformActionOneWayTls => "performActionOneWayTLS",
            Operation::QueueAction => "queueAction",
        }
    }
}

/// The entry points that the plugin must offer for the process to start.
pub fn required_entry_points() -> (r: Vec<&'static str>)
    ensures
        r@.len() == 6,
        r@[0]@ == INIT_ENTRY_POINT@,
        r@[1]@ == SERVICE_ADDRESS_ENTRY_POINT@,
        r@[2]@ == entry_point_of(Operation::PerformAction),
        r@[3]@ == entry_point_of(Operation::PerformActionOneWayTls),
        r@[4]@ == entry_point_of(Operation::QueueAction),
        r@[5]@ == RELEASE_ENTRY_POINT@,
{
    let mut r: Vec<&'static str> = Vec::new();
    r.push(INIT_ENTRY_POINT);
    r.push(SERVICE_ADDRESS_ENTRY_POINT);
    r.push(Operation::PerformAction.entry_point());
    r.push(Operation::PerformActionOneWayTls.entry_point());
    r.push(Operation::QueueAction.entry_point());
    r.push(RELEASE_ENTRY_POINT);
    r
}

/// One call into the plugin: the operation, the JSON text handed over and
/// the client's socket address as text.
#[derive(Clone, Debug)]
pub struct PluginCall {
    pub operation: Operation,
    pub payload: String,
    pub remote: String,
}

pub struct PluginCallView {
    pub operation: Operation,
    pub payload: Seq<char>,
    pub remote: Seq<char>,
}

impl View for PluginCall {
    type V = PluginCallView;

    open spec fn view(&self) -> PluginCallView {
        PluginCallView { operation: self.operation, payload: self.payload@, remote: self.remote@ }
    }
}

/// The call for `/execute`: the plugin's `performAction`.
pub fn execute(json_value: String, addr_value: String) -> (c: PluginCall)
    ensures
        c.operation == Operation::PerformAction,
        c.payload@ == json_value@,
        c.remote@ == addr_value@,
{
    PluginCall { operation: Operation::PerformAction, payload: json_value, remote: addr_value }
}

/// The call for `/execute-one-way-tls`: the plugin's `performActionOneWayTLS`.
pub fn execute_one_way_tls(json_value: String, addr_value: String) -> (c: PluginCall)
    ensures
        c.operation == Operation::PerformActionOneWayTls,
        c.payload@ == json_value@,
        c.remote@ == addr_value@,
{
    PluginCall { operation: Operation::PerformActionOneWayTls, payload: json_value, remote: addr_value }
}

/// The call for `/queue`: the plugin's `queueAction`.
pub fn queue(json_value: String, addr_value: String) -> (c: PluginCall)
    ensures
        c.operation == Operation::QueueAction,
        c.payload@ == json_value@,
        c.remote@ == addr_value@,
{
    PluginCall { operation: Operation::QueueAction, payload: json_value, remote: addr_value }
}

/// A status and a body to send back for one request.
#[derive(Clone, Debug)]
pub struct Reply {
    pub status: u16,
    pub body: String,
}

pub struct ReplyView {
    pub status: u16,
    pub body: Seq<char>,
}

impl View for Reply {
    type V = ReplyView;

    open spec fn view(&self) -> ReplyView {
        ReplyView { status: self.status, body: self.body@ }
    }
}

pub const STATUS_OK: u16 = 200;

pub const STATUS_INTERNAL_ERROR: u16 = 500;

/// The reply to `/queue` once the plugin took the operation.
pub const QUEUE_ACKNOWLEDGEMENT: &'static str = "queue action called";

/// The reply body when the plugin returned no text at all.
pub const NO_PLUGIN_RESULT: &'static str = "the plugin returned no result";

/// The reply body when the plugin's text is not valid UTF-8.
pub const UNREADABLE_PLUGIN_RESULT: &'static str = "the plugin returned unreadable text";

/// Where one call into the plugin stands.
#[derive(PartialEq, Eq, Structural, Clone, Copy, Debug)]
pub enum InvocationPhase {
    /// The entry point is being called.
    Calling,
    /// The plugin returned a text; it is being copied out.
    Copying,
    /// The plugin's text is being handed back to its release entry point.
    Releasing,
    /// The text was released and the reply is known.
    Answered,
    /// The plugin returned nothing; there is nothing to release.
    Failed,
}

/// What the surrounding program reports after doing an action.
pub enum InvocationEvent {
    /// The entry point returned; `null` where it returned no text.
    Returned { null: bool },
    /// The returned text, copied out; `None` where it is not valid UTF-8.
    Copied(Option<String>),
    /// The release entry point was called on the returned text.
    Released,
}

/// What the surrounding program is to do next.
pub enum InvocationAction {
    /// Copy the returned text out of the plugin's memory.
    CopyOut,
    /// Call the plugin's release entry point on the returned text.
    Release,
    /// Send this reply; the call is over.
    Respond(Reply),
    /// Nothing: the event does not belong to the current phase.
    Wait,
}

pub enum InvocationEventView {
    Returned { null: bool },
    Copied(Option<Seq<char>>),
    Released,
}

pub enum InvocationActionView {
    CopyOut,
    Release,
    Respond(ReplyView),
    Wait,
}

impl View for InvocationEvent {
    type V = InvocationEventView;

    open spec fn view(&self) -> InvocationEventView {
        match self {
            InvocationEvent::Returned { null } => InvocationEventView::Returned { null: *null },
            InvocationEvent::Copied(t) => InvocationEventView::Copied(
                match t {
                    Some(s) => Some(s@),
                    None => None,
                },
            ),
            InvocationEvent::Released => InvocationEventView::Released,
        }
    }
}

impl View for InvocationAction {
    type V = InvocationActionView;

    open spec fn view(&self) -> InvocationActionView {
        match self {
            InvocationAction::CopyOut => InvocationActionView::CopyOut,
            InvocationAction::Release => InvocationActionView::Release,
            InvocationAction::Respond(r) => InvocationActionView::Respond(r@),
            InvocationAction::Wait => InvocationActionView::Wait,
        }
    }
}

pub struct InvocationView {
    pub operation: Operation,
    pub phase: InvocationPhase,
    /// The text copied out of the plugin, once copied.
    pub text: Option<Seq<char>>,
}

/// The reply once the plugin's text was released.
pub open spec fn final_reply(op: Operation, text: Option<Seq<char>>) -> ReplyView {
    if replies_with_plugin_text(op) {
        match text {
            Some(t) => ReplyView { status: STATUS_OK, body: t },
            None => ReplyView { status: STATUS_INTERNAL_ERROR, body: UNREADABLE_PLUGIN_RESULT@ },
        }
    } else {
        ReplyView { status: STATUS_OK, body: QUEUE_ACKNOWLEDGEMENT@ }
    }
}

/// One step of a call into the plugin.
pub open spec fn invocation_next(s: InvocationView, e: InvocationEventView) -> (InvocationView, InvocationActionView) {
    match (s.phase, e) {
        (InvocationPhase::Calling, InvocationEventView::Returned { null }) =>
            if null {
                (
                    InvocationView { phase: InvocationPhase::Failed, ..s },
                    InvocationActionView::Respond(ReplyView { status: STATUS_INTERNAL_ERROR, body: NO_PLUGIN_RESULT@ }),
                )
            } else if replies_with_plugin_text(s.operation) {
                (InvocationView { phase: InvocationPhase::Copying, ..s }, InvocationActionView::CopyOut)
            } else {
                (InvocationView { phase: InvocationPhase::Releasing, ..s }, InvocationActionView::Release)
            },
        (InvocationPhase::Copying, InvocationEventView::Copied(t)) =>
            (InvocationView { phase: InvocationPhase::Releasing, text: t, ..s }, InvocationActionView::Release),
        (InvocationPhase::Releasing, InvocationEventView::Released) => (
            InvocationView { phase: InvocationPhase::Answered, ..s },
            InvocationActionView::Respond(final_reply(s.operation, s.text)),
        ),
        _ => (s, InvocationActionView::Wait),
    }
}

/// The state reached and the actions asked for when `events` come in order.
pub open spec fn invocation_run(s: InvocationView, events: Seq<InvocationEventView>) -> (InvocationView, Seq<InvocationActionView>)
    decreases events.len(),
{
    if events.len() == 0 {
        (s, Seq::empty())
    } else {
        let (next, action) = invocation_next(s, events[0]);
        let (last, rest) = invocation_run(next, events.drop_first());
        (last, seq![action] + rest)
    }
}

/// One call into the plugin, from the call of its entry point to the reply,
/// with the release of what the plugin returned.
pub struct Invocation {
    operation: Operation,
    phase: InvocationPhase,
    text: Option<String>,
}

impl View for Invocation {
    type V = InvocationView;

    closed spec fn view(&self) -> InvocationView {
        InvocationView {
            operation: self.operation,
            phase: self.phase,
            text: match self.text {
                Some(t) => Some(t@),
                None => None,
            },
        }
    }
}

fn copy_text(t: &Option<String>) -> (r: Option<String>)
    ensures
        r == *t,
{
    match t {
        Some(s) => Some(s.clone()),
        None => None,
    }
}

impl Invocation {
    /// A call of the operation's entry point that was just made.
    pub fn new(operation: Operation) -> (i: Invocation)
        ensures
            i@ == (InvocationView { operation, phase: InvocationPhase::Calling, text: None }),
    {
        Invocation { operation, phase: InvocationPhase::Calling, text: None }
    }

    pub fn phase(&self) -> (p: InvocationPhase)
        ensures
            p == self@.phase,
    {
        self.phase
    }

    /// Takes in what the last action gave and says what to do next.
    pub fn step(&mut self, event: InvocationEvent) -> (action: InvocationAction)
        ensures
            (final(self)@, action@) == invocation_next(old(self)@, event@),
    {
        match (self.phase, event) {
            (InvocationPhase::Calling, InvocationEvent::Returned { null }) => {
                if null {
                    self.phase = InvocationPhase::Failed;
                    InvocationAction::Respond(Reply { status: STATUS_INTERNAL_ERROR, body: NO_PLUGIN_RESULT.to_owned() })
                } else if self.operation != Operation::QueueAction {
                    self.phase = InvocationPhase::Copying;
                    InvocationAction::CopyOut
                } else {
                    self.phase = InvocationPhase::Releasing;
                    InvocationAction::Release
                }
            },
            (InvocationPhase::Copying, InvocationEvent::Copied(t)) => {
                self.phase = InvocationPhase::Releasing;
                self.text = t;
                InvocationAction::Release
            },
            (InvocationPhase::Releasing, InvocationEvent::Released) => {
                self.phase = InvocationPhase::Answered;
                let reply = if self.operation != Operation::QueueAction {
                    match copy_text(&self.text) {
                        Some(t) => Reply { status: STATUS_OK, body: t },
                        None => Reply { status: STATUS_INTERNAL_ERROR, body: UNREADABLE_PLUGIN_RESULT.to_owned() },
                    }
                } else {
                    Reply { status: STATUS_OK, body: QUEUE_ACKNOWLEDGEMENT.to_owned() }
                };
                InvocationAction::Respond(reply)
            },
            _ => InvocationAction::Wait,
        }
    }
}

/// How many times the actions call the plugin's release entry point.
pub open spec fn release_count(actions: Seq<InvocationActionView>) -> nat
    decreases actions.len(),
{
    if actions.len() == 0 {
        0
    } else {
        (if actions[0] is Release { 1nat } else { 0nat }) + release_count(actions.drop_first())
    }
}

/// Whether the phase comes after the plugin's text was handed back (or
/// after it turned out there was none).
pub open spec fn past_release(p: InvocationPhase) -> bool {
    p == InvocationPhase::Releasing || p == InvocationPhase::Answered || p == InvocationPhase::Failed
}

proof fn lemma_run_counts(s: InvocationView, events: Seq<InvocationEventView>)
    ensures
        ({
            let (last, acts) = invocation_run(s, events);
            &&& acts.len() == events.len()
            &&& last.operation == s.operation
            &&& past_release(s.phase) ==> past_release(last.phase)
            &&& s.phase == InvocationPhase::Failed ==> last.phase == InvocationPhase::Failed
            &&& (s.phase == InvocationPhase::Releasing || s.phase == InvocationPhase::Answered)
                ==> (last.phase == InvocationPhase::Releasing || last.phase == InvocationPhase::Answered)
            &&& past_release(s.phase) ==> release_count(acts) == 0
            &&& !past_release(s.phase) ==> release_count(acts) == (if last.phase == InvocationPhase::Releasing
                || last.phase == InvocationPhase::Answered { 1nat } else { 0nat })
            &&& s.phase != InvocationPhase::Calling ==> forall|i: int| 0 <= i < acts.len() ==> !(#[trigger] acts[i] is CopyOut)
            &&& forall|i: int, j: int| 0 <= i < j < acts.len() && #[trigger] acts[i] is Release ==> !(#[trigger] acts[j] is CopyOut)
        }),
    decreases events.len(),
{
    if events.len() > 0 {
        let (next, a) = invocation_next(s, events[0]);
        lemma_run_counts(next, events.drop_first());
        let acts = invocation_run(s, events).1;
        let rest = invocation_run(next, events.drop_first()).1;
        assert(acts.drop_first() =~= rest);
        assert(acts[0] == a);
        if s.phase != InvocationPhase::Calling {
            assert forall|i: int| 0 <= i < acts.len() implies !(#[trigger] acts[i] is CopyOut) by {
                if i > 0 {
                    assert(acts[i] == rest[i - 1]);
                }
            }
        }
        assert forall|i: int, j: int| 0 <= i < j < acts.len() && #[trigger] acts[i] is Release
            implies !(#[trigger] acts[j] is CopyOut) by {
            assert(acts[j] == rest[j - 1]);
            if i > 0 {
                assert(acts[i] == rest[i - 1]);
            } else {
                assert(next.phase == InvocationPhase::Releasing);
            }
        }
    }
}

/// Every text that the plugin returns is released exactly once, and never
/// read after its release: from the call of an entry point, whatever events
/// come, the release entry point is asked for at most once, and exactly once
/// when the call ends in an answer; no copy is asked for after it; and when
/// the plugin returned nothing, nothing is released.
pub proof fn lemma_plugin_text_released_once(operation: Operation, events: Seq<InvocationEventView>)
    ensures
        ({
            let start = InvocationView { operation, phase: InvocationPhase::Calling, text: None };
            let (last, acts) = invocation_run(start, events);
            &&& release_count(acts) <= 1
            &&& last.phase == InvocationPhase::Answered ==> release_count(acts) == 1
            &&& last.phase == InvocationPhase::Failed ==> release_count(acts) == 0
            &&& forall|i: int, j: int| 0 <= i < j < acts.len() && #[trigger] acts[i] is Release
                ==> !(#[trigger] acts[j] is CopyOut)
        }),
{
    let start = InvocationView { operation, phase: InvocationPhase::Calling, text: None };
    lemma_run_counts(start, events);
}

} // verus!
