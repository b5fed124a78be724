//! The clipboard manager: the event loop of a selection owner.
//!
//! The manager decides; it does not talk to the server. It takes one event
//! after the other and says what to send in return. Whoever holds the
//! connection reads the events, hands them in and sends what comes back, in
//! the order in which it comes back.

use crate::atoms::{complete, lemma_listing_is_all, listing, name_of, WellKnown};
use crate::protocol::{
    models, notifies_once, writes_nothing, Atom, ConversionRequest, Event, PropertyData, Request,
    RequestModel, SelectionNotify, Window, EVENT_MASK_PROPERTY_CHANGE, FORMAT_ATOMS, FORMAT_BYTES,
    NONE, PROP_MODE_REPLACE,
};
use crate::responder::{answer_for, classify, conversion_for, respond, Conversion};
use crate::session::{Session, SessionModel};
use vstd::prelude::*;
use vstd::utf8::encode_utf8;

verus! {

/// Why the event loop failed.
#[derive(Clone, Copy, Debug, PartialEq, Eq, Structural)]
pub enum RunError {
    /// The connection to the server gave no further event.
    ConnectionLost,
}

/// The state of the event loop.
#[derive(Clone, Copy, Debug, PartialEq, Eq)]
pub enum LoopState {
    /// The manager owns the selections and answers requests.
    Running,
    /// The loop has ended: with `Ok` because another client took a
    /// selection, with the error otherwise.
    Terminated(Result<(), RunError>),
}

/// A line for the trace output.
#[derive(Clone, Copy, Debug, PartialEq, Eq, Structural)]
pub enum Diagnostic {
    /// A conversion to `target` was asked for.
    Requested { target: Atom, name: Option<WellKnown> },
    /// A conversion to `target` was asked for, and the manager offers none.
    Unknown { target: Atom, name: Option<WellKnown> },
}

/// What a [`ClipboardManager`] holds.
pub struct ManagerModel {
    /// The proxy window that owns the selections.
    pub window: Window,
    /// The atoms of the session.
    pub atoms: Map<WellKnown, Atom>,
    /// The text, as the bytes that requestors get.
    pub payload: Seq<u8>,
    /// Whether diagnostics are written.
    pub tracing: bool,
    /// The state of the event loop.
    pub state: LoopState,
}

/// What handling events gives: the manager afterwards, the requests to send
/// and the lines to trace, each in order.
pub struct Outcome {
    pub manager: ManagerModel,
    pub requests: Seq<RequestModel>,
    pub trace: Seq<Diagnostic>,
}

impl ManagerModel {
    /// Every name is bound before the loop starts.
    pub open spec fn wf(self) -> bool {
        complete(self.atoms)
    }

    /// The request that notifies the requestor of `request`.
    pub open spec fn notification(request: ConversionRequest) -> RequestModel {
        RequestModel::SendEvent {
            propagate: false,
            destination: request.requestor,
            event_mask: EVENT_MASK_PROPERTY_CHANGE,
            event: SelectionNotify::answering(request),
        }
    }

    /// The requests that answer `request`, in the order in which they are
    /// sent: what the responder asks for, if anything, then the notification
    /// of the requestor, then a flush.
    pub open spec fn response(self, request: ConversionRequest) -> Seq<RequestModel> {
        match answer_for(self.atoms, self.payload, request).request {
            Some(first) => seq![first, Self::notification(request), RequestModel::Flush],
            None => seq![Self::notification(request), RequestModel::Flush],
        }
    }

    /// The lines traced for `request`: none unless diagnostics are on and the
    /// request names a destination; else the target, and the target once more
    /// where the manager offers no conversion to it.
    pub open spec fn diagnostics(self, request: ConversionRequest) -> Seq<Diagnostic> {
        if !self.tracing || request.property == NONE {
            Seq::empty()
        } else {
            let name = name_of(self.atoms, request.target);
            let requested = Diagnostic::Requested { target: request.target, name };
            if conversion_for(self.atoms, request.target) == Conversion::Unsupported {
                seq![requested, Diagnostic::Unknown { target: request.target, name }]
            } else {
                seq![requested]
            }
        }
    }

    /// What handling one event gives. A manager that is not running ignores
    /// the event. A running one ends on `SelectionClear`, answers a
    /// `SelectionRequest` and ignores anything else.
    pub open spec fn handled(self, event: Event) -> Outcome {
        if self.state != LoopState::Running {
            Outcome { manager: self, requests: Seq::empty(), trace: Seq::empty() }
        } else {
            match event {
                Event::SelectionClear => Outcome {
                    manager: ManagerModel { state: LoopState::Terminated(Ok(())), ..self },
                    requests: Seq::empty(),
                    trace: Seq::empty(),
                },
                Event::SelectionRequest(request) => Outcome {
                    manager: self,
                    requests: self.response(request),
                    trace: self.diagnostics(request),
                },
                Event::Other => Outcome {
                    manager: self,
                    requests: Seq::empty(),
                    trace: Seq::empty(),
                },
            }
        }
    }

    /// What handling the first `n` of `events` gives, one after the other.
    pub open spec fn ran(self, events: Seq<Event>, n: int) -> Outcome
        decreases n,
    {
        if n <= 0 {
            Outcome { manager: self, requests: Seq::empty(), trace: Seq::empty() }
        } else {
            let before = self.ran(events, n - 1);
            let step = before.manager.handled(events[n - 1]);
            Outcome {
                manager: step.manager,
                requests: before.requests + step.requests,
                trace: before.trace + step.trace,
            }
        }
    }

    /// The manager after the event source has failed.
    pub open spec fn disconnected(self) -> ManagerModel {
        if self.state == LoopState::Running {
            ManagerModel { state: LoopState::Terminated(Err(RunError::ConnectionLost)), ..self }
        } else {
            self
        }
    }
}

/// What the manager hands back for the events it was given.
#[derive(Debug)]
pub struct Reaction {
    /// The requests to send, in this order.
    pub requests: Vec<Request>,
    /// The lines to write to the trace output, in this order.
    pub trace: Vec<Diagnostic>,
}

/// The owner of the clipboard: a session, the text that it offers, and the
/// state of its event loop.
#[derive(Debug)]
pub struct ClipboardManager {
    session: Session,
    data: String,
    test: bool,
    state: LoopState,
}

impl View for ClipboardManager {
    type V = ManagerModel;

    closed spec fn view(&self) -> ManagerModel {
        ManagerModel {
            window: self.session@.window,
            atoms: self.session@.atoms,
            payload: encode_utf8(self.data@),
            tracing: self.test,
            state: self.state,
        }
    }
}

impl ClipboardManager {
    /// A manager that offers the text `data` in `session`. With `test` it
    /// also says what to write to the trace output. It starts out running.
    pub fn new(data: String, test: bool, session: Session) -> (manager: ClipboardManager)
        ensures
            manager@ == (ManagerModel {
                window: session@.window,
                atoms: session@.atoms,
                payload: encode_utf8(data@),
                tracing: test,
                state: LoopState::Running,
            }),
            manager@.wf(),
    {
        proof {
            use_type_invariant(&session);
        }
        ClipboardManager { session, data, test, state: LoopState::Running }
    }

    /// The state of the event loop.
    pub fn state(&self) -> (state: LoopState)
        ensures
            state == self@.state,
    {
        self.state
    }

    /// Whether the manager still answers requests.
    pub fn is_running(&self) -> (running: bool)
        ensures
            running == (self@.state == LoopState::Running),
    {
        match self.state {
            LoopState::Running => true,
            LoopState::Terminated(_) => false,
        }
    }

    /// The session that the manager works in.
    pub fn session(&self) -> (session: &Session)
        ensures
            session@ == (SessionModel { window: self@.window, atoms: self@.atoms }),
            self@.wf(),
    {
        proof {
            use_type_invariant(&self.session);
        }
        &self.session
    }

    /// The text as the bytes that requestors get.
    pub fn payload(&self) -> (bytes: &[u8])
        ensures
            bytes@ == self@.payload,
    {
        self.data.as_str().as_bytes()
    }

    /// Whether the manager says what to write to the trace output.
    pub fn is_tracing(&self) -> (tracing: bool)
        ensures
            tracing == self@.tracing,
    {
        self.test
    }

    /// The lines to trace for `request`.
    fn diagnose(&self, request: &ConversionRequest) -> (trace: Vec<Diagnostic>)
        ensures
            trace@ == self@.diagnostics(*request),
    {
        let mut trace: Vec<Diagnostic> = Vec::new();
        if self.test && request.property != NONE {
            let atoms = self.session.atoms();
            let name = atoms.name_of(request.target);
            trace.push(Diagnostic::Requested { target: request.target, name });
            match classify(atoms, request.target) {
                Conversion::Unsupported => {
                    trace.push(Diagnostic::Unknown { target: request.target, name });
                },
                _ => {},
            }
        }
        trace
    }

    /// The requests that answer `request`.
    fn answer(&self, request: &ConversionRequest) -> (requests: Vec<Request>)
        ensures
            models(requests@) == self@.response(*request),
    {
        let mut requests: Vec<Request> = Vec::new();
        let answer = respond(self.session.atoms(), self.payload(), request);
        match answer.request {
            Some(first) => {
                requests.push(first);
            },
            None => {},
        }
        requests.push(
            Request::SendEvent {
                propagate: false,
                destination: request.requestor,
                event_mask: EVENT_MASK_PROPERTY_CHANGE,
                event: SelectionNotify::for_request(request),
            },
        );
        requests.push(Request::Flush);
        requests
    }

    /// Handles one event: says what to send and what to trace for it, and
    /// moves the loop on.
    pub fn handle_event(&mut self, event: &Event) -> (reaction: Reaction)
        ensures
            final(self)@ == old(self)@.handled(*event).manager,
            models(reaction.requests@) == old(self)@.handled(*event).requests,
            reaction.trace@ == old(self)@.handled(*event).trace,
    {
        if !self.is_running() {
            return Reaction { requests: Vec::new(), trace: Vec::new() };
        }
        match event {
            Event::SelectionClear => {
                self.state = LoopState::Terminated(Ok(()));
                Reaction { requests: Vec::new(), trace: Vec::new() }
            },
            Event::SelectionRequest(request) => {
                let trace = self.diagnose(request);
                let requests = self.answer(request);
                Reaction { requests, trace }
            },
            Event::Other => Reaction { requests: Vec::new(), trace: Vec::new() },
        }
    }

    /// Takes note that the event source has failed: a running loop ends with
    /// [`RunError::ConnectionLost`].
    pub fn read_failed(&mut self)
        ensures
            final(self)@ == old(self)@.disconnected(),
    {
        if self.is_running() {
            self.state = LoopState::Terminated(Err(RunError::ConnectionLost));
        }
    }

    /// How the loop ended: `None` while it runs, `Ok` after another client
    /// took a selection, the error after the event source failed.
    pub fn result(&self) -> (result: Option<Result<(), RunError>>)
        ensures
            result == (match self@.state {
                LoopState::Running => None,
                LoopState::Terminated(end) => Some(end),
            }),
    {
        match self.state {
            LoopState::Running => None,
            LoopState::Terminated(end) => Some(end),
        }
    }

    /// Runs the event loop over `events`, in order, until they are used up or
    /// the loop ends. Events behind the one that ends the loop are not looked
    /// at.
    pub fn run(&mut self, events: &Vec<Event>) -> (reaction: Reaction)
        ensures
            final(self)@ == old(self)@.ran(events@, events@.len() as int).manager,
            models(reaction.requests@) == old(self)@.ran(events@, events@.len() as int).requests,
            reaction.trace@ == old(self)@.ran(events@, events@.len() as int).trace,
    {
        let mut requests: Vec<Request> = Vec::new();
        let mut trace: Vec<Diagnostic> = Vec::new();
        let mut i: usize = 0;
        while i < events.len() && self.is_running()
            invariant
                i <= events.len(),
                self@ == old(self)@.ran(events@, i as int).manager,
                models(requests@) == old(self)@.ran(events@, i as int).requests,
                trace@ == old(self)@.ran(events@, i as int).trace,
            decreases events.len() - i,
        {
            let mut step = self.handle_event(&events[i]);
            requests.append(&mut step.requests);
            trace.append(&mut step.trace);
            i += 1;
        }
        proof {
            lemma_terminated_ignores(old(self)@, events@, i as int, events@.len() as int);
        }
        Reaction { requests, trace }
    }
}

/// Every request is answered by exactly one notification. It goes to the
/// requestor and repeats the request's selection, target and property,
/// whether the conversion was made or declined. It is sent after what the
/// responder asks for, so that no notification precedes a write, and the
/// flush comes last. The loop goes on running.
pub proof fn lemma_every_request_is_notified(manager: ManagerModel, request: ConversionRequest)
    requires
        manager.state == LoopState::Running,
    ensures
        ({
            let sent = manager.handled(Event::SelectionRequest(request)).requests;
            let notify = SelectionNotify::answering(request);
            &&& notifies_once(sent, notify)
            &&& notify.selection == request.selection
            &&& notify.target == request.target
            &&& notify.property == request.property
            &&& 2 <= sent.len() <= 3
            &&& sent[sent.len() - 2] == ManagerModel::notification(request)
            &&& sent[sent.len() - 1] == RequestModel::Flush
            &&& forall|i: int, j: int|
                0 <= i < sent.len() && 0 <= j < sent.len() && (#[trigger] sent[i]).is_write() && (
                #[trigger] sent[j]).is_notification() ==> i < j
            &&& manager.handled(Event::SelectionRequest(request)).manager == manager
        }),
{
}

/// A request without a destination property has nothing written for it,
/// and its requestor is still notified, once, with no property named.
pub proof fn lemma_no_destination_no_write(manager: ManagerModel, request: ConversionRequest)
    requires
        manager.state == LoopState::Running,
        request.property == NONE,
    ensures
        ({
            let sent = manager.handled(Event::SelectionRequest(request)).requests;
            &&& sent == seq![ManagerModel::notification(request), RequestModel::Flush]
            &&& writes_nothing(sent)
            &&& notifies_once(sent, SelectionNotify::answering(request))
            &&& SelectionNotify::answering(request).property == NONE
        }),
{
    lemma_every_request_is_notified(manager, request);
}

/// A request for `TARGETS` has the atom list written to its destination:
/// 32 bits per entry, every atom of the table and no other.
pub proof fn lemma_targets_lists_the_table(manager: ManagerModel, request: ConversionRequest)
    requires
        manager.state == LoopState::Running,
        request.property != NONE,
        manager.atoms.contains_pair(WellKnown::Targets, request.target),
    ensures
        ({
            let sent = manager.handled(Event::SelectionRequest(request)).requests;
            &&& sent.len() == 3
            &&& sent[0] == (RequestModel::ChangeProperty {
                mode: PROP_MODE_REPLACE,
                window: request.requestor,
                property: request.property,
                kind: request.target,
                value: PropertyData::Atoms(listing(manager.atoms)),
            })
            &&& PropertyData::Atoms(listing(manager.atoms)).format() == FORMAT_ATOMS
            &&& listing(manager.atoms).to_set() == manager.atoms.values()
        }),
{
    lemma_listing_is_all(manager.atoms);
}

/// A request for a target that no name of the table is bound to has nothing
/// written for it, and its requestor is still notified with the property
/// that it named.
pub proof fn lemma_unknown_target_is_declined(manager: ManagerModel, request: ConversionRequest)
    requires
        manager.state == LoopState::Running,
        !manager.atoms.values().contains(request.target),
    ensures
        ({
            let sent = manager.handled(Event::SelectionRequest(request)).requests;
            &&& sent == seq![ManagerModel::notification(request), RequestModel::Flush]
            &&& writes_nothing(sent)
            &&& notifies_once(sent, SelectionNotify::answering(request))
            &&& SelectionNotify::answering(request).property == request.property
        }),
{
    lemma_every_request_is_notified(manager, request);
}

/// Handling events changes nothing but the state of the loop: the window,
/// the atoms, the text and the tracing stay as they were. So while the
/// manager runs, the answer to a request is the same whatever was handled
/// before it.
pub proof fn lemma_answers_ignore_history(
    manager: ManagerModel,
    events: Seq<Event>,
    n: int,
    request: ConversionRequest,
)
    requires
        0 <= n,
    ensures
        ({
            let later = manager.ran(events, n).manager;
            &&& later.window == manager.window
            &&& later.atoms == manager.atoms
            &&& later.payload == manager.payload
            &&& later.tracing == manager.tracing
            &&& later.response(request) == manager.response(request)
            &&& later.diagnostics(request) == manager.diagnostics(request)
        }),
    decreases n,
{
    if n > 0 {
        lemma_answers_ignore_history(manager, events, n - 1, request);
    }
}

/// Whether the manager writes diagnostics has no bearing on what it sends.
pub proof fn lemma_tracing_changes_no_request(manager: ManagerModel, tracing: bool, event: Event)
    ensures
        (ManagerModel { tracing, ..manager }).handled(event).requests == manager.handled(
            event,
        ).requests,
        (ManagerModel { tracing, ..manager }).handled(event).manager.state == manager.handled(
            event,
        ).manager.state,
{
}

/// Asking for the text by any of its names gives the text. Let a requestor
/// ask for `TARGETS` and then, at any later time while the manager runs, for
/// an atom of that list that is bound to one of the names of UTF-8 text and
/// is not also the atom of `TARGETS` or `MULTIPLE`: the bytes written for it
/// are the manager's text, 8 bits each, under the type that was asked for.
pub proof fn lemma_text_round_trip(
    manager: ManagerModel,
    events: Seq<Event>,
    n: int,
    name: WellKnown,
    request: ConversionRequest,
)
    requires
        0 <= n,
        manager.ran(events, n).manager.state == LoopState::Running,
        listing(manager.atoms).contains(request.target),
        name.is_text(),
        manager.atoms.contains_pair(name, request.target),
        !manager.atoms.contains_pair(WellKnown::Targets, request.target),
        !manager.atoms.contains_pair(WellKnown::Multiple, request.target),
        request.property != NONE,
    ensures
        ({
            let later = manager.ran(events, n).manager;
            let sent = later.handled(Event::SelectionRequest(request)).requests;
            &&& sent.len() == 3
            &&& sent[0] == (RequestModel::ChangeProperty {
                mode: PROP_MODE_REPLACE,
                window: request.requestor,
                property: request.property,
                kind: request.target,
                value: PropertyData::Bytes(manager.payload),
            })
            &&& PropertyData::Bytes(manager.payload).format() == FORMAT_BYTES
        }),
{
    lemma_answers_ignore_history(manager, events, n, request);
}

/// A running loop ends on `SelectionClear` and on no other event, and it
/// ends without an error.
pub proof fn lemma_only_clear_ends_loop(manager: ManagerModel, event: Event)
    requires
        manager.state == LoopState::Running,
    ensures
        manager.handled(event).manager.state != LoopState::Running <==> event
            == Event::SelectionClear,
        event == Event::SelectionClear ==> manager.handled(event).manager.state
            == LoopState::Terminated(Ok(())),
{
}

/// `SelectionClear` ends the loop. If the manager runs after the first `n`
/// events and the next one is `SelectionClear`, then it has terminated
/// after that event, nothing was sent for it, and whatever is queued behind
/// it changes neither the manager nor what is sent or traced.
pub proof fn lemma_selection_clear_ends_loop(
    manager: ManagerModel,
    events: Seq<Event>,
    n: int,
    m: int,
)
    requires
        0 <= n < m,
        manager.ran(events, n).manager.state == LoopState::Running,
        events[n] == Event::SelectionClear,
    ensures
        manager.ran(events, n + 1).manager.state == LoopState::Terminated(Ok(())),
        manager.ran(events, n + 1).requests == manager.ran(events, n).requests,
        manager.ran(events, n + 1).trace == manager.ran(events, n).trace,
        manager.ran(events, m) == manager.ran(events, n + 1),
{
    lemma_terminated_ignores(manager, events, n + 1, m);
}

/// Once the loop has ended, nothing that is queued behind is handled: if the
/// manager is not running after the first `n` events, then handling more of
/// them changes neither the manager nor what is sent or traced.
pub proof fn lemma_terminated_ignores(manager: ManagerModel, events: Seq<Event>, n: int, m: int)
    requires
        0 <= n <= m,
        n == m || manager.ran(events, n).manager.state != LoopState::Running,
    ensures
        manager.ran(events, m) == manager.ran(events, n),
    decreases m - n,
{
    if n < m {
        lemma_terminated_ignores(manager, events, n, m - 1);
    }
}

} // verus!
