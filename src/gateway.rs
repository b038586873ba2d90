//! The gateway endpoint as a state machine per request:
//! received, queued for a permit of the admission gate, backend called,
//! responded; or rejected when the body is malformed.
//!
//! The caller performs each action (waits for the permit, makes the backend
//! call, sends the response and returns the permit) and hands back the event.
use vstd::prelude::*;
use crate::config::GatewayConfig;
use crate::message::ChatRequest;
use crate::preamble::{preamble_of, system_preamble, topics_of, topics_or_default};
use crate::translator::{
    BackendReply, completion_path, completion_url, encode_request, reply_text, request_json,
    response_text,
};
use crate::wire::{encode_response, response_json};

verus! {

/// Where a request stands.
#[derive(Clone, Copy, Debug, PartialEq, Eq, Structural)]
pub enum Phase {
    /// The body has arrived and is not yet decoded.
    Received,
    /// The body decoded; waiting for a permit of the admission gate.
    Queued,
    /// A permit is held and the backend has been called.
    BackendCalled,
    /// The response has been produced and the permit returned.
    Responded,
    /// The body was malformed: a client error, with no admission.
    Rejected,
}

/// What happened since the last step.
#[derive(Clone, Debug)]
pub enum Event {
    /// The body decoded into a request.
    BodyDecoded { request: ChatRequest },
    /// The body was not a valid request.
    BodyMalformed,
    /// A permit was granted; `topics` is what reading the topics source gave.
    PermitGranted { topics: Option<String> },
    /// The backend call finished.
    BackendDone { reply: BackendReply },
}

/// What the caller is to do next.
#[derive(Clone, Debug)]
pub enum Action {
    /// Answer with a client error; no permit was taken.
    Reject,
    /// Wait for a permit of the admission gate.
    AwaitPermit,
    /// Post `body` (JSON) to `url` while holding the permit.
    CallBackend { url: String, body: String },
    /// Return the permit and answer with status 200 and `body` (JSON).
    Respond { body: String },
    /// The event does not apply in this phase: nothing to do.
    Ignore,
}

/// The phase after an event.
pub open spec fn next_phase(p: Phase, e: Event) -> Phase {
    match e {
        Event::BodyDecoded { .. } => if p is Received { Phase::Queued } else { p },
        Event::BodyMalformed => if p is Received { Phase::Rejected } else { p },
        Event::PermitGranted { .. } => if p is Queued { Phase::BackendCalled } else { p },
        Event::BackendDone { .. } => if p is BackendCalled { Phase::Responded } else { p },
    }
}

/// Whether a request in this phase holds a permit of the admission gate.
pub open spec fn holds_permit(p: Phase) -> bool {
    p is BackendCalled
}

/// Whether this event in this phase makes the backend be called.
pub open spec fn contacts_backend(p: Phase, e: Event) -> bool {
    p is Queued && e is PermitGranted
}

/// How many backend calls a request makes over a run of events from phase `p`.
pub open spec fn backend_calls(p: Phase, evs: Seq<Event>) -> nat
    decreases evs.len(),
{
    if evs.len() == 0 {
        0
    } else {
        (if contacts_backend(p, evs[0]) { 1nat } else { 0nat }) + backend_calls(
            next_phase(p, evs[0]),
            evs.drop_first(),
        )
    }
}

/// The topics that a permit event carries, as text.
pub open spec fn granted_topics(t: Option<String>) -> Seq<char> {
    topics_of(
        match t {
            Some(s) => Some(s@),
            None => None,
        },
    )
}

/// One request going through the gateway.
#[derive(Clone, Debug)]
pub struct Exchange {
    pub phase: Phase,
    pub request: Option<ChatRequest>,
}

impl Exchange {
    /// A queued or called exchange has its request.
    pub open spec fn wf(&self) -> bool {
        (self.phase is Queued || self.phase is BackendCalled) ==> self.request is Some
    }

    /// A request whose body has just arrived.
    pub fn new() -> (r: Exchange)
        ensures
            r.phase == Phase::Received,
            r.request is None,
            r.wf(),
    {
        Exchange { phase: Phase::Received, request: None }
    }

    /// Takes one event and says what to do next.
    pub fn step(&mut self, cfg: &GatewayConfig, ev: Event) -> (r: Action)
        requires
            old(self).wf(),
        ensures
            final(self).wf(),
            final(self).phase == next_phase(old(self).phase, ev),
            (r is CallBackend) == contacts_backend(old(self).phase, ev),
            old(self).phase is Received && ev is BodyDecoded ==> r is AwaitPermit
                && final(self).request == Some(ev->request),
            old(self).phase is Received && ev is BodyMalformed ==> r is Reject,
            old(self).phase is Queued && ev is PermitGranted ==> (r matches Action::CallBackend {
                url,
                body,
            } && url@ == cfg.host@ + completion_path(cfg.strategy) && body@ == request_json(
                cfg.strategy,
                cfg.model@,
                old(self).request->Some_0,
                preamble_of(granted_topics(ev->topics)),
            )),
            old(self).phase is BackendCalled && ev is BackendDone ==> (r matches Action::Respond {
                body,
            } && body@ == response_json(reply_text(cfg.strategy, ev->reply))),
            final(self).phase == old(self).phase ==> r is Ignore && final(self).request
                == old(self).request,
    {
        match ev {
            Event::BodyDecoded { request } => {
                if self.phase == Phase::Received {
                    self.phase = Phase::Queued;
                    self.request = Some(request);
                    Action::AwaitPermit
                } else {
                    Action::Ignore
                }
            },
            Event::BodyMalformed => {
                if self.phase == Phase::Received {
                    self.phase = Phase::Rejected;
                    Action::Reject
                } else {
                    Action::Ignore
                }
            },
            Event::PermitGranted { topics } => {
                if self.phase == Phase::Queued {
                    match &self.request {
                        Some(req) => {
                            let topics = topics_or_default(topics);
                            let preamble = system_preamble(topics.as_str());
                            let url = completion_url(cfg.host.as_str(), cfg.strategy);
                            let body = encode_request(
                                cfg.strategy,
                                cfg.model.as_str(),
                                req,
                                preamble.as_str(),
                            );
                            self.phase = Phase::BackendCalled;
                            Action::CallBackend { url, body }
                        },
                        None => Action::Ignore,
                    }
                } else {
                    Action::Ignore
                }
            },
            Event::BackendDone { reply } => {
                if self.phase == Phase::BackendCalled {
                    let text = response_text(cfg.strategy, &reply);
                    self.phase = Phase::Responded;
                    Action::Respond { body: encode_response(text.as_str()) }
                } else {
                    Action::Ignore
                }
            },
        }
    }
}

/// A finished or rejected request never calls the backend again, whatever
/// events follow.
pub proof fn lemma_settled_makes_no_call(p: Phase, evs: Seq<Event>)
    requires
        p is Responded || p is Rejected || p is BackendCalled,
    ensures
        backend_calls(p, evs) == 0,
    decreases evs.len(),
{
    if evs.len() > 0 {
        lemma_settled_makes_no_call(next_phase(p, evs[0]), evs.drop_first());
    }
}

/// A request whose body is malformed makes no backend call, whatever events
/// follow the rejection.
pub proof fn lemma_malformed_body_makes_no_call(evs: Seq<Event>)
    ensures
        backend_calls(Phase::Received, seq![Event::BodyMalformed].add(evs)) == 0,
{
    let all = seq![Event::BodyMalformed].add(evs);
    assert(all.drop_first() =~= evs);
    lemma_settled_makes_no_call(Phase::Rejected, evs);
}

/// A request calls the backend at most once: a failed call is not retried.
pub proof fn lemma_at_most_one_call(p: Phase, evs: Seq<Event>)
    ensures
        backend_calls(p, evs) <= 1,
    decreases evs.len(),
{
    if evs.len() > 0 {
        let q = next_phase(p, evs[0]);
        if contacts_backend(p, evs[0]) {
            lemma_settled_makes_no_call(q, evs.drop_first());
        } else {
            lemma_at_most_one_call(q, evs.drop_first());
        }
    }
}

/// Whatever the backend call gave, unreachable backend included, the reply
/// ends the request and its permit is returned; while a request holds a
/// permit it is the one that called the backend.
pub proof fn lemma_reply_returns_permit(reply: BackendReply, p: Phase, e: Event)
    ensures
        next_phase(Phase::BackendCalled, Event::BackendDone { reply }) == Phase::Responded,
        !holds_permit(next_phase(Phase::BackendCalled, Event::BackendDone { reply })),
        holds_permit(next_phase(p, e)) ==> contacts_backend(p, e) || holds_permit(p),
{
}

} // verus!
