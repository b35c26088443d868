//! The control session: one connection's linear progress through the
//! handshake and the two operations, with at most one outstanding request at
//! a time.  The transport itself lives outside; the session consumes the text
//! of each incoming frame and produces the text of each outgoing one.

use crate::auth::auth_response;
use crate::auth::compute_auth_response;
use crate::parse::greeting_auth;
use crate::parse::greeting_challenge;
use crate::parse::greeting_demands_auth;
use crate::parse::greeting_parses;
use crate::parse::greeting_salt;
use crate::parse::response_candidates;
use crate::parse::response_items;
use crate::parse::response_parses;
use crate::protocol::apply_request_message;
use crate::protocol::build_apply_request;
use crate::protocol::build_enumerate_request;
use crate::protocol::build_identify;
use crate::protocol::enumerate_request_message;
use crate::protocol::identify_message;
use vstd::prelude::*;

verus! {

/// Where in its linear lifecycle a session stands.  A request can only be
/// issued from `Ready`, and each issued request must be answered before the
/// next one: at most one is ever outstanding.
#[derive(Clone, Copy, Debug, PartialEq, Eq, Structural)]
pub enum SessionPhase {
    /// Connected; the peer's greeting has not arrived yet.
    AwaitGreeting,
    /// Identify sent; its acknowledgement has not been consumed yet.
    AwaitIdentifyAck,
    /// Identified; no request outstanding.
    Ready,
    /// The enumerate request is outstanding.
    AwaitEnumerateResponse,
    /// The apply request is outstanding.
    AwaitApplyResponse,
    /// A malformed frame arrived; the session is abandoned.
    Failed,
}

/// Why a session step failed.  Never fatal to the system: the trigger that
/// opened the session is abandoned and the cause logged.
#[derive(Debug)]
pub enum SessionError {
    /// A frame was not a JSON document; carries the parser's description.
    MalformedFrame(String),
}

impl SessionError {
    /// The operator-visible description of the failure: the carried message.
    pub fn describe(self) -> (text: String)
        ensures
            (self matches SessionError::MalformedFrame(m) ==> text == m),
    {
        match self {
            SessionError::MalformedFrame(text) => text,
        }
    }
}

/// The identify message owed for a greeting, given the configured password:
/// the bare message, or, when the greeting demands authentication, the one
/// carrying the authentication string for the greeting's salt and challenge.
pub open spec fn identify_reply_for(frame: Seq<char>, password: Seq<char>) -> Seq<char> {
    if greeting_demands_auth(frame) {
        identify_message(
            Option::Some(auth_response(password, greeting_salt(frame), greeting_challenge(frame))),
        )
    } else {
        identify_message(Option::None)
    }
}

/// One control session over one connection.
pub struct ControlSession {
    pub phase: SessionPhase,
    pub password: String,
}

impl ControlSession {
    /// A fresh session for a just-opened connection.
    pub fn new(password: String) -> (session: ControlSession)
        ensures
            session.phase == SessionPhase::AwaitGreeting,
            session.password == password,
    {
        ControlSession { phase: SessionPhase::AwaitGreeting, password }
    }

    /// Handles the peer's greeting: succeeds exactly when the frame is a
    /// JSON document, and the reply is then the identify message owed for
    /// it - bare, or carrying the authentication string computed from the
    /// configured password and the greeting's salt and challenge.  A frame
    /// that is not JSON fails the session.
    pub fn on_greeting(&mut self, frame: &str) -> (reply: Result<String, SessionError>)
        requires
            old(self).phase == SessionPhase::AwaitGreeting,
        ensures
            final(self).password == old(self).password,
            reply is Ok <==> greeting_parses(frame@),
            reply is Ok ==> final(self).phase == SessionPhase::AwaitIdentifyAck,
            reply is Err ==> final(self).phase == SessionPhase::Failed,
            reply matches Ok(msg) ==> msg@ == identify_reply_for(frame@, old(self).password@),
    {
        match greeting_auth(frame) {
            Err(description) => {
                self.phase = SessionPhase::Failed;
                Err(SessionError::MalformedFrame(description))
            },
            Ok(None) => {
                self.phase = SessionPhase::AwaitIdentifyAck;
                Ok(build_identify(None))
            },
            Ok(Some(params)) => {
                let auth = compute_auth_response(
                    self.password.as_str(),
                    params.salt.as_str(),
                    params.challenge.as_str(),
                );
                let msg = build_identify(Some(auth.as_str()));
                self.phase = SessionPhase::AwaitIdentifyAck;
                Ok(msg)
            },
        }
    }

    /// Records that the one response to the identify message was consumed;
    /// its content is deliberately not validated, so the absence of an
    /// explicit error counts as success.
    pub fn acknowledge_identify(&mut self)
        requires
            old(self).phase == SessionPhase::AwaitIdentifyAck,
        ensures
            final(self).phase == SessionPhase::Ready,
            final(self).password == old(self).password,
    {
        self.phase = SessionPhase::Ready;
    }

    /// Issues the enumerate request for the named target input; the session
    /// then awaits its response before any further request.
    pub fn begin_enumerate(&mut self, input: &str) -> (request: String)
        requires
            old(self).phase == SessionPhase::Ready,
        ensures
            final(self).phase == SessionPhase::AwaitEnumerateResponse,
            final(self).password == old(self).password,
            request@ == enumerate_request_message(input@),
    {
        self.phase = SessionPhase::AwaitEnumerateResponse;
        build_enumerate_request(input)
    }

    /// Handles the enumerate response: succeeds exactly when the frame is a
    /// JSON document, and then yields the candidate strings it lists, in
    /// order.  A frame that is not JSON fails the session; a well-formed
    /// frame without an items array yields no candidates.
    pub fn on_enumerate_response(&mut self, frame: &str) -> (outcome: Result<
        Vec<String>,
        SessionError,
    >)
        requires
            old(self).phase == SessionPhase::AwaitEnumerateResponse,
        ensures
            final(self).password == old(self).password,
            outcome is Ok <==> response_parses(frame@),
            outcome is Ok ==> final(self).phase == SessionPhase::Ready,
            outcome is Err ==> final(self).phase == SessionPhase::Failed,
            outcome matches Ok(items) ==> items.deep_view() == response_candidates(frame@),
    {
        match response_items(frame) {
            Ok(items) => {
                self.phase = SessionPhase::Ready;
                Ok(items)
            },
            Err(description) => {
                self.phase = SessionPhase::Failed;
                Err(SessionError::MalformedFrame(description))
            },
        }
    }

    /// Issues the apply request patching the chosen value into the named
    /// target input's settings.
    pub fn begin_apply(&mut self, input: &str, value: &str) -> (request: String)
        requires
            old(self).phase == SessionPhase::Ready,
        ensures
            final(self).phase == SessionPhase::AwaitApplyResponse,
            final(self).password == old(self).password,
            request@ == apply_request_message(input@, value@),
    {
        self.phase = SessionPhase::AwaitApplyResponse;
        build_apply_request(input, value)
    }

    /// Records that the one response to the apply request was consumed and
    /// discarded; the protocol does not require it to be validated.
    pub fn acknowledge_apply(&mut self)
        requires
            old(self).phase == SessionPhase::AwaitApplyResponse,
        ensures
            final(self).phase == SessionPhase::Ready,
            final(self).password == old(self).password,
    {
        self.phase = SessionPhase::Ready;
    }
}

} // verus!
