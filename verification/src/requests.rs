//! The neutral request model: what the web front-end hands to hooks and
//! providers, and how a request is classified.

use crate::dict::StrDict;
use vstd::prelude::*;

verus! {

/// Abstract value of a [`WebRequest`].
pub ghost struct WebRequestV {
    pub source: Seq<char>,
    pub headers: Map<Seq<char>, Seq<char>>,
    pub params: Map<Seq<char>, Seq<char>>,
    pub body: Seq<char>,
}

/// An inbound HTTP request reduced to plain data: the source address,
/// the headers, the query parameters and the raw body.
pub struct WebRequest {
    pub source: String,
    pub headers: StrDict<String>,
    pub params: StrDict<String>,
    pub body: String,
}

impl View for WebRequest {
    type V = WebRequestV;

    open spec fn view(&self) -> WebRequestV {
        WebRequestV {
            source: self.source@,
            headers: self.headers@,
            params: self.params@,
            body: self.body@,
        }
    }
}

/// Abstract value of a [`StatusEvent`].
pub ghost struct StatusEventV {
    pub hook_name: Seq<char>,
    pub success: bool,
}

/// A follow-up event synthesized when a job finishes, so that status
/// hooks can run. Never produced by the HTTP front-end.
pub struct StatusEvent {
    pub hook_name: String,
    pub success: bool,
}

impl View for StatusEvent {
    type V = StatusEventV;

    open spec fn view(&self) -> StatusEventV {
        StatusEventV { hook_name: self.hook_name@, success: self.success }
    }
}

/// Abstract value of a [`Request`].
pub ghost enum RequestV {
    Web(WebRequestV),
    Status(StatusEventV),
}

/// A request a provider is asked to judge: either a web delivery or an
/// internally synthesized status event.
pub enum Request {
    Web(WebRequest),
    Status(StatusEvent),
}

impl View for Request {
    type V = RequestV;

    open spec fn view(&self) -> RequestV {
        match self {
            Request::Web(r) => RequestV::Web(r@),
            Request::Status(s) => RequestV::Status(s@),
        }
    }
}

/// How a provider classifies a request: reject it, acknowledge it
/// without running anything, or queue the hook for execution.
#[derive(Clone, Copy, PartialEq, Eq, Structural, Debug)]
pub enum RequestType {
    Invalid,
    Ping,
    ExecuteHook,
}

/// A web request with no headers, no parameters, an empty body and a
/// local source address; the starting point for tests.
pub fn dummy_web_request() -> (r: WebRequest)
    ensures
        r@.source == "127.0.0.1"@,
        r@.headers == Map::<Seq<char>, Seq<char>>::empty(),
        r@.params == Map::<Seq<char>, Seq<char>>::empty(),
        r@.body == Seq::<char>::empty(),
{
    WebRequest {
        source: "127.0.0.1".to_owned(),
        headers: StrDict::new(),
        params: StrDict::new(),
        body: String::new(),
    }
}

} // verus!
