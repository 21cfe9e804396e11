//! Stored request definitions.

use vstd::prelude::*;
use vstd::string::StringExecFns;

use crate::app::method::{invalid_method_message, is_method_token, parse_method};

verus! {

/// Number of request fields that can be edited.
pub const REQ_FIELD_COUNT: usize = 4;

/// One stored HTTP request definition.
#[derive(Debug, PartialEq, Eq)]
pub struct Request {
    /// Label shown in the request list.
    pub name: String,
    /// HTTP verb, kept as text.
    pub req_type: String,
    pub url: String,
    pub body: String,
    /// Body of the last response, or the message of the last failure.
    pub resp: String,
    /// Status of the last run; empty if the request never ran.
    pub status: String,
    /// Identifier given by the store on the first save; empty until then.
    pub db_id: String,
}

/// Mathematical value of a [`Request`].
pub struct RequestView {
    pub name: Seq<char>,
    pub req_type: Seq<char>,
    pub url: Seq<char>,
    pub body: Seq<char>,
    pub resp: Seq<char>,
    pub status: Seq<char>,
    pub db_id: Seq<char>,
}

impl View for Request {
    type V = RequestView;

    open spec fn view(&self) -> RequestView {
        RequestView {
            name: self.name@,
            req_type: self.req_type@,
            url: self.url@,
            body: self.body@,
            resp: self.resp@,
            status: self.status@,
            db_id: self.db_id@,
        }
    }
}

impl Clone for Request {
    fn clone(&self) -> (copy: Self)
        ensures
            copy@ == self@,
    {
        Request {
            name: self.name.clone(),
            req_type: self.req_type.clone(),
            url: self.url.clone(),
            body: self.body.clone(),
            resp: self.resp.clone(),
            status: self.status.clone(),
            db_id: self.db_id.clone(),
        }
    }
}

/// What the runner is asked to send.
#[derive(Debug, PartialEq, Eq)]
pub struct Call {
    pub method: String,
    pub url: String,
    pub body: String,
}

/// Mathematical value of a [`Call`].
pub struct CallView {
    pub method: Seq<char>,
    pub url: Seq<char>,
    pub body: Seq<char>,
}

impl View for Call {
    type V = CallView;

    open spec fn view(&self) -> CallView {
        CallView { method: self.method@, url: self.url@, body: self.body@ }
    }
}

/// What the runner answers.
#[derive(Debug, PartialEq, Eq)]
pub enum Reply {
    /// The server answered: its status code and the text of its answer.
    Response { status: String, body: String },
    /// The request could not be carried out.
    Failure { message: String },
}

/// Mathematical value of a [`Reply`].
pub enum ReplyView {
    Response { status: Seq<char>, body: Seq<char> },
    Failure { message: Seq<char> },
}

impl View for Reply {
    type V = ReplyView;

    open spec fn view(&self) -> ReplyView {
        match self {
            Reply::Response { status, body } => ReplyView::Response {
                status: status@,
                body: body@,
            },
            Reply::Failure { message } => ReplyView::Failure { message: message@ },
        }
    }
}

/// Status recorded for a request that could not be carried out.
pub open spec fn error_status() -> Seq<char> {
    "Error"@
}

/// Method that a new request is given.
pub open spec fn default_method() -> Seq<char> {
    "GET"@
}

impl RequestView {
    /// A blank request called `name`.
    pub open spec fn blank(name: Seq<char>) -> RequestView {
        RequestView {
            name,
            req_type: default_method(),
            url: Seq::empty(),
            body: Seq::empty(),
            resp: Seq::empty(),
            status: Seq::empty(),
            db_id: Seq::empty(),
        }
    }

    /// The call that running this request asks for; none if its method is
    /// no method token.
    pub open spec fn call(self) -> Option<CallView> {
        if is_method_token(self.req_type) {
            Some(CallView { method: self.req_type, url: self.url, body: self.body })
        } else {
            None
        }
    }

    /// The request with a failure recorded as the result of its last run.
    pub open spec fn failed(self, message: Seq<char>) -> RequestView {
        RequestView { resp: message, status: error_status(), ..self }
    }

    /// The request as it stands once a run was started: unchanged where a
    /// call goes out, marked as failed where its method is refused.
    pub open spec fn started(self) -> RequestView {
        if is_method_token(self.req_type) {
            self
        } else {
            self.failed(invalid_method_message())
        }
    }

    /// The request with the runner's answer recorded.
    pub open spec fn answered(self, reply: ReplyView) -> RequestView {
        match reply {
            ReplyView::Response { status, body } => RequestView { resp: body, status, ..self },
            ReplyView::Failure { message } => self.failed(message),
        }
    }
}

impl Request {
    /// Creates a blank request called `name`, with the default method.
    pub fn new(name: &str) -> (request: Request)
        ensures
            request@ == RequestView::blank(name@),
    {
        Request {
            name: String::from_str(name),
            req_type: String::from_str("GET"),
            url: String::new(),
            body: String::new(),
            resp: String::new(),
            status: String::new(),
            db_id: String::new(),
        }
    }

    /// Starts a run of the request. Where the method is a method token the
    /// call to send is handed back and the request stays as it is. Where it
    /// is not, nothing is to be sent and the refusal is recorded as the
    /// result of the run.
    pub fn run_req(&mut self) -> (call: Option<Call>)
        ensures
            final(self)@ == old(self)@.started(),
            call is Some <==> old(self)@.call() is Some,
            call is Some ==> call->Some_0@ == old(self)@.call()->Some_0,
    {
        match parse_method(self.req_type.as_str()) {
            Ok(method) => Some(Call { method, url: self.url.clone(), body: self.body.clone() }),
            Err(message) => {
                self.resp = message;
                self.status = String::from_str("Error");
                None
            },
        }
    }

    /// Records what the runner answered to the last call.
    pub fn record_reply(&mut self, reply: Reply)
        ensures
            final(self)@ == old(self)@.answered(reply@),
    {
        match reply {
            Reply::Response { status, body } => {
                self.status = status;
                self.resp = body;
            },
            Reply::Failure { message } => {
                self.resp = message;
                self.status = String::from_str("Error");
            },
        }
    }
}

} // verus!
