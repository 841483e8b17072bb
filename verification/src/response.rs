//! The HTTP responses that the webhook gives.

use crate::error::DeployError;
use vstd::prelude::*;
use vstd::string::StringExecFns;

verus! {

/// What a response carries below its status.
#[derive(Debug, PartialEq, Eq)]
pub enum Body {
    /// Plain text.
    Text { text: String },
    /// A JSON object with a single member whose value is a string:
    /// `{"<key>": "<value>"}`.
    Json { key: String, value: String },
}

/// A [`Body`] as a mathematical value.
pub enum BodyView {
    Text { text: Seq<char> },
    Json { key: Seq<char>, value: Seq<char> },
}

impl View for Body {
    type V = BodyView;

    open spec fn view(&self) -> BodyView {
        match self {
            Body::Text { text } => BodyView::Text { text: text@ },
            Body::Json { key, value } => BodyView::Json { key: key@, value: value@ },
        }
    }
}

/// An HTTP response: a status code and a body.
#[derive(Debug, PartialEq, Eq)]
pub struct Response {
    pub status: u16,
    pub body: Body,
}

/// A [`Response`] as a mathematical value.
pub struct ResponseView {
    pub status: u16,
    pub body: BodyView,
}

impl Clone for Body {
    fn clone(&self) -> (copy: Body)
        ensures
            copy@ == self@,
    {
        match self {
            Body::Text { text } => Body::Text { text: text.clone() },
            Body::Json { key, value } => Body::Json { key: key.clone(), value: value.clone() },
        }
    }
}

impl View for Response {
    type V = ResponseView;

    open spec fn view(&self) -> ResponseView {
        ResponseView { status: self.status, body: self.body@ }
    }
}

impl Clone for Response {
    fn clone(&self) -> (copy: Response)
        ensures
            copy@ == self@,
    {
        Response { status: self.status, body: self.body.clone() }
    }
}

impl ResponseView {
    /// `200` with the plain text `Hello World`.
    pub open spec fn greeting() -> ResponseView {
        ResponseView { status: 200, body: BodyView::Text { text: "Hello World"@ } }
    }

    /// `200` with `{"status": "Deployment successful"}`.
    pub open spec fn success() -> ResponseView {
        ResponseView {
            status: 200,
            body: BodyView::Json { key: "status"@, value: "Deployment successful"@ },
        }
    }

    /// The error's status with `{"error": "<the error's message>"}`.
    pub open spec fn failure(error: DeployError) -> ResponseView {
        ResponseView {
            status: error.spec_status(),
            body: BodyView::Json { key: "error"@, value: error.spec_message() },
        }
    }

    /// The response that reports how a deploy request ended.
    pub open spec fn of_outcome(outcome: Result<(), DeployError>) -> ResponseView {
        match outcome {
            Ok(_) => ResponseView::success(),
            Err(error) => ResponseView::failure(error),
        }
    }
}

impl Response {
    /// The response to a liveness check.
    pub fn greeting() -> (response: Response)
        ensures
            response@ == ResponseView::greeting(),
    {
        Response { status: 200, body: Body::Text { text: String::from_str("Hello World") } }
    }

    /// The response to a deploy request whose script exited with code zero.
    pub fn success() -> (response: Response)
        ensures
            response@ == ResponseView::success(),
    {
        Response {
            status: 200,
            body: Body::Json {
                key: String::from_str("status"),
                value: String::from_str("Deployment successful"),
            },
        }
    }

    /// The response to a deploy request that failed with `error`.
    pub fn failure(error: DeployError) -> (response: Response)
        ensures
            response@ == ResponseView::failure(error),
    {
        Response {
            status: error.status(),
            body: Body::Json {
                key: String::from_str("error"),
                value: String::from_str(error.message()),
            },
        }
    }

    /// The response that reports how a deploy request ended.
    pub fn of_outcome(outcome: Result<(), DeployError>) -> (response: Response)
        ensures
            response@ == ResponseView::of_outcome(outcome),
    {
        match outcome {
            Ok(_) => Response::success(),
            Err(error) => Response::failure(error),
        }
    }
}

} // verus!
