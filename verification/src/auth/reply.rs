//! Replies of the gateway as plain values: a status, an optional redirect
//! target, cookies to set, and an optional JSON error body.

use crate::text::{list_view, opt_view};
use vstd::prelude::*;
use vstd::string::*;

verus! {

/// 303 See Other, the status of every redirect the gateway sends.
pub const STATUS_SEE_OTHER: u16 = 303;

/// 400 Bad Request.
pub const STATUS_BAD_REQUEST: u16 = 400;

/// 401 Unauthorized.
pub const STATUS_UNAUTHORIZED: u16 = 401;

/// 403 Forbidden.
pub const STATUS_FORBIDDEN: u16 = 403;

/// 500 Internal Server Error.
pub const STATUS_INTERNAL_ERROR: u16 = 500;

/// A JSON error body.
#[derive(Debug, Clone)]
pub enum ErrorBody {
    /// `error` alone.
    Message { error: String },
    /// What the identity provider reported: `error` and `error_description`.
    Provider { error: String, error_description: Option<String> },
    /// An authentication failure: `error`, `message` and, but for internal
    /// errors, `code`.
    Auth { error: String, message: String, code: Option<String> },
}

/// An error body as plain text.
pub ghost enum ErrorBodyView {
    Message { error: Seq<char> },
    Provider { error: Seq<char>, error_description: Option<Seq<char>> },
    Auth { error: Seq<char>, message: Seq<char>, code: Option<Seq<char>> },
}

impl View for ErrorBody {
    type V = ErrorBodyView;

    open spec fn view(&self) -> ErrorBodyView {
        match *self {
            ErrorBody::Message { error } => ErrorBodyView::Message { error: error@ },
            ErrorBody::Provider { error, error_description } => ErrorBodyView::Provider {
                error: error@,
                error_description: opt_view(error_description),
            },
            ErrorBody::Auth { error, message, code } => ErrorBodyView::Auth {
                error: error@,
                message: message@,
                code: opt_view(code),
            },
        }
    }
}

/// A reply to the browser.
#[derive(Debug, Clone)]
pub struct HttpReply {
    /// HTTP status code.
    pub status: u16,
    /// Value of the `Location` header, for redirects.
    pub location: Option<String>,
    /// Values of the `Set-Cookie` headers, in order.
    pub set_cookies: Vec<String>,
    /// JSON body, for errors.
    pub body: Option<ErrorBody>,
}

/// A reply as plain values.
pub ghost struct HttpReplyView {
    pub status: u16,
    pub location: Option<Seq<char>>,
    pub set_cookies: Seq<Seq<char>>,
    pub body: Option<ErrorBodyView>,
}

impl View for HttpReply {
    type V = HttpReplyView;

    open spec fn view(&self) -> HttpReplyView {
        HttpReplyView {
            status: self.status,
            location: opt_view(self.location),
            set_cookies: list_view(self.set_cookies@),
            body: match self.body {
                Some(b) => Some(b@),
                None => None,
            },
        }
    }
}

/// A redirect to `location` that sets `cookies`.
pub open spec fn redirect_to(location: Seq<char>, cookies: Seq<Seq<char>>) -> HttpReplyView {
    HttpReplyView {
        status: STATUS_SEE_OTHER,
        location: Some(location),
        set_cookies: cookies,
        body: None,
    }
}

/// An error reply whose body is `{"error": <error>}`.
pub open spec fn error_message(status: u16, error: Seq<char>) -> HttpReplyView {
    HttpReplyView {
        status,
        location: None,
        set_cookies: Seq::empty(),
        body: Some(ErrorBodyView::Message { error }),
    }
}

impl HttpReply {
    /// A redirect to `location` that sets `cookies`.
    pub fn redirect(location: String, cookies: Vec<String>) -> (reply: HttpReply)
        ensures
            reply@ == redirect_to(location@, list_view(cookies@)),
    {
        HttpReply {
            status: STATUS_SEE_OTHER,
            location: Some(location),
            set_cookies: cookies,
            body: None,
        }
    }

    /// An error reply whose body is `{"error": <error>}`.
    pub fn error(status: u16, error: &str) -> (reply: HttpReply)
        ensures
            reply@ == error_message(status, error@),
    {
        let reply = HttpReply {
            status,
            location: None,
            set_cookies: Vec::new(),
            body: Some(ErrorBody::Message { error: error.to_owned() }),
        };
        assert(list_view(reply.set_cookies@) =~= Seq::<Seq<char>>::empty());
        reply
    }

    /// Whether this reply is a redirect.
    pub fn is_redirect(&self) -> (r: bool)
        ensures
            r == (self.status == STATUS_SEE_OTHER),
    {
        self.status == STATUS_SEE_OTHER
    }
}

} // verus!
