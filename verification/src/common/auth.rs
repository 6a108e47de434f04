use vstd::prelude::*;
use crate::common::ids::{is_generated_id, random_id};
use crate::common::text::{opt_view, owned};
use crate::ui::response::{CookieChange, CookieChangeView, Response, ResponseView, SessionCookie, SessionCookieView, redirect_to, STATUS_UNAUTHORIZED};

verus! {

/// The name of the signed cookie that holds the session id.
pub open spec fn session_cookie_name() -> Seq<char> {
    "seeable-session-id"@
}

fn session_cookie_name_string() -> (r: String)
    ensures
        r@ == session_cookie_name(),
{
    owned("seeable-session-id")
}

/// A signed-in user and the session that signs them in.
#[derive(Debug, PartialEq, Eq)]
pub struct SessionUser {
    pub id: String,
    pub session_id: String,
}

/// Who sent a request.
pub enum Identity {
    User(SessionUser),
    Anonymous,
}

pub enum IdentityView {
    User { id: Seq<char>, session_id: Seq<char> },
    Anonymous,
}

impl View for Identity {
    type V = IdentityView;

    open spec fn view(&self) -> IdentityView {
        match self {
            Identity::User(u) => IdentityView::User { id: u.id@, session_id: u.session_id@ },
            Identity::Anonymous => IdentityView::Anonymous,
        }
    }
}

/// What looking up the request's session gave.
pub enum SessionLookup {
    /// The request carries no session cookie.
    NoCookie,
    /// The session is live and belongs to this user.
    Found(SessionUser),
    /// No live session has the cookie's id.
    NotFound,
    /// The lookup failed with this error.
    Failed(String),
}

/// The identity a session lookup establishes: a user only for a live session.
pub open spec fn identity_of(lookup: SessionLookup) -> IdentityView {
    match lookup {
        SessionLookup::Found(u) => IdentityView::User { id: u.id@, session_id: u.session_id@ },
        _ => IdentityView::Anonymous,
    }
}

/// The identity behind a request.
pub struct Auth {
    identity: Identity,
}

impl View for Auth {
    type V = IdentityView;

    closed spec fn view(&self) -> IdentityView {
        self.identity@
    }
}

/// What ending a session does: delete this session, if any, and answer so.
pub struct SessionEnd {
    pub delete_session_id: Option<String>,
    pub response: Response,
}

/// A session whose id was drawn and that is still to be stored.
pub struct PendingSession {
    pub session_id: String,
    pub user_id: String,
}

/// The answer once the session is stored: a secure, HTTP-only cookie on `/`
/// holding the session id, and a redirection to the application.
pub open spec fn session_started(session_id: Seq<char>) -> ResponseView {
    ResponseView::RedirectWithCookie {
        cookie: CookieChangeView::Add(
            SessionCookieView {
                name: session_cookie_name(),
                value: session_id,
                http_only: true,
                secure: true,
                path: "/"@,
            },
        ),
        to: "/app"@,
    }
}

/// The answer that ends a session: the session cookie removed, and a
/// redirection to the login page.
pub open spec fn session_ended() -> ResponseView {
    ResponseView::RedirectWithCookie {
        cookie: CookieChangeView::Remove(session_cookie_name()),
        to: "/login"@,
    }
}

/// The session that ending the session of this identity deletes.
pub open spec fn session_to_delete(identity: IdentityView) -> Option<Seq<char>> {
    match identity {
        IdentityView::User { session_id, .. } => Some(session_id),
        IdentityView::Anonymous => None,
    }
}

/// The value of the cookie that a response sets, if it sets one.
pub open spec fn cookie_set_by(r: ResponseView) -> Option<Seq<char>> {
    match r {
        ResponseView::RedirectWithCookie { cookie: CookieChangeView::Add(c), .. } => Some(c.value),
        _ => None,
    }
}

impl Auth {
    /// The identity established by the session lookup; a failed lookup counts
    /// as anonymous.
    pub fn new(lookup: SessionLookup) -> (r: Auth)
        ensures
            r@ == identity_of(lookup),
    {
        let identity = match lookup {
            SessionLookup::Found(user) => Identity::User(user),
            SessionLookup::NoCookie => Identity::Anonymous,
            SessionLookup::NotFound => Identity::Anonymous,
            SessionLookup::Failed(_) => Identity::Anonymous,
        };
        Auth { identity }
    }

    pub fn is_anonymous(&self) -> (r: bool)
        ensures
            r == (self@ is Anonymous),
    {
        match self.identity {
            Identity::Anonymous => true,
            _ => false,
        }
    }

    pub fn get_response_unauthorized(&self) -> (r: Response)
        ensures
            r@ == (ResponseView::Text { status: STATUS_UNAUTHORIZED, body: "Unauthorized"@ }),
    {
        Response::Text { status: STATUS_UNAUTHORIZED, body: owned("Unauthorized") }
    }

    pub fn ger_redirect_unauthorized(&self) -> (r: Response)
        ensures
            r@ == redirect_to("/login"@),
    {
        Response::redirect("/login")
    }

    pub fn get_redirect_authorized(&self) -> (r: Response)
        ensures
            r@ == redirect_to("/app"@),
    {
        Response::redirect("/app")
    }

    /// Ends the session: a signed-in user's session is deleted (a failure to
    /// delete it changes nothing), and every request gets the cookie removed
    /// and is sent to the login page.
    pub fn destroy_session(self) -> (r: SessionEnd)
        ensures
            opt_view(r.delete_session_id) == session_to_delete(self@),
            r.response@ == session_ended(),
    {
        let delete_session_id = match self.identity {
            Identity::User(user) => Some(user.session_id),
            Identity::Anonymous => None,
        };
        SessionEnd {
            delete_session_id,
            response: Response::RedirectWithCookie {
                cookie: CookieChange::Remove(session_cookie_name_string()),
                to: owned("/login"),
            },
        }
    }

    /// Draws a fresh session id for `user_id`; the session is stored next.
    pub fn create_session(self, user_id: &str) -> (r: PendingSession)
        ensures
            is_generated_id(r.session_id@),
            r.user_id@ == user_id@,
    {
        PendingSession { session_id: random_id(), user_id: owned(user_id) }
    }
}

impl PendingSession {
    /// The answer once storing the session is done: `error_response` when it
    /// failed, else the session cookie and a redirection to the application.
    pub fn complete(self, stored: Result<(), String>, error_response: Response) -> (r: Response)
        ensures
            r@ == match stored {
                Ok(_) => session_started(self.session_id@),
                Err(_) => error_response@,
            },
    {
        match stored {
            Err(_) => error_response,
            Ok(_) => Response::RedirectWithCookie {
                cookie: CookieChange::Add(
                    SessionCookie {
                        name: session_cookie_name_string(),
                        value: self.session_id,
                        http_only: true,
                        secure: true,
                        path: owned("/"),
                    },
                ),
                to: owned("/app"),
            },
        }
    }
}


/// A request is anonymous unless its session lookup found a live session.
pub proof fn lemma_anonymous_unless_live_session(lookup: SessionLookup)
    ensures
        (identity_of(lookup) is Anonymous) <==> !(lookup is Found),
{
}

/// Logging out deletes the very session that signing in stored: a request
/// whose cookie holds the value set when the session started, and whose
/// lookup finds that session, has exactly that session deleted.
pub proof fn lemma_logout_ends_stored_session(session_id: Seq<char>, user: SessionUser)
    requires
        cookie_set_by(session_started(session_id)) == Some(user.session_id@),
    ensures
        session_to_delete(identity_of(SessionLookup::Found(user))) == Some(session_id),
{
}

/// Ending a session always removes the session cookie and leads to the login
/// page, whoever asks; nothing is deleted for an anonymous request.
pub proof fn lemma_logout_answer(identity: IdentityView)
    ensures
        session_ended() == (ResponseView::RedirectWithCookie {
            cookie: CookieChangeView::Remove(session_cookie_name()),
            to: "/login"@,
        }),
        identity is Anonymous ==> session_to_delete(identity) is None,
{
}

} // verus!
