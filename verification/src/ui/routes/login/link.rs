use vstd::prelude::*;
use crate::common::auth::{Auth, IdentityView, PendingSession, session_started};
use crate::common::ids::{is_generated_id, random_id};
use crate::common::text::owned;
use crate::ui::html::Html;
use crate::ui::response::{Page, PageView, Response, ResponseView, page, redirect_to};

verus! {

/// The content of the page that says a login link did not work.
#[derive(Debug, PartialEq, Eq)]
pub struct Link {}

/// A stored login link: the address it signs in.
#[derive(Debug, PartialEq, Eq)]
pub struct LoginLink {
    pub email: String,
}

/// A user found by address.
#[derive(Debug, PartialEq, Eq)]
pub struct User {
    pub id: String,
}

/// Where visiting a login link stands.
pub enum LinkState {
    /// Checking who follows the link.
    Start { link_id: String },
    /// Looking up the link (it must not have expired).
    FetchingLink { auth: Auth },
    /// Creating a user for the link's address, unless there is one.
    CreatingUser { auth: Auth, email: String },
    /// Looking up the user of the link's address.
    FetchingUser { auth: Auth },
    /// Storing a new session for that user.
    StoringSession { session: PendingSession },
    /// Answered.
    Finished,
}

/// What the step before gave back.
pub enum LinkEvent {
    Authenticated(Auth),
    LinkFetched(Result<LoginLink, String>),
    /// The user was created, or the insertion failed (the outcome is not used).
    UserCreated,
    UserFetched(Result<User, String>),
    SessionStored(Result<(), String>),
}

/// What to do next.
#[derive(Debug, PartialEq, Eq)]
pub enum LinkAction {
    FetchLink { link_id: String },
    CreateUser { user_id: String, email: String },
    FetchUser { email: String },
    StoreSession { session_id: String, user_id: String },
    Respond(Response),
}

pub enum LinkStateView {
    Start { link_id: Seq<char> },
    FetchingLink,
    CreatingUser { email: Seq<char> },
    FetchingUser,
    StoringSession { session_id: Seq<char>, user_id: Seq<char> },
    Finished,
}

pub enum LinkEventView {
    Authenticated(IdentityView),
    LinkFetched(Option<Seq<char>>),
    UserCreated,
    UserFetched(Option<Seq<char>>),
    SessionStored(bool),
}

pub enum LinkActionView {
    FetchLink { link_id: Seq<char> },
    CreateUser { user_id: Seq<char>, email: Seq<char> },
    FetchUser { email: Seq<char> },
    StoreSession { session_id: Seq<char>, user_id: Seq<char> },
    Respond(ResponseView),
}

impl View for LinkState {
    type V = LinkStateView;

    open spec fn view(&self) -> LinkStateView {
        match self {
            LinkState::Start { link_id } => LinkStateView::Start { link_id: link_id@ },
            LinkState::FetchingLink { .. } => LinkStateView::FetchingLink,
            LinkState::CreatingUser { email, .. } => LinkStateView::CreatingUser { email: email@ },
            LinkState::FetchingUser { .. } => LinkStateView::FetchingUser,
            LinkState::StoringSession { session } => LinkStateView::StoringSession {
                session_id: session.session_id@,
                user_id: session.user_id@,
            },
            LinkState::Finished => LinkStateView::Finished,
        }
    }
}

impl View for LinkEvent {
    type V = LinkEventView;

    open spec fn view(&self) -> LinkEventView {
        match self {
            LinkEvent::Authenticated(auth) => LinkEventView::Authenticated(auth@),
            LinkEvent::LinkFetched(r) => LinkEventView::LinkFetched(
                match r {
                    Ok(l) => Some(l.email@),
                    Err(_) => None,
                },
            ),
            LinkEvent::UserCreated => LinkEventView::UserCreated,
            LinkEvent::UserFetched(r) => LinkEventView::UserFetched(
                match r {
                    Ok(u) => Some(u.id@),
                    Err(_) => None,
                },
            ),
            LinkEvent::SessionStored(r) => LinkEventView::SessionStored(r is Ok),
        }
    }
}

impl View for LinkAction {
    type V = LinkActionView;

    open spec fn view(&self) -> LinkActionView {
        match self {
            LinkAction::FetchLink { link_id } => LinkActionView::FetchLink { link_id: link_id@ },
            LinkAction::CreateUser { user_id, email } => LinkActionView::CreateUser {
                user_id: user_id@,
                email: email@,
            },
            LinkAction::FetchUser { email } => LinkActionView::FetchUser { email: email@ },
            LinkAction::StoreSession { session_id, user_id } => LinkActionView::StoreSession {
                session_id: session_id@,
                user_id: user_id@,
            },
            LinkAction::Respond(r) => LinkActionView::Respond(r@),
        }
    }
}

/// The page that answers a link that cannot sign anyone in, rendered whole.
pub open spec fn link_error_page() -> ResponseView {
    page("Seeable - Login link error"@, PageView::Link, false)
}

fn link_error_response() -> (r: Response)
    ensures
        r@ == link_error_page(),
{
    Html::render_with_content("Seeable - Login link error", Page::Link(Link {}), false)
}

/// Whether `event` is what the step of `state` gives back.
pub open spec fn answers(state: LinkStateView, event: LinkEventView) -> bool {
    match (state, event) {
        (LinkStateView::Start { .. }, LinkEventView::Authenticated(_)) => true,
        (LinkStateView::FetchingLink, LinkEventView::LinkFetched(_)) => true,
        (LinkStateView::CreatingUser { .. }, LinkEventView::UserCreated) => true,
        (LinkStateView::FetchingUser, LinkEventView::UserFetched(_)) => true,
        (LinkStateView::StoringSession { .. }, LinkEventView::SessionStored(_)) => true,
        _ => false,
    }
}

/// One step of visiting a login link: from `state` and what the last action
/// gave back (`event`) to the next state and action. Fresh ids are random:
/// for them the relation holds of every id of the generated shape.
pub open spec fn link_step(
    state: LinkStateView,
    event: LinkEventView,
    next: LinkStateView,
    action: LinkActionView,
) -> bool {
    match (state, event) {
        (LinkStateView::Start { link_id }, LinkEventView::Authenticated(identity)) => if identity is Anonymous {
            next == LinkStateView::FetchingLink && action == LinkActionView::FetchLink { link_id }
        } else {
            next == LinkStateView::Finished && action == LinkActionView::Respond(redirect_to("/app"@))
        },
        (LinkStateView::FetchingLink, LinkEventView::LinkFetched(found)) => match found {
            Some(email) => next == (LinkStateView::CreatingUser { email }) && (
            action matches LinkActionView::CreateUser { user_id, email: e } && e == email
                && is_generated_id(user_id)),
            None => next == LinkStateView::Finished && action == LinkActionView::Respond(link_error_page()),
        },
        (LinkStateView::CreatingUser { email }, LinkEventView::UserCreated) => next
            == LinkStateView::FetchingUser && action == LinkActionView::FetchUser { email },
        (LinkStateView::FetchingUser, LinkEventView::UserFetched(found)) => match found {
            Some(user_id) => next matches LinkStateView::StoringSession { session_id, user_id: u }
                && u == user_id && is_generated_id(session_id) && action == (LinkActionView::StoreSession { session_id, user_id }),
            None => next == LinkStateView::Finished && action == LinkActionView::Respond(link_error_page()),
        },
        (LinkStateView::StoringSession { session_id, user_id }, LinkEventView::SessionStored(ok)) => next
            == LinkStateView::Finished && action == LinkActionView::Respond(
            if ok {
                session_started(session_id)
            } else {
                link_error_page()
            },
        ),
        _ => false,
    }
}

/// `GET /login/link/:link_id` starts here.
pub fn handler(link_id: String) -> (r: LinkState)
    ensures
        r@ == (LinkStateView::Start { link_id: link_id@ }),
{
    LinkState::Start { link_id }
}

impl LinkState {
    /// One step of visiting a login link (see `link_step`).
    pub fn step(self, event: LinkEvent) -> (r: (LinkState, LinkAction))
        requires
            answers(self@, event@),
        ensures
            link_step(self@, event@, r.0@, r.1@),
    {
        match (self, event) {
            (LinkState::Start { link_id }, LinkEvent::Authenticated(auth)) => {
                if !auth.is_anonymous() {
                    (LinkState::Finished, LinkAction::Respond(auth.get_redirect_authorized()))
                } else {
                    (LinkState::FetchingLink { auth }, LinkAction::FetchLink { link_id })
                }
            },
            (LinkState::FetchingLink { auth }, LinkEvent::LinkFetched(found)) => match found {
                Err(_) => (LinkState::Finished, LinkAction::Respond(link_error_response())),
                Ok(login_link) => {
                    let email = owned(login_link.email.as_str());
                    (
                        LinkState::CreatingUser { auth, email: login_link.email },
                        LinkAction::CreateUser { user_id: random_id(), email },
                    )
                },
            },
            (LinkState::CreatingUser { auth, email }, LinkEvent::UserCreated) => {
                (LinkState::FetchingUser { auth }, LinkAction::FetchUser { email })
            },
            (LinkState::FetchingUser { auth }, LinkEvent::UserFetched(found)) => match found {
                Err(_) => (LinkState::Finished, LinkAction::Respond(link_error_response())),
                Ok(user) => {
                    let session = auth.create_session(user.id.as_str());
                    let action = LinkAction::StoreSession {
                        session_id: owned(session.session_id.as_str()),
                        user_id: owned(session.user_id.as_str()),
                    };
                    (LinkState::StoringSession { session }, action)
                },
            },
            (LinkState::StoringSession { session }, LinkEvent::SessionStored(stored)) => {
                (LinkState::Finished, LinkAction::Respond(session.complete(stored, link_error_response())))
            },
            // `requires` pairs every state with its own event.
            (_, _) => (LinkState::Finished, LinkAction::Respond(link_error_response())),
        }
    }
}


/// The user created and then looked up is the one of the link's address.
pub proof fn lemma_link_user_is_links_address(
    email: Seq<char>,
    s1: LinkStateView,
    a1: LinkActionView,
    s2: LinkStateView,
    a2: LinkActionView,
)
    requires
        link_step(LinkStateView::FetchingLink, LinkEventView::LinkFetched(Some(email)), s1, a1),
        link_step(s1, LinkEventView::UserCreated, s2, a2),
    ensures
        a1 matches LinkActionView::CreateUser { email: e, .. } && e == email,
        a2 == (LinkActionView::FetchUser { email }),
{
}

/// A login link signs in the user its address finds: the session stored is
/// for that user, and the cookie set holds that session's id.
pub proof fn lemma_link_signs_in_found_user(
    user_id: Seq<char>,
    s1: LinkStateView,
    a1: LinkActionView,
    s2: LinkStateView,
    a2: LinkActionView,
)
    requires
        link_step(LinkStateView::FetchingUser, LinkEventView::UserFetched(Some(user_id)), s1, a1),
        link_step(s1, LinkEventView::SessionStored(true), s2, a2),
    ensures
        exists|session_id: Seq<char>|
            {
                &&& is_generated_id(session_id)
                &&& a1 == (LinkActionView::StoreSession { session_id, user_id })
                &&& a2 == LinkActionView::Respond(session_started(session_id))
            },
        s2 == LinkStateView::Finished,
{
    let session_id = s1->StoringSession_session_id;
    assert(a1 == (LinkActionView::StoreSession { session_id, user_id }));
}

} // verus!

