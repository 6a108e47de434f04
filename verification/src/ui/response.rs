use vstd::prelude::*;
use crate::ui::routes::Root;
use crate::ui::routes::app::App;
use crate::ui::routes::login::Login;
use crate::ui::routes::login::link::Link;
use crate::ui::routes::login::sent::Sent;
use crate::ui::routes::test::Test;

verus! {

pub const STATUS_OK: u16 = 200;

pub const STATUS_UNAUTHORIZED: u16 = 401;

pub const STATUS_INTERNAL_SERVER_ERROR: u16 = 500;

/// The content of a page, one variant per template.
#[derive(Debug, PartialEq, Eq)]
pub enum Page {
    Root(Root),
    App(App),
    Test(Test),
    Login(Login),
    Sent(Sent),
    Link(Link),
}

pub enum PageView {
    Root { root_content: Seq<char> },
    App,
    Test { test_content: Seq<char> },
    Login,
    Sent { maybe_error: Seq<char> },
    Link,
}

impl View for Page {
    type V = PageView;

    open spec fn view(&self) -> PageView {
        match self {
            Page::Root(p) => PageView::Root { root_content: p.root_content@ },
            Page::App(_) => PageView::App,
            Page::Test(p) => PageView::Test { test_content: p.test_content@ },
            Page::Login(_) => PageView::Login,
            Page::Sent(p) => PageView::Sent { maybe_error: p.maybe_error@ },
            Page::Link(_) => PageView::Link,
        }
    }
}

/// A cookie set on the response (it is signed when it is sent).
#[derive(Debug, PartialEq, Eq)]
pub struct SessionCookie {
    pub name: String,
    pub value: String,
    pub http_only: bool,
    pub secure: bool,
    pub path: String,
}

pub struct SessionCookieView {
    pub name: Seq<char>,
    pub value: Seq<char>,
    pub http_only: bool,
    pub secure: bool,
    pub path: Seq<char>,
}

impl View for SessionCookie {
    type V = SessionCookieView;

    open spec fn view(&self) -> SessionCookieView {
        SessionCookieView {
            name: self.name@,
            value: self.value@,
            http_only: self.http_only,
            secure: self.secure,
            path: self.path@,
        }
    }
}

/// How a response changes the client's cookie jar.
#[derive(Debug, PartialEq, Eq)]
pub enum CookieChange {
    /// Removes the cookie of this name.
    Remove(String),
    /// Sets this cookie.
    Add(SessionCookie),
}

pub enum CookieChangeView {
    Remove(Seq<char>),
    Add(SessionCookieView),
}

impl View for CookieChange {
    type V = CookieChangeView;

    open spec fn view(&self) -> CookieChangeView {
        match self {
            CookieChange::Remove(name) => CookieChangeView::Remove(name@),
            CookieChange::Add(c) => CookieChangeView::Add(c@),
        }
    }
}

/// What a handler answers.
#[derive(Debug, PartialEq, Eq)]
pub enum Response {
    /// A page still to be rendered: the whole document, or only its body when
    /// the request is boosted.
    Page { title: String, content: Page, boosted: bool },
    /// A plain-text body with a status code.
    Text { status: u16, body: String },
    /// A rendered HTML body with a status code.
    Html { status: u16, body: String },
    /// A redirection (`303 See Other`).
    Redirect { to: String },
    /// A redirection that also changes a cookie.
    RedirectWithCookie { cookie: CookieChange, to: String },
}

pub enum ResponseView {
    Page { title: Seq<char>, content: PageView, boosted: bool },
    Text { status: u16, body: Seq<char> },
    Html { status: u16, body: Seq<char> },
    Redirect { to: Seq<char> },
    RedirectWithCookie { cookie: CookieChangeView, to: Seq<char> },
}

impl View for Response {
    type V = ResponseView;

    open spec fn view(&self) -> ResponseView {
        match self {
            Response::Page { title, content, boosted } => ResponseView::Page {
                title: title@,
                content: content@,
                boosted: *boosted,
            },
            Response::Text { status, body } => ResponseView::Text { status: *status, body: body@ },
            Response::Html { status, body } => ResponseView::Html { status: *status, body: body@ },
            Response::Redirect { to } => ResponseView::Redirect { to: to@ },
            Response::RedirectWithCookie { cookie, to } => ResponseView::RedirectWithCookie {
                cookie: cookie@,
                to: to@,
            },
        }
    }
}

/// A redirection to `to`.
pub open spec fn redirect_to(to: Seq<char>) -> ResponseView {
    ResponseView::Redirect { to }
}

/// A page answer.
pub open spec fn page(title: Seq<char>, content: PageView, boosted: bool) -> ResponseView {
    ResponseView::Page { title, content, boosted }
}

impl Response {
    /// `Redirect::to(to)`.
    pub fn redirect(to: &str) -> (r: Response)
        ensures
            r@ == redirect_to(to@),
    {
        Response::Redirect { to: crate::common::text::owned(to) }
    }
}

} // verus!
