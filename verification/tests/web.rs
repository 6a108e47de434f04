use seeable::common::auth::{Auth, SessionLookup, SessionUser};
use seeable::ui::html::{Html, Layout};
use seeable::ui::response::{CookieChange, Page, Response, SessionCookie};
use seeable::ui::routes;
use seeable::ui::routes::app::App;
use seeable::ui::routes::login::link::{Link, LinkAction, LinkEvent, LinkState, LoginLink, User};
use seeable::ui::routes::login::sent::{SendResult, Sent};
use seeable::ui::routes::login::{self, Login, LoginFormData, LoginPost};
use seeable::ui::routes::test::Test;
use seeable::ui::routes::Root;

fn user_auth() -> Auth {
    Auth::new(SessionLookup::Found(SessionUser { id: "u1".to_string(), session_id: "s1".to_string() }))
}

fn is_id(s: &str) -> bool {
    s.chars().count() == 21
        && s.chars().all(|c| c == '_' || c == '-' || c.is_ascii_digit() || c.is_ascii_alphabetic())
}

fn page(title: &str, content: Page, boosted: bool) -> Response {
    Response::Page { title: title.to_string(), content, boosted }
}

fn redirect(to: &str) -> Response {
    Response::Redirect { to: to.to_string() }
}

fn link_error() -> Response {
    page("Seeable - Login link error", Page::Link(Link {}), false)
}

#[test]
fn identity_from_lookup() {
    assert!(Auth::new(SessionLookup::NoCookie).is_anonymous());
    assert!(Auth::new(SessionLookup::NotFound).is_anonymous());
    assert!(Auth::new(SessionLookup::Failed("db down".to_string())).is_anonymous());
    assert!(!user_auth().is_anonymous());
}

#[test]
fn fixed_responses() {
    let a = user_auth();
    assert_eq!(
        a.get_response_unauthorized(),
        Response::Text { status: 401, body: "Unauthorized".to_string() }
    );
    assert_eq!(a.ger_redirect_unauthorized(), redirect("/login"));
    assert_eq!(a.get_redirect_authorized(), redirect("/app"));
}

#[test]
fn logout_deletes_the_users_session() {
    let end = routes::logout::handler(user_auth());
    assert_eq!(end.delete_session_id, Some("s1".to_string()));
    assert_eq!(
        end.response,
        Response::RedirectWithCookie {
            cookie: CookieChange::Remove("seeable-session-id".to_string()),
            to: "/login".to_string()
        }
    );
    let end = Auth::new(SessionLookup::NoCookie).destroy_session();
    assert_eq!(end.delete_session_id, None);
    assert_eq!(
        end.response,
        Response::RedirectWithCookie {
            cookie: CookieChange::Remove("seeable-session-id".to_string()),
            to: "/login".to_string()
        }
    );
}

#[test]
fn session_cookie_after_login() {
    let pending = Auth::new(SessionLookup::NoCookie).create_session("user-7");
    assert!(is_id(&pending.session_id));
    assert_eq!(pending.user_id, "user-7");
    let id = pending.session_id.clone();
    let r = pending.complete(Ok(()), redirect("/error"));
    assert_eq!(
        r,
        Response::RedirectWithCookie {
            cookie: CookieChange::Add(SessionCookie {
                name: "seeable-session-id".to_string(),
                value: id.clone(),
                http_only: true,
                secure: true,
                path: "/".to_string(),
            }),
            to: "/app".to_string(),
        }
    );
    // the session that this cookie names is the one logout deletes
    let later = Auth::new(SessionLookup::Found(SessionUser { id: "user-7".to_string(), session_id: id.clone() }));
    assert_eq!(later.destroy_session().delete_session_id, Some(id));
    let failed = Auth::new(SessionLookup::NoCookie).create_session("user-7");
    assert_eq!(failed.complete(Err("insert failed".to_string()), redirect("/error")), redirect("/error"));
}

#[test]
fn session_ids_differ() {
    let a = Auth::new(SessionLookup::NoCookie).create_session("x").session_id;
    let b = Auth::new(SessionLookup::NoCookie).create_session("x").session_id;
    assert!(is_id(&a) && is_id(&b));
    assert_ne!(a, b);
    assert_ne!(a, "x");
}

#[test]
fn html_layout_and_outcome() {
    assert_eq!(Html::layout(true), Layout::Body);
    assert_eq!(Html::layout(false), Layout::Document);
    assert_eq!(
        Html::render_with_content("T", Page::App(App {}), true),
        page("T", Page::App(App {}), true)
    );
    assert_eq!(
        Html::respond(Ok("<p>hi</p>".to_string())),
        Response::Html { status: 200, body: "<p>hi</p>".to_string() }
    );
    assert_eq!(
        Html::respond(Err("template failed".to_string())),
        Response::Text { status: 500, body: "template failed".to_string() }
    );
}

#[test]
fn public_pages() {
    assert_eq!(
        routes::handler(true),
        page(
            "this is root title",
            Page::Root(Root { root_content: "this is dynamics root content".to_string() }),
            true
        )
    );
    assert_eq!(
        routes::test::handler(false),
        page(
            "this is test title",
            Page::Test(Test { test_content: "this is test XXX content".to_string() }),
            false
        )
    );
}

#[test]
fn app_and_login_pages_split_by_identity() {
    let anon = Auth::new(SessionLookup::NoCookie);
    let user = user_auth();
    assert_eq!(routes::app::handler(false, &anon), redirect("/login"));
    assert_eq!(routes::app::handler(true, &user), page("this is root title", Page::App(App {}), true));
    assert_eq!(login::handler_get(false, &anon), page("Seeable - Login", Page::Login(Login {}), false));
    assert_eq!(login::handler_get(true, &user), redirect("/app"));
}

#[test]
fn login_post_creates_link() {
    let user = user_auth();
    match login::handler_post(&user, LoginFormData { email: "a@b.c".to_string() }) {
        LoginPost::Respond(r) => assert_eq!(r, redirect("/app")),
        LoginPost::CreateLink(_) => panic!("a signed-in user gets no link"),
    }
    let anon = Auth::new(SessionLookup::NoCookie);
    match login::handler_post(&anon, LoginFormData { email: "a@b.c".to_string() }) {
        LoginPost::CreateLink(req) => {
            assert_eq!(req.email, "a@b.c");
            assert!(is_id(&req.link_id));
            assert_eq!(req.url(), format!("http://localhost:3000/login/link/{}", req.link_id));
            assert_eq!(req.complete(Ok(())), redirect("/login/sent"));
        }
        LoginPost::Respond(_) => panic!("an anonymous visitor gets a link"),
    }
    let req = login::LoginLinkRequest { link_id: "L".to_string(), email: "e".to_string() };
    assert_eq!(req.complete(Err("Io(boom)".to_string())), redirect("/login/sent?error=\"Io(boom)\""));
}

#[test]
fn sent_page() {
    let anon = Auth::new(SessionLookup::NoCookie);
    assert_eq!(
        login::sent::handler(&anon, true, SendResult { error: None }),
        page("Seeable - Login Link Sent", Page::Sent(Sent { maybe_error: String::new() }), true)
    );
    assert_eq!(
        login::sent::handler(&anon, false, SendResult { error: Some("\"x\"".to_string()) }),
        page("Seeable - Login Link Sent", Page::Sent(Sent { maybe_error: "\"x\"".to_string() }), false)
    );
    assert_eq!(login::sent::handler(&user_auth(), false, SendResult { error: None }), redirect("/app"));
}

#[test]
fn link_flow_signs_in() {
    let s = login::link::handler("link-1".to_string());
    let (s, a) = s.step(LinkEvent::Authenticated(Auth::new(SessionLookup::NoCookie)));
    assert_eq!(a, LinkAction::FetchLink { link_id: "link-1".to_string() });
    let (s, a) = s.step(LinkEvent::LinkFetched(Ok(LoginLink { email: "a@b.c".to_string() })));
    match &a {
        LinkAction::CreateUser { user_id, email } => {
            assert!(is_id(user_id));
            assert_eq!(email, "a@b.c");
        }
        other => panic!("unexpected {:?}", other),
    }
    let (s, a) = s.step(LinkEvent::UserCreated);
    assert_eq!(a, LinkAction::FetchUser { email: "a@b.c".to_string() });
    let (s, a) = s.step(LinkEvent::UserFetched(Ok(User { id: "u9".to_string() })));
    let session_id = match a {
        LinkAction::StoreSession { session_id, user_id } => {
            assert_eq!(user_id, "u9");
            assert!(is_id(&session_id));
            session_id
        }
        other => panic!("unexpected {:?}", other),
    };
    let (s, a) = s.step(LinkEvent::SessionStored(Ok(())));
    assert!(matches!(s, LinkState::Finished));
    assert_eq!(
        a,
        LinkAction::Respond(Response::RedirectWithCookie {
            cookie: CookieChange::Add(SessionCookie {
                name: "seeable-session-id".to_string(),
                value: session_id,
                http_only: true,
                secure: true,
                path: "/".to_string(),
            }),
            to: "/app".to_string(),
        })
    );
}

#[test]
fn link_flow_failures() {
    let s = login::link::handler("x".to_string());
    let (s, a) = s.step(LinkEvent::Authenticated(user_auth()));
    assert!(matches!(s, LinkState::Finished));
    assert_eq!(a, LinkAction::Respond(redirect("/app")));

    let s = login::link::handler("x".to_string());
    let (s, _) = s.step(LinkEvent::Authenticated(Auth::new(SessionLookup::NoCookie)));
    let (s, a) = s.step(LinkEvent::LinkFetched(Err("RowNotFound".to_string())));
    assert!(matches!(s, LinkState::Finished));
    assert_eq!(a, LinkAction::Respond(link_error()));

    let s = login::link::handler("x".to_string());
    let (s, _) = s.step(LinkEvent::Authenticated(Auth::new(SessionLookup::NoCookie)));
    let (s, _) = s.step(LinkEvent::LinkFetched(Ok(LoginLink { email: "e".to_string() })));
    let (s, _) = s.step(LinkEvent::UserCreated);
    let (s, a) = s.step(LinkEvent::UserFetched(Err("RowNotFound".to_string())));
    assert!(matches!(s, LinkState::Finished));
    assert_eq!(a, LinkAction::Respond(link_error()));

    let s = login::link::handler("x".to_string());
    let (s, _) = s.step(LinkEvent::Authenticated(Auth::new(SessionLookup::NoCookie)));
    let (s, _) = s.step(LinkEvent::LinkFetched(Ok(LoginLink { email: "e".to_string() })));
    let (s, _) = s.step(LinkEvent::UserCreated);
    let (s, _) = s.step(LinkEvent::UserFetched(Ok(User { id: "u".to_string() })));
    let (_, a) = s.step(LinkEvent::SessionStored(Err("insert failed".to_string())));
    assert_eq!(a, LinkAction::Respond(link_error()));
}
