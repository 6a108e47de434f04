pub mod link;
pub mod sent;

use vstd::prelude::*;
use crate::common::auth::{Auth, IdentityView};
use crate::common::ids::{is_generated_id, random_id};
use crate::common::text::owned;
use crate::ui::html::Html;
use crate::ui::response::{Page, PageView, Response, ResponseView, page, redirect_to};

verus! {

/// The content of the login page.
#[derive(Debug, PartialEq, Eq)]
pub struct Login {}

/// The login form: the address to send a login link to.
#[derive(Debug, PartialEq, Eq)]
pub struct LoginFormData {
    pub email: String,
}

/// What `GET /login` answers: a signed-in user goes to the application,
/// anyone else gets the login page.
pub open spec fn login_answer(identity: IdentityView, boosted: bool) -> ResponseView {
    if identity is Anonymous {
        page("Seeable - Login"@, PageView::Login, boosted)
    } else {
        redirect_to("/app"@)
    }
}

/// `GET /login`.
pub fn handler_get(boosted: bool, auth: &Auth) -> (r: Response)
    ensures
        r@ == login_answer(auth@, boosted),
{
    if !auth.is_anonymous() {
        return auth.get_redirect_authorized();
    }
    Html::render_with_content("Seeable - Login", Page::Login(Login {}), boosted)
}

/// A login link to store: its id, drawn at random, and the address it signs in.
pub struct LoginLinkRequest {
    pub link_id: String,
    pub email: String,
}

/// What `POST /login` does first.
pub enum LoginPost {
    /// Answer at once.
    Respond(Response),
    /// Store this login link (valid for ten minutes), then answer with
    /// `LoginLinkRequest::complete`.
    CreateLink(LoginLinkRequest),
}

/// The address a login link is visited at.
pub open spec fn login_link_url(link_id: Seq<char>) -> Seq<char> {
    "http://localhost:3000/login/link/"@ + link_id
}

/// Where `POST /login` sends the visitor once storing the link is done.
pub open spec fn login_post_answer(stored: Result<(), Seq<char>>) -> ResponseView {
    match stored {
        Ok(_) => redirect_to("/login/sent"@),
        Err(e) => redirect_to("/login/sent?error=\""@ + e + "\""@),
    }
}

/// `POST /login`: a signed-in user goes to the application; for anyone else a
/// fresh login link for the form's address is to be stored.
pub fn handler_post(auth: &Auth, login: LoginFormData) -> (r: LoginPost)
    ensures
        !(auth@ is Anonymous) ==> (r matches LoginPost::Respond(resp) && resp@ == redirect_to(
            "/app"@,
        )),
        auth@ is Anonymous ==> (r matches LoginPost::CreateLink(req) && is_generated_id(req.link_id@)
            && req.email@ == login.email@),
{
    if !auth.is_anonymous() {
        return LoginPost::Respond(auth.get_redirect_authorized());
    }
    LoginPost::CreateLink(LoginLinkRequest { link_id: random_id(), email: login.email })
}

impl LoginLinkRequest {
    /// The address of the link, as it is printed for the developer.
    pub fn url(&self) -> (r: String)
        ensures
            r@ == login_link_url(self.link_id@),
    {
        let mut url = owned("http://localhost:3000/login/link/");
        url.append(self.link_id.as_str());
        url
    }

    /// The answer once storing the link is done. `stored` carries, on failure,
    /// the error's debug text, which is put in the query string as it is.
    pub fn complete(self, stored: Result<(), String>) -> (r: Response)
        ensures
            r@ == login_post_answer(
                match stored {
                    Ok(_) => Ok(()),
                    Err(e) => Err(e@),
                },
            ),
    {
        match stored {
            Ok(_) => Response::redirect("/login/sent"),
            Err(e) => {
                let mut to = owned("/login/sent?error=\"");
                to.append(e.as_str());
                to.append("\"");
                Response::Redirect { to }
            },
        }
    }
}

} // verus!
