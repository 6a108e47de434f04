use vstd::prelude::*;
use crate::common::auth::{Auth, IdentityView};
use crate::ui::html::Html;
use crate::ui::response::{Page, PageView, Response, ResponseView, page, redirect_to};

verus! {

/// The content of the application page.
#[derive(Debug, PartialEq, Eq)]
pub struct App {}

/// What `/app` answers: the login page for an anonymous visitor, else the
/// application page.
pub open spec fn app_answer(identity: IdentityView, boosted: bool) -> ResponseView {
    if identity is Anonymous {
        redirect_to("/login"@)
    } else {
        page("this is root title"@, PageView::App, boosted)
    }
}

/// `GET /app`.
pub fn handler(boosted: bool, auth: &Auth) -> (r: Response)
    ensures
        r@ == app_answer(auth@, boosted),
{
    if auth.is_anonymous() {
        return auth.ger_redirect_unauthorized();
    }
    Html::render_with_content("this is root title", Page::App(App {}), boosted)
}

} // verus!
