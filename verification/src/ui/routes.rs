pub mod app;
pub mod login;
pub mod logout;
pub mod test;

use vstd::prelude::*;
use crate::common::text::owned;
use crate::ui::html::Html;
use crate::common::auth::IdentityView;
use crate::ui::response::{Page, PageView, Response, ResponseView, page, redirect_to};
use crate::ui::routes::app::app_answer;
use crate::ui::routes::login::login_answer;
use crate::ui::routes::login::link::{LinkActionView, LinkEventView, LinkStateView, link_step};
use crate::ui::routes::login::sent::sent_answer;

verus! {

/// The content of the root page.
#[derive(Debug, PartialEq, Eq)]
pub struct Root {
    pub root_content: String,
}

/// What `/` answers.
pub open spec fn root_answer(boosted: bool) -> ResponseView {
    page("this is root title"@, PageView::Root { root_content: "this is dynamics root content"@ }, boosted)
}

/// `GET /`: the root page, for everyone.
pub fn handler(boosted: bool) -> (r: Response)
    ensures
        r@ == root_answer(boosted),
{
    Html::render_with_content(
        "this is root title",
        Page::Root(Root { root_content: owned("this is dynamics root content") }),
        boosted,
    )
}


/// Exactly one of `/app` and `/login` shows its page: the application page to
/// a signed-in user, the login page to anyone else.
pub proof fn lemma_app_or_login_page(identity: IdentityView, boosted: bool)
    ensures
        (app_answer(identity, boosted) is Page) <==> !(identity is Anonymous),
        (login_answer(identity, boosted) is Page) <==> (identity is Anonymous),
{
}

/// Every page for signing in sends a signed-in user to the application:
/// `/login`, `/login/sent` and the login link.
pub proof fn lemma_signed_in_sent_to_app(
    identity: IdentityView,
    boosted: bool,
    error: Option<Seq<char>>,
    link_id: Seq<char>,
    next: LinkStateView,
    action: LinkActionView,
)
    requires
        !(identity is Anonymous),
        link_step(LinkStateView::Start { link_id }, LinkEventView::Authenticated(identity), next, action),
    ensures
        login_answer(identity, boosted) == redirect_to("/app"@),
        sent_answer(identity, boosted, error) == redirect_to("/app"@),
        action == LinkActionView::Respond(redirect_to("/app"@)),
        next == LinkStateView::Finished,
{
}

} // verus!
