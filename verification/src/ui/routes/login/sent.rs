use vstd::prelude::*;
use crate::common::auth::{Auth, IdentityView};
use crate::common::text::owned;
use crate::ui::html::Html;
use crate::ui::response::{Page, PageView, Response, ResponseView, page, redirect_to};

verus! {

/// The content of the page that confirms a login link was sent.
#[derive(Debug, PartialEq, Eq)]
pub struct Sent {
    pub maybe_error: String,
}

/// The query of `/login/sent`: the error of storing the link, if any.
#[derive(Debug, PartialEq, Eq)]
pub struct SendResult {
    pub error: Option<String>,
}

/// What `/login/sent` answers: a signed-in user goes to the application,
/// anyone else gets the page, with the error or an empty text.
pub open spec fn sent_answer(identity: IdentityView, boosted: bool, error: Option<Seq<char>>) -> ResponseView {
    if identity is Anonymous {
        page(
            "Seeable - Login Link Sent"@,
            PageView::Sent {
                maybe_error: match error {
                    Some(e) => e,
                    None => Seq::empty(),
                },
            },
            boosted,
        )
    } else {
        redirect_to("/app"@)
    }
}

/// `GET /login/sent`.
pub fn handler(auth: &Auth, boosted: bool, send_result: SendResult) -> (r: Response)
    ensures
        r@ == sent_answer(
            auth@,
            boosted,
            match send_result.error {
                Some(e) => Some(e@),
                None => None,
            },
        ),
{
    if !auth.is_anonymous() {
        return auth.get_redirect_authorized();
    }
    let maybe_error = match send_result.error {
        Some(e) => e,
        None => owned(""),
    };
    proof {
        reveal_strlit("");
        assert(""@ =~= Seq::<char>::empty());
    }
    Html::render_with_content("Seeable - Login Link Sent", Page::Sent(Sent { maybe_error }), boosted)
}

} // verus!
