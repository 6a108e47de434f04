use vstd::prelude::*;
use crate::common::text::owned;
use crate::ui::response::{Page, Response, ResponseView, page, STATUS_OK, STATUS_INTERNAL_SERVER_ERROR};

verus! {

/// How much of the page a response carries.
#[derive(PartialEq, Eq, Structural, Clone, Copy, Debug)]
pub enum Layout {
    /// Only the body, for a request that htmx boosts.
    Body,
    /// The whole HTML document around the body.
    Document,
}

/// The page frame around a handler's content.
pub struct Html {}

impl Html {
    /// A page with `title` around `content`, rendered whole or, for a boosted
    /// request, as its body only.
    pub fn render_with_content(title: &str, content: Page, boosted: bool) -> (r: Response)
        ensures
            r@ == page(title@, content@, boosted),
    {
        Response::Page { title: owned(title), content, boosted }
    }

    /// The template a page request renders.
    pub fn layout(boosted: bool) -> (r: Layout)
        ensures
            r == (if boosted { Layout::Body } else { Layout::Document }),
    {
        if boosted {
            Layout::Body
        } else {
            Layout::Document
        }
    }

    /// The answer once the template has rendered: the HTML with `200`, or the
    /// rendering error's text with `500`.
    pub fn respond(rendered: Result<String, String>) -> (r: Response)
        ensures
            r@ == match rendered {
                Ok(v) => ResponseView::Html { status: STATUS_OK, body: v@ },
                Err(e) => ResponseView::Text { status: STATUS_INTERNAL_SERVER_ERROR, body: e@ },
            },
    {
        match rendered {
            Err(e) => Response::Text { status: STATUS_INTERNAL_SERVER_ERROR, body: e },
            Ok(v) => Response::Html { status: STATUS_OK, body: v },
        }
    }
}

} // verus!
