use vstd::prelude::*;
use crate::common::text::owned;
use crate::ui::html::Html;
use crate::ui::response::{Page, PageView, Response, ResponseView, page};

verus! {

/// The content of the test page.
#[derive(Debug, PartialEq, Eq)]
pub struct Test {
    pub test_content: String,
}

/// What `/test` answers.
pub open spec fn test_answer(boosted: bool) -> ResponseView {
    page("this is test title"@, PageView::Test { test_content: "this is test XXX content"@ }, boosted)
}

/// `GET /test`: the test page, for everyone.
pub fn handler(boosted: bool) -> (r: Response)
    ensures
        r@ == test_answer(boosted),
{
    Html::render_with_content(
        "this is test title",
        Page::Test(Test { test_content: owned("this is test XXX content") }),
        boosted,
    )
}

} // verus!
