use vstd::prelude::*;
use crate::common::auth::{Auth, SessionEnd, session_ended, session_to_delete};
use crate::common::text::opt_view;

verus! {

/// `GET /logout`: ends the caller's session, if any, and sends them to the login page.
pub fn handler(auth: Auth) -> (r: SessionEnd)
    ensures
        opt_view(r.delete_session_id) == session_to_delete(auth@),
        r.response@ == session_ended(),
{
    auth.destroy_session()
}

} // verus!
