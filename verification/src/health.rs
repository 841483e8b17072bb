//! The health endpoint.

use crate::response::{Response, ResponseView};
use vstd::prelude::*;

verus! {

/// Answers `GET /`: always `200` with the text `Hello World`. It takes no
/// configuration and no request, so neither can change the answer.
pub fn hello_world() -> (response: Response)
    ensures
        response@ == ResponseView::greeting(),
{
    Response::greeting()
}

} // verus!
