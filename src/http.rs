//! Fixed addresses of the source service.
use vstd::prelude::*;

verus! {

/// The address where an operator grants the application offline access.
pub fn dropbox_authorization_code_url() -> (url: String)
    ensures
        url@ == "https://www.dropbox.com/oauth2/authorize?client_id=5mmsu1p6otobzgk&token_access_type=offline&response_type=code"@,
{
    String::from_str(
        "https://www.dropbox.com/oauth2/authorize?client_id=5mmsu1p6otobzgk&token_access_type=offline&response_type=code",
    )
}

} // verus!
