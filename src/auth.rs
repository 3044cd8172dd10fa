use vstd::prelude::*;
use vstd::string::*;
use crate::errors::AuthError;

verus! {

pub open spec fn bearer_prefix() -> Seq<char> {
    "Bearer "@
}

/// The token of an `Authorization` header of the form `Bearer <token>`.
/// A missing header is `MissingAuthHeader`; any other form is
/// `InvalidAuthHeader`.
pub fn bearer_token(header: Option<&str>) -> (r: Result<String, AuthError>)
    ensures
        header is None ==> r matches Err(AuthError::MissingAuthHeader),
        header matches Some(h) ==> {
            let p = bearer_prefix();
            if h@.len() >= p.len() && h@.subrange(0, p.len() as int) == p {
                r matches Ok(t) && t@ == h@.subrange(p.len() as int, h@.len() as int)
            } else {
                r matches Err(AuthError::InvalidAuthHeader)
            }
        },
{
    proof {
        reveal_strlit("Bearer ");
    }
    match header {
        None => Err(AuthError::MissingAuthHeader),
        Some(h) => {
            let n = h.unicode_len();
            if n >= 7 {
                let head = String::from_str(h.substring_char(0, 7));
                if head == String::from_str("Bearer ") {
                    return Ok(String::from_str(h.substring_char(7, n)));
                }
            }
            Err(AuthError::InvalidAuthHeader)
        },
    }
}

} // verus!
