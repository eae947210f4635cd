use vstd::prelude::*;

verus! {

/// Decides whether a credential read directly from the environment is
/// usable. An unset variable or an empty value is not, and the caller must
/// fall back to reading the token from a file.
pub fn token_from_direct(direct: Option<String>) -> (r: Option<String>)
    ensures
        r is Some <==> (direct matches Some(t) && t@.len() > 0),
        r matches Some(t) ==> direct matches Some(d) && t@ == d@,
{
    match direct {
        Some(t) => {
            if t.as_str().is_empty() {
                None
            } else {
                Some(t)
            }
        },
        None => None,
    }
}

} // verus!
