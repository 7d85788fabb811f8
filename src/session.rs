//! The endpoint that a fresh session starts from.

use vstd::prelude::*;

verus! {

/// `s` with every `/` at its end removed.
pub open spec fn without_trailing_slashes(s: Seq<char>) -> Seq<char>
    decreases s.len(),
{
    if s.len() > 0 && s.last() == '/' {
        without_trailing_slashes(s.drop_last())
    } else {
        s
    }
}

/// An endpoint as a session stores it: it does not end in `/`.
pub open spec fn is_session_endpoint(s: Seq<char>) -> bool {
    s.len() == 0 || s.last() != '/'
}

/// The endpoint of a session created from the service URL `service`, used when
/// no stored session can be loaded: the URL with any trailing `/` stripped.
pub fn fallback_endpoint(service: &str) -> (r: String)
    ensures
        r@ == without_trailing_slashes(service@),
        is_session_endpoint(r@),
{
    let mut end = service.unicode_len();
    assert(service@.subrange(0, end as int) =~= service@);
    while end > 0 && service.get_char(end - 1) == '/'
        invariant
            end <= service@.len(),
            without_trailing_slashes(service@.subrange(0, end as int)) == without_trailing_slashes(
                service@,
            ),
        decreases end,
    {
        assert(service@.subrange(0, end - 1) =~= service@.subrange(0, end as int).drop_last());
        end -= 1;
    }
    proof {
        endpoint_form_is_stable(service@);
    }
    String::from_str(service.substring_char(0, end))
}

/// Stripping leaves an endpoint that ends in no `/`; stripping it again, as a
/// stored session is read back and used, changes nothing; and a service URL
/// gives the same endpoint whether or not it carries a trailing `/`.
pub proof fn endpoint_form_is_stable(service: Seq<char>)
    ensures
        is_session_endpoint(without_trailing_slashes(service)),
        without_trailing_slashes(without_trailing_slashes(service)) == without_trailing_slashes(
            service,
        ),
        without_trailing_slashes(service.push('/')) == without_trailing_slashes(service),
    decreases service.len(),
{
    assert(service.push('/').drop_last() =~= service);
    if service.len() > 0 && service.last() == '/' {
        endpoint_form_is_stable(service.drop_last());
    }
}

} // verus!
