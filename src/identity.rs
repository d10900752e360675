use vstd::prelude::*;
use vstd::string::*;
use crate::sensor::{content_view, ReadError};
use crate::text::{trim_end, trimmed_len};

verus! {

/// The characters of `t` before its first `.` (all of `t` when it has none).
pub open spec fn first_segment(t: Seq<char>) -> Seq<char>
    decreases t.len(),
{
    if t.len() == 0 || t[0] == '.' {
        Seq::empty()
    } else {
        seq![t[0]] + first_segment(t.drop_first())
    }
}

/// What resolving the host identity gives for the hostname file's content.
pub open spec fn identity_result(content: Option<Seq<char>>) -> Result<Seq<char>, ReadError> {
    match content {
        None => Err(ReadError::IoFailure),
        Some(t) => if trim_end(t).len() == 0 {
            Err(ReadError::FormatFailure)
        } else {
            Ok(first_segment(trim_end(t)))
        },
    }
}

/// The publish topic for a host identity.
pub open spec fn topic_of(identity: Seq<char>) -> Seq<char> {
    "cluster/"@ + identity + "/cpu_temp"@
}

/// The short host name from the hostname file's content (`None` if unreadable):
/// trailing white space is dropped and the part before the first `.` is kept.
pub fn resolve_identity(content: Option<&str>) -> (r: Result<String, ReadError>)
    ensures
        match r {
            Ok(s) => identity_result(content_view(content)) == Ok::<Seq<char>, ReadError>(s@),
            Err(e) => identity_result(content_view(content)) == Err::<Seq<char>, ReadError>(e),
        },
{
    match content {
        None => Err(ReadError::IoFailure),
        Some(text) => {
            let n = trimmed_len(text);
            if n == 0 {
                return Err(ReadError::FormatFailure);
            }
            let ghost t = text@.subrange(0, n as int);
            let mut i: usize = 0;
            proof {
                assert(t.subrange(0, n as int) =~= t);
                assert(t.subrange(0, 0) + t =~= t);
            }
            while i < n && text.get_char(i) != '.'
                invariant
                    i <= n <= text@.len(),
                    t == text@.subrange(0, n as int),
                    first_segment(t) == t.subrange(0, i as int) + first_segment(
                        t.subrange(i as int, n as int),
                    ),
                decreases n - i,
            {
                proof {
                    let rest = t.subrange(i as int, n as int);
                    assert(rest[0] == t[i as int]);
                    assert(rest.drop_first() =~= t.subrange(i + 1, n as int));
                    assert(t.subrange(0, i as int) + seq![t[i as int]] =~= t.subrange(0, i + 1));
                    assert(t.subrange(0, i as int) + first_segment(rest) =~= t.subrange(0, i + 1)
                        + first_segment(t.subrange(i + 1, n as int)));
                }
                i = i + 1;
            }
            proof {
                let rest = t.subrange(i as int, n as int);
                if i < n {
                    assert(rest[0] == t[i as int]);
                }
                assert(first_segment(rest) =~= Seq::<char>::empty());
                assert(first_segment(t) =~= t.subrange(0, i as int));
            }
            let r = String::from_str(text.substring_char(0, i));
            proof {
                assert(r@ =~= t.subrange(0, i as int));
                assert(trim_end(text@) == t);
                assert(content_view(content) == Some(text@));
                assert(identity_result(content_view(content)) == Ok::<Seq<char>, ReadError>(r@));
            }
            Ok(r)
        },
    }
}

/// The identity in use: the resolved one, or `fallback` when resolving failed.
pub fn identity_or(resolved: Result<String, ReadError>, fallback: &str) -> (r: String)
    ensures
        match resolved {
            Ok(s) => r@ == s@,
            Err(_) => r@ == fallback@,
        },
{
    match resolved {
        Ok(s) => s,
        Err(_) => String::from_str(fallback),
    }
}

/// The topic that readings of this host are published under.
pub fn topic_for(identity: &str) -> (r: String)
    ensures
        r@ == topic_of(identity@),
{
    String::from_str("cluster/").concat(identity).concat("/cpu_temp")
}

} // verus!
