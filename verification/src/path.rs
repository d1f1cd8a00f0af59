//! Parsing of `s3://container[/key-or-prefix]` path strings into a
//! container name and a key (or key prefix). The container name is the part
//! between the scheme and the first `/`; everything after that `/` is the
//! key, which defaults to empty when absent. A string without the scheme,
//! or with an empty container name, is malformed.

use vstd::prelude::*;

verus! {

/// A parsed object path: a container (bucket) and a key or key prefix. The
/// key may be empty, which selects the entire container.
pub struct S3Path {
    pub bucket: String,
    pub key: String,
}

impl S3Path {
    /// A parsed path always names its container.
    pub open spec fn wf(self) -> bool {
        self.bucket@.len() > 0
    }
}

/// The one error parsing can raise: the string is not of the form
/// `s3://container[/key]`.
#[derive(Debug, PartialEq, Eq, Structural)]
pub struct PathParseError;

/// The five characters every object path starts with.
pub open spec fn scheme() -> Seq<char> {
    seq!['s', '3', ':', '/', '/']
}

pub open spec fn has_scheme(s: Seq<char>) -> bool {
    s.len() >= 5 && s.subrange(0, 5) == scheme()
}

/// What follows the scheme.
pub open spec fn rest_of(s: Seq<char>) -> Seq<char> {
    s.subrange(5, s.len() as int)
}

/// The index of the first `/` in `s`, or `s.len()` when there is none.
pub open spec fn first_slash(s: Seq<char>) -> int
    decreases s.len(),
{
    if s.len() == 0 {
        0
    } else if s[0] == '/' {
        0
    } else {
        1 + first_slash(s.subrange(1, s.len() as int))
    }
}

/// A path string is well formed when the scheme is there and a non-empty
/// container name follows it.
pub open spec fn valid_path(s: Seq<char>) -> bool {
    has_scheme(s) && rest_of(s).len() > 0 && rest_of(s)[0] != '/'
}

/// The container name: what stands between the scheme and the first `/`.
pub open spec fn bucket_of(s: Seq<char>) -> Seq<char> {
    rest_of(s).subrange(0, first_slash(rest_of(s)))
}

/// The key: what follows the first `/` after the scheme, or empty when
/// there is no such `/`.
pub open spec fn key_of(s: Seq<char>) -> Seq<char> {
    if first_slash(rest_of(s)) < rest_of(s).len() {
        rest_of(s).subrange(first_slash(rest_of(s)) + 1, rest_of(s).len() as int)
    } else {
        Seq::empty()
    }
}

/// A position with no `/` before it that either holds a `/` or is the end
/// of the sequence is exactly `first_slash`.
proof fn lemma_first_slash_at(s: Seq<char>, i: int)
    requires
        0 <= i <= s.len(),
        forall|j: int| 0 <= j < i ==> s[j] != '/',
        i < s.len() ==> s[i] == '/',
    ensures
        first_slash(s) == i,
    decreases i,
{
    if i == 0 {
    } else {
        let tail = s.subrange(1, s.len() as int);
        assert forall|j: int| 0 <= j < i - 1 implies tail[j] != '/' by {
            assert(tail[j] == s[j + 1]);
        }
        assert(i - 1 < tail.len() ==> tail[i - 1] == s[i]);
        lemma_first_slash_at(tail, i - 1);
    }
}

impl S3Path {
    /// Parses `s3://container[/key]`. The key defaults to empty when the
    /// path stops at the container. Malformed strings are rejected: no
    /// scheme, nothing after the scheme, or a `/` right after the scheme.
    pub fn from_str(s: &str) -> (r: Result<S3Path, PathParseError>)
        ensures
            match r {
                Ok(p) => valid_path(s@) && p.wf() && p.bucket@ == bucket_of(s@) && p.key@
                    == key_of(s@),
                Err(_) => !valid_path(s@),
            },
    {
        let n = s.unicode_len();
        if n < 5 {
            return Err(PathParseError);
        }
        if s.get_char(0) != 's' || s.get_char(1) != '3' || s.get_char(2) != ':' || s.get_char(3)
            != '/' || s.get_char(4) != '/' {
            proof {
                assert(s@.subrange(0, 5)[0] == s@[0]);
                assert(s@.subrange(0, 5)[1] == s@[1]);
                assert(s@.subrange(0, 5)[2] == s@[2]);
                assert(s@.subrange(0, 5)[3] == s@[3]);
                assert(s@.subrange(0, 5)[4] == s@[4]);
            }
            return Err(PathParseError);
        }
        proof {
            assert(s@.subrange(0, 5) =~= scheme());
        }
        if n == 5 {
            return Err(PathParseError);
        }
        if s.get_char(5) == '/' {
            proof {
                assert(rest_of(s@)[0] == s@[5]);
            }
            return Err(PathParseError);
        }
        let mut i: usize = 5;
        while i < n && s.get_char(i) != '/'
            invariant
                5 <= i <= n,
                n == s@.len(),
                forall|j: int| 5 <= j < i ==> s@[j] != '/',
            decreases n - i,
        {
            i = i + 1;
        }
        proof {
            let rest = rest_of(s@);
            assert forall|j: int| 0 <= j < i - 5 implies rest[j] != '/' by {
                assert(rest[j] == s@[j + 5]);
            }
            assert(i - 5 < rest.len() ==> rest[i - 5] == s@[i as int]);
            lemma_first_slash_at(rest, i - 5);
            assert(rest[0] == s@[5]);
        }
        let bucket = s.substring_char(5, i).to_owned();
        proof {
            assert(bucket@ =~= bucket_of(s@));
        }
        let key = if i < n {
            s.substring_char(i + 1, n).to_owned()
        } else {
            String::new()
        };
        proof {
            assert(key@ =~= key_of(s@));
        }
        Ok(S3Path { bucket, key })
    }
}

} // verus!
