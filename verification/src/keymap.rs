//! Derivation of destination keys. A source object's key is taken relative
//! to the source prefix (the prefix is stripped, then one leading `/` is
//! dropped) and joined to the destination prefix with exactly one `/`, after
//! the destination prefix loses its trailing slashes. No other normalization
//! happens: repeated slashes inside a key are kept as they are.

use vstd::prelude::*;

verus! {

/// `prefix` removed from the front of `key` when it is an exact prefix of
/// it; otherwise `key` unchanged.
pub open spec fn strip_prefix(key: Seq<char>, prefix: Seq<char>) -> Seq<char> {
    if prefix.len() <= key.len() && key.subrange(0, prefix.len() as int) == prefix {
        key.subrange(prefix.len() as int, key.len() as int)
    } else {
        key
    }
}

/// A single leading `/` removed, when present.
pub open spec fn trim_leading_slash(s: Seq<char>) -> Seq<char> {
    if s.len() > 0 && s[0] == '/' {
        s.subrange(1, s.len() as int)
    } else {
        s
    }
}

/// Every trailing `/` removed.
pub open spec fn trim_trailing_slash(s: Seq<char>) -> Seq<char>
    decreases s.len(),
{
    if s.len() > 0 && s[s.len() - 1] == '/' {
        trim_trailing_slash(s.subrange(0, s.len() - 1))
    } else {
        s
    }
}

/// An object's key relative to the source prefix.
pub open spec fn relative_key(source_prefix: Seq<char>, source_key: Seq<char>) -> Seq<char> {
    trim_leading_slash(strip_prefix(source_key, source_prefix))
}

/// Where an object lands: the trimmed destination prefix, one `/`, then the
/// relative key.
pub open spec fn destination_key(destination_prefix: Seq<char>, relative: Seq<char>) -> Seq<char> {
    trim_trailing_slash(destination_prefix) + seq!['/'] + relative
}

/// True exactly when `prefix` is a prefix of `key`.
pub fn is_prefix_of(prefix: &str, key: &str) -> (r: bool)
    ensures
        r == (prefix@.len() <= key@.len() && key@.subrange(0, prefix@.len() as int) == prefix@),
{
    let plen = prefix.unicode_len();
    let klen = key.unicode_len();
    if plen > klen {
        return false;
    }
    let mut i: usize = 0;
    while i < plen
        invariant
            i <= plen,
            plen == prefix@.len(),
            klen == key@.len(),
            plen <= klen,
            forall|j: int| 0 <= j < i ==> key@[j] == prefix@[j],
        decreases plen - i,
    {
        if key.get_char(i) != prefix.get_char(i) {
            proof {
                assert(key@.subrange(0, plen as int)[i as int] == key@[i as int]);
            }
            return false;
        }
        i = i + 1;
    }
    proof {
        assert(key@.subrange(0, plen as int) =~= prefix@);
    }
    true
}

/// The relative key of one source object, as `relative_key` states it.
pub fn relative_key_of(source_prefix: &str, source_key: &str) -> (r: String)
    ensures
        r@ == relative_key(source_prefix@, source_key@),
{
    let stripped: String = if is_prefix_of(source_prefix, source_key) {
        let n = source_key.unicode_len();
        let p = source_prefix.unicode_len();
        source_key.substring_char(p, n).to_owned()
    } else {
        source_key.to_owned()
    };
    let slen = stripped.as_str().unicode_len();
    if slen > 0 && stripped.as_str().get_char(0) == '/' {
        stripped.as_str().substring_char(1, slen).to_owned()
    } else {
        stripped
    }
}

/// The destination prefix with every trailing `/` removed, as
/// `trim_trailing_slash` states it.
pub fn trim_trailing_slashes(s: &str) -> (r: String)
    ensures
        r@ == trim_trailing_slash(s@),
{
    let n = s.unicode_len();
    proof {
        assert(s@.subrange(0, n as int) =~= s@);
    }
    let mut end: usize = n;
    while end > 0 && s.get_char(end - 1) == '/'
        invariant
            end <= n,
            n == s@.len(),
            trim_trailing_slash(s@) == trim_trailing_slash(s@.subrange(0, end as int)),
        decreases end,
    {
        proof {
            assert(s@.subrange(0, end as int).subrange(0, end - 1) =~= s@.subrange(
                0,
                end - 1,
            ));
        }
        end = end - 1;
    }
    proof {
        if end > 0 {
            assert(s@.subrange(0, end as int)[end - 1] == s@[end - 1]);
        }
        assert(trim_trailing_slash(s@.subrange(0, end as int)) == s@.subrange(0, end as int));
    }
    s.substring_char(0, end).to_owned()
}

/// The key mapping rule in one step: the relative key of the source object,
/// and the destination key it is copied to.
pub fn map_key(source_prefix: &str, destination_prefix: &str, source_key: &str) -> (r: (
    String,
    String,
))
    ensures
        r.0@ == relative_key(source_prefix@, source_key@),
        r.1@ == destination_key(destination_prefix@, r.0@),
{
    let relative = relative_key_of(source_prefix, source_key);
    let trimmed = trim_trailing_slashes(destination_prefix);
    let joined = trimmed.concat("/").concat(relative.as_str());
    proof {
        reveal_strlit("/");
        assert("/"@ =~= seq!['/']);
        assert(joined@ =~= destination_key(destination_prefix@, relative@));
    }
    (relative, joined)
}

/// With an empty source prefix every object keeps its whole key: it lands
/// under the trimmed destination prefix, one `/`, then its full original
/// key. Keys that themselves begin with `/` are left out: the mapping drops
/// that single leading slash.
pub proof fn lemma_empty_prefix(destination_prefix: Seq<char>, source_key: Seq<char>)
    requires
        !(source_key.len() > 0 && source_key[0] == '/'),
    ensures
        relative_key(Seq::<char>::empty(), source_key) == source_key,
        destination_key(destination_prefix, relative_key(Seq::<char>::empty(), source_key))
            == trim_trailing_slash(destination_prefix) + seq!['/'] + source_key,
{
    assert(source_key.subrange(0, 0) =~= Seq::<char>::empty());
    assert(strip_prefix(source_key, Seq::<char>::empty()) =~= source_key);
}

} // verus!
