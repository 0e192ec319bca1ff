//! Authentication of WebSocket upgrades by a `token` query parameter.

use vstd::prelude::*;
use crate::text::{
    chars_eq, chars_of, find_char, first_index_of, lemma_first_index_of,
    lemma_split_on_without_separator, prefix_to, split_chars, split_on,
    string_of, suffix_from,
};
use crate::utils::tokens::{token_hash, Token};

verus! {

/// A `key=value` piece split at its first `=`; `None` when it has no `=`.
pub open spec fn query_pair(seg: Seq<char>) -> Option<(Seq<char>, Seq<char>)> {
    let k = first_index_of(seg, '=');
    if k < 0 {
        None
    } else {
        Some((seg.subrange(0, k), seg.subrange(k + 1, seg.len() as int)))
    }
}

/// The value of the last `token` piece with a non-empty value, or the empty
/// text when there is none.
pub open spec fn last_token(segs: Seq<Seq<char>>) -> Seq<char>
    decreases segs.len(),
{
    if segs.len() == 0 {
        Seq::empty()
    } else {
        let prev = last_token(segs.subrange(0, segs.len() - 1));
        match query_pair(segs[segs.len() - 1]) {
            Some((k, v)) => if k == "token"@ && v.len() > 0 {
                v
            } else {
                prev
            },
            None => prev,
        }
    }
}

/// The token a query string carries: the `&`-separated pieces are read in
/// order and the last `token=<non-empty>` wins.
pub open spec fn query_token(query: Seq<char>) -> Seq<char> {
    last_token(split_on(query, '&'))
}

/// Reads the token from the query string (`?token=...`).
pub fn token_from_query(query: &str) -> (r: String)
    ensures
        r@ == query_token(query@),
{
    let qc = chars_of(query);
    let segs = split_chars(qc.as_slice(), '&');
    let key = chars_of("token");
    let mut token: Vec<char> = Vec::new();
    let mut i: usize = 0;
    assert(split_on(query@, '&').subrange(0, 0) =~= Seq::<Seq<char>>::empty());
    while i < segs.len()
        invariant
            qc@ == query@,
            key@ == "token"@,
            segs@.len() == split_on(query@, '&').len(),
            forall|k: int| 0 <= k < segs@.len() ==> (#[trigger] segs@[k])@ == split_on(query@, '&')[k],
            i <= segs@.len(),
            token@ == last_token(split_on(query@, '&').subrange(0, i as int)),
        decreases segs@.len() - i,
    {
        let ghost all = split_on(query@, '&');
        let ghost post = all.subrange(0, i + 1);
        assert(post.subrange(0, post.len() - 1) =~= all.subrange(0, i as int));
        assert(post[post.len() - 1] == all[i as int]);
        let seg = &segs[i];
        assert(seg@ == all[i as int]);
        match find_char(seg.as_slice(), '=') {
            Some(k) => {
                let seg_len = seg.len();
                assert(k < seg_len);
                let name = prefix_to(seg.as_slice(), k);
                let value = suffix_from(seg.as_slice(), k + 1);
                if chars_eq(name.as_slice(), key.as_slice()) && value.len() > 0 {
                    token = value;
                }
            },
            None => {},
        }
        i = i + 1;
    }
    assert(split_on(query@, '&').subrange(0, segs@.len() as int) =~= split_on(query@, '&'));
    string_of(token.as_slice())
}

/// The first `c` in `s`, when there is one, is at an index of `s` that
/// holds `c`.
proof fn lemma_first_index_holds(s: Seq<char>, c: char)
    ensures
        first_index_of(s, c) >= 0 ==> first_index_of(s, c) < s.len() && s[first_index_of(s, c)] == c,
        first_index_of(s, c) < 0 ==> forall|j: int| 0 <= j < s.len() ==> s[j] != c,
        forall|j: int| 0 <= j < first_index_of(s, c) ==> s[j] != c,
    decreases s.len(),
{
    if s.len() > 0 && s[0] != c {
        let t = s.subrange(1, s.len() as int);
        lemma_first_index_holds(t, c);
        assert forall|j: int| 0 <= j < s.len() && first_index_of(s, c) < 0 implies s[j] != c by {
            if j > 0 {
                assert(s[j] == t[j - 1]);
            }
        }
        if first_index_of(s, c) >= 0 {
            assert(s[first_index_of(s, c)] == t[first_index_of(t, c)]);
        }
        assert forall|j: int| 0 <= j < first_index_of(s, c) implies s[j] != c by {
            if j > 0 {
                assert(s[j] == t[j - 1]);
            }
        }
    }
}

/// Appending `&p` to a query adds the piece `p` at the end, when `p` has no
/// `&`.
proof fn lemma_split_append_piece(q: Seq<char>, p: Seq<char>)
    requires
        forall|i: int| 0 <= i < p.len() ==> p[i] != '&',
    ensures
        split_on(q.push('&') + p, '&') == split_on(q, '&').push(p),
    decreases p.len(),
{
    let s = q.push('&') + p;
    if p.len() == 0 {
        assert(p =~= Seq::<char>::empty());
        assert(s =~= q.push('&'));
        assert(s.subrange(0, s.len() - 1) =~= q);
        assert(s[s.len() - 1] == '&');
        assert(split_on(s, '&') == split_on(q, '&').push(Seq::<char>::empty()));
    } else {
        let p0 = p.subrange(0, p.len() - 1);
        let c = p[p.len() - 1];
        lemma_split_append_piece(q, p0);
        assert(s.subrange(0, s.len() - 1) =~= q.push('&') + p0);
        assert(s[s.len() - 1] == c);
        assert(c != '&');
        let prev = split_on(q, '&').push(p0);
        assert(split_on(s, '&') == prev.update(prev.len() - 1, prev[prev.len() - 1].push(c)));
        assert(prev[prev.len() - 1] == p0);
        assert(p0.push(c) =~= p);
        assert(prev.update(prev.len() - 1, p) =~= split_on(q, '&').push(p));
    }
}

/// A piece that does not set the token leaves the token a query carries
/// unchanged: for a piece `p` without `&` that is not `token=` followed by
/// at least one character, the query `q&p` carries the token of `q`. In
/// particular a trailing `&`, or a piece without `=`, does not clear it.
pub proof fn lemma_other_piece_keeps_token(q: Seq<char>, p: Seq<char>)
    requires
        forall|i: int| 0 <= i < p.len() ==> p[i] != '&',
        !(p.len() > 6 && p.subrange(0, 6) == "token="@),
    ensures
        query_token(q.push('&') + p) == query_token(q),
{
    lemma_split_append_piece(q, p);
    let segs = split_on(q, '&').push(p);
    assert(segs.subrange(0, segs.len() - 1) =~= split_on(q, '&'));
    assert(segs[segs.len() - 1] == p);
    lemma_first_index_holds(p, '=');
    reveal_strlit("token");
    reveal_strlit("token=");
    let k = first_index_of(p, '=');
    if k >= 0 {
        let name = p.subrange(0, k);
        let value = p.subrange(k + 1, p.len() as int);
        if name == "token"@ && value.len() > 0 {
            assert(name.len() == k);
            assert("token"@.len() == 5);
            assert(k == 5);
            assert(p.subrange(0, 6) =~= "token="@) by {
                assert forall|j: int| 0 <= j < 5 implies p[j] == "token="@[j] by {
                    assert(p[j] == name[j]);
                }
            }
            assert(false);
        }
    }
}

/// A piece `token=<t>` with a non-empty `t` without `&` sets the token,
/// whatever came before it.
pub proof fn lemma_token_piece_sets_token(q: Seq<char>, t: Seq<char>)
    requires
        t.len() > 0,
        forall|i: int| 0 <= i < t.len() ==> t[i] != '&',
    ensures
        query_token(q.push('&') + ("token="@ + t)) == t,
{
    reveal_strlit("token");
    reveal_strlit("token=");
    let p = "token="@ + t;
    assert forall|i: int| 0 <= i < p.len() implies p[i] != '&' by {
        if i >= 6 {
            assert(p[i] == t[i - 6]);
        }
    }
    lemma_split_append_piece(q, p);
    let segs = split_on(q, '&').push(p);
    assert(segs[segs.len() - 1] == p);
    lemma_first_index_of(p, '=', 5);
    assert(p.subrange(0, 5) =~= "token"@);
    assert(p.subrange(6, p.len() as int) =~= t);
}

/// Why a WebSocket upgrade is refused.
#[derive(Debug, Clone, Copy, PartialEq, Eq)]
pub enum SocketAuthError {
    /// The database pool is not registered with the app.
    PoolNotFound,
    /// No user holds the token, or the lookup failed.
    InvalidToken,
}

impl SocketAuthError {
    /// 500 for the server's own failures, 401 for a refused token.
    pub fn status_code(&self) -> (r: u16)
        ensures
            r == (if *self == SocketAuthError::InvalidToken { 401u16 } else { 500u16 }),
    {
        match self {
            SocketAuthError::PoolNotFound => 500,
            SocketAuthError::InvalidToken => 401,
        }
    }

    /// The response text.
    pub fn message(&self) -> (r: &'static str)
        ensures
            *self == SocketAuthError::PoolNotFound ==> r@ == "database pool not found."@,
            *self == SocketAuthError::InvalidToken ==> r@ == "Invalid token"@,
    {
        match self {
            SocketAuthError::PoolNotFound => "database pool not found.",
            SocketAuthError::InvalidToken => "Invalid token",
        }
    }
}

/// The key under which the query token is looked up: the SHA-256 digest
/// of the token, as bytes, which is the stored hash of the token issued
/// with this plaintext.
pub fn socket_lookup_key(token: &str) -> (r: Vec<u8>)
    ensures
        r@ == token_hash(token@),
{
    Token::hash_token(token)
}

/// After the lookup (`Err` when it failed, else whether a user holds the
/// token): the upgrade continues only for a found user.
pub fn socket_authorize(lookup: Result<bool, ()>) -> (r: Result<(), SocketAuthError>)
    ensures
        lookup == Ok::<bool, ()>(true) ==> r is Ok,
        lookup != Ok::<bool, ()>(true) ==> r == Err::<(), SocketAuthError>(SocketAuthError::InvalidToken),
{
    match lookup {
        Ok(true) => Ok(()),
        _ => Err(SocketAuthError::InvalidToken),
    }
}

/// A query `token=<t>` carries `t`, when `t` is not empty and holds no `&`.
pub proof fn lemma_single_token_query(t: Seq<char>)
    requires
        t.len() > 0,
        forall|i: int| 0 <= i < t.len() ==> t[i] != '&',
    ensures
        query_token("token="@ + t) == t,
{
    reveal_strlit("token=");
    reveal_strlit("token");
    let q = "token="@ + t;
    assert forall|i: int| 0 <= i < q.len() implies q[i] != '&' by {
        if i >= 6 {
            assert(q[i] == t[i - 6]);
        }
    }
    lemma_split_on_without_separator(q, '&');
    lemma_first_index_of(q, '=', 5);
    assert(q.subrange(0, 5) =~= "token"@);
    assert(q.subrange(6, q.len() as int) =~= t);
    let segs = split_on(q, '&');
    assert(segs.subrange(0, 0) =~= Seq::<Seq<char>>::empty());
}

} // verus!
