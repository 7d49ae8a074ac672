//! Pattern extraction from the router's scraped pages.
//!
//! The router's web interface is not an API: the session token and the WAN
//! IP are embedded in HTML and inline script, and are pulled out by two
//! fixed patterns with leftmost-match semantics.
//!
//! * The home page carries `http_id=<token>`, the token running from the
//!   end of the key to the next double quote (at least one character).
//! * The status page carries `'wan_ipaddr':` followed by optional
//!   whitespace and a single-quoted, non-empty value.

use vstd::prelude::*;
use vstd::string::*;

verus! {

/// The pattern occurs at position `i` of `s`.
pub open spec fn match_at(s: Seq<char>, pat: Seq<char>, i: int) -> bool {
    &&& 0 <= i
    &&& i + pat.len() <= s.len()
    &&& s.subrange(i, i + pat.len()) == pat
}

/// The key whose value is the router's session token.
pub open spec fn http_id_key() -> Seq<char> {
    "http_id="@
}

/// A session token stands at `i`: the key, then at least one character
/// before the next double quote.
pub open spec fn token_at(s: Seq<char>, i: int) -> bool {
    &&& match_at(s, http_id_key(), i)
    &&& i + http_id_key().len() < s.len()
    &&& s[i + http_id_key().len()] != '"'
}

/// Some position of `s` carries a session token.
pub open spec fn has_token(s: Seq<char>) -> bool {
    exists|i: int| token_at(s, i)
}

/// The token at the leftmost occurrence spans `[i + key, e)`: a maximal,
/// non-empty run of non-quote characters after the key.
pub open spec fn token_span(s: Seq<char>, i: int, e: int) -> bool {
    &&& token_at(s, i)
    &&& (forall|j: int| 0 <= j < i ==> !token_at(s, j))
    &&& i + http_id_key().len() < e <= s.len()
    &&& (forall|m: int| i + http_id_key().len() <= m < e ==> s[m] != '"')
    &&& (e < s.len() ==> s[e] == '"')
}

/// `t` is the session token that the page carries.
pub open spec fn is_token_of(s: Seq<char>, t: Seq<char>) -> bool {
    exists|i: int, e: int| token_span(s, i, e) && t == s.subrange(
        i + http_id_key().len(),
        e,
    )
}

/// Extracts the session token from the router's home page: the value of
/// the leftmost `http_id=` key, up to but excluding the next double quote.
/// Returns `None` exactly when no position of the page carries a token.
pub fn extract_http_id(body: &str) -> (r: Option<String>)
    ensures
        r is Some <==> has_token(body@),
        r is Some ==> is_token_of(body@, r->0@),
{
    let n: usize = body.unicode_len();
    let key = "http_id=";
    let kl: usize = key.unicode_len();
    if n <= kl {
        proof {
            assert forall|j: int| !token_at(body@, j) by {
                if token_at(body@, j) {
                    assert(j + http_id_key().len() < body@.len());
                }
            }
        }
        return None;
    }
    let mut i: usize = 0;
    while i <= n - kl - 1
        invariant
            n == body@.len(),
            kl == http_id_key().len(),
            key@ == http_id_key(),
            kl < n,
            i <= n - kl,
            forall|j: int| 0 <= j < i ==> !token_at(body@, j),
        decreases n - i,
    {
        if matches_at(body, key, i) {
            if body.get_char(i + kl) != '"' {
                let mut e: usize = i + kl + 1;
                while e < n && body.get_char(e) != '"'
                    invariant
                        n == body@.len(),
                        i + kl < e <= n,
                        forall|m: int| i + kl <= m < e ==> body@[m] != '"',
                    decreases n - e,
                {
                    e += 1;
                }
                let tok = body.substring_char(i + kl, e);
                let out = tok.to_owned();
                proof {
                    assert(token_at(body@, i as int));
                    assert(token_span(body@, i as int, e as int));
                    assert(out@ == body@.subrange(i + http_id_key().len(), e as int));
                }
                return Some(out);
            }
        }
        i += 1;
    }
    proof {
        assert forall|j: int| !token_at(body@, j) by {
            if token_at(body@, j) {
                assert(j + http_id_key().len() < body@.len());
                assert(j < i || j >= i);
            }
        }
    }
    None
}

/// The key whose value is the WAN IP on the router's status page.
pub open spec fn wan_key() -> Seq<char> {
    "'wan_ipaddr':"@
}

/// Whitespace, as it may separate the key from the quoted value: the
/// Unicode white-space characters.
pub open spec fn is_space(c: char) -> bool {
    let n = c as u32;
    ||| 0x9 <= n <= 0xD
    ||| n == 0x20
    ||| n == 0x85
    ||| n == 0xA0
    ||| n == 0x1680
    ||| 0x2000 <= n <= 0x200A
    ||| n == 0x2028
    ||| n == 0x2029
    ||| n == 0x202F
    ||| n == 0x205F
    ||| n == 0x3000
}

/// A quoted WAN IP stands at `i`: the key, optional whitespace up to the
/// opening quote `k`, then a non-empty run of non-quote characters up to
/// the closing quote `e`.
pub open spec fn wan_span(s: Seq<char>, i: int, k: int, e: int) -> bool {
    &&& match_at(s, wan_key(), i)
    &&& i + wan_key().len() <= k < s.len()
    &&& (forall|m: int| i + wan_key().len() <= m < k ==> is_space(s[m]))
    &&& s[k] == '\''
    &&& k + 1 < e < s.len()
    &&& (forall|m: int| k + 1 <= m < e ==> s[m] != '\'')
    &&& s[e] == '\''
}

/// Position `i` of `s` opens a quoted WAN IP.
pub open spec fn wan_at(s: Seq<char>, i: int) -> bool {
    exists|k: int, e: int| wan_span(s, i, k, e)
}

/// Some position of `s` carries a quoted WAN IP.
pub open spec fn has_wan_ip(s: Seq<char>) -> bool {
    exists|i: int| wan_at(s, i)
}

/// `t` is the WAN IP of the leftmost occurrence: the characters strictly
/// between the two quotes.
pub open spec fn is_wan_ip_of(s: Seq<char>, t: Seq<char>) -> bool {
    exists|i: int, k: int, e: int|
        {
            &&& wan_span(s, i, k, e)
            &&& (forall|j: int| 0 <= j < i ==> !wan_at(s, j))
            &&& t == s.subrange(k + 1, e)
        }
}

/// Extracts the WAN IP from the router's status page: the single-quoted
/// value after the leftmost `'wan_ipaddr':` key that is in fact followed,
/// after optional whitespace, by a non-empty quoted run. Returns `None`
/// exactly when no position of the page carries one.
pub fn extract_wan_ip(body: &str) -> (r: Option<String>)
    ensures
        r is Some <==> has_wan_ip(body@),
        r is Some ==> is_wan_ip_of(body@, r->0@),
{
    let n: usize = body.unicode_len();
    let key = "'wan_ipaddr':";
    let kl: usize = key.unicode_len();
    if n <= kl {
        proof {
            assert forall|j: int| !wan_at(body@, j) by {
                if wan_at(body@, j) {
                    let (k, e) = choose|k: int, e: int| wan_span(body@, j, k, e);
                    assert(j + wan_key().len() <= k < body@.len());
                }
            }
        }
        return None;
    }
    let mut i: usize = 0;
    while i <= n - kl - 1
        invariant
            n == body@.len(),
            kl == wan_key().len(),
            key@ == wan_key(),
            kl < n,
            i <= n - kl,
            forall|j: int| 0 <= j < i ==> !wan_at(body@, j),
        decreases n - i,
    {
        if matches_at(body, key, i) {
            let k: usize = skip_spaces(body, i + kl);
            let mut opened = false;
            if k < n {
                if body.get_char(k) == '\'' {
                    opened = true;
                    let e: usize = find_char(body, k + 1, '\'');
                    if e < n && k + 1 < e {
                        let ip = body.substring_char(k + 1, e);
                        let out = ip.to_owned();
                        proof {
                            assert(wan_span(body@, i as int, k as int, e as int));
                            assert(wan_at(body@, i as int));
                            assert(has_wan_ip(body@));
                            assert(out@ == body@.subrange(k + 1, e as int));
                            assert(is_wan_ip_of(body@, out@));
                        }
                        return Some(out);
                    }
                    proof {
                        lemma_wan_quote_fails(body@, i as int, k as int, e as int);
                    }
                }
            }
            proof {
                if !opened {
                    lemma_wan_no_quote(body@, i as int, k as int);
                }
            }
        }
        i += 1;
    }
    proof {
        assert forall|j: int| !wan_at(body@, j) by {
            if wan_at(body@, j) {
                let (k, e) = choose|k: int, e: int| wan_span(body@, j, k, e);
                assert(j + wan_key().len() <= k < body@.len());
                assert(j < i || j >= i);
            }
        }
    }
    None
}

/// After the key at `i`, the whitespace run ends at `k` without an opening
/// quote there: no quoted WAN IP opens at `i`.
proof fn lemma_wan_no_quote(s: Seq<char>, i: int, k: int)
    requires
        i + wan_key().len() <= k <= s.len(),
        forall|m: int| i + wan_key().len() <= m < k ==> is_space(s[m]),
        k < s.len() ==> !is_space(s[k]),
        k < s.len() ==> s[k] != '\'',
    ensures
        !wan_at(s, i),
{
    if wan_at(s, i) {
        let (k2, e2) = choose|k2: int, e2: int| wan_span(s, i, k2, e2);
        if k2 < k {
            assert(is_space(s[k2]));
        } else if k2 > k {
            assert(is_space(s[k]));
        }
    }
}

/// The quote opened at `k` after the key at `i`, but the run of non-quote
/// characters ending at `e` is empty or never closed: no quoted WAN IP
/// opens at `i`.
proof fn lemma_wan_quote_fails(s: Seq<char>, i: int, k: int, e: int)
    requires
        i + wan_key().len() <= k < s.len(),
        forall|m: int| i + wan_key().len() <= m < k ==> is_space(s[m]),
        s[k] == '\'',
        k + 1 <= e <= s.len(),
        forall|m: int| k + 1 <= m < e ==> s[m] != '\'',
        e < s.len() ==> s[e] == '\'',
        e >= s.len() || k + 1 >= e,
    ensures
        !wan_at(s, i),
{
    if wan_at(s, i) {
        let (k2, e2) = choose|k2: int, e2: int| wan_span(s, i, k2, e2);
        if k2 < k {
            assert(is_space(s[k2]));
        } else if k2 > k {
            assert(is_space(s[k]));
        }
        assert(k2 == k);
        if e2 < e {
            assert(s[e2] != '\'');
        } else if e2 > e {
            assert(e < s.len());
            assert(s[e] != '\'');
        }
        assert(e2 == e);
    }
}

/// The whitespace run of `s` that starts at `from` ends at the returned
/// position: the first one at or after `from` that is not ASCII whitespace.
fn skip_spaces(s: &str, from: usize) -> (k: usize)
    requires
        from <= s@.len() <= usize::MAX,
    ensures
        from <= k <= s@.len(),
        forall|m: int| from <= m < k ==> is_space(s@[m]),
        k < s@.len() ==> !is_space(s@[k as int]),
{
    let n: usize = s.unicode_len();
    let mut k: usize = from;
    while k < n && is_space_char(s.get_char(k))
        invariant
            n == s@.len(),
            from <= k <= n,
            forall|m: int| from <= m < k ==> is_space(s@[m]),
        decreases n - k,
    {
        k += 1;
    }
    k
}

/// The first position of `s` at or after `from` that holds `stop`, or the
/// length of `s` when there is none.
fn find_char(s: &str, from: usize, stop: char) -> (e: usize)
    requires
        from <= s@.len() <= usize::MAX,
    ensures
        from <= e <= s@.len(),
        forall|m: int| from <= m < e ==> s@[m] != stop,
        e < s@.len() ==> s@[e as int] == stop,
{
    let n: usize = s.unicode_len();
    let mut e: usize = from;
    while e < n && s.get_char(e) != stop
        invariant
            n == s@.len(),
            from <= e <= n,
            forall|m: int| from <= m < e ==> s@[m] != stop,
        decreases n - e,
    {
        e += 1;
    }
    e
}

/// Whitespace test, mirroring [`is_space`].
fn is_space_char(c: char) -> (r: bool)
    ensures
        r == is_space(c),
{
    let n = c as u32;
    (0x9 <= n && n <= 0xD) || n == 0x20 || n == 0x85 || n == 0xA0 || n == 0x1680 || (0x2000 <= n
        && n <= 0x200A) || n == 0x2028 || n == 0x2029 || n == 0x202F || n == 0x205F || n == 0x3000
}

/// The pattern `pat` occurs at position `i` of `s`.
fn matches_at(s: &str, pat: &str, i: usize) -> (r: bool)
    requires
        i + pat@.len() <= s@.len() <= usize::MAX,
    ensures
        r == match_at(s@, pat@, i as int),
{
    let n: usize = pat.unicode_len();
    let mut j: usize = 0;
    while j < n
        invariant
            n == pat@.len(),
            i + n <= s@.len() <= usize::MAX,
            j <= n,
            forall|m: int| 0 <= m < j ==> s@[i + m] == pat@[m],
        decreases n - j,
    {
        if s.get_char(i + j) != pat.get_char(j) {
            proof {
                assert(s@.subrange(i as int, i + n)[j as int] == s@[i + j]);
            }
            return false;
        }
        j += 1;
    }
    proof {
        assert(s@.subrange(i as int, i + n) =~= pat@);
    }
    true
}

} // verus!
