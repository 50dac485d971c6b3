//! Reading the OAuth redirect that the browser sends back to the calendar.
use vstd::prelude::*;
use crate::text::{
    chars_eq_str, chars_of, chars_to, is_whitespace, is_whitespace_char, owned, push_chars,
    string_of,
};

verus! {

/// The first line of a text: the characters before the first line feed,
/// with one carriage return at its end removed; none for an empty text.
pub open spec fn first_line(s: Seq<char>) -> Option<Seq<char>> {
    if s.len() == 0 {
        None
    } else {
        let raw = s.take(line_end(s, 0));
        Some(
            if raw.len() > 0 && raw.last() == '\r' {
                raw.drop_last()
            } else {
                raw
            },
        )
    }
}

/// Index of the first line feed at or after `i`, or the length of `s`.
pub open spec fn line_end(s: Seq<char>, i: int) -> int
    decreases s.len() - i,
{
    if i >= s.len() || s[i] == '\n' {
        i
    } else {
        line_end(s, i + 1)
    }
}

/// The words of a text as `str::split_whitespace` gives them: the maximal
/// runs of characters that are not whitespace.
pub open spec fn words(s: Seq<char>) -> Seq<Seq<char>>
    decreases s.len(),
{
    if s.len() == 0 {
        Seq::empty()
    } else {
        let w = words(s.drop_last());
        let c = s.last();
        if is_whitespace_char(c) {
            w
        } else if s.len() >= 2 && !is_whitespace_char(s[s.len() - 2]) {
            w.update(w.len() - 1, w.last().push(c))
        } else {
            w.push(seq![c])
        }
    }
}

/// Why a redirect request was not understood.
#[derive(Clone, Copy, Debug, PartialEq, Eq, Structural)]
pub enum RedirectError {
    EmptyRequest,
    MalformedRequestLine,
    BadUrl,
    NoCode,
    NoState,
}

impl RedirectError {
    /// The message for this error.
    pub open spec fn text(self) -> Seq<char> {
        match self {
            RedirectError::EmptyRequest => "Empty HTTP request"@,
            RedirectError::MalformedRequestLine => "Malformed request line"@,
            RedirectError::BadUrl => "Failed to parse URL"@,
            RedirectError::NoCode => "No authorization code in redirect"@,
            RedirectError::NoState => "No state in redirect"@,
        }
    }

    /// The message for this error.
    pub fn message(&self) -> (r: String)
        ensures
            r@ == self.text(),
    {
        match self {
            RedirectError::EmptyRequest => owned("Empty HTTP request"),
            RedirectError::MalformedRequestLine => owned("Malformed request line"),
            RedirectError::BadUrl => owned("Failed to parse URL"),
            RedirectError::NoCode => owned("No authorization code in redirect"),
            RedirectError::NoState => owned("No state in redirect"),
        }
    }
}

/// What `Url::parse` and then `Url::query_pairs` give for a text: the
/// decoded key and value of each query pair, or none when the text is no URL.
pub uninterp spec fn url_query(s: Seq<char>) -> Option<Seq<(Seq<char>, Seq<char>)>>;

/// `Url::parse`, then `Url::query_pairs` of the parsed URL: the decoded
/// query pairs in order, or none when the text is no URL.
#[verifier::external_body]
fn url_query_pairs(s: &str) -> (r: Option<Vec<(String, String)>>)
    ensures
        match url_query(s@) {
            Some(q) => r matches Some(v) && v@.map_values(|p: (String, String)| (p.0@, p.1@)) == q,
            None => r is None,
        },
{
    match url::Url::parse(s) {
        Ok(u) => {
            let mut v = Vec::new();
            for (k, val) in u.query_pairs() {
                v.push((k.into_owned(), val.into_owned()));
            }
            Some(v)
        },
        Err(_) => None,
    }
}

/// The value of the first pair with the given key.
pub open spec fn first_value(pairs: Seq<(Seq<char>, Seq<char>)>, key: Seq<char>) -> Option<Seq<char>>
    decreases pairs.len(),
{
    if pairs.len() == 0 {
        None
    } else if pairs[0].0 == key {
        Some(pairs[0].1)
    } else {
        first_value(pairs.drop_first(), key)
    }
}

/// The value of the first pair whose key is `key`.
pub fn find_query_value(pairs: &Vec<(String, String)>, key: &str) -> (r: Option<String>)
    ensures
        match first_value(pairs@.map_values(|p: (String, String)| (p.0@, p.1@)), key@) {
            Some(v) => r matches Some(x) && x@ == v,
            None => r is None,
        },
{
    let ghost q = pairs@.map_values(|p: (String, String)| (p.0@, p.1@));
    assert(q.skip(0) == q);
    let mut i: usize = 0;
    while i < pairs.len()
        invariant
            i <= pairs@.len(),
            q == pairs@.map_values(|p: (String, String)| (p.0@, p.1@)),
            first_value(q, key@) == first_value(q.skip(i as int), key@),
        decreases pairs@.len() - i,
    {
        let k = chars_of(pairs[i].0.as_str());
        assert(q.skip(i as int).drop_first() == q.skip(i + 1));
        assert(q.skip(i as int)[0] == q[i as int]);
        if chars_eq_str(k.as_slice(), key) {
            return Some(crate::text::copy_string(&pairs[i].1));
        }
        i = i + 1;
    }
    assert(q.skip(i as int).len() == 0);
    None
}

/// What `parse_redirect` reads from the request the browser sent: the
/// authorization code and the state of the redirect URL, from the path on
/// the request line.
pub open spec fn redirect_outcome(request: Seq<char>) -> Result<(Seq<char>, Seq<char>), RedirectError> {
    match first_line(request) {
        None => Err(RedirectError::EmptyRequest),
        Some(line) => if words(line).len() < 2 {
            Err(RedirectError::MalformedRequestLine)
        } else {
            match url_query("http://localhost"@ + words(line)[1]) {
                None => Err(RedirectError::BadUrl),
                Some(q) => match (first_value(q, "code"@), first_value(q, "state"@)) {
                    (None, _) => Err(RedirectError::NoCode),
                    (Some(_), None) => Err(RedirectError::NoState),
                    (Some(code), Some(state)) => Ok((code, state)),
                },
            }
        },
    }
}

/// The characters of the first line of `s`.
fn first_line_chars(s: &[char]) -> (r: Vec<char>)
    requires
        s@.len() > 0,
    ensures
        first_line(s@) == Some(r@),
{
    let mut i: usize = 0;
    while i < s.len() && s[i] != '\n'
        invariant
            i <= s@.len(),
            line_end(s@, 0) == line_end(s@, i as int),
        decreases s@.len() - i,
    {
        i = i + 1;
    }
    let raw = chars_to(s, i);
    if raw.len() > 0 && raw[raw.len() - 1] == '\r' {
        let r = chars_to(raw.as_slice(), raw.len() - 1);
        assert(r@ == raw@.drop_last());
        r
    } else {
        raw
    }
}

/// The words of `s`.
fn words_of(s: &[char]) -> (r: Vec<Vec<char>>)
    ensures
        r@.map_values(|w: Vec<char>| w@) == words(s@),
{
    let mut r: Vec<Vec<char>> = Vec::new();
    let mut i: usize = 0;
    while i < s.len()
        invariant
            i <= s@.len(),
            r@.map_values(|w: Vec<char>| w@) == words(s@.take(i as int)),
            i > 0 && !is_whitespace_char(s@[i - 1]) ==> r@.len() > 0,
        decreases s@.len() - i,
    {
        let c = s[i];
        let ghost t = s@.take(i + 1);
        assert(t.drop_last() == s@.take(i as int));
        assert(t.last() == c);
        if is_whitespace(c) {
        } else if i >= 1 && !is_whitespace(s[i - 1]) {
            assert(t[t.len() - 2] == s@[i - 1]);
            let last = r.len() - 1;
            let mut w = r.remove(last);
            w.push(c);
            r.push(w);
            assert(r@.map_values(|w: Vec<char>| w@) =~= words(t));
        } else {
            if i >= 1 {
                assert(t[t.len() - 2] == s@[i - 1]);
            }
            let mut w: Vec<char> = Vec::new();
            w.push(c);
            r.push(w);
            assert(r@.map_values(|w: Vec<char>| w@) =~= words(t));
        }
        i = i + 1;
    }
    assert(s@.take(s@.len() as int) == s@);
    r
}

/// Reads the authorization code and the state from the HTTP request that
/// the browser sends to the redirect address.
pub fn parse_redirect(request: &str) -> (r: Result<(String, String), RedirectError>)
    ensures
        match redirect_outcome(request@) {
            Ok((code, state)) => r matches Ok((c, s)) && c@ == code && s@ == state,
            Err(e) => r == Err::<(String, String), RedirectError>(e),
        },
{
    let cs = chars_of(request);
    if cs.len() == 0 {
        return Err(RedirectError::EmptyRequest);
    }
    let line = first_line_chars(cs.as_slice());
    let ws = words_of(line.as_slice());
    if ws.len() < 2 {
        return Err(RedirectError::MalformedRequestLine);
    }
    let mut url = owned("http://localhost");
    push_chars(&mut url, ws[1].as_slice());
    let pairs = match url_query_pairs(url.as_str()) {
        Some(p) => p,
        None => {
            return Err(RedirectError::BadUrl);
        },
    };
    let code = match find_query_value(&pairs, "code") {
        Some(c) => c,
        None => {
            return Err(RedirectError::NoCode);
        },
    };
    let state = match find_query_value(&pairs, "state") {
        Some(s) => s,
        None => {
            return Err(RedirectError::NoState);
        },
    };
    Ok((code, state))
}

/// How an access token is had: the stored one while it has not expired, a
/// refreshed one when a refresh token is stored, else a new sign-in.
#[derive(Clone, Copy, Debug, PartialEq, Eq, Structural)]
pub enum TokenPlan {
    Stored,
    Refresh,
    SignIn,
}

/// How to get an access token, given whether a token is stored, whether it
/// is known to be still valid, and whether a refresh token is stored.
pub fn token_plan(has_token: bool, unexpired: bool, has_refresh: bool) -> (r: TokenPlan)
    ensures
        r == if has_token && unexpired {
            TokenPlan::Stored
        } else if has_token && has_refresh {
            TokenPlan::Refresh
        } else {
            TokenPlan::SignIn
        },
{
    if has_token && unexpired {
        TokenPlan::Stored
    } else if has_token && has_refresh {
        TokenPlan::Refresh
    } else {
        TokenPlan::SignIn
    }
}

} // verus!
