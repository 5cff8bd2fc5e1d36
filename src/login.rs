//! The login handshake's own steps: the launch data taken from an invite
//! link, and the session taken from the login answer.
use crate::client::BananaErr;
use crate::text::{contains_text, find_char, first_index_of};
use vstd::prelude::*;
use vstd::string::{StrSliceExecFns, StringExecFns};

verus! {

/// Name of the cookie that carries the session.
pub open spec fn session_cookie_name() -> Seq<char> {
    "banana-game:user:token"@
}

/// The fragment of `link` parsed as a URL; `None` when it does not parse or
/// has no fragment.
pub uninterp spec fn url_fragment(link: Seq<char>) -> Option<Seq<char>>;

/// `s` percent-decoded; `None` when the bytes decoded are not UTF-8.
pub uninterp spec fn percent_decoded(s: Seq<char>) -> Option<Seq<char>>;

/// The name and value of a `set-cookie` header value; `None` when it does not parse.
pub uninterp spec fn cookie_pair(header: Seq<char>) -> Option<(Seq<char>, Seq<char>)>;

/// Relies on `reqwest::Url::parse` and `Url::fragment`: the fragment of a link.
#[verifier::external_body]
fn fragment_of(link: &str) -> (r: Option<String>)
    ensures
        (r is Some ==> url_fragment(link@) == Some(r->Some_0@)),
        (r is None ==> url_fragment(link@) is None),
{
    match reqwest::Url::parse(link) {
        Ok(u) => u.fragment().map(str::to_string),
        Err(_) => None,
    }
}

/// Relies on `urlencoding::decode`; a text without `%` decodes to itself.
#[verifier::external_body]
fn decode_percent(s: &str) -> (r: Option<String>)
    ensures
        (r is Some ==> percent_decoded(s@) == Some(r->Some_0@)),
        (r is None ==> percent_decoded(s@) is None),
        (!s@.contains('%') ==> (r is Some && r->Some_0@ == s@)),
{
    match urlencoding::decode(s) {
        Ok(d) => Some(d.into_owned()),
        Err(_) => None,
    }
}

/// Relies on `cookie::Cookie::parse`, `Cookie::name` and `Cookie::value`: the
/// name and value of a parsed cookie.
#[verifier::external_body]
fn parse_cookie(header: &str) -> (r: Option<(String, String)>)
    ensures
        (r is Some ==> cookie_pair(header@) == Some((r->Some_0.0@, r->Some_0.1@))),
        (r is None ==> cookie_pair(header@) is None),
{
    match cookie::Cookie::parse(header) {
        Ok(c) => Some((c.name().to_string(), c.value().to_string())),
        Err(_) => None,
    }
}

/// Whether every character of a pattern stands for itself in a regular
/// expression: letters, digits, `_`, `-` and `:`.
pub open spec fn plain_pattern(p: Seq<char>) -> bool {
    forall|i: int|
        0 <= i < p.len() ==> {
            let c = #[trigger] p[i];
            ('a' <= c && c <= 'z') || ('A' <= c && c <= 'Z') || ('0' <= c && c <= '9') || c
                == '_' || c == '-' || c == ':'
        }
}

/// Relies on `regex::Regex::new` and `Regex::is_match`: `None` when the pattern
/// does not compile; a short pattern of plain characters compiles (far below
/// regex's size limit) and matches exactly the texts that contain it.
#[verifier::external_body]
fn regex_matches(pattern: &str, text: &str) -> (r: Option<bool>)
    requires
        pattern@.len() <= 1000,
    ensures
        (plain_pattern(pattern@) ==> r == Some(contains_text(text@, pattern@))),
{
    match regex::Regex::new(pattern) {
        Ok(re) => Some(re.is_match(text)),
        Err(_) => None,
    }
}

/// The value submitted at login: in the fragment's first `&`-separated part,
/// the field after its first `=`; `None` when that part holds no `=`.
pub open spec fn launch_value(fragment: Seq<char>) -> Option<Seq<char>> {
    let part = fragment.subrange(0, first_index_of(fragment, '&'));
    let eq = first_index_of(part, '=');
    if eq == part.len() {
        None
    } else {
        let rest = part.subrange(eq + 1, part.len() as int);
        Some(rest.subrange(0, first_index_of(rest, '=')))
    }
}

/// The launch data that an invite link yields for login, if any.
pub open spec fn login_payload(link: Seq<char>) -> Option<Seq<char>> {
    match url_fragment(link) {
        None => None,
        Some(f) => match launch_value(f) {
            None => None,
            Some(v) => percent_decoded(v),
        },
    }
}

/// Takes the launch value out of a link fragment.
pub fn launch_value_of(fragment: &str) -> (r: Option<String>)
    ensures
        r matches Some(v) ==> launch_value(fragment@) == Some(v@),
        r is None ==> launch_value(fragment@) is None,
{
    proof {
        crate::text::lemma_first_index_of(fragment@, '&');
    }
    let amp = find_char(fragment, '&');
    let part = fragment.substring_char(0, amp);
    proof {
        crate::text::lemma_first_index_of(part@, '=');
    }
    let eq = find_char(part, '=');
    let n = part.unicode_len();
    if eq == n {
        return None;
    }
    let rest = part.substring_char(eq + 1, n);
    proof {
        crate::text::lemma_first_index_of(rest@, '=');
    }
    let end = find_char(rest, '=');
    let v = rest.substring_char(0, end);
    Some(String::from_str(v))
}

/// The first step of login: the decoded launch data of an invite link. A link
/// that does not parse, has no fragment, or whose fragment yields no value
/// fails with `LoginFailed` before anything is sent.
pub fn prepare_login(link: &str) -> (r: Result<String, BananaErr>)
    ensures
        r matches Ok(s) ==> login_payload(link@) == Some(s@),
        r is Err ==> login_payload(link@) is None && r == Err::<String, BananaErr>(
            BananaErr::LoginFailed,
        ),
        url_fragment(link@) is None ==> r is Err,
{
    let fragment = match fragment_of(link) {
        Some(f) => f,
        None => return Err(BananaErr::LoginFailed),
    };
    let value = match launch_value_of(fragment.as_str()) {
        Some(v) => v,
        None => return Err(BananaErr::LoginFailed),
    };
    match decode_percent(value.as_str()) {
        Some(d) => Ok(d),
        None => Err(BananaErr::LoginFailed),
    }
}

/// Index of the first header value that contains the session cookie's name,
/// or the number of values when none does.
pub open spec fn first_session_header(headers: Seq<Seq<char>>) -> int
    decreases headers.len(),
{
    if headers.len() == 0 {
        0
    } else if contains_text(headers[0], session_cookie_name()) {
        0
    } else {
        1 + first_session_header(headers.drop_first())
    }
}

/// The session cookie that a login answer's `set-cookie` values carry: the
/// name and value, joined, of the first one that names the session cookie.
pub open spec fn session_cookie(headers: Seq<Seq<char>>) -> Option<Seq<char>> {
    let i = first_session_header(headers);
    if i >= headers.len() {
        None
    } else {
        match cookie_pair(headers[i]) {
            None => None,
            Some(p) => Some(p.0 + p.1),
        }
    }
}

/// Views of a list of strings.
pub open spec fn texts(v: Seq<String>) -> Seq<Seq<char>> {
    v.map_values(|s: String| s@)
}

proof fn lemma_first_session_header(headers: Seq<Seq<char>>, i: int)
    requires
        0 <= i <= headers.len(),
        forall|j: int| 0 <= j < i ==> !contains_text(#[trigger] headers[j], session_cookie_name()),
        i < headers.len() ==> contains_text(headers[i], session_cookie_name()),
    ensures
        first_session_header(headers) == i,
    decreases headers.len(),
{
    if headers.len() > 0 && i > 0 {
        let rest = headers.drop_first();
        assert forall|j: int| 0 <= j < i - 1 implies !contains_text(
            #[trigger] rest[j],
            session_cookie_name(),
        ) by {
            assert(rest[j] == headers[j + 1]);
        }
        lemma_first_session_header(rest, i - 1);
    }
}

/// Picks the session cookie out of a login answer's `set-cookie` values.
pub fn session_cookie_of(set_cookies: &Vec<String>) -> (r: Option<String>)
    ensures
        r matches Some(c) ==> session_cookie(texts(set_cookies@)) == Some(c@),
        r is None ==> session_cookie(texts(set_cookies@)) is None,
{
    let name = "banana-game:user:token";
    proof {
        reveal_strlit("banana-game:user:token");
        assert(name@ == session_cookie_name());
        assert(plain_pattern(name@));
        assert(name@.len() == 22);
    }
    let ghost hs = texts(set_cookies@);
    let mut i: usize = 0;
    while i < set_cookies.len()
        invariant
            i <= set_cookies@.len(),
            hs == texts(set_cookies@),
            name@ == session_cookie_name(),
            name@.len() == 22,
            plain_pattern(name@),
            forall|j: int| 0 <= j < i ==> !contains_text(#[trigger] hs[j], session_cookie_name()),
        decreases set_cookies@.len() - i,
    {
        let h = set_cookies[i].as_str();
        if regex_matches(name, h) == Some(true) {
            proof {
                lemma_first_session_header(hs, i as int);
            }
            return match parse_cookie(h) {
                Some(p) => {
                    let mut c = p.0;
                    c.append(p.1.as_str());
                    Some(c)
                },
                None => None,
            };
        }
        i = i + 1;
    }
    proof {
        lemma_first_session_header(hs, i as int);
    }
    None
}

/// The session a login answer yields: its bearer token and its session
/// cookie. Both must be present and the exchange must have succeeded, else
/// the login fails.
pub fn finish_login(status_ok: bool, set_cookies: &Vec<String>, token: Option<String>) -> (r:
    Result<(String, String), BananaErr>)
    ensures
        r is Ok <==> status_ok && token is Some && session_cookie(texts(set_cookies@)) is Some,
        r matches Ok(p) ==> token == Some(p.0) && session_cookie(texts(set_cookies@)) == Some(
            p.1@,
        ),
        r is Err ==> r == Err::<(String, String), BananaErr>(BananaErr::LoginFailed),
{
    if !status_ok {
        return Err(BananaErr::LoginFailed);
    }
    let cookie = match session_cookie_of(set_cookies) {
        Some(c) => c,
        None => return Err(BananaErr::LoginFailed),
    };
    match token {
        Some(t) => Ok((t, cookie)),
        None => Err(BananaErr::LoginFailed),
    }
}

} // verus!
