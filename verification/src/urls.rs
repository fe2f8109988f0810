//! URLs, taken apart into plain values or held as their serializations, and the calls
//! into the `url` crate that parse, re-path and join them.

use vstd::prelude::*;

use crate::text::{chars_of, compare_chars, Comparison};

verus! {

/// A URL as plain values: serialization, scheme, cannot-be-a-base flag and path.
pub type UrlView = (Seq<char>, Seq<char>, bool, Seq<char>);

/// What `url::Url::parse` makes of `input`: on success the serialization, scheme,
/// cannot-be-a-base flag and path of the URL; on failure the error's text.
pub uninterp spec fn url_parse_outcome(input: Seq<char>) -> Result<UrlView, Seq<char>>;

/// What two calls give: `url::Url::parse(input)`, which succeeds, then
/// `set_path(path)` on that URL; the serialization, scheme, cannot-be-a-base flag
/// and path of the URL after the second call.
pub uninterp spec fn url_with_path(input: Seq<char>, path: Seq<char>) -> UrlView;

/// What two calls give: `url::Url::parse(base)`, then `join(input)` on that URL; the
/// serialization of the joined URL, or `None` when either call fails.
pub uninterp spec fn url_join_outcome(base: Seq<char>, input: Seq<char>) -> Option<Seq<char>>;

/// The schemes that a shell backend may use (the `url` crate's special schemes
/// `http` and `https`).
pub open spec fn is_web_scheme(scheme: Seq<char>) -> bool {
    scheme == seq!['h', 't', 't', 'p'] || scheme == seq!['h', 't', 't', 'p', 's']
}

/// The path ends with `/`.
pub open spec fn ends_with_slash(path: Seq<char>) -> bool {
    path.len() > 0 && path.last() == '/'
}

/// A parsed URL, taken apart into plain values.
pub struct UrlParts {
    /// The serialization of the URL.
    pub href: String,
    /// The lower-case scheme, without the `:`.
    pub scheme: String,
    /// Whether the URL is cannot-be-a-base (no `/` after the scheme).
    pub cannot_be_a_base: bool,
    /// The path.
    pub path: String,
}

impl View for UrlParts {
    type V = UrlView;

    open spec fn view(&self) -> UrlView {
        (self.href@, self.scheme@, self.cannot_be_a_base, self.path@)
    }
}

/// Calls `url::Url::parse` and takes the URL apart with `as_str`, `scheme`,
/// `cannot_be_a_base` and `path`; an error becomes its `Display` text. The contract
/// claims that the outcome is the one named by `url_parse_outcome`, and one fact of
/// the source: an `http` or `https` URL is written with `//` after the scheme (these
/// special schemes always have an authority), so it is never cannot-be-a-base.
#[verifier::external_body]
fn parse_url(input: &str) -> (parsed: Result<UrlParts, String>)
    ensures
        parsed is Ok <==> url_parse_outcome(input@) is Ok,
        parsed matches Ok(p) ==> url_parse_outcome(input@)->Ok_0 == p@,
        parsed matches Ok(p) ==> (is_web_scheme(p.scheme@) ==> !p.cannot_be_a_base),
        parsed matches Err(e) ==> url_parse_outcome(input@)->Err_0 == e@,
{
    match url::Url::parse(input) {
        Ok(url) => Ok(
            UrlParts {
                href: url.as_str().to_string(),
                scheme: url.scheme().to_string(),
                cannot_be_a_base: url.cannot_be_a_base(),
                path: url.path().to_string(),
            },
        ),
        Err(err) => Err(err.to_string()),
    }
}

/// Parses `input` with `url::Url::parse` (which succeeds, as the precondition says,
/// since parsing depends on the input alone), calls `set_path(path)` and takes the
/// URL apart as `parse_url` does. The contract claims that the result is the one
/// named by `url_with_path`, and facts of `set_path`'s source: it rewrites only the
/// path, so the scheme stays; an `http` or `https` URL keeps its `//` and so stays
/// hierarchical; and for these special schemes a path given with a final `/` ends,
/// after parsing, with an empty segment, so the new path ends with `/`. It does not
/// claim what the new path is otherwise (the path is percent-encoded and its dot
/// segments resolved).
#[verifier::external_body]
fn set_url_path(input: &str, path: &str) -> (updated: UrlParts)
    requires
        url_parse_outcome(input@) is Ok,
    ensures
        updated@ == url_with_path(input@, path@),
        updated.scheme@ == url_parse_outcome(input@)->Ok_0.1,
        is_web_scheme(updated.scheme@) ==> !updated.cannot_be_a_base,
        is_web_scheme(updated.scheme@) && ends_with_slash(path@) ==> ends_with_slash(
            updated.path@,
        ),
{
    let mut url = url::Url::parse(input).expect("the input parsed before");
    url.set_path(path);
    UrlParts {
        href: url.as_str().to_string(),
        scheme: url.scheme().to_string(),
        cannot_be_a_base: url.cannot_be_a_base(),
        path: url.path().to_string(),
    }
}

/// Parses `base` with `url::Url::parse`, resolves `input` against it with
/// `Url::join` and returns the serialization, or `None` when either step fails. The
/// contract claims only that the outcome is the one named by `url_join_outcome`.
#[verifier::external_body]
fn join_url(base: &str, input: &str) -> (joined: Option<String>)
    ensures
        joined matches Some(j) ==> url_join_outcome(base@, input@) == Some(j@),
        joined is None ==> url_join_outcome(base@, input@) is None,
{
    match url::Url::parse(base) {
        Ok(url) => match url.join(input) {
            Ok(joined) => Some(joined.as_str().to_string()),
            Err(_) => None,
        },
        Err(_) => None,
    }
}

/// How a parsed URL is judged as the shell's base URL: refused with a message,
/// accepted as it is (`None`), or accepted once its path is set to the given one.
pub open spec fn base_url_check(scheme: Seq<char>, cannot_be_a_base: bool, path: Seq<char>) -> Result<
    Option<Seq<char>>,
    Seq<char>,
> {
    if !is_web_scheme(scheme) {
        Err("unsupported URL scheme: "@ + scheme)
    } else if cannot_be_a_base {
        Err("base URL must be hierarchical"@)
    } else if ends_with_slash(path) {
        Ok(None)
    } else {
        Ok(Some(path + "/"@))
    }
}

/// Judges a parsed URL as the shell's base URL: only hierarchical `http` and `https`
/// URLs are accepted, and a path without a final `/` is to get one.
pub fn check_base_url_parts(parts: &UrlParts) -> (check: Result<Option<String>, String>)
    ensures
        check is Ok <==> base_url_check(parts.scheme@, parts.cannot_be_a_base, parts.path@) is Ok,
        check matches Ok(None) ==> base_url_check(
            parts.scheme@,
            parts.cannot_be_a_base,
            parts.path@,
        ) == Ok::<_, Seq<char>>(None::<Seq<char>>),
        check matches Ok(Some(p)) ==> base_url_check(
            parts.scheme@,
            parts.cannot_be_a_base,
            parts.path@,
        ) == Ok::<_, Seq<char>>(Some(p@)),
        check matches Err(message) ==> base_url_check(
            parts.scheme@,
            parts.cannot_be_a_base,
            parts.path@,
        ) == Err::<Option<Seq<char>>, _>(message@),
        is_web_scheme(parts.scheme@) && !parts.cannot_be_a_base && ends_with_slash(parts.path@)
            ==> check matches Ok(None),
        is_web_scheme(parts.scheme@) && !parts.cannot_be_a_base && !ends_with_slash(parts.path@)
            ==> (check matches Ok(Some(p)) && p@ == parts.path@.push('/')),
        !is_web_scheme(parts.scheme@) || parts.cannot_be_a_base ==> check is Err,
{
    let scheme = chars_of(parts.scheme.as_str());
    let http: Vec<char> = vec!['h', 't', 't', 'p'];
    let https: Vec<char> = vec!['h', 't', 't', 'p', 's'];
    let is_http = compare_chars(&scheme, &http) == Comparison::Equal;
    let is_https = compare_chars(&scheme, &https) == Comparison::Equal;
    proof {
        assert(http@ =~= seq!['h', 't', 't', 'p']);
        assert(https@ =~= seq!['h', 't', 't', 'p', 's']);
    }
    if !is_http && !is_https {
        return Err(String::from_str("unsupported URL scheme: ").concat(parts.scheme.as_str()));
    }
    if parts.cannot_be_a_base {
        return Err(String::from_str("base URL must be hierarchical"));
    }
    let path = chars_of(parts.path.as_str());
    if path.len() > 0 && path[path.len() - 1] == '/' {
        return Ok(None);
    }
    let fixed = parts.path.clone().concat("/");
    proof {
        reveal_strlit("/");
        assert(fixed@ =~= parts.path@.push('/'));
    }
    Ok(Some(fixed))
}

/// The base-URL check keeps the given path: a hierarchical `http` or `https` URL
/// whose path ends with `/` is accepted as it is, and one whose path `p` does not is
/// accepted with its path set to exactly `p` followed by `/`, so the given path stays
/// a prefix of the new one; other schemes and cannot-be-a-base URLs are refused.
pub proof fn lemma_base_url_check_keeps_path(
    scheme: Seq<char>,
    cannot_be_a_base: bool,
    path: Seq<char>,
)
    ensures
        is_web_scheme(scheme) && !cannot_be_a_base && ends_with_slash(path) ==> base_url_check(
            scheme,
            cannot_be_a_base,
            path,
        ) == Ok::<_, Seq<char>>(None::<Seq<char>>),
        is_web_scheme(scheme) && !cannot_be_a_base && !ends_with_slash(path) ==> base_url_check(
            scheme,
            cannot_be_a_base,
            path,
        ) == Ok::<_, Seq<char>>(Some(path.push('/'))),
        is_web_scheme(scheme) && !cannot_be_a_base && !ends_with_slash(path) ==> (
        base_url_check(scheme, cannot_be_a_base, path) matches Ok(Some(fixed)) && fixed.len()
            == path.len() + 1 && fixed.take(path.len() as int) == path && ends_with_slash(fixed)),
        !is_web_scheme(scheme) || cannot_be_a_base ==> base_url_check(
            scheme,
            cannot_be_a_base,
            path,
        ) is Err,
{
    reveal_strlit("/");
    assert(path + "/"@ =~= path.push('/'));
    assert(path.push('/').take(path.len() as int) =~= path);
}

/// `parse_base_url` re-paths a parsed URL only when its path lacks the final `/`,
/// and then to that path followed by `/`.
pub proof fn lemma_parse_base_url_repaths_with_slash(input: Seq<char>, parsed: UrlView)
    requires
        url_parse_outcome(input) == Ok::<_, Seq<char>>(parsed),
        is_web_scheme(parsed.1),
        !parsed.2,
    ensures
        ends_with_slash(parsed.3) ==> spec_parse_base_url(input) == Ok::<_, Seq<char>>(parsed),
        !ends_with_slash(parsed.3) ==> spec_parse_base_url(input) == Ok::<_, Seq<char>>(
            url_with_path(input, parsed.3.push('/')),
        ),
{
    lemma_base_url_check_keeps_path(parsed.1, parsed.2, parsed.3);
}

/// The outcome of `parse_base_url` on `input`.
pub open spec fn spec_parse_base_url(input: Seq<char>) -> Result<UrlView, Seq<char>> {
    match url_parse_outcome(input) {
        Err(e) => Err(e),
        Ok(parts) => match base_url_check(parts.1, parts.2, parts.3) {
            Err(message) => Err(message),
            Ok(None) => Ok(parts),
            Ok(Some(path)) => Ok(url_with_path(input, path)),
        },
    }
}

/// Parses the shell backend's base URL: an absolute, hierarchical `http` or `https`
/// URL whose path is made to end with `/`, so that callback names resolve under it.
/// An input is accepted exactly when it parses with scheme `http` or `https`; an
/// accepted URL is then hierarchical and its path ends with `/`.
pub fn parse_base_url(input: &str) -> (parsed: Result<UrlParts, String>)
    ensures
        parsed matches Ok(u) ==> spec_parse_base_url(input@) == Ok::<_, Seq<char>>(u@),
        parsed matches Err(message) ==> spec_parse_base_url(input@) == Err::<UrlView, _>(
            message@,
        ),
        parsed matches Ok(u) ==> is_web_scheme(u.scheme@) && !u.cannot_be_a_base
            && ends_with_slash(u.path@),
        parsed is Ok <==> (url_parse_outcome(input@) is Ok && is_web_scheme(
            url_parse_outcome(input@)->Ok_0.1,
        )),
{
    let parts = match parse_url(input) {
        Ok(parts) => parts,
        Err(message) => {
            return Err(message);
        },
    };
    match check_base_url_parts(&parts) {
        Err(message) => Err(message),
        Ok(None) => Ok(parts),
        Ok(Some(path)) => {
            proof {
                reveal_strlit("/");
                assert(ends_with_slash(path@));
            }
            Ok(set_url_path(input, path.as_str()))
        },
    }
}

/// An accepted base URL is accepted again, unchanged: a URL with an `http` or
/// `https` scheme, hierarchical, whose path ends with `/`, and whose serialization
/// parses back to it, is its own base URL. (`parse_base_url` shows the first three of
/// every URL it accepts; that a serialization parses back to the same URL is not
/// stated by the `url` crate, so it stands here as a premise.)
pub proof fn lemma_base_url_is_idempotent(u: UrlView)
    requires
        is_web_scheme(u.1),
        !u.2,
        ends_with_slash(u.3),
        url_parse_outcome(u.0) == Ok::<_, Seq<char>>(u),
    ensures
        spec_parse_base_url(u.0) == Ok::<_, Seq<char>>(u),
{
}

/// The outcome of `host_api_url` on a bind address.
pub open spec fn spec_host_api_url(bind: Seq<char>) -> Result<Seq<char>, Seq<char>> {
    match url_parse_outcome("http://"@ + bind + "/"@) {
        Ok((href, _, _, _)) => Ok(href),
        Err(e) => Err(e),
    }
}

/// The host API's URL is the parse of `http://`, the bind address and `/`: its
/// serialization when that parses, the parse error otherwise.
pub proof fn lemma_host_api_url_is_http(bind: Seq<char>)
    ensures
        url_parse_outcome(seq!['h', 't', 't', 'p', ':', '/', '/'] + bind + seq!['/']) matches Ok(
            u,
        ) ==> spec_host_api_url(bind) == Ok::<_, Seq<char>>(u.0),
        url_parse_outcome(seq!['h', 't', 't', 'p', ':', '/', '/'] + bind + seq!['/']) matches Err(
            e,
        ) ==> spec_host_api_url(bind) == Err::<Seq<char>, _>(e),
{
    reveal_strlit("http://");
    reveal_strlit("/");
    assert("http://"@ =~= seq!['h', 't', 't', 'p', ':', '/', '/']);
    assert("/"@ =~= seq!['/']);
}

/// The base URL of the host API served on the bind address `bind` (written as a
/// socket address, `host:port`): `http://{bind}/`, parsed.
pub fn host_api_url(bind: &str) -> (url: Result<String, String>)
    ensures
        url matches Ok(href) ==> spec_host_api_url(bind@) == Ok::<_, Seq<char>>(href@),
        url matches Err(message) ==> spec_host_api_url(bind@) == Err::<Seq<char>, _>(
            message@,
        ),
{
    let text = String::from_str("http://").concat(bind).concat("/");
    match parse_url(text.as_str()) {
        Ok(parts) => Ok(parts.href),
        Err(message) => Err(message),
    }
}

/// The URL of the shell callback `name` (such as `_start`): `name` resolved against
/// the shell's base URL, or `None` when it does not resolve.
pub fn callback_url(base_url: &str, name: &str) -> (url: Option<String>)
    ensures
        url matches Some(u) ==> url_join_outcome(base_url@, name@) == Some(u@),
        url is None ==> url_join_outcome(base_url@, name@) is None,
{
    join_url(base_url, name)
}

} // verus!
