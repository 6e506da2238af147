//! Site and candidate URLs: scheme defaulting, parsing, the `www.` host
//! rewrite, and resolution of references against a base.
//!
//! A [`SiteUrl`] holds the serialization of an absolute URL. Parsing, host
//! replacement and joining are done by the `url` crate; what it returns is
//! named by the functions `parsed_url`, `url_host`, `url_with_host` and
//! `joined_url`, and the contracts of this module are stated over those names.

use vstd::prelude::*;

use crate::errors::FavilibError;
use crate::text::{has_prefix, starts_with};

verus! {

/// The error of the `url` crate, told apart from success and no further.
#[verifier::external_type_specification]
#[verifier::external_body]
pub struct ExParseError(url::ParseError);

/// The serialization of the absolute URL that `text` parses as; `None` where
/// `text` is not an absolute URL.
pub uninterp spec fn parsed_url(text: Seq<char>) -> Option<Seq<char>>;

/// The host of the URL that `text` parses as; `None` where `text` is not an
/// absolute URL or the URL has no host.
pub uninterp spec fn url_host(text: Seq<char>) -> Option<Seq<char>>;

/// The serialization of the URL that `text` parses as after its host was
/// replaced by `host`; `None` where `text` is not an absolute URL or the
/// replacement is refused.
pub uninterp spec fn url_with_host(text: Seq<char>, host: Seq<char>) -> Option<Seq<char>>;

/// The serialization of `reference` resolved against the URL that `base`
/// parses as; `None` where `base` is not an absolute URL or `reference` cannot
/// be resolved against it.
pub uninterp spec fn joined_url(base: Seq<char>, reference: Seq<char>) -> Option<Seq<char>>;

/// Calls `url::Url::parse` and hands back the serialization of the URL.
/// The contract only names the result: `Ok` with the serialization that
/// `parsed_url` gives, `Err` exactly where `parsed_url` is `None`.
#[verifier::external_body]
fn parse_absolute(text: &str) -> (parsed: Result<String, url::ParseError>)
    ensures
        match parsed {
            Ok(serialization) => parsed_url(text@) == Some(serialization@),
            Err(_) => parsed_url(text@) is None,
        },
{
    url::Url::parse(text).map(String::from)
}

/// Calls `url::Url::host_str` on the URL that `text` parses as. The contract
/// only names the result, as `url_host`.
#[verifier::external_body]
fn host_of(text: &str) -> (host: Option<String>)
    ensures
        host.deep_view() == url_host(text@),
{
    url::Url::parse(text).ok()?.host_str().map(String::from)
}

/// Calls `url::Url::set_host` on the URL that `text` parses as and hands back
/// the new serialization. The contract only names the result, as
/// `url_with_host`; an error of the parser or of the replacement is `None`
/// there.
#[verifier::external_body]
fn replace_host(text: &str, host: &str) -> (replaced: Result<String, url::ParseError>)
    ensures
        match replaced {
            Ok(serialization) => url_with_host(text@, host@) == Some(serialization@),
            Err(_) => url_with_host(text@, host@) is None,
        },
{
    let mut url = url::Url::parse(text)?;
    url.set_host(Some(host))?;
    Ok(String::from(url))
}

/// Calls `url::Url::join` on the URL that `base` parses as. The contract only
/// names the result, as `joined_url`.
#[verifier::external_body]
fn join_reference(base: &str, reference: &str) -> (joined: Result<String, url::ParseError>)
    ensures
        match joined {
            Ok(serialization) => joined_url(base@, reference@) == Some(serialization@),
            Err(_) => joined_url(base@, reference@) is None,
        },
{
    url::Url::parse(base)?.join(reference).map(String::from)
}

/// An absolute URL, held as its serialization.
#[derive(Debug, PartialEq, Eq)]
pub struct SiteUrl {
    text: String,
}

impl View for SiteUrl {
    type V = Seq<char>;

    closed spec fn view(&self) -> Seq<char> {
        self.text@
    }
}

impl DeepView for SiteUrl {
    type V = Seq<char>;

    open spec fn deep_view(&self) -> Seq<char> {
        self@
    }
}

impl Clone for SiteUrl {
    fn clone(&self) -> (copy: SiteUrl)
        ensures
            copy == *self,
    {
        SiteUrl { text: self.text.clone() }
    }
}

/// What a fallible URL operation hands back, with the URL as its serialization.
pub open spec fn url_outcome(parsed: Option<Seq<char>>) -> Result<Seq<char>, FavilibError> {
    match parsed {
        Some(serialization) => Ok(serialization),
        None => Err(FavilibError::InvalidUrl),
    }
}

/// The serialization inside a result that holds a URL.
pub open spec fn outcome_view(outcome: Result<SiteUrl, FavilibError>) -> Result<
    Seq<char>,
    FavilibError,
> {
    match outcome {
        Ok(url) => Ok(url@),
        Err(error) => Err(error),
    }
}

impl SiteUrl {
    /// Parses an absolute URL. Fails with `InvalidUrl` exactly where `input`
    /// is not one.
    pub fn parse(input: &str) -> (outcome: Result<SiteUrl, FavilibError>)
        ensures
            outcome_view(outcome) == url_outcome(parsed_url(input@)),
    {
        match parse_absolute(input) {
            Ok(text) => Ok(SiteUrl { text }),
            Err(_) => Err(FavilibError::InvalidUrl),
        }
    }

    /// The serialization of this URL.
    pub fn as_str(&self) -> (text: &str)
        ensures
            text@ == self@,
    {
        self.text.as_str()
    }

    /// The host of this URL, if it has one.
    pub fn host_str(&self) -> (host: Option<String>)
        ensures
            host.deep_view() == url_host(self@),
    {
        host_of(self.text.as_str())
    }

    /// Resolves `reference` against this URL. Fails with `InvalidUrl` exactly
    /// where the reference cannot be resolved.
    pub fn join(&self, reference: &str) -> (outcome: Result<SiteUrl, FavilibError>)
        ensures
            outcome_view(outcome) == url_outcome(joined_url(self@, reference@)),
    {
        match join_reference(self.text.as_str(), reference) {
            Ok(text) => Ok(SiteUrl { text }),
            Err(_) => Err(FavilibError::InvalidUrl),
        }
    }
}

/// `input` names its scheme as `http` or `https`.
pub open spec fn has_scheme(input: Seq<char>) -> bool {
    has_prefix(input, "http://"@) || has_prefix(input, "https://"@)
}

/// `input` with `https://` put in front unless it names its scheme.
pub open spec fn with_scheme(input: Seq<char>) -> Seq<char> {
    if has_scheme(input) {
        input
    } else {
        "https://"@ + input
    }
}

/// Puts `https://` in front of an input that names no scheme, and leaves an
/// input that names one unchanged.
pub fn with_default_scheme(input: &str) -> (text: String)
    ensures
        text@ == with_scheme(input@),
        has_scheme(input@) ==> text@ == input@,
        !has_scheme(input@) ==> text@ == "https://"@ + input@,
{
    if starts_with(input, "http://") || starts_with(input, "https://") {
        String::from_str(input)
    } else {
        String::from_str("https://").concat(input)
    }
}

/// The URL with serialization `serialization` has the scheme that `text`
/// names, be it `http` or `https`.
pub open spec fn keeps_scheme(text: Seq<char>, serialization: Seq<char>) -> bool {
    ||| has_prefix(text, "http://"@) && has_prefix(serialization, "http://"@)
    ||| has_prefix(text, "https://"@) && has_prefix(serialization, "https://"@)
}

/// The site URL that an input stands for: the input with its scheme is
/// parsed as an absolute URL. It is refused where it does not parse, and
/// where what comes out does not have the scheme that went in.
pub open spec fn site_url_of(input: Seq<char>) -> Result<Seq<char>, FavilibError> {
    match parsed_url(with_scheme(input)) {
        Some(serialization) => if keeps_scheme(with_scheme(input), serialization) {
            Ok(serialization)
        } else {
            Err(FavilibError::InvalidUrl)
        },
        None => Err(FavilibError::InvalidUrl),
    }
}

/// Turns what a user typed into a site URL: the scheme defaults to `https`,
/// and the result is parsed as an absolute URL. Fails with `InvalidUrl`
/// where the text with its scheme is not an absolute URL. The scheme of the
/// site URL is `http` or `https`: the one that the input names, and `https`
/// where it names none.
pub fn parse_url(url: &str) -> (outcome: Result<SiteUrl, FavilibError>)
    ensures
        outcome_view(outcome) == site_url_of(url@),
        outcome matches Ok(site) ==> has_scheme(site@) && keeps_scheme(with_scheme(url@), site@),
        outcome matches Ok(site) ==> !has_scheme(url@) ==> has_prefix(site@, "https://"@),
{
    let text = with_default_scheme(url);
    proof {
        lemma_with_scheme_has_scheme(url@);
        lemma_schemes_differ(text@);
    }
    let scheme = if starts_with(text.as_str(), "http://") {
        "http://"
    } else {
        "https://"
    };
    match SiteUrl::parse(text.as_str()) {
        Ok(site) => {
            if starts_with(site.as_str(), scheme) {
                Ok(site)
            } else {
                proof {
                    lemma_schemes_differ(site@);
                }
                Err(FavilibError::InvalidUrl)
            }
        },
        Err(error) => Err(error),
    }
}

/// An input with its scheme names `http` or `https`, and `https` where the
/// input itself names none.
pub proof fn lemma_with_scheme_has_scheme(input: Seq<char>)
    ensures
        has_scheme(with_scheme(input)),
        !has_scheme(input) ==> has_prefix(with_scheme(input), "https://"@),
{
    if !has_scheme(input) {
        let text = "https://"@ + input;
        assert(text.subrange(0, "https://"@.len() as int) =~= "https://"@);
    }
}

/// No text names both `http` and `https`.
pub proof fn lemma_schemes_differ(text: Seq<char>)
    ensures
        !(has_prefix(text, "http://"@) && has_prefix(text, "https://"@)),
{
    reveal_strlit("http://");
    reveal_strlit("https://");
    if has_prefix(text, "http://"@) && has_prefix(text, "https://"@) {
        assert(text.subrange(0, 7)[4] == ':');
        assert(text.subrange(0, 8)[4] == 's');
    }
}

/// `host` already names the `www` subdomain.
pub open spec fn www_prefixed(host: Seq<char>) -> bool {
    has_prefix(host, "www."@)
}

/// The host that the rewrite asks for: `None` where `host` already begins with
/// `www.`, else `host` with `www.` in front.
pub open spec fn www_target(host: Seq<char>) -> Option<Seq<char>> {
    if www_prefixed(host) {
        None
    } else {
        Some("www."@ + host)
    }
}

/// What the host rewrite makes of the URL with serialization `text`.
///
/// A URL without a host is refused. A URL whose host begins with `www.` is
/// kept as it is. Any other URL has its host replaced by the host with `www.`
/// in front; it is refused where the replacement is, or where the host that
/// comes out does not begin with `www.`.
pub open spec fn www_rewrite(text: Seq<char>) -> Result<Seq<char>, FavilibError> {
    match url_host(text) {
        None => Err(FavilibError::InvalidUrl),
        Some(host) => match www_target(host) {
            None => Ok(text),
            Some(target) => match url_with_host(text, target) {
                None => Err(FavilibError::InvalidUrl),
                Some(rewritten) => match url_host(rewritten) {
                    None => Err(FavilibError::InvalidUrl),
                    Some(new_host) => if www_prefixed(new_host) {
                        Ok(rewritten)
                    } else {
                        Err(FavilibError::InvalidUrl)
                    },
                },
            },
        },
    }
}

/// The host to put in place of `host`, if it needs one: `host` with `www.` in
/// front, unless it begins with `www.` already.
pub fn www_host(host: &str) -> (target: Option<String>)
    ensures
        target.deep_view() == www_target(host@),
{
    if starts_with(host, "www.") {
        None
    } else {
        Some(String::from_str("www.").concat(host))
    }
}

/// Rewrites the host of `url` to the `www` subdomain. Fails with `InvalidUrl`
/// where the URL has no host or the rewrite is refused. The host of the URL
/// that comes out begins with `www.`.
pub fn add_www_to_host(url: SiteUrl) -> (outcome: Result<SiteUrl, FavilibError>)
    ensures
        outcome_view(outcome) == www_rewrite(url@),
        outcome matches Ok(rewritten) ==> url_host(rewritten@) matches Some(host) && www_prefixed(
            host,
        ),
{
    let host = match url.host_str() {
        Some(host) => host,
        None => {
            return Err(FavilibError::InvalidUrl);
        },
    };
    let target = match www_host(host.as_str()) {
        Some(target) => target,
        None => {
            return Ok(url);
        },
    };
    let rewritten = match replace_host(url.as_str(), target.as_str()) {
        Ok(text) => SiteUrl { text },
        Err(_) => {
            return Err(FavilibError::InvalidUrl);
        },
    };
    match rewritten.host_str() {
        Some(new_host) => {
            if starts_with(new_host.as_str(), "www.") {
                Ok(rewritten)
            } else {
                Err(FavilibError::InvalidUrl)
            }
        },
        None => Err(FavilibError::InvalidUrl),
    }
}

/// The host rewrite is idempotent: a URL that came out of it has a host that
/// begins with `www.`, and is left as it is by a second rewrite.
pub proof fn lemma_www_rewrite_idempotent(text: Seq<char>)
    ensures
        www_rewrite(text) matches Ok(rewritten) ==> {
            &&& url_host(rewritten) matches Some(host) && www_prefixed(host)
            &&& www_rewrite(rewritten) == Ok::<Seq<char>, FavilibError>(rewritten)
        },
{
}

/// A URL whose host begins with `www.` is a fixed point of the host rewrite.
pub proof fn lemma_www_rewrite_keeps_www(text: Seq<char>)
    requires
        url_host(text) matches Some(host) && www_prefixed(host),
    ensures
        www_rewrite(text) == Ok::<Seq<char>, FavilibError>(text),
{
}

} // verus!
