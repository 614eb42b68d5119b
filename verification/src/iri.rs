//! Identifiers of actors, objects and activities: parsed, normalised URLs.

use vstd::prelude::*;
use vstd::string::*;
use crate::error::ApubError;

verus! {

/// `url::ParseError`, the error that `url::Url::parse` reports. Nothing is
/// known of its values; it is only told apart from success.
#[verifier::external_type_specification]
#[verifier::external_body]
pub struct ExParseError(url::ParseError);

/// What `url::Url::parse` makes of `input`: nothing where it reports an
/// error, else the serialisation of the parsed URL, its scheme and its
/// domain name (absent where the host is missing or is an IP address).
pub uninterp spec fn parsed_url(input: Seq<char>) -> Option<(Seq<char>, Seq<char>, Option<Seq<char>>)>;

/// A parsed identifier. Two identifiers denote the same thing exactly when
/// their serialisations are equal, so the view is the serialisation alone.
#[derive(Debug, PartialEq, Eq)]
pub struct Iri {
    text: String,
    scheme: String,
    domain: Option<String>,
}

impl View for Iri {
    type V = Seq<char>;

    closed spec fn view(&self) -> Seq<char> {
        self.text@
    }
}

/// The view of an optional string.
pub open spec fn opt_view(s: Option<String>) -> Option<Seq<char>> {
    match s {
        Some(t) => Some(t@),
        None => None,
    }
}

/// The serialisations of a list of identifiers, in order.
pub open spec fn texts(list: Seq<Iri>) -> Seq<Seq<char>> {
    list.map_values(|i: Iri| i@)
}

/// `s` ends with `suffix`.
pub open spec fn ends_with(s: Seq<char>, suffix: Seq<char>) -> bool {
    s.len() >= suffix.len() && s.subrange(s.len() - suffix.len(), s.len() as int) == suffix
}

/// `r` is what parsing `input` as an identifier gives.
pub open spec fn is_parse_of(input: Seq<char>, r: Result<Iri, ApubError>) -> bool {
    match parsed_url(input) {
        Some(parts) => r matches Ok(iri) && iri@ == parts.0 && iri.scheme_view() == parts.1
            && iri.domain_view() == parts.2,
        None => r == Err::<Iri, ApubError>(ApubError::MalformedEnvelope),
    }
}

/// Calls `url::Url::parse` on `input` and copies out of the parsed URL its
/// serialisation (`as_str`), scheme (`scheme`) and domain (`domain`). The
/// contract only names that outcome; nothing is claimed about which inputs
/// parse.
#[verifier::external_body]
fn parse_url(input: &str) -> (r: Result<Iri, url::ParseError>)
    ensures
        match parsed_url(input@) {
            Some(parts) => r matches Ok(iri) && iri@ == parts.0 && iri.scheme_view() == parts.1
                && iri.domain_view() == parts.2,
            None => r is Err,
        },
{
    match url::Url::parse(input) {
        Ok(u) => Ok(
            Iri {
                text: u.as_str().to_string(),
                scheme: u.scheme().to_string(),
                domain: u.domain().map(|d| d.to_string()),
            },
        ),
        Err(e) => Err(e),
    }
}

/// The serialisation of the address that stands for "everyone".
pub open spec fn public_text() -> Seq<char> {
    "https://www.w3.org/ns/activitystreams#Public"@
}

/// Calls `activitystreams_kinds::public`, which is documented to return the
/// URL `https://www.w3.org/ns/activitystreams#Public`, and copies its parts
/// out. The contract claims that serialisation and nothing else.
#[verifier::external_body]
pub(crate) fn public() -> (r: Iri)
    ensures
        r@ == public_text(),
{
    let u = activitystreams_kinds::public();
    Iri {
        text: u.as_str().to_string(),
        scheme: u.scheme().to_string(),
        domain: u.domain().map(|d| d.to_string()),
    }
}

impl Iri {
    /// The scheme, in the model.
    pub closed spec fn scheme_view(&self) -> Seq<char> {
        self.scheme@
    }

    /// The domain name of the host, in the model.
    pub closed spec fn domain_view(&self) -> Option<Seq<char>> {
        opt_view(self.domain)
    }

    /// Parses `input`; anything that is not URL-shaped is a malformed
    /// envelope field.
    pub fn parse(input: &str) -> (r: Result<Iri, ApubError>)
        ensures
            is_parse_of(input@, r),
    {
        match parse_url(input) {
            Ok(iri) => Ok(iri),
            Err(_) => Err(ApubError::MalformedEnvelope),
        }
    }

    /// The serialisation.
    pub fn as_str(&self) -> (r: &str)
        ensures
            r@ == self@,
    {
        self.text.as_str()
    }

    /// The scheme, such as `https`.
    pub fn scheme(&self) -> (r: &str)
        ensures
            r@ == self.scheme_view(),
    {
        self.scheme.as_str()
    }

    /// The domain name of the host, if the identifier has one.
    pub fn domain(&self) -> (r: Option<&str>)
        ensures
            match r {
                Some(d) => self.domain_view() == Some(d@),
                None => self.domain_view() is None,
            },
    {
        match &self.domain {
            Some(d) => Some(d.as_str()),
            None => None,
        }
    }

    /// Whether both identifiers have the same serialisation.
    pub fn same(&self, other: &Iri) -> (r: bool)
        ensures
            r == (self@ == other@),
    {
        self.text == other.text
    }

    /// The identifier obtained by parsing this one's serialisation followed
    /// by `suffix`.
    pub fn join(&self, suffix: &str) -> (r: Result<Iri, ApubError>)
        ensures
            is_parse_of(self@ + suffix@, r),
    {
        let extended = self.text.clone().concat(suffix);
        Iri::parse(extended.as_str())
    }

    /// The identifier obtained by parsing what precedes `suffix` in this
    /// one's serialisation; `None` where it does not end with `suffix`.
    pub fn strip_suffix(&self, suffix: &str) -> (r: Option<Result<Iri, ApubError>>)
        ensures
            match r {
                Some(parsed) => ends_with(self@, suffix@) && is_parse_of(
                    self@.subrange(0, self@.len() - suffix@.len()),
                    parsed,
                ),
                None => !ends_with(self@, suffix@),
            },
    {
        let text = self.text.as_str();
        let n = text.unicode_len();
        let m = suffix.unicode_len();
        if n < m {
            return None;
        }
        let tail = String::from_str(text.substring_char(n - m, n));
        let wanted = String::from_str(suffix);
        if tail == wanted {
            Some(Iri::parse(text.substring_char(0, n - m)))
        } else {
            None
        }
    }
}

impl Clone for Iri {
    fn clone(&self) -> (r: Self)
        ensures
            r == *self,
    {
        let domain = match &self.domain {
            Some(d) => Some(d.clone()),
            None => None,
        };
        Iri { text: self.text.clone(), scheme: self.scheme.clone(), domain }
    }
}

} // verus!
