//! Values without identity of their own: tab identifiers, instants,
//! validated URLs and certificates.

use crate::domain::errors::BrowserError;
use crate::text::{starts_with, str_eq};
use vstd::arithmetic::power::pow;
use vstd::prelude::*;

verus! {

// ---------------------------------------------------------------------------
// Tab identifiers
// ---------------------------------------------------------------------------
/// Identifier of a tab: the 128 bits of a UUID. Two identifiers are the same
/// exactly when their bits are.
#[derive(Clone, Copy, Debug, PartialEq, Eq, Hash, Structural)]
pub struct TabId(u128);

/// The hexadecimal digit for `n`, lower case.
pub open spec fn hex_digit(n: int) -> char {
    "0123456789abcdef"@[n]
}

/// Which of the 32 digits stands at index `i` of the hyphenated form, for an
/// `i` that is not the index of a hyphen.
pub open spec fn digit_index(i: int) -> int {
    if i > 23 {
        i - 4
    } else if i > 18 {
        i - 3
    } else if i > 13 {
        i - 2
    } else if i > 8 {
        i - 1
    } else {
        i
    }
}

/// The usual written form of a UUID with the given bits: 32 lower-case
/// hexadecimal digits, most significant first, in groups of 8, 4, 4, 4 and 12
/// separated by hyphens.
pub open spec fn hyphenated(bits: u128) -> Seq<char> {
    Seq::new(
        36,
        |i: int|
            if i == 8 || i == 13 || i == 18 || i == 23 {
                '-'
            } else {
                hex_digit((bits as int / pow(16, (31 - digit_index(i)) as nat)) % 16)
            },
    )
}

/// The bits are those of a random UUID, of version 4: the digit of the
/// version, the thirteenth of the 32, is 4, and the two bits of the variant,
/// the highest of the seventeenth digit, are 1 and 0. The other 122 bits are
/// free.
pub open spec fn is_version_4(bits: u128) -> bool {
    &&& (bits as int / 0x1000_0000_0000_0000_0000) % 16 == 4
    &&& (bits as int / 0x4000_0000_0000_0000) % 4 == 2
}

/// `uuid::Uuid::new_v4` draws 128 random bits and sets among them the
/// version to 4 and the variant to that of RFC 4122; `Uuid::as_u128` reads
/// the bits, most significant byte first. The value depends on chance: only
/// the bits that are set in every draw are claimed.
#[verifier::external_body]
fn random_uuid_bits() -> (bits: u128)
    ensures
        is_version_4(bits),
{
    uuid::Uuid::new_v4().as_u128()
}

/// `uuid::Uuid::from_u128` makes the UUID whose bytes are those of `bits`,
/// most significant first, and its `Display` writes them in the hyphenated
/// lower-case form.
#[verifier::external_body]
fn uuid_text(bits: u128) -> (text: String)
    ensures
        text@ == hyphenated(bits),
{
    uuid::Uuid::from_u128(bits).to_string()
}

impl TabId {
    /// The 128 bits of this identifier.
    pub closed spec fn bits(self) -> u128 {
        self.0
    }

    /// A new identifier: the bits of a version-4 UUID, drawn at random.
    pub fn new() -> (id: Self)
        ensures
            is_version_4(id.bits()),
    {
        TabId(random_uuid_bits())
    }

    /// The identifier with the given bits.
    pub fn from_u128(bits: u128) -> (id: Self)
        ensures
            id.bits() == bits,
    {
        TabId(bits)
    }

    /// The bits of this identifier.
    pub fn as_u128(&self) -> (bits: u128)
        ensures
            bits == self.bits(),
    {
        self.0
    }

    /// The identifier in the hyphenated form of a UUID.
    pub fn to_text(&self) -> (text: String)
        ensures
            text@ == hyphenated(self.bits()),
    {
        uuid_text(self.0)
    }

    /// Identifiers with the same bits are the same identifier.
    pub proof fn lemma_bits_identify(a: TabId, b: TabId)
        ensures
            a.bits() == b.bits() <==> a == b,
    {
    }
}

// ---------------------------------------------------------------------------
// Instants
// ---------------------------------------------------------------------------
/// An instant on the UTC time line: whole seconds since 1970-01-01T00:00:00Z
/// and the nanoseconds past that second.
#[derive(Clone, Copy, Debug, PartialEq, Eq, Structural)]
pub struct Timestamp {
    pub secs: i64,
    pub nanos: u32,
}

/// Seconds in a day.
pub const SECONDS_PER_DAY: i64 = 86_400;

/// `chrono::Utc::now` reads the system clock; `DateTime::timestamp` and
/// `DateTime::timestamp_subsec_nanos` split the reading into seconds since
/// the Unix epoch and nanoseconds. The reading is built from a duration since
/// the epoch, so the seconds are not negative and the nanoseconds stay below
/// one second. (On a clock set before 1970 the call does not return.)
#[verifier::external_body]
fn clock_now() -> (t: Timestamp)
    ensures
        t.secs >= 0,
        t.nanos < 1_000_000_000,
{
    let now = chrono::Utc::now();
    Timestamp { secs: now.timestamp(), nanos: now.timestamp_subsec_nanos() }
}

impl Timestamp {
    /// `self` is no later than `other`.
    pub open spec fn not_after(self, other: Timestamp) -> bool {
        self.secs < other.secs || (self.secs == other.secs && self.nanos <= other.nanos)
    }

    /// The later of the two instants.
    pub open spec fn later(self, other: Timestamp) -> Timestamp {
        if self.not_after(other) {
            other
        } else {
            self
        }
    }

    /// The present instant, as the system clock has it.
    pub fn now() -> (t: Self)
        ensures
            t.secs >= 0,
            t.nanos < 1_000_000_000,
    {
        clock_now()
    }

    /// Whether `self` is no later than `other`.
    pub fn is_not_after(&self, other: &Timestamp) -> (b: bool)
        ensures
            b == self.not_after(*other),
    {
        self.secs < other.secs || (self.secs == other.secs && self.nanos <= other.nanos)
    }

    /// The later of the two instants.
    pub fn later_of(self, other: Timestamp) -> (t: Timestamp)
        ensures
            t == self.later(other),
    {
        if self.is_not_after(&other) {
            other
        } else {
            self
        }
    }

    /// The instant `days` days after this one, or `None` where the seconds
    /// would not fit in 64 bits.
    pub fn plus_days(self, days: u32) -> (t: Option<Timestamp>)
        ensures
            match t {
                Some(t) => t.secs == self.secs + days * SECONDS_PER_DAY && t.nanos == self.nanos,
                None => self.secs + days * SECONDS_PER_DAY > i64::MAX,
            },
    {
        let span: i64 = (days as i64) * SECONDS_PER_DAY;
        match self.secs.checked_add(span) {
            Some(secs) => Some(Timestamp { secs, nanos: self.nanos }),
            None => None,
        }
    }
}

// ---------------------------------------------------------------------------
// URLs
// ---------------------------------------------------------------------------
/// The schemes that the browser opens.
#[derive(Clone, Copy, Debug, PartialEq, Eq, Structural)]
pub enum Scheme {
    Http,
    Https,
    About,
    Data,
}

impl Scheme {
    /// The scheme as it is written in a URL, without the colon.
    pub open spec fn text(self) -> Seq<char> {
        match self {
            Scheme::Http => "http"@,
            Scheme::Https => "https"@,
            Scheme::About => "about"@,
            Scheme::Data => "data"@,
        }
    }

    /// The scheme written as `s`, if the browser opens it.
    pub open spec fn named(s: Seq<char>) -> Option<Scheme> {
        if s == "http"@ {
            Some(Scheme::Http)
        } else if s == "https"@ {
            Some(Scheme::Https)
        } else if s == "about"@ {
            Some(Scheme::About)
        } else if s == "data"@ {
            Some(Scheme::Data)
        } else {
            None
        }
    }

    /// The scheme as it is written in a URL, without the colon.
    pub fn as_str(&self) -> (s: &'static str)
        ensures
            s@ == self.text(),
    {
        match self {
            Scheme::Http => "http",
            Scheme::Https => "https",
            Scheme::About => "about",
            Scheme::Data => "data",
        }
    }

    /// The scheme written as `s`, if the browser opens it.
    pub fn from_name(s: &str) -> (scheme: Option<Scheme>)
        ensures
            scheme == Scheme::named(s@),
    {
        if str_eq(s, "http") {
            Some(Scheme::Http)
        } else if str_eq(s, "https") {
            Some(Scheme::Https)
        } else if str_eq(s, "about") {
            Some(Scheme::About)
        } else if str_eq(s, "data") {
            Some(Scheme::Data)
        } else {
            None
        }
    }

    /// A scheme is found again under its own name.
    pub proof fn lemma_named_text(scheme: Scheme)
        ensures
            Scheme::named(scheme.text()) == Some(scheme),
    {
        reveal_strlit("http");
        reveal_strlit("https");
        reveal_strlit("about");
        reveal_strlit("data");
        assert("http"@.len() == 4);
        assert("https"@.len() == 5);
        assert("about"@[0] == 'a');
        assert("data"@[0] == 'd');
        assert("http"@[0] == 'h');
    }
}

/// What the URL parser reports of a text that it accepts. The parser writes
/// URLs in a normal form; `text` is that form.
#[derive(Debug)]
pub struct UrlParts {
    /// The whole URL in normal form.
    pub text: String,
    /// The scheme, lower case, without the colon.
    pub scheme: String,
    /// The host, for a URL that has one.
    pub host: Option<String>,
}

/// [`UrlParts`] as sequences of characters.
pub struct ParsedUrl {
    pub text: Seq<char>,
    pub scheme: Seq<char>,
    pub host: Option<Seq<char>>,
}

impl View for UrlParts {
    type V = ParsedUrl;

    open spec fn view(&self) -> ParsedUrl {
        ParsedUrl {
            text: self.text@,
            scheme: self.scheme@,
            host: match self.host {
                Some(h) => Some(h@),
                None => None,
            },
        }
    }
}

/// What the URL parser makes of `input`: the parts of the URL, or the
/// parser's description of why `input` is none.
pub uninterp spec fn url_parse(input: Seq<char>) -> Result<ParsedUrl, Seq<char>>;

/// `url::Url::parse` parses an absolute URL. Of an accepted input this hands
/// on the serialization (`Url::as_str`), the scheme (`Url::scheme`) and the
/// host (`Url::host_str`); of a rejected one, the text of the `ParseError`.
/// The result is a function of the input, known by the name [`url_parse`].
///
/// Three facts of the parser are stated beside the name. An input that
/// begins with `http://` or `https://` in lower case has that scheme: the
/// parser reads the scheme up to the first colon. And the serialization of a
/// URL with one of these two schemes begins with the scheme and `://`: for
/// them the parser writes the two slashes itself.
#[verifier::external_body]
fn parse_url(input: &str) -> (r: Result<UrlParts, String>)
    ensures
        match r {
            Ok(parts) => url_parse(input@) == Ok::<ParsedUrl, Seq<char>>(parts@),
            Err(reason) => url_parse(input@) == Err::<ParsedUrl, Seq<char>>(reason@),
        },
        r matches Ok(parts) ==> {
            &&& starts_with(input@, "http://"@) ==> parts.scheme@ == "http"@
            &&& starts_with(input@, "https://"@) ==> parts.scheme@ == "https"@
            &&& parts.scheme@ == "http"@ ==> starts_with(parts.text@, "http://"@)
            &&& parts.scheme@ == "https"@ ==> starts_with(parts.text@, "https://"@)
        },
{
    match url::Url::parse(input) {
        Ok(u) => Ok(
            UrlParts {
                text: u.as_str().to_string(),
                scheme: u.scheme().to_string(),
                host: u.host_str().map(|h| h.to_string()),
            },
        ),
        Err(e) => Err(e.to_string()),
    }
}

/// A URL that the browser may open: it has an explicit scheme, and that
/// scheme is one of [`Scheme`]. Two validated URLs are the same when their
/// normal forms are.
#[derive(Debug)]
pub struct ValidatedUrl {
    text: String,
    scheme: Scheme,
    host: Option<String>,
}

/// A [`ValidatedUrl`] as sequences of characters.
pub struct UrlView {
    pub text: Seq<char>,
    pub scheme: Scheme,
    pub host: Option<Seq<char>>,
}

impl View for ValidatedUrl {
    type V = UrlView;

    closed spec fn view(&self) -> UrlView {
        UrlView {
            text: self.text@,
            scheme: self.scheme,
            host: match self.host {
                Some(h) => Some(h@),
                None => None,
            },
        }
    }
}

/// The view of an optional URL.
pub open spec fn url_view(url: Option<ValidatedUrl>) -> Option<UrlView> {
    match url {
        Some(u) => Some(u@),
        None => None,
    }
}

/// What becomes of a parser's report: a validated URL where the text parsed
/// and its scheme is one the browser opens, `InvalidUrl` with the parser's
/// description where it did not parse, `UnsupportedScheme` with the scheme
/// otherwise.
pub open spec fn validated_from(parsed: Result<ParsedUrl, Seq<char>>) -> Result<
    UrlView,
    crate::domain::errors::ErrorView,
> {
    match parsed {
        Err(reason) => Err(crate::domain::errors::ErrorView::InvalidUrl(reason)),
        Ok(parts) => match Scheme::named(parts.scheme) {
            Some(scheme) => Ok(UrlView { text: parts.text, scheme, host: parts.host }),
            None => Err(crate::domain::errors::ErrorView::UnsupportedScheme(parts.scheme)),
        },
    }
}

/// The views of a result of validation.
pub open spec fn validation_view(r: Result<ValidatedUrl, BrowserError>) -> Result<
    UrlView,
    crate::domain::errors::ErrorView,
> {
    match r {
        Ok(url) => Ok(url@),
        Err(e) => Err(e@),
    }
}

impl ValidatedUrl {
    /// Checks the scheme of a parsed URL, or hands on the parser's refusal.
    pub fn from_parsed(parsed: Result<UrlParts, String>) -> (r: Result<ValidatedUrl, BrowserError>)
        ensures
            validation_view(r) == validated_from(
                match parsed {
                    Ok(parts) => Ok(parts@),
                    Err(reason) => Err(reason@),
                },
            ),
    {
        match parsed {
            Err(reason) => Err(BrowserError::InvalidUrl(reason)),
            Ok(parts) => match Scheme::from_name(parts.scheme.as_str()) {
                Some(scheme) => Ok(ValidatedUrl { text: parts.text, scheme, host: parts.host }),
                None => Err(BrowserError::UnsupportedScheme(parts.scheme)),
            },
        }
    }

    /// Parses `input` as an absolute URL and checks its scheme.
    ///
    /// A text that begins with `http://` or `https://` is accepted exactly
    /// when the parser accepts it, with that scheme; it can fail only as
    /// `InvalidUrl`, never as `UnsupportedScheme`.
    pub fn parse(input: &str) -> (r: Result<ValidatedUrl, BrowserError>)
        ensures
            validation_view(r) == validated_from(url_parse(input@)),
            r matches Ok(url) ==> {
                &&& starts_with(input@, "http://"@) ==> url@.scheme == Scheme::Http
                &&& starts_with(input@, "https://"@) ==> url@.scheme == Scheme::Https
                &&& url@.scheme == Scheme::Http ==> starts_with(url@.text, "http://"@)
                &&& url@.scheme == Scheme::Https ==> starts_with(url@.text, "https://"@)
            },
            starts_with(input@, "http://"@) || starts_with(input@, "https://"@) ==> {
                &&& r is Ok <==> url_parse(input@) is Ok
                &&& r matches Err(e) ==> e@ is InvalidUrl
            },
    {
        let parsed = parse_url(input);
        proof {
            Scheme::lemma_named_text(Scheme::Http);
            Scheme::lemma_named_text(Scheme::Https);
            Scheme::lemma_named_text(Scheme::About);
            Scheme::lemma_named_text(Scheme::Data);
        }
        ValidatedUrl::from_parsed(parsed)
    }

    /// The URL in normal form.
    pub fn as_str(&self) -> (s: &str)
        ensures
            s@ == self@.text,
    {
        self.text.as_str()
    }

    /// The scheme, without the colon.
    pub fn scheme(&self) -> (s: &'static str)
        ensures
            s@ == self@.scheme.text(),
    {
        self.scheme.as_str()
    }

    /// The scheme, as one of the four.
    pub fn scheme_kind(&self) -> (scheme: Scheme)
        ensures
            scheme == self@.scheme,
    {
        self.scheme
    }

    /// Whether the URL is fetched over an encrypted connection.
    pub fn is_secure(&self) -> (b: bool)
        ensures
            b == (self@.scheme == Scheme::Https),
    {
        match self.scheme {
            Scheme::Https => true,
            _ => false,
        }
    }

    /// The host, for a URL that has one.
    pub fn host_str(&self) -> (host: Option<&str>)
        ensures
            match host {
                Some(h) => self@.host == Some(h@),
                None => self@.host is None,
            },
    {
        match &self.host {
            Some(h) => Some(h.as_str()),
            None => None,
        }
    }

    /// The URL as text: its normal form.
    pub fn to_text(&self) -> (text: String)
        ensures
            text@ == self@.text,
    {
        self.text.clone()
    }
}

impl PartialEq for ValidatedUrl {
    /// Two validated URLs are equal when their normal forms are.
    fn eq(&self, other: &ValidatedUrl) -> (b: bool) {
        str_eq(self.text.as_str(), other.text.as_str())
    }
}

impl vstd::std_specs::cmp::PartialEqSpecImpl for ValidatedUrl {
    open spec fn obeys_eq_spec() -> bool {
        true
    }

    open spec fn eq_spec(&self, other: &ValidatedUrl) -> bool {
        self@.text == other@.text
    }
}

impl Eq for ValidatedUrl {

}

impl Clone for ValidatedUrl {
    fn clone(&self) -> (copy: Self)
        ensures
            copy@ == self@,
    {
        ValidatedUrl {
            text: self.text.clone(),
            scheme: self.scheme,
            host: match &self.host {
                Some(h) => Some(h.clone()),
                None => None,
            },
        }
    }
}

// ---------------------------------------------------------------------------
// Certificates
// ---------------------------------------------------------------------------
/// What is known of the certificate that a host presented.
#[derive(Debug)]
pub struct Certificate {
    pub subject: String,
    pub issuer: String,
    pub valid_from: Timestamp,
    pub valid_until: Timestamp,
    pub is_valid: bool,
}

/// A [`Certificate`] with its texts as sequences of characters.
pub struct CertificateView {
    pub subject: Seq<char>,
    pub issuer: Seq<char>,
    pub valid_from: Timestamp,
    pub valid_until: Timestamp,
    pub is_valid: bool,
}

impl View for Certificate {
    type V = CertificateView;

    open spec fn view(&self) -> CertificateView {
        CertificateView {
            subject: self.subject@,
            issuer: self.issuer@,
            valid_from: self.valid_from,
            valid_until: self.valid_until,
            is_valid: self.is_valid,
        }
    }
}

impl Certificate {
    /// Whether the certificate's validity has ended by the instant `now`.
    pub fn is_expired_at(&self, now: Timestamp) -> (b: bool)
        ensures
            b == !now.not_after(self.valid_until),
    {
        !now.is_not_after(&self.valid_until)
    }

    /// Whether the certificate's validity has ended by now, whenever now
    /// is: some instant not before 1970.
    pub fn is_expired(&self) -> (b: bool)
        ensures
            exists|now: Timestamp|
                now.secs >= 0 && now.nanos < 1_000_000_000 && b == !#[trigger] now.not_after(
                    self.valid_until,
                ),
    {
        self.is_expired_at(Timestamp::now())
    }
}

impl Clone for Certificate {
    fn clone(&self) -> (copy: Self)
        ensures
            copy@ == self@,
    {
        Certificate {
            subject: self.subject.clone(),
            issuer: self.issuer.clone(),
            valid_from: self.valid_from,
            valid_until: self.valid_until,
            is_valid: self.is_valid,
        }
    }
}

} // verus!
