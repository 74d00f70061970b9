//! What is decided around a network request: whether the certificate of a
//! URL can be asked for at all, and what is noted of it afterwards.
//!
//! Nothing here inspects a certificate chain. The certificate that is noted
//! is provisional: it names the host, an unknown issuer, and a year of
//! validity from the moment of the request.

use crate::domain::entities::{SecurityContext, SecurityContextView};
use crate::domain::errors::{BrowserError, ErrorView};
use crate::domain::value_objects::{
    Certificate,
    CertificateView,
    Scheme,
    Timestamp,
    UrlView,
    ValidatedUrl,
    SECONDS_PER_DAY,
};
use vstd::prelude::*;

verus! {

/// For how many days a provisional certificate is taken to be valid.
pub const PROVISIONAL_DAYS: u32 = 365;

/// The provisional certificate of `url`, noted at the instant `now` after a
/// request that succeeded or not.
pub open spec fn provisional(url: UrlView, now: Timestamp, reachable: bool) -> CertificateView {
    CertificateView {
        subject: match url.host {
            Some(host) => host,
            None => "unknown"@,
        },
        issuer: "Unknown CA"@,
        valid_from: now,
        valid_until: Timestamp {
            secs: (now.secs + PROVISIONAL_DAYS * SECONDS_PER_DAY) as i64,
            nanos: now.nanos,
        },
        is_valid: reachable,
    }
}

/// Whether a certificate can be asked for: only for a URL that is fetched
/// over HTTPS. For any other the request is not made.
pub fn ensure_verifiable(url: &ValidatedUrl) -> (r: Result<(), BrowserError>)
    ensures
        match r {
            Ok(_) => url@.scheme == Scheme::Https,
            Err(e) => url@.scheme != Scheme::Https && e@ == ErrorView::NetworkFailure(
                "Cannot verify certificate for non-HTTPS URL"@,
            ),
        },
{
    if url.is_secure() {
        Ok(())
    } else {
        Err(
            BrowserError::NetworkFailure(
                String::from_str("Cannot verify certificate for non-HTTPS URL"),
            ),
        )
    }
}

/// The provisional certificate of `url`, noted at the instant `now`;
/// `reachable` says whether the request to the host succeeded. The end of
/// the validity has to be an instant that can be written down.
pub fn provisional_certificate(url: &ValidatedUrl, now: Timestamp, reachable: bool) -> (certificate:
    Certificate)
    requires
        now.secs + PROVISIONAL_DAYS * SECONDS_PER_DAY <= i64::MAX,
    ensures
        certificate@ == provisional(url@, now, reachable),
{
    let subject = match url.host_str() {
        Some(host) => String::from_str(host),
        None => String::from_str("unknown"),
    };
    let valid_until = match now.plus_days(PROVISIONAL_DAYS) {
        Some(end) => end,
        None => now,
    };
    Certificate {
        subject,
        issuer: String::from_str("Unknown CA"),
        valid_from: now,
        valid_until,
        is_valid: reachable,
    }
}

/// What is noted of the connection to `url` after its certificate was
/// asked for: a secure context with the certificate, where the URL is
/// fetched over HTTPS and a certificate was obtained; in every other case
/// the context of which nothing is known.
pub open spec fn assessed(url: UrlView, certificate: Option<CertificateView>) -> SecurityContextView {
    match certificate {
        Some(c) if url.scheme == Scheme::Https => SecurityContextView::secured_by(c),
        _ => SecurityContextView::unknown(),
    }
}

/// The security context of `url`, given the certificate that was obtained
/// for it, if one was.
pub fn security_context(url: &ValidatedUrl, certificate: Option<Certificate>) -> (context:
    SecurityContext)
    ensures
        context@ == assessed(
            url@,
            match certificate {
                Some(c) => Some(c@),
                None => None,
            },
        ),
{
    match certificate {
        Some(c) => if url.is_secure() {
            SecurityContext::with_https(c)
        } else {
            SecurityContext::new()
        },
        None => SecurityContext::new(),
    }
}

} // verus!
