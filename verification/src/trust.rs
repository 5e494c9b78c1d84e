//! Domain trust validation: decides whether a candidate identifier may be
//! treated as authoritative. A pure predicate over the configuration and the
//! identifier's components; no I/O, no mutation.

use crate::config::{domain_allowed, ConfigView, FederationConfig};
use crate::error::FederationError;
use crate::ident::{ApubUrl, UrlView};
use vstd::prelude::*;

verus! {

/// The trust verdict on a candidate identifier: the scheme must equal the
/// configured federation scheme, the identifier must have a domain, and that
/// domain must pass the allow-list (local hostname included).
pub open spec fn trust_verdict(c: ConfigView, u: UrlView) -> Result<(), FederationError> {
    if u.scheme != c.scheme {
        Err(FederationError::InvalidScheme)
    } else {
        match u.domain {
            None => Err(FederationError::NoDomain),
            Some(d) => if domain_allowed(c, d) {
                Ok(())
            } else {
                Err(FederationError::DomainNotAllowed)
            },
        }
    }
}

/// Checks that an identifier carries the configured scheme and that its
/// domain is in the allow-list or is the local host.
pub fn check_is_apub_id_valid(apub_id: &ApubUrl, config: &FederationConfig) -> (r: Result<
    (),
    FederationError,
>)
    ensures
        r == trust_verdict(config@, apub_id@),
{
    if !apub_id.scheme.eq(&config.scheme) {
        return Err(FederationError::InvalidScheme);
    }
    match &apub_id.domain {
        None => Err(FederationError::NoDomain),
        Some(d) => {
            if config.is_domain_allowed(d) {
                Ok(())
            } else {
                Err(FederationError::DomainNotAllowed)
            }
        },
    }
}

/// What actor-domain reconciliation decides. Given an expected delivery
/// domain, the identifier's own domain must equal it; given none, the
/// generic trust rule above applies. Success carries the canonical
/// identifier serialization.
pub open spec fn actor_domain_verdict(
    c: ConfigView,
    u: UrlView,
    expected_domain: Option<UrlView>,
) -> Result<Seq<char>, FederationError> {
    match expected_domain {
        Some(e) => match e.domain {
            None => Err(FederationError::NoDomain),
            Some(ed) => match u.domain {
                Some(d) => if d == ed {
                    Ok(u.raw)
                } else {
                    Err(FederationError::DomainMismatch)
                },
                None => Err(FederationError::DomainMismatch),
            },
        },
        None => match trust_verdict(c, u) {
            Ok(_) => Ok(u.raw),
            Err(e) => Err(e),
        },
    }
}

/// Spec view of an optional borrowed identifier.
pub open spec fn opt_url_view(o: Option<&ApubUrl>) -> Option<UrlView> {
    match o {
        Some(u) => Some(u@),
        None => None,
    }
}

/// Reconcile an object's own identifier with the domain the delivery context
/// claims (defends against an object claiming an identifier under a domain
/// other than the one it was delivered from).
pub fn check_actor_domain(
    apub_id: &ApubUrl,
    expected_domain: Option<&ApubUrl>,
    config: &FederationConfig,
) -> (r: Result<String, FederationError>)
    ensures
        match r {
            Ok(s) => actor_domain_verdict(config@, apub_id@, opt_url_view(expected_domain)) == Ok::<
                _,
                FederationError,
            >(s@),
            Err(e) => actor_domain_verdict(config@, apub_id@, opt_url_view(expected_domain))
                == Err::<Seq<char>, _>(e),
        },
{
    match expected_domain {
        Some(e) => match (&apub_id.domain, &e.domain) {
            (_, None) => Err(FederationError::NoDomain),
            (None, Some(_)) => Err(FederationError::DomainMismatch),
            (Some(d), Some(ed)) => {
                if d.eq(ed) {
                    Ok(apub_id.raw.clone())
                } else {
                    Err(FederationError::DomainMismatch)
                }
            },
        },
        None => match check_is_apub_id_valid(apub_id, config) {
            Ok(_) => Ok(apub_id.raw.clone()),
            Err(e) => Err(e),
        },
    }
}

/// Law: an identifier whose scheme is not the configured federation scheme
/// is rejected with `InvalidScheme`, whatever its domain.
pub proof fn lemma_wrong_scheme_rejected(c: ConfigView, u: UrlView)
    requires
        u.scheme != c.scheme,
    ensures
        trust_verdict(c, u) == Err::<(), FederationError>(FederationError::InvalidScheme),
{
}

/// Law: under the configured scheme, an identifier whose domain stands in
/// the allow-list, or is the local hostname (port stripped), is accepted;
/// one with any other domain is rejected with `DomainNotAllowed`.
pub proof fn lemma_domain_decides(c: ConfigView, u: UrlView, d: Seq<char>)
    requires
        u.scheme == c.scheme,
        u.domain == Some(d),
    ensures
        domain_allowed(c, d) <==> trust_verdict(c, u) == Ok::<(), FederationError>(()),
        !domain_allowed(c, d) <==> trust_verdict(c, u) == Err::<(), FederationError>(
            FederationError::DomainNotAllowed,
        ),
{
}

} // verus!
