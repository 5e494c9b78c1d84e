//! Actor capability interface: every actor-bearing entity (user or
//! community) exposes its identifier, its keys, and a family of endpoint
//! URLs derived from the identifier by deterministic string concatenation.

use crate::error::FederationError;
use crate::ident::{dec_rep, u16_to_dec, url_parse, ApubUrl, UrlView};
use vstd::prelude::*;
use vstd::string::StringExecFns;

verus! {

/// The actor variants of this protocol generation.
#[derive(Clone, Copy, PartialEq, Eq, Structural, Debug)]
pub enum ActorVariant {
    User,
    Community,
}

/// Mathematical model of an actor.
pub ghost struct ActorView {
    pub actor_id: Seq<char>,
    pub public_key: Option<Seq<char>>,
    pub private_key: Option<Seq<char>>,
    pub user_id: i32,
    pub variant: ActorVariant,
}

/// A federated identity: identifier, optional key pair (a private key only
/// for locally-owned actors), local database reference and variant.
pub struct ActorIdentity {
    pub actor_id: String,
    pub public_key: Option<String>,
    pub private_key: Option<String>,
    pub user_id: i32,
    pub variant: ActorVariant,
}

impl View for ActorIdentity {
    type V = ActorView;

    open spec fn view(&self) -> ActorView {
        ActorView {
            actor_id: self.actor_id@,
            public_key: match self.public_key {
                Some(k) => Some(k@),
                None => None,
            },
            private_key: match self.private_key {
                Some(k) => Some(k@),
                None => None,
            },
            user_id: self.user_id,
            variant: self.variant,
        }
    }
}

impl ActorView {
    /// An actor holding a private key is locally owned; one without is
    /// remote (its public key pending fetch).
    pub open spec fn is_local(self) -> bool {
        self.private_key is Some
    }
}

/// The key identifier attached to signed requests: the actor identifier
/// with the `#main-key` fragment.
pub open spec fn key_id_seq(actor_id: Seq<char>) -> Seq<char> {
    actor_id + "#main-key"@
}

/// A public key as attached to an actor's wire form.
pub struct PublicKey {
    pub id: String,
    pub owner: String,
    pub public_key_pem: String,
}

/// The shared inbox of an identifier: scheme, host and explicit port of the
/// actor identifier, no actor path segment, and `/inbox`. Federated
/// deliveries can so be batched per host rather than per actor.
pub open spec fn shared_inbox_seq(u: UrlView) -> Seq<char>
    recommends
        u.host is Some,
{
    u.scheme + "://"@ + u.host->Some_0 + (match u.port {
        Some(p) => ":"@ + dec_rep(p as nat),
        None => Seq::<char>::empty(),
    }) + "/inbox"@
}

/// Derive the shared inbox URL from a parsed identifier.
pub fn shared_inbox_from_parts(u: &ApubUrl) -> (r: Result<String, FederationError>)
    ensures
        match u@.host {
            None => r == Err::<String, _>(FederationError::MalformedActorId),
            Some(h) => r matches Ok(s) && s@ == shared_inbox_seq(u@),
        },
{
    match &u.host {
        None => Err(FederationError::MalformedActorId),
        Some(h) => {
            let mut s = u.scheme.clone();
            s.append("://");
            s.append(h.as_str());
            match u.port {
                Some(p) => {
                    s.append(":");
                    let d = u16_to_dec(p);
                    s.append(d.as_str());
                },
                None => {},
            }
            s.append("/inbox");
            assert(s@ =~= shared_inbox_seq(u@));
            Ok(s)
        },
    }
}

/// Law: the shared inbox is host-only. Two identifiers that agree on
/// scheme, host and port derive the same shared inbox; in particular,
/// changing only the path of an actor identifier does not change it.
pub proof fn lemma_shared_inbox_host_only(a: UrlView, b: UrlView)
    requires
        a.scheme == b.scheme,
        a.host == b.host,
        a.port == b.port,
    ensures
        shared_inbox_seq(a) == shared_inbox_seq(b),
{
}

/// The capability set of every actor-bearing entity: raw identifier, keys,
/// local reference, and the derived endpoint URLs.
pub trait ActorType {
    /// The model this actor presents.
    spec fn actor_view(&self) -> ActorView;

    /// The raw identifier string.
    fn actor_id_str(&self) -> (r: String)
        ensures
            r@ == self.actor_view().actor_id,
    ;

    /// Public key PEM, where one is known.
    fn public_key(&self) -> (r: Option<String>)
        ensures
            match r {
                Some(k) => self.actor_view().public_key == Some(k@),
                None => self.actor_view().public_key is None,
            },
    ;

    /// Private key PEM; present only for locally-owned actors.
    fn private_key(&self) -> (r: Option<String>)
        ensures
            match r {
                Some(k) => self.actor_view().private_key == Some(k@),
                None => self.actor_view().private_key is None,
            },
    ;

    /// Numeric id in the local database, used for the activity log.
    fn user_id(&self) -> (r: i32)
        ensures
            r == self.actor_view().user_id,
    ;

    /// The identifier, parsed into its components.
    fn actor_id(&self) -> (r: Result<ApubUrl, FederationError>)
        ensures
            match r {
                Ok(u) => url_parse(self.actor_view().actor_id) == Some(u@),
                Err(e) => url_parse(self.actor_view().actor_id) is None && e
                    == FederationError::MalformedActorId,
            },
    ;

    /// Per-actor inbox: the identifier with `/inbox` appended.
    fn get_inbox_url(&self) -> (r: Result<ApubUrl, FederationError>)
        ensures
            match r {
                Ok(u) => url_parse(self.actor_view().actor_id + "/inbox"@) == Some(u@),
                Err(e) => url_parse(self.actor_view().actor_id + "/inbox"@) is None && e
                    == FederationError::MalformedActorId,
            },
    ;

    /// Per-host shared inbox of this actor's identifier.
    fn get_shared_inbox_url(&self) -> (r: Result<String, FederationError>)
        ensures
            match url_parse(self.actor_view().actor_id) {
                None => r == Err::<String, _>(FederationError::MalformedActorId),
                Some(v) => match v.host {
                    None => r == Err::<String, _>(FederationError::MalformedActorId),
                    Some(h) => r matches Ok(s) && s@ == shared_inbox_seq(v),
                },
            },
    ;

    /// Outbox: the identifier with `/outbox` appended.
    fn get_outbox_url(&self) -> (r: Result<ApubUrl, FederationError>)
        ensures
            match r {
                Ok(u) => url_parse(self.actor_view().actor_id + "/outbox"@) == Some(u@),
                Err(e) => url_parse(self.actor_view().actor_id + "/outbox"@) is None && e
                    == FederationError::MalformedActorId,
            },
    ;

    /// Followers collection: the identifier with `/followers` appended.
    fn get_followers_url(&self) -> (r: Result<ApubUrl, FederationError>)
        ensures
            match r {
                Ok(u) => url_parse(self.actor_view().actor_id + "/followers"@) == Some(u@),
                Err(e) => url_parse(self.actor_view().actor_id + "/followers"@) is None && e
                    == FederationError::MalformedActorId,
            },
    ;

    /// Following collection: the identifier with `/following` appended.
    fn get_following_url(&self) -> (r: String)
        ensures
            r@ == self.actor_view().actor_id + "/following"@,
    ;

    /// Liked collection: the identifier with `/liked` appended.
    fn get_liked_url(&self) -> (r: String)
        ensures
            r@ == self.actor_view().actor_id + "/liked"@,
    ;

    /// The public key of this actor in the form attached to its wire
    /// representation, keyed under the `#main-key` fragment.
    fn get_public_key_ext(&self) -> (r: Result<PublicKey, FederationError>)
        ensures
            match self.actor_view().public_key {
                None => r == Err::<PublicKey, _>(FederationError::MissingPublicKey),
                Some(pem) => r matches Ok(k) && k.id@ == key_id_seq(self.actor_view().actor_id)
                    && k.owner@ == self.actor_view().actor_id && k.public_key_pem@ == pem,
            },
    ;
}

impl ActorIdentity {
    /// Append a path suffix to the identifier and parse the result.
    fn derived_endpoint(&self, suffix: &str) -> (r: Result<ApubUrl, FederationError>)
        ensures
            match r {
                Ok(u) => url_parse(self@.actor_id + suffix@) == Some(u@),
                Err(e) => url_parse(self@.actor_id + suffix@) is None && e
                    == FederationError::MalformedActorId,
            },
    {
        let mut s = self.actor_id.clone();
        s.append(suffix);
        ApubUrl::parse_or_malformed(s.as_str())
    }
}

impl ActorType for ActorIdentity {
    open spec fn actor_view(&self) -> ActorView {
        self@
    }

    fn actor_id_str(&self) -> (r: String) {
        self.actor_id.clone()
    }

    fn public_key(&self) -> (r: Option<String>) {
        match &self.public_key {
            Some(k) => Some(k.clone()),
            None => None,
        }
    }

    fn private_key(&self) -> (r: Option<String>) {
        match &self.private_key {
            Some(k) => Some(k.clone()),
            None => None,
        }
    }

    fn user_id(&self) -> (r: i32) {
        self.user_id
    }

    fn actor_id(&self) -> (r: Result<ApubUrl, FederationError>) {
        ApubUrl::parse_or_malformed(self.actor_id.as_str())
    }

    fn get_inbox_url(&self) -> (r: Result<ApubUrl, FederationError>) {
        self.derived_endpoint("/inbox")
    }

    fn get_shared_inbox_url(&self) -> (r: Result<String, FederationError>) {
        match self.actor_id() {
            Err(e) => Err(e),
            Ok(u) => shared_inbox_from_parts(&u),
        }
    }

    fn get_outbox_url(&self) -> (r: Result<ApubUrl, FederationError>) {
        self.derived_endpoint("/outbox")
    }

    fn get_followers_url(&self) -> (r: Result<ApubUrl, FederationError>) {
        self.derived_endpoint("/followers")
    }

    fn get_following_url(&self) -> (r: String) {
        let mut s = self.actor_id.clone();
        s.append("/following");
        s
    }

    fn get_liked_url(&self) -> (r: String) {
        let mut s = self.actor_id.clone();
        s.append("/liked");
        s
    }

    fn get_public_key_ext(&self) -> (r: Result<PublicKey, FederationError>) {
        match &self.public_key {
            None => Err(FederationError::MissingPublicKey),
            Some(pem) => {
                let mut id = self.actor_id.clone();
                id.append("#main-key");
                Ok(
                    PublicKey {
                        id,
                        owner: self.actor_id.clone(),
                        public_key_pem: pem.clone(),
                    },
                )
            },
        }
    }
}

} // verus!
