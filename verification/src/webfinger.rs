//! Webfinger resolution: turn a `name@domain` mention into a canonical
//! actor identifier. The discovery URL and the link selection are computed
//! here; the HTTP GET with bounded retry is the caller's transport.

use crate::error::FederationError;
use crate::ident::{url_parse, ApubUrl};
use vstd::prelude::*;
use vstd::string::StringExecFns;

verus! {

/// A bare mention: a name and the domain it points into. Carries no
/// identity of its own until resolved.
pub struct MentionData {
    pub name: String,
    pub domain: String,
}

/// Mathematical model of one webfinger link.
pub ghost struct LinkView {
    pub media_type: Option<Seq<char>>,
    pub href: Option<Seq<char>>,
}

/// One typed link of a webfinger response.
pub struct WebFingerLink {
    pub media_type: Option<String>,
    pub href: Option<String>,
}

impl View for WebFingerLink {
    type V = LinkView;

    open spec fn view(&self) -> LinkView {
        LinkView {
            media_type: match self.media_type {
                Some(t) => Some(t@),
                None => None,
            },
            href: match self.href {
                Some(h) => Some(h@),
                None => None,
            },
        }
    }
}

/// A webfinger response: the links its JSON body declares.
pub struct WebFingerResponse {
    pub links: Vec<WebFingerLink>,
}

impl View for WebFingerResponse {
    type V = Seq<LinkView>;

    open spec fn view(&self) -> Seq<LinkView> {
        Seq::new(self.links@.len(), |i: int| self.links@[i]@)
    }
}

/// The well-known discovery URL for a mention:
/// `{scheme}://{domain}/.well-known/webfinger?resource=acct:{name}@{domain}`.
pub open spec fn webfinger_url_seq(scheme: Seq<char>, name: Seq<char>, domain: Seq<char>) -> Seq<
    char,
> {
    scheme + "://"@ + domain + "/.well-known/webfinger?resource=acct:"@ + name + "@"@ + domain
}

/// Build the discovery URL for a mention under the configured scheme.
pub fn webfinger_fetch_url(mention: &MentionData, scheme: &str) -> (r: String)
    ensures
        r@ == webfinger_url_seq(scheme@, mention.name@, mention.domain@),
{
    let mut s = scheme.to_owned();
    s.append("://");
    s.append(mention.domain.as_str());
    s.append("/.well-known/webfinger?resource=acct:");
    s.append(mention.name.as_str());
    s.append("@");
    s.append(mention.domain.as_str());
    assert(s@ =~= webfinger_url_seq(scheme@, mention.name@, mention.domain@));
    s
}

/// Whether a link declares the federation content type.
pub open spec fn is_apub_link(l: LinkView) -> bool {
    l.media_type == Some("application/activity+json"@)
}

/// The target of the first link with the federation content type:
/// `NoMatchingLink` where no link declares it, `NoHref` where the matching
/// link has no target.
pub open spec fn select_link_spec(links: Seq<LinkView>) -> Result<Seq<char>, FederationError>
    decreases links.len(),
{
    if links.len() == 0 {
        Err(FederationError::NoMatchingLink)
    } else if is_apub_link(links[0]) {
        match links[0].href {
            None => Err(FederationError::NoHref),
            Some(h) => Ok(h),
        }
    } else {
        select_link_spec(links.drop_first())
    }
}

proof fn lemma_select_link_skip(links: Seq<LinkView>, i: int)
    requires
        0 <= i <= links.len(),
        forall|j: int| 0 <= j < i ==> !is_apub_link(links[j]),
    ensures
        select_link_spec(links) == select_link_spec(links.skip(i)),
    decreases i,
{
    if i == 0 {
        assert(links.skip(0) =~= links);
    } else {
        lemma_select_link_skip(links, i - 1);
        assert(links.skip(i - 1).len() > 0);
        assert(links.skip(i - 1)[0] == links[i - 1]);
        assert(links.skip(i - 1).drop_first() =~= links.skip(i));
    }
}

/// Select the target of the first link with the federation content type.
pub fn select_webfinger_link(res: &WebFingerResponse) -> (r: Result<String, FederationError>)
    ensures
        match r {
            Ok(h) => select_link_spec(res@) == Ok::<_, FederationError>(h@),
            Err(e) => select_link_spec(res@) == Err::<Seq<char>, _>(e),
        },
{
    let apub_type: String = "application/activity+json".to_owned();
    let n = res.links.len();
    let mut i: usize = 0;
    while i < n
        invariant
            i <= n,
            n == res.links@.len(),
            apub_type@ == "application/activity+json"@,
            forall|j: int| 0 <= j < i ==> !is_apub_link(res@[j]),
        decreases n - i,
    {
        let link = &res.links[i];
        let matches_type = match &link.media_type {
            Some(t) => t.eq(&apub_type),
            None => false,
        };
        if matches_type {
            proof {
                lemma_select_link_skip(res@, i as int);
                assert(res@.skip(i as int)[0] == res@[i as int]);
            }
            return match &link.href {
                Some(h) => Ok(h.clone()),
                None => Err(FederationError::NoHref),
            };
        }
        i += 1;
    }
    proof {
        lemma_select_link_skip(res@, n as int);
        assert(res@.skip(n as int).len() == 0);
    }
    Err(FederationError::NoMatchingLink)
}

/// Resolve a webfinger response to the canonical actor identifier it names:
/// the target of the matching link, parsed; `Decode` where that target is
/// not a URL.
pub fn resolve_webfinger_response(res: &WebFingerResponse) -> (r: Result<ApubUrl, FederationError>)
    ensures
        match select_link_spec(res@) {
            Err(e) => r == Err::<ApubUrl, _>(e),
            Ok(h) => match r {
                Ok(u) => url_parse(h) == Some(u@),
                Err(e) => url_parse(h) is None && e == FederationError::Decode,
            },
        },
{
    let href = match select_webfinger_link(res) {
        Err(e) => {
            return Err(e);
        },
        Ok(h) => h,
    };
    match ApubUrl::parse(href.as_str()) {
        Some(u) => Ok(u),
        None => Err(FederationError::Decode),
    }
}

} // verus!
