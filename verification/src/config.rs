//! Process-wide federation configuration: the required protocol scheme, the
//! operator-configured allow-list of remote domains, and the local hostname.
//! Loaded once, immutable thereafter, and passed by reference into every
//! component.

use vstd::prelude::*;
use vstd::string::StrSliceExecFns;

verus! {

/// Mathematical model of the configuration.
pub ghost struct ConfigView {
    pub scheme: Seq<char>,
    pub allowed_instances: Seq<Seq<char>>,
    /// Local hostname as configured; may carry a port.
    pub hostname: Seq<char>,
}

/// Federation configuration value.
pub struct FederationConfig {
    /// Protocol scheme every federation identifier must carry.
    pub scheme: String,
    /// Operator-configured remote domains trusted for federation.
    pub allowed_instances: Vec<String>,
    /// This server's configured hostname, possibly with a port.
    pub hostname: String,
}

impl View for FederationConfig {
    type V = ConfigView;

    open spec fn view(&self) -> ConfigView {
        ConfigView {
            scheme: self.scheme@,
            allowed_instances: Seq::new(
                self.allowed_instances@.len(),
                |i: int| self.allowed_instances@[i]@,
            ),
            hostname: self.hostname@,
        }
    }
}

/// The hostname up to, and without, its first `:`: the host part with any
/// port stripped.
pub open spec fn strip_port_spec(s: Seq<char>) -> Seq<char>
    decreases s.len(),
{
    if s.len() == 0 {
        s
    } else if s[0] == ':' {
        Seq::empty()
    } else {
        seq![s[0]] + strip_port_spec(s.drop_first())
    }
}

proof fn lemma_strip_port_no_colon(s: Seq<char>)
    requires
        forall|j: int| 0 <= j < s.len() ==> s[j] != ':',
    ensures
        strip_port_spec(s) == s,
    decreases s.len(),
{
    if s.len() == 0 {
        assert(strip_port_spec(s) =~= s);
    } else {
        lemma_strip_port_no_colon(s.drop_first());
        assert(strip_port_spec(s) =~= s);
    }
}

proof fn lemma_strip_port_at(s: Seq<char>, i: int)
    requires
        0 <= i < s.len(),
        s[i] == ':',
        forall|j: int| 0 <= j < i ==> s[j] != ':',
    ensures
        strip_port_spec(s) == s.take(i),
    decreases i,
{
    if i == 0 {
        assert(strip_port_spec(s) =~= s.take(0));
    } else {
        lemma_strip_port_at(s.drop_first(), i - 1);
        assert(s.drop_first().take(i - 1) =~= s.take(i).drop_first());
        assert(strip_port_spec(s) =~= seq![s[0]] + s.drop_first().take(i - 1));
        assert(strip_port_spec(s) =~= s.take(i));
    }
}

/// The host part of a configured hostname, with any port stripped.
pub fn hostname_domain(hostname: &str) -> (r: String)
    ensures
        r@ == strip_port_spec(hostname@),
{
    let n = hostname.unicode_len();
    let mut i: usize = 0;
    while i < n
        invariant
            i <= n,
            n == hostname@.len(),
            forall|j: int| 0 <= j < i ==> hostname@[j] != ':',
        decreases n - i,
    {
        if hostname.get_char(i) == ':' {
            let r = hostname.substring_char(0, i).to_owned();
            proof {
                lemma_strip_port_at(hostname@, i as int);
                assert(r@ =~= hostname@.take(i as int));
            }
            return r;
        }
        i += 1;
    }
    proof {
        lemma_strip_port_no_colon(hostname@);
    }
    hostname.to_owned()
}

/// A domain is trusted when it stands in the allow-list, or equals the local
/// hostname with its port stripped (local objects carry the same identifier
/// shape and must pass the same check).
pub open spec fn domain_allowed(c: ConfigView, d: Seq<char>) -> bool {
    (exists|i: int| 0 <= i < c.allowed_instances.len() && c.allowed_instances[i] == d) || d
        == strip_port_spec(c.hostname)
}

impl FederationConfig {
    /// Whether a domain passes the allow-list, the local hostname included.
    pub fn is_domain_allowed(&self, domain: &String) -> (r: bool)
        ensures
            r == domain_allowed(self@, domain@),
    {
        let n = self.allowed_instances.len();
        let mut i: usize = 0;
        while i < n
            invariant
                i <= n,
                n == self.allowed_instances@.len(),
                forall|j: int| 0 <= j < i ==> self.allowed_instances@[j]@ != domain@,
            decreases n - i,
        {
            if self.allowed_instances[i].eq(domain) {
                assert(self@.allowed_instances[i as int] == domain@);
                return true;
            }
            i += 1;
        }
        let local = hostname_domain(self.hostname.as_str());
        if local.eq(domain) {
            true
        } else {
            assert(!domain_allowed(self@, domain@));
            false
        }
    }
}

} // verus!
