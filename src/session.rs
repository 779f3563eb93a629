//! The middleware's configuration, fixed when it is built and shared by every
//! request.
use vstd::prelude::*;

use crate::cookie::{opt_view, SameSite};

verus! {

/// Where the store lives: one server, or the masters of a cluster.
#[derive(Debug, PartialEq, Eq)]
pub enum StoreAddress {
    Single(String),
    Cluster(String),
}

/// The abstract configuration.
pub ghost struct ConfigView {
    pub secret: Seq<u8>,
    pub ttl: i64,
    pub name: Seq<char>,
    pub path: Seq<char>,
    pub domain: Option<Seq<char>>,
    pub secure: bool,
    pub max_age: Option<i64>,
    pub same_site: Option<SameSite>,
}

/// Sessions kept in a store: the secret that signs session cookies, the
/// time the store keeps a session, and the attributes of the cookie.
pub struct RedisSession {
    secret: Vec<u8>,
    ttl: i64,
    addr: StoreAddress,
    name: String,
    path: String,
    domain: Option<String>,
    secure: bool,
    max_age: Option<i64>,
    same_site: Option<SameSite>,
}

/// A week, in seconds.
pub const DEFAULT_MAX_AGE: i64 = 604800;

/// Two hours, in seconds.
pub const DEFAULT_TTL: i64 = 7200;

impl View for RedisSession {
    type V = ConfigView;

    closed spec fn view(&self) -> ConfigView {
        ConfigView {
            secret: self.secret@,
            ttl: self.ttl,
            name: self.name@,
            path: self.path@,
            domain: opt_view(self.domain),
            secure: self.secure,
            max_age: self.max_age,
            same_site: self.same_site,
        }
    }
}

impl RedisSession {
    #[verifier::type_invariant]
    closed spec fn secret_long_enough(&self) -> bool {
        self.secret@.len() >= 32
    }

    /// The store address, as given at construction.
    pub closed spec fn spec_addr(&self) -> StoreAddress {
        self.addr
    }

    /// The secret that signs session cookies; never under 32 bytes.
    pub fn secret(&self) -> (r: &[u8])
        ensures
            r@ == self@.secret,
            r@.len() >= 32,
    {
        proof { use_type_invariant(self); }
        self.secret.as_slice()
    }

    /// Sessions kept on a store cluster whose masters are at `addr`, signed
    /// with `key`.
    pub fn new_cluster(addr: &str, key: &[u8]) -> (r: RedisSession)
        requires
            key@.len() >= 32,
        ensures
            r@ == (ConfigView {
                secret: key@,
                ttl: DEFAULT_TTL,
                name: "actix-session"@,
                path: "/"@,
                domain: None,
                secure: false,
                max_age: Some(DEFAULT_MAX_AGE),
                same_site: None,
            }),
            match r.spec_addr() {
                StoreAddress::Cluster(a) => a@ == addr@,
                StoreAddress::Single(_) => false,
            },
    {
        RedisSession::with_addr(StoreAddress::Cluster(addr.to_string()), key)
    }

    /// Sets the time, in seconds, that the store keeps a session.
    pub fn ttl(self, ttl: i64) -> (r: RedisSession)
        ensures
            r@ == (ConfigView { ttl: ttl, ..self@ }),
            r.spec_addr() == self.spec_addr(),
    {
        proof { use_type_invariant(&self); }
        RedisSession { secret: self.secret, ttl: ttl, addr: self.addr, name: self.name, path: self.path, domain: self.domain, secure: self.secure, max_age: self.max_age, same_site: self.same_site }
    }

    /// Sets the name of the session cookie.
    pub fn cookie_name(self, name: &str) -> (r: RedisSession)
        ensures
            r@ == (ConfigView { name: name@, ..self@ }),
            r.spec_addr() == self.spec_addr(),
    {
        proof { use_type_invariant(&self); }
        RedisSession { secret: self.secret, ttl: self.ttl, addr: self.addr, name: name.to_string(), path: self.path, domain: self.domain, secure: self.secure, max_age: self.max_age, same_site: self.same_site }
    }

    /// Sets the path of the session cookie.
    pub fn cookie_path(self, path: &str) -> (r: RedisSession)
        ensures
            r@ == (ConfigView { path: path@, ..self@ }),
            r.spec_addr() == self.spec_addr(),
    {
        proof { use_type_invariant(&self); }
        RedisSession { secret: self.secret, ttl: self.ttl, addr: self.addr, name: self.name, path: path.to_string(), domain: self.domain, secure: self.secure, max_age: self.max_age, same_site: self.same_site }
    }

    /// Sets the domain of the session cookie.
    pub fn cookie_domain(self, domain: &str) -> (r: RedisSession)
        ensures
            r@ == (ConfigView { domain: Some(domain@), ..self@ }),
            r.spec_addr() == self.spec_addr(),
    {
        proof { use_type_invariant(&self); }
        RedisSession { secret: self.secret, ttl: self.ttl, addr: self.addr, name: self.name, path: self.path, domain: Some(domain.to_string()), secure: self.secure, max_age: self.max_age, same_site: self.same_site }
    }

    /// Sets whether the cookie is sent over secure connections only.
    pub fn cookie_secure(self, secure: bool) -> (r: RedisSession)
        ensures
            r@ == (ConfigView { secure: secure, ..self@ }),
            r.spec_addr() == self.spec_addr(),
    {
        proof { use_type_invariant(&self); }
        RedisSession { secret: self.secret, ttl: self.ttl, addr: self.addr, name: self.name, path: self.path, domain: self.domain, secure: secure, max_age: self.max_age, same_site: self.same_site }
    }

    /// Sets the cookie's max-age, in seconds.
    pub fn cookie_max_age(self, max_age: i64) -> (r: RedisSession)
        ensures
            r@ == (ConfigView { max_age: Some(max_age), ..self@ }),
            r.spec_addr() == self.spec_addr(),
    {
        proof { use_type_invariant(&self); }
        RedisSession { secret: self.secret, ttl: self.ttl, addr: self.addr, name: self.name, path: self.path, domain: self.domain, secure: self.secure, max_age: Some(max_age), same_site: self.same_site }
    }

    /// Sets the cookie's SameSite attribute.
    pub fn cookie_same_site(self, same_site: SameSite) -> (r: RedisSession)
        ensures
            r@ == (ConfigView { same_site: Some(same_site), ..self@ }),
            r.spec_addr() == self.spec_addr(),
    {
        proof { use_type_invariant(&self); }
        RedisSession { secret: self.secret, ttl: self.ttl, addr: self.addr, name: self.name, path: self.path, domain: self.domain, secure: self.secure, max_age: self.max_age, same_site: Some(same_site) }
    }

    pub fn ttl_value(&self) -> (r: i64)
        ensures
            r == self@.ttl,
    {
        self.ttl
    }

    pub fn cookie_name_ref(&self) -> (r: &String)
        ensures
            r@ == self@.name,
    {
        &self.name
    }

    pub fn cookie_path_ref(&self) -> (r: &String)
        ensures
            r@ == self@.path,
    {
        &self.path
    }

    pub fn cookie_domain_ref(&self) -> (r: &Option<String>)
        ensures
            opt_view(*r) == self@.domain,
    {
        &self.domain
    }

    pub fn cookie_secure_value(&self) -> (r: bool)
        ensures
            r == self@.secure,
    {
        self.secure
    }

    pub fn cookie_max_age_value(&self) -> (r: Option<i64>)
        ensures
            r == self@.max_age,
    {
        self.max_age
    }

    pub fn cookie_same_site_value(&self) -> (r: Option<SameSite>)
        ensures
            r == self@.same_site,
    {
        self.same_site
    }

    /// Where the store lives.
    pub fn store_address(&self) -> (r: &StoreAddress)
        ensures
            *r == self.spec_addr(),
    {
        &self.addr
    }

    fn with_addr(addr: StoreAddress, key: &[u8]) -> (r: RedisSession)
        requires
            key@.len() >= 32,
        ensures
            r@ == (ConfigView {
                secret: key@,
                ttl: DEFAULT_TTL,
                name: "actix-session"@,
                path: "/"@,
                domain: None,
                secure: false,
                max_age: Some(DEFAULT_MAX_AGE),
                same_site: None,
            }),
            r.spec_addr() == addr,
    {
        let mut secret: Vec<u8> = Vec::new();
        let mut i: usize = 0;
        while i < key.len()
            invariant
                i <= key@.len(),
                secret@ == key@.subrange(0, i as int),
            decreases key@.len() - i,
        {
            secret.push(key[i]);
            assert(secret@ =~= key@.subrange(0, i + 1));
            i = i + 1;
        }
        assert(secret@ =~= key@);
        RedisSession {
            secret,
            ttl: DEFAULT_TTL,
            addr,
            name: "actix-session".to_string(),
            path: "/".to_string(),
            domain: None,
            secure: false,
            max_age: Some(DEFAULT_MAX_AGE),
            same_site: None,
        }
    }

    /// Sessions kept on one store server at `addr`, signed with `key`.
    pub fn new(addr: &str, key: &[u8]) -> (r: RedisSession)
        requires
            key@.len() >= 32,
        ensures
            r@ == (ConfigView {
                secret: key@,
                ttl: DEFAULT_TTL,
                name: "actix-session"@,
                path: "/"@,
                domain: None,
                secure: false,
                max_age: Some(DEFAULT_MAX_AGE),
                same_site: None,
            }),
            match r.spec_addr() {
                StoreAddress::Single(a) => a@ == addr@,
                StoreAddress::Cluster(_) => false,
            },
    {
        RedisSession::with_addr(StoreAddress::Single(addr.to_string()), key)
    }
}

} // verus!
