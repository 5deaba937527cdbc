//! Profile items and the proxy / rule vocabulary of the configuration files.

use vstd::prelude::*;

verus! {

/// Proxy protocol kinds.
#[derive(Debug, Clone, Copy, PartialEq, Eq, Structural)]
pub enum ProxyType {
    Http,
    Https,
    Socks4,
    Socks5,
    Socks5T,
    Trojan,
    Vless,
    Vmess,
    Snell,
    Obfs,
}

/// One proxy server entry.
pub struct ProxyItem {
    pub name: String,
    pub type_: ProxyType,
    pub server: String,
    pub port: u16,
    pub password: String,
    pub username: Option<String>,
    pub cipher: Option<String>,
    pub sni: Option<String>,
    pub skip_cert_verify: Option<bool>,
    pub udp: Option<bool>,
    pub plugin: Option<String>,
    pub plugin_opts: Option<String>,
}

/// Routing rule kinds.
#[derive(Debug, Clone, Copy, PartialEq, Eq, Structural)]
pub enum RuleType {
    Domain,
    DomainSuffix,
    DomainKeyword,
    IpCidr,
    GeoIP,
    Classical,
    IPSuffix,
}

/// One routing rule.
pub struct RuleItem {
    pub type_: RuleType,
    pub content: String,
    pub proxy: String,
    pub group: Option<String>,
    pub excluded: Option<bool>,
}

/// A rule provider.
pub struct RuleSet {
    pub name: String,
    pub type_: String,
    pub format: Option<String>,
    pub url: Option<String>,
    pub path: Option<String>,
}

/// Proxy group kinds.
#[derive(Debug, Clone, Copy, PartialEq, Eq, Structural)]
pub enum ProxyGroupType {
    Select,
    UrlTest,
    Fallback,
    LoadBalance,
    Relay,
}

/// A proxy group.
pub struct ProxyGroup {
    pub name: String,
    pub type_: ProxyGroupType,
    pub proxies: Vec<String>,
    pub url: Option<String>,
    pub interval: Option<u64>,
    pub tolerance: Option<u64>,
    pub include_original: Option<bool>,
}

/// Copies an optional string.
pub fn clone_opt_string(o: &Option<String>) -> (r: Option<String>)
    ensures
        r == *o,
{
    match o {
        Some(s) => Some(s.clone()),
        None => None,
    }
}

/// The characters of an optional string.
pub open spec fn opt_view(o: Option<String>) -> Option<Seq<char>> {
    match o {
        Some(s) => Some(s@),
        None => None,
    }
}

/// `Some` and `None` of two optional strings agree, and so do their characters.
pub fn opt_string_eq(a: &Option<String>, b: &Option<String>) -> (r: bool)
    ensures
        r == (opt_view(*a) == opt_view(*b)),
{
    match (a, b) {
        (Some(x), Some(y)) => *x == *y,
        (None, None) => true,
        _ => false,
    }
}

/// Traffic and expiry figures of a remote subscription.
#[derive(Debug, Clone, Copy, PartialEq, Eq, Default)]
pub struct ProfileExtra {
    pub upload: Option<u64>,
    pub download: Option<u64>,
    pub total: Option<u64>,
    pub expire: Option<u64>,
}

/// The proxy a group had selected when the profile was last used.
pub struct PrfSelected {
    pub name: Option<String>,
    pub now: Option<String>,
}

impl PrfSelected {
    pub fn duplicate(&self) -> (r: Self)
        ensures
            r == *self,
    {
        PrfSelected { name: clone_opt_string(&self.name), now: clone_opt_string(&self.now) }
    }
}

/// Copies a list of selections.
pub fn clone_selected(v: &Vec<PrfSelected>) -> (r: Vec<PrfSelected>)
    ensures
        r@ == v@,
{
    let mut r: Vec<PrfSelected> = Vec::new();
    let mut i: usize = 0;
    while i < v.len()
        invariant
            i <= v@.len(),
            r@ == v@.take(i as int),
        decreases v@.len() - i,
    {
        r.push(v[i].duplicate());
        assert(v@.take(i as int).push(v@[i as int]) =~= v@.take(i + 1));
        i = i + 1;
    }
    assert(v@.take(v@.len() as int) =~= v@);
    r
}

/// Copies an optional list of selections.
pub fn clone_opt_selected(o: &Option<Vec<PrfSelected>>) -> (r: Option<Vec<PrfSelected>>)
    ensures
        sel_eq(r, *o),
{
    match o {
        Some(v) => Some(clone_selected(v)),
        None => None,
    }
}

/// The extension items that a main profile refers to, by uid.
pub struct PrfOption {
    pub merge: Option<String>,
    pub script: Option<String>,
    pub rules: Option<String>,
    pub proxies: Option<String>,
    pub groups: Option<String>,
}

/// `b` where it is set, else `a`.
pub open spec fn or_else<T>(b: Option<T>, a: Option<T>) -> Option<T> {
    if b is Some {
        b
    } else {
        a
    }
}

/// A copy of `b` where it is set, else of `a`.
pub fn or_else_string(b: &Option<String>, a: &Option<String>) -> (r: Option<String>)
    ensures
        r == or_else(*b, *a),
{
    if b.is_some() {
        clone_opt_string(b)
    } else {
        clone_opt_string(a)
    }
}

impl PrfOption {
    pub fn duplicate(&self) -> (r: Self)
        ensures
            r == *self,
    {
        PrfOption {
            merge: clone_opt_string(&self.merge),
            script: clone_opt_string(&self.script),
            rules: clone_opt_string(&self.rules),
            proxies: clone_opt_string(&self.proxies),
            groups: clone_opt_string(&self.groups),
        }
    }
}

/// Copies an optional option record.
pub fn clone_opt_option(o: &Option<PrfOption>) -> (r: Option<PrfOption>)
    ensures
        r == *o,
{
    match o {
        Some(p) => Some(p.duplicate()),
        None => None,
    }
}

/// One profile entry: a main profile (`remote` / `local`) or an extension
/// (`merge`, `script`, `rules`, `proxies`, `groups`).
pub struct PrfItem {
    pub uid: Option<String>,
    pub itype: Option<String>,
    pub name: Option<String>,
    pub file: Option<String>,
    pub desc: Option<String>,
    pub url: Option<String>,
    pub selected: Option<Vec<PrfSelected>>,
    pub extra: Option<ProfileExtra>,
    pub updated: Option<u64>,
    pub option: Option<PrfOption>,
    pub home: Option<String>,
    pub file_data: Option<String>,
}

/// Two optional selection lists are both absent or hold the same elements.
pub open spec fn sel_eq(a: Option<Vec<PrfSelected>>, b: Option<Vec<PrfSelected>>) -> bool {
    &&& (a is Some <==> b is Some)
    &&& (a matches Some(x) ==> (b matches Some(y) && x@ == y@))
}

/// Two items agree on every field, selections compared by their elements.
pub open spec fn same_item(a: PrfItem, b: PrfItem) -> bool {
    &&& a.uid == b.uid
    &&& a.itype == b.itype
    &&& a.name == b.name
    &&& a.file == b.file
    &&& a.desc == b.desc
    &&& a.url == b.url
    &&& sel_eq(a.selected, b.selected)
    &&& a.extra == b.extra
    &&& a.updated == b.updated
    &&& a.option == b.option
    &&& a.home == b.home
    &&& a.file_data == b.file_data
}

impl PrfItem {
    pub fn duplicate(&self) -> (r: Self)
        ensures
            same_item(r, *self),
    {
        PrfItem {
            uid: clone_opt_string(&self.uid),
            itype: clone_opt_string(&self.itype),
            name: clone_opt_string(&self.name),
            file: clone_opt_string(&self.file),
            desc: clone_opt_string(&self.desc),
            url: clone_opt_string(&self.url),
            selected: clone_opt_selected(&self.selected),
            extra: self.extra,
            updated: self.updated,
            option: clone_opt_option(&self.option),
            home: clone_opt_string(&self.home),
            file_data: clone_opt_string(&self.file_data),
        }
    }
}

} // verus!
