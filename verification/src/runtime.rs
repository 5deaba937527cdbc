//! The runtime configuration handed to the proxy core, and the patching of
//! the few settings that change without regenerating it.
//!
//! A configuration is an ordered mapping. Top-level values are either
//! mappings (one level deep) or other YAML values, which are carried as they
//! are.

use vstd::prelude::*;
use crate::text::str_eq;
use crate::verge::to_ascii_lower;

verus! {

/// The YAML value type of `serde_yaml_ng`, carried through unread.
#[verifier::external_type_specification]
#[verifier::external_body]
pub struct ExYamlValue(serde_yaml_ng::Value);

/// `serde_yaml_ng::Value::clone` (derived): an equal copy.
#[verifier::external_body]
fn clone_yaml(v: &serde_yaml_ng::Value) -> (r: serde_yaml_ng::Value)
    ensures
        r == *v,
{
    v.clone()
}

/// A mapping key: a string, or any other YAML value.
pub enum YamlKey {
    Text(String),
    Other(serde_yaml_ng::Value),
}

/// A key as the contracts see it.
pub enum YamlKeyView {
    Text(Seq<char>),
    Other(serde_yaml_ng::Value),
}

impl View for YamlKey {
    type V = YamlKeyView;

    open spec fn view(&self) -> YamlKeyView {
        match self {
            YamlKey::Text(s) => YamlKeyView::Text(s@),
            YamlKey::Other(v) => YamlKeyView::Other(*v),
        }
    }
}

impl YamlKey {
    pub fn duplicate(&self) -> (r: Self)
        ensures
            r == *self,
    {
        match self {
            YamlKey::Text(s) => YamlKey::Text(s.clone()),
            YamlKey::Other(v) => YamlKey::Other(clone_yaml(v)),
        }
    }
}

/// A top-level value: a mapping, or any other YAML value.
pub enum RuntimeValue {
    Plain(serde_yaml_ng::Value),
    Mapping(Vec<(YamlKey, serde_yaml_ng::Value)>),
}

/// A top-level value as the contracts see it.
pub enum RuntimeValueView {
    Plain(serde_yaml_ng::Value),
    Mapping(Seq<(YamlKey, serde_yaml_ng::Value)>),
}

impl View for RuntimeValue {
    type V = RuntimeValueView;

    open spec fn view(&self) -> RuntimeValueView {
        match self {
            RuntimeValue::Plain(v) => RuntimeValueView::Plain(*v),
            RuntimeValue::Mapping(m) => RuntimeValueView::Mapping(m@),
        }
    }
}

/// Copies the entries of a nested mapping.
pub fn clone_entries(m: &Vec<(YamlKey, serde_yaml_ng::Value)>) -> (r: Vec<(YamlKey, serde_yaml_ng::Value)>)
    ensures
        r@ == m@,
{
    let mut r: Vec<(YamlKey, serde_yaml_ng::Value)> = Vec::new();
    let mut i: usize = 0;
    while i < m.len()
        invariant
            i <= m@.len(),
            r@ == m@.take(i as int),
        decreases m@.len() - i,
    {
        let e = (m[i].0.duplicate(), clone_yaml(&m[i].1));
        r.push(e);
        assert(m@.take(i as int).push(m@[i as int]) =~= m@.take(i + 1));
        i = i + 1;
    }
    assert(m@.take(m@.len() as int) =~= m@);
    r
}

impl RuntimeValue {
    pub fn duplicate(&self) -> (r: Self)
        ensures
            r@ == self@,
    {
        match self {
            RuntimeValue::Plain(v) => RuntimeValue::Plain(clone_yaml(v)),
            RuntimeValue::Mapping(m) => RuntimeValue::Mapping(clone_entries(m)),
        }
    }
}

/// An ordered mapping of top-level settings.
pub struct RuntimeMapping {
    pub entries: Vec<(YamlKey, RuntimeValue)>,
}

/// The keys of a list of entries.
pub open spec fn keys_of<V>(s: Seq<(YamlKey, V)>) -> Seq<YamlKeyView> {
    s.map_values(|e: (YamlKey, V)| e.0@)
}

/// Index of the first key that is the string `key`, or -1.
pub open spec fn index_of_key(keys: Seq<YamlKeyView>, key: Seq<char>) -> int
    decreases keys.len(),
{
    if keys.len() == 0 {
        -1
    } else if keys[0] == YamlKeyView::Text(key) {
        0
    } else {
        let r = index_of_key(keys.drop_first(), key);
        if r < 0 {
            -1
        } else {
            r + 1
        }
    }
}

/// `index_of_key` names a first match or -1.
pub proof fn lemma_index_of_key(keys: Seq<YamlKeyView>, key: Seq<char>)
    ensures
        -1 <= index_of_key(keys, key) < keys.len(),
        index_of_key(keys, key) >= 0 ==> keys[index_of_key(keys, key)] == YamlKeyView::Text(key),
        index_of_key(keys, key) >= 0 ==> forall|j: int|
            0 <= j < index_of_key(keys, key) ==> #[trigger] keys[j] != YamlKeyView::Text(key),
        index_of_key(keys, key) == -1 ==> forall|j: int|
            0 <= j < keys.len() ==> #[trigger] keys[j] != YamlKeyView::Text(key),
    decreases keys.len(),
{
    if keys.len() > 0 {
        lemma_index_of_key(keys.drop_first(), key);
        assert forall|j: int| 1 <= j < keys.len() implies keys[j] == keys.drop_first()[j - 1] by {}
    }
}

/// A first match found by scanning is what `index_of_key` names.
pub proof fn lemma_index_of_key_scan(keys: Seq<YamlKeyView>, key: Seq<char>, i: int)
    requires
        0 <= i <= keys.len(),
        forall|j: int| 0 <= j < i ==> #[trigger] keys[j] != YamlKeyView::Text(key),
    ensures
        i < keys.len() && keys[i] == YamlKeyView::Text(key) ==> index_of_key(keys, key) == i,
        i == keys.len() ==> index_of_key(keys, key) == -1,
    decreases i,
{
    if i > 0 {
        assert forall|j: int| 0 <= j < i - 1 implies #[trigger] keys.drop_first()[j]
            != YamlKeyView::Text(key) by {
            assert(keys.drop_first()[j] == keys[j + 1]);
        }
        lemma_index_of_key_scan(keys.drop_first(), key, i - 1);
        assert(keys[0] != YamlKeyView::Text(key));
        if i < keys.len() {
            assert(keys.drop_first()[i - 1] == keys[i]);
        }
    }
}

/// The value stored under the string key `key`, if any.
pub open spec fn lookup<V>(s: Seq<(YamlKey, V)>, key: Seq<char>) -> Option<V> {
    let k = index_of_key(keys_of(s), key);
    if k >= 0 {
        Some(s[k].1)
    } else {
        None
    }
}

/// The index of the entry with string key `key`.
pub fn find_key<V>(entries: &Vec<(YamlKey, V)>, key: &str) -> (r: Option<usize>)
    ensures
        match r {
            Some(i) => i < entries@.len() && i as int == index_of_key(keys_of(entries@), key@),
            None => index_of_key(keys_of(entries@), key@) == -1,
        },
{
    let ghost keys = keys_of(entries@);
    let mut i: usize = 0;
    while i < entries.len()
        invariant
            i <= entries@.len(),
            keys == keys_of(entries@),
            forall|j: int| 0 <= j < i ==> #[trigger] keys[j] != YamlKeyView::Text(key@),
        decreases entries@.len() - i,
    {
        assert(keys[i as int] == entries@[i as int].0@);
        let hit = match &entries[i].0 {
            YamlKey::Text(t) => str_eq(t.as_str(), key),
            YamlKey::Other(_) => false,
        };
        if hit {
            proof {
                lemma_index_of_key_scan(keys, key@, i as int);
            }
            return Some(i);
        }
        i = i + 1;
    }
    proof {
        lemma_index_of_key_scan(keys, key@, i as int);
    }
    None
}

/// Stores `v` under the string key `key`: in place when the key is present,
/// else as a new last entry.
pub fn insert_entry<V>(entries: &mut Vec<(YamlKey, V)>, key: &str, v: V)
    ensures
        ({
            let k = index_of_key(keys_of(old(entries)@), key@);
            if k >= 0 {
                final(entries)@ == old(entries)@.update(k, (old(entries)@[k].0, v))
            } else {
                &&& final(entries)@.len() == old(entries)@.len() + 1
                &&& final(entries)@.take(old(entries)@.len() as int) == old(entries)@
                &&& final(entries)@.last().0@ == YamlKeyView::Text(key@)
                &&& final(entries)@.last().1 == v
            }
        }),
{
    match find_key(entries, key) {
        Some(i) => {
            let (k0, _old) = entries.remove(i);
            entries.insert(i, (k0, v));
            assert(entries@ =~= old(entries)@.update(i as int, (old(entries)@[i as int].0, v)));
        },
        None => {
            entries.push((YamlKey::Text(key.to_owned()), v));
            assert(entries@.take(old(entries)@.len() as int) =~= old(entries)@);
        },
    }
}

/// After an insert, `key` holds the inserted value and every other string
/// key holds what it held before.
pub proof fn lemma_insert_lookup<V>(
    old_s: Seq<(YamlKey, V)>,
    new_s: Seq<(YamlKey, V)>,
    key: Seq<char>,
    v: V,
    other: Seq<char>,
)
    requires
        ({
            let k = index_of_key(keys_of(old_s), key);
            if k >= 0 {
                new_s == old_s.update(k, (old_s[k].0, v))
            } else {
                &&& new_s.len() == old_s.len() + 1
                &&& new_s.take(old_s.len() as int) == old_s
                &&& new_s.last().0@ == YamlKeyView::Text(key)
                &&& new_s.last().1 == v
            }
        }),
    ensures
        lookup(new_s, key) == Some(v),
        other != key ==> lookup(new_s, other) == lookup(old_s, other),
{
    let ko = keys_of(old_s);
    let kn = keys_of(new_s);
    lemma_index_of_key(ko, key);
    lemma_index_of_key(ko, other);
    let k = index_of_key(ko, key);
    if k >= 0 {
        assert(kn =~= ko);
    } else {
        assert(kn.take(ko.len() as int) =~= ko) by {
            assert forall|j: int| 0 <= j < ko.len() implies kn[j] == ko[j] by {
                assert(new_s.take(old_s.len() as int)[j] == new_s[j]);
            }
        }
        assert forall|j: int| 0 <= j < ko.len() implies #[trigger] kn[j] == ko[j] by {
            assert(new_s.take(old_s.len() as int)[j] == new_s[j]);
        }
        lemma_index_of_key_scan(kn, key, ko.len() as int);
        let ko_other = index_of_key(ko, other);
        if other != key {
            if ko_other >= 0 {
                lemma_index_of_key_scan(kn, other, ko_other);
            } else {
                assert(kn[ko.len() as int] == YamlKeyView::Text(key));
                lemma_index_of_key_scan(kn, other, kn.len() as int);
            }
        }
    }
}

/// No key occurs twice among the entries (as in a YAML mapping).
pub open spec fn keys_unique<V>(s: Seq<(YamlKey, V)>) -> bool {
    forall|i: int, j: int|
        0 <= i < s.len() && 0 <= j < s.len() && i != j ==> (#[trigger] s[i]).0@ != (#[trigger] s[j]).0@
}

/// A well-formed configuration: no key twice, at the top and in each
/// nested mapping.
pub open spec fn mapping_wf(s: Seq<(YamlKey, RuntimeValue)>) -> bool {
    &&& keys_unique(s)
    &&& forall|i: int|
        0 <= i < s.len() ==> match (#[trigger] s[i]).1 {
            RuntimeValue::Mapping(m) => keys_unique(m@),
            RuntimeValue::Plain(_) => true,
        }
}

/// An insert never makes a key occur twice.
pub proof fn law_insert_keeps_keys_unique<V>(
    old_s: Seq<(YamlKey, V)>,
    new_s: Seq<(YamlKey, V)>,
    key: Seq<char>,
    v: V,
)
    requires
        ({
            let k = index_of_key(keys_of(old_s), key);
            if k >= 0 {
                new_s == old_s.update(k, (old_s[k].0, v))
            } else {
                &&& new_s.len() == old_s.len() + 1
                &&& new_s.take(old_s.len() as int) == old_s
                &&& new_s.last().0@ == YamlKeyView::Text(key)
                &&& new_s.last().1 == v
            }
        }),
        keys_unique(old_s),
    ensures
        keys_unique(new_s),
        forall|i: int| 0 <= i < new_s.len() ==> (#[trigger] new_s[i]).1 == v || (exists|j: int|
            0 <= j < old_s.len() && old_s[j].1 == new_s[i].1),
{
    let ko = keys_of(old_s);
    lemma_index_of_key(ko, key);
    let k = index_of_key(ko, key);
    if k >= 0 {
        assert forall|i: int, j: int|
            0 <= i < new_s.len() && 0 <= j < new_s.len() && i != j implies (#[trigger] new_s[i]).0@
            != (#[trigger] new_s[j]).0@ by {
            assert(new_s[i].0 == old_s[i].0);
            assert(new_s[j].0 == old_s[j].0);
        }
        assert forall|i: int| 0 <= i < new_s.len() implies (#[trigger] new_s[i]).1 == v || (exists|
            j: int,
        | 0 <= j < old_s.len() && old_s[j].1 == new_s[i].1) by {
            if i != k {
                assert(old_s[i].1 == new_s[i].1);
            }
        }
    } else {
        let n = old_s.len() as int;
        assert forall|i: int| 0 <= i < n implies new_s[i] == old_s[i] by {
            assert(new_s.take(n)[i] == new_s[i]);
        }
        assert forall|i: int, j: int|
            0 <= i < new_s.len() && 0 <= j < new_s.len() && i != j implies (#[trigger] new_s[i]).0@
            != (#[trigger] new_s[j]).0@ by {
            if i == n {
                assert(ko[j] == old_s[j].0@);
            } else if j == n {
                assert(ko[i] == old_s[i].0@);
            }
        }
        assert forall|i: int| 0 <= i < new_s.len() implies (#[trigger] new_s[i]).1 == v || (exists|
            j: int,
        | 0 <= j < old_s.len() && old_s[j].1 == new_s[i].1) by {
            if i < n {
                assert(old_s[i].1 == new_s[i].1);
            }
        }
    }
}

/// An insert into a well-formed configuration of a value whose nested
/// keys are unique keeps it well-formed.
proof fn lemma_insert_wf(
    old_s: Seq<(YamlKey, RuntimeValue)>,
    new_s: Seq<(YamlKey, RuntimeValue)>,
    key: Seq<char>,
    v: RuntimeValue,
)
    requires
        ({
            let k = index_of_key(keys_of(old_s), key);
            if k >= 0 {
                new_s == old_s.update(k, (old_s[k].0, v))
            } else {
                &&& new_s.len() == old_s.len() + 1
                &&& new_s.take(old_s.len() as int) == old_s
                &&& new_s.last().0@ == YamlKeyView::Text(key)
                &&& new_s.last().1 == v
            }
        }),
        mapping_wf(old_s),
        v matches RuntimeValue::Mapping(m) ==> keys_unique(m@),
    ensures
        mapping_wf(new_s),
{
    law_insert_keeps_keys_unique(old_s, new_s, key, v);
}

/// Every entry of `a` under a key that is not a string is also an entry of
/// `b`.
pub open spec fn others_kept<V>(a: Seq<(YamlKey, V)>, b: Seq<(YamlKey, V)>) -> bool {
    forall|i: int| 0 <= i < a.len() && (#[trigger] a[i]).0@ is Other ==> b.contains(a[i])
}

/// Entries under non-string keys are the same on both sides.
pub open spec fn same_others<V>(a: Seq<(YamlKey, V)>, b: Seq<(YamlKey, V)>) -> bool {
    others_kept(a, b) && others_kept(b, a)
}

/// An insert under a string key keeps the entries under other keys.
pub proof fn lemma_insert_same_others<V>(
    old_s: Seq<(YamlKey, V)>,
    new_s: Seq<(YamlKey, V)>,
    key: Seq<char>,
    v: V,
)
    requires
        ({
            let k = index_of_key(keys_of(old_s), key);
            if k >= 0 {
                new_s == old_s.update(k, (old_s[k].0, v))
            } else {
                &&& new_s.len() == old_s.len() + 1
                &&& new_s.take(old_s.len() as int) == old_s
                &&& new_s.last().0@ == YamlKeyView::Text(key)
                &&& new_s.last().1 == v
            }
        }),
    ensures
        same_others(old_s, new_s),
{
    let ko = keys_of(old_s);
    lemma_index_of_key(ko, key);
    let k = index_of_key(ko, key);
    if k >= 0 {
        assert(ko[k] == old_s[k].0@);
        assert forall|i: int| 0 <= i < old_s.len() && (#[trigger] old_s[i]).0@ is Other implies new_s.contains(
            old_s[i],
        ) by {
            assert(new_s[i] == old_s[i]);
        }
        assert forall|i: int| 0 <= i < new_s.len() && (#[trigger] new_s[i]).0@ is Other implies old_s.contains(
            new_s[i],
        ) by {
            assert(new_s[i] == old_s[i]);
        }
    } else {
        let n = old_s.len() as int;
        assert forall|i: int| 0 <= i < n implies new_s[i] == old_s[i] by {
            assert(new_s.take(n)[i] == new_s[i]);
        }
        assert forall|i: int| 0 <= i < old_s.len() && (#[trigger] old_s[i]).0@ is Other implies new_s.contains(
            old_s[i],
        ) by {
            assert(new_s[i] == old_s[i]);
        }
        assert forall|i: int| 0 <= i < new_s.len() && (#[trigger] new_s[i]).0@ is Other implies old_s.contains(
            new_s[i],
        ) by {
            assert(new_s[i] == old_s[i]);
        }
    }
}

/// Keeping entries under non-string keys is transitive.
pub proof fn lemma_others_kept_trans<V>(a: Seq<(YamlKey, V)>, b: Seq<(YamlKey, V)>, c: Seq<(YamlKey, V)>)
    requires
        others_kept(a, b),
        others_kept(b, c),
    ensures
        others_kept(a, c),
{
    assert forall|i: int| 0 <= i < a.len() && (#[trigger] a[i]).0@ is Other implies c.contains(a[i]) by {
        let j = choose|j: int| 0 <= j < b.len() && b[j] == a[i];
        assert(b[j].0@ is Other);
    }
}

/// The settings that patching copies from the patch as they are.
pub open spec fn plain_patch_keys() -> Seq<Seq<char>> {
    seq!["allow-lan"@, "ipv6"@, "unified-delay"@, "log-level"@]
}

/// A patch of the running configuration sets each of `allow-lan`, `ipv6`,
/// `unified-delay` and `log-level` to the patch's value when the patch has
/// that key, and leaves it as it was otherwise.
pub proof fn law_patch_copies_listed_settings(
    before: Seq<(YamlKey, RuntimeValue)>,
    after: Seq<(YamlKey, RuntimeValue)>,
    p: Seq<(YamlKey, RuntimeValue)>,
)
    requires
        forall|k: Seq<char>| #[trigger]
            plain_patch_keys().contains(k) ==> match lookup(p, k) {
                Some(v) => lookup(after, k) matches Some(w) && w@ == v@,
                None => lookup(after, k) == lookup(before, k),
            },
    ensures
        lookup(p, "allow-lan"@) matches Some(v) ==> (lookup(after, "allow-lan"@) matches Some(w) && w@ == v@),
        lookup(p, "allow-lan"@) is None ==> lookup(after, "allow-lan"@) == lookup(before, "allow-lan"@),
        lookup(p, "ipv6"@) matches Some(v) ==> (lookup(after, "ipv6"@) matches Some(w) && w@ == v@),
        lookup(p, "ipv6"@) is None ==> lookup(after, "ipv6"@) == lookup(before, "ipv6"@),
        lookup(p, "unified-delay"@) matches Some(v) ==> (lookup(after, "unified-delay"@) matches Some(w) && w@ == v@),
        lookup(p, "unified-delay"@) is None ==> lookup(after, "unified-delay"@) == lookup(before, "unified-delay"@),
        lookup(p, "log-level"@) matches Some(v) ==> (lookup(after, "log-level"@) matches Some(w) && w@ == v@),
        lookup(p, "log-level"@) is None ==> lookup(after, "log-level"@) == lookup(before, "log-level"@),
{
    assert(plain_patch_keys()[0] == "allow-lan"@);
    assert(plain_patch_keys().contains("allow-lan"@));
    assert(plain_patch_keys()[1] == "ipv6"@);
    assert(plain_patch_keys().contains("ipv6"@));
    assert(plain_patch_keys()[2] == "unified-delay"@);
    assert(plain_patch_keys().contains("unified-delay"@));
    assert(plain_patch_keys()[3] == "log-level"@);
    assert(plain_patch_keys().contains("log-level"@));
}

/// The TUN settings before a patch: the current `tun` mapping, or none.
pub open spec fn base_tun(config: Seq<(YamlKey, RuntimeValue)>) -> Seq<(YamlKey, serde_yaml_ng::Value)> {
    match lookup(config, "tun"@) {
        Some(RuntimeValue::Mapping(m)) => m@,
        _ => Seq::empty(),
    }
}

/// Whether `key` is a string that lower-cases (ASCII) to `k`.
pub open spec fn lowers_to(key: YamlKey, k: Seq<char>) -> bool {
    match key {
        YamlKey::Text(t) => crate::verge::ascii_lower(t@) == k,
        YamlKey::Other(_) => false,
    }
}

/// Whether some string key of `m`, in ASCII lower case, is `k`.
pub open spec fn has_lowered_key(m: Seq<(YamlKey, serde_yaml_ng::Value)>, k: Seq<char>) -> bool {
    exists|i: int|
        0 <= i < m.len() && lowers_to((#[trigger] m[i]).0, k)
}

/// The value a patched TUN mapping holds under `k`: the patch's value under
/// `k` when a key of the patch lower-cases to `k` and the patch has `k`
/// itself; else the value before.
pub open spec fn patched_tun_value(
    base: Seq<(YamlKey, serde_yaml_ng::Value)>,
    patch: Seq<(YamlKey, serde_yaml_ng::Value)>,
    k: Seq<char>,
) -> Option<serde_yaml_ng::Value> {
    if has_lowered_key(patch, k) && lookup(patch, k) is Some {
        lookup(patch, k)
    } else {
        lookup(base, k)
    }
}

/// The runtime state: the generated configuration, the keys that the
/// profile chain produced, and the per-item logs of the chain (each key and
/// each item at most once, as `runtime_wf` states).
pub struct IRuntime {
    pub config: Option<RuntimeMapping>,
    pub exists_keys: Vec<String>,
    pub chain_logs: Vec<(String, Vec<(String, String)>)>,
}

/// The sets the runtime state keeps as lists: no key seen in the profile
/// chain is recorded twice, and no item has two logs.
pub open spec fn runtime_wf(r: IRuntime) -> bool {
    &&& forall|i: int, j: int|
        0 <= i < r.exists_keys@.len() && 0 <= j < r.exists_keys@.len() && i != j
            ==> (#[trigger] r.exists_keys@[i])@ != (#[trigger] r.exists_keys@[j])@
    &&& forall|i: int, j: int|
        0 <= i < r.chain_logs@.len() && 0 <= j < r.chain_logs@.len() && i != j
            ==> (#[trigger] r.chain_logs@[i]).0@ != (#[trigger] r.chain_logs@[j]).0@
}

impl IRuntime {
    /// No configuration yet.
    pub fn new() -> (r: Self)
        ensures
            runtime_wf(r),
            r.config is None,
            r.exists_keys@.len() == 0,
            r.chain_logs@.len() == 0,
    {
        IRuntime { config: None, exists_keys: Vec::new(), chain_logs: Vec::new() }
    }

    /// Applies the settings that change without regenerating the
    /// configuration: `allow-lan`, `ipv6`, `unified-delay` and `log-level`
    /// are taken from the patch, and the keys of the patch's `tun` mapping
    /// (lower-cased) are merged into the `tun` mapping. Without a
    /// configuration nothing happens.
    pub fn patch_config(&mut self, patch: &RuntimeMapping)
        ensures
            old(self).config is None ==> *final(self) == *old(self),
            final(self).exists_keys == old(self).exists_keys,
            final(self).chain_logs == old(self).chain_logs,
            runtime_wf(*old(self)) ==> runtime_wf(*final(self)),
            (old(self).config matches Some(c0) && mapping_wf(c0.entries@) && mapping_wf(patch.entries@))
                ==> (final(self).config matches Some(c1) && mapping_wf(c1.entries@)),
            old(self).config matches Some(c0) ==> final(self).config matches Some(c1) && {
                let before = c0.entries@;
                let after = c1.entries@;
                let p = patch.entries@;
                &&& same_others(before, after)
                &&& forall|k: Seq<char>| #[trigger]
                    plain_patch_keys().contains(k) ==> match lookup(p, k) {
                        Some(v) => lookup(after, k) matches Some(w) && w@ == v@,
                        None => lookup(after, k) == lookup(before, k),
                    }
                &&& forall|k: Seq<char>|
                    !plain_patch_keys().contains(k) && k != "tun"@ ==> #[trigger] lookup(after, k)
                        == lookup(before, k)
                &&& match lookup(p, "tun"@) {
                    None => lookup(after, "tun"@) == lookup(before, "tun"@),
                    Some(pt) => lookup(after, "tun"@) matches Some(RuntimeValue::Mapping(t)) && {
                        &&& same_others(base_tun(before), t@)
                        &&& forall|k: Seq<char>| #[trigger]
                            lookup(t@, k) == match pt {
                                RuntimeValue::Mapping(pm) => patched_tun_value(
                                    base_tun(before),
                                    pm@,
                                    k,
                                ),
                                RuntimeValue::Plain(_) => lookup(base_tun(before), k),
                            }
                    },
                }
            },
    {
        let mut config = match self.config.take() {
            Some(c) => c,
            None => {
                return;
            },
        };
        let ghost before = config.entries@;
        let ghost s0 = config.entries@;
        proof {
            reveal_strlit("allow-lan");
            reveal_strlit("ipv6");
            reveal_strlit("unified-delay");
            reveal_strlit("log-level");
            reveal_strlit("tun");
        }
        Self::patch_plain(&mut config.entries, patch, "allow-lan");
        let ghost s1 = config.entries@;
        Self::patch_plain(&mut config.entries, patch, "ipv6");
        let ghost s2 = config.entries@;
        Self::patch_plain(&mut config.entries, patch, "unified-delay");
        let ghost s3 = config.entries@;
        Self::patch_plain(&mut config.entries, patch, "log-level");
        let ghost s4 = config.entries@;
        proof {
            lemma_others_kept_trans(s0, s1, s2);
            lemma_others_kept_trans(s0, s2, s3);
            lemma_others_kept_trans(s0, s3, s4);
            lemma_others_kept_trans(s4, s3, s2);
            lemma_others_kept_trans(s4, s2, s1);
            lemma_others_kept_trans(s4, s1, s0);
        }
        assert forall|k: Seq<char>| #[trigger]
            plain_patch_keys().contains(k) implies match lookup(patch.entries@, k) {
            Some(v) => lookup(s4, k) matches Some(w) && w@ == v@,
            None => lookup(s4, k) == lookup(before, k),
        } by {
            let ks = plain_patch_keys();
            let j = choose|j: int| 0 <= j < ks.len() && ks[j] == k;
            assert(j == 0 || j == 1 || j == 2 || j == 3);
        }
        assert forall|k: Seq<char>| !plain_patch_keys().contains(k) implies #[trigger] lookup(s4, k)
            == lookup(before, k) by {
            assert(plain_patch_keys()[0] == "allow-lan"@);
            assert(plain_patch_keys()[1] == "ipv6"@);
            assert(plain_patch_keys()[2] == "unified-delay"@);
            assert(plain_patch_keys()[3] == "log-level"@);
            assert(lookup(s1, k) == lookup(before, k));
            assert(lookup(s2, k) == lookup(s1, k));
            assert(lookup(s3, k) == lookup(s2, k));
        }
        assert(!plain_patch_keys().contains("tun"@)) by {
            if plain_patch_keys().contains("tun"@) {
                let j = choose|j: int| 0 <= j < plain_patch_keys().len() && plain_patch_keys()[j] == "tun"@;
                assert(j == 0 || j == 1 || j == 2 || j == 3);
                assert("tun"@.len() == 3);
                assert(plain_patch_keys()[0].len() == 9);
                assert(plain_patch_keys()[1].len() == 4);
                assert(plain_patch_keys()[2].len() == 13);
                assert(plain_patch_keys()[3].len() == 9);
            }
        }
        assert(lookup(s4, "tun"@) == lookup(before, "tun"@));
        match find_key(&patch.entries, "tun") {
            None => {},
            Some(pi) => {
                let mut tun: Vec<(YamlKey, serde_yaml_ng::Value)> = match find_key(
                    &config.entries,
                    "tun",
                ) {
                    Some(ci) => match &config.entries[ci].1 {
                        RuntimeValue::Mapping(m) => clone_entries(m),
                        RuntimeValue::Plain(_) => Vec::new(),
                    },
                    None => Vec::new(),
                };
                assert(tun@ == base_tun(before));
                let ghost base = tun@;
                match &patch.entries[pi].1 {
                    RuntimeValue::Mapping(pm) => {
                        Self::merge_tun(&mut tun, pm);
                    },
                    RuntimeValue::Plain(_) => {},
                }
                let ghost tv = tun@;
                let ghost tun_value = RuntimeValue::Mapping(tun);
                insert_entry(&mut config.entries, "tun", RuntimeValue::Mapping(tun));
                proof {
                    if mapping_wf(s4) {
                        lemma_insert_wf(s4, config.entries@, "tun"@, tun_value);
                    }
                    lemma_insert_same_others(s4, config.entries@, "tun"@, tun_value);
                    lemma_others_kept_trans(before, s4, config.entries@);
                    lemma_others_kept_trans(config.entries@, s4, before);
                    lemma_insert_lookup(s4, config.entries@, "tun"@, RuntimeValue::Mapping(tun), "tun"@);
                    assert forall|k: Seq<char>| k != "tun"@ implies #[trigger] lookup(
                        config.entries@,
                        k,
                    ) == lookup(s4, k) by {
                        lemma_insert_lookup(s4, config.entries@, "tun"@, RuntimeValue::Mapping(tun), k);
                    }
                }
            },
        }
        self.config = Some(config);
    }

    /// Copies the patch's value under `key`, if any, into `entries`.
    fn patch_plain(entries: &mut Vec<(YamlKey, RuntimeValue)>, patch: &RuntimeMapping, key: &str)
        ensures
            same_others(old(entries)@, final(entries)@),
            mapping_wf(old(entries)@) && mapping_wf(patch.entries@) ==> mapping_wf(final(entries)@),
            match lookup(patch.entries@, key@) {
                Some(v) => lookup(final(entries)@, key@) matches Some(w) && w@ == v@,
                None => final(entries)@ == old(entries)@,
            },
            forall|k: Seq<char>| k != key@ ==> #[trigger] lookup(final(entries)@, k) == lookup(
                old(entries)@,
                k,
            ),
    {
        match find_key(&patch.entries, key) {
            Some(i) => {
                let v = patch.entries[i].1.duplicate();
                let ghost vv = v;
                insert_entry(entries, key, v);
                proof {
                    lemma_insert_same_others(old(entries)@, entries@, key@, vv);
                    if mapping_wf(old(entries)@) && mapping_wf(patch.entries@) {
                        lemma_insert_wf(old(entries)@, entries@, key@, vv);
                    }
                    lemma_insert_lookup(old(entries)@, entries@, key@, vv, key@);
                    assert forall|k: Seq<char>| k != key@ implies #[trigger] lookup(entries@, k)
                        == lookup(old(entries)@, k) by {
                        lemma_insert_lookup(old(entries)@, entries@, key@, vv, k);
                    }
                }
            },
            None => {},
        }
    }

    /// Merges the keys of the patch's TUN mapping, lower-cased, into `tun`.
    fn merge_tun(tun: &mut Vec<(YamlKey, serde_yaml_ng::Value)>, pm: &Vec<(YamlKey, serde_yaml_ng::Value)>)
        ensures
            forall|k: Seq<char>| #[trigger]
                lookup(final(tun)@, k) == patched_tun_value(old(tun)@, pm@, k),
            keys_unique(old(tun)@) ==> keys_unique(final(tun)@),
            same_others(old(tun)@, final(tun)@),
    {
        let mut i: usize = 0;
        while i < pm.len()
            invariant
                i <= pm@.len(),
                forall|k: Seq<char>| #[trigger]
                    lookup(tun@, k) == if has_lowered_key(pm@.take(i as int), k) && lookup(pm@, k)
                        is Some {
                        lookup(pm@, k)
                    } else {
                        lookup(old(tun)@, k)
                    },
                keys_unique(old(tun)@) ==> keys_unique(tun@),
                same_others(old(tun)@, tun@),
            decreases pm@.len() - i,
        {
            let ghost t0 = tun@;
            match &pm[i].0 {
                YamlKey::Text(t) => {
                    let lowered = to_ascii_lower(t.as_str());
                    match find_key(pm, lowered.as_str()) {
                        Some(j) => {
                            let v = clone_yaml(&pm[j].1);
                            insert_entry(tun, lowered.as_str(), v);
                            proof {
                                if keys_unique(t0) {
                                    law_insert_keeps_keys_unique(t0, tun@, lowered@, v);
                                }
                                lemma_insert_same_others(t0, tun@, lowered@, v);
                                lemma_others_kept_trans(old(tun)@, t0, tun@);
                                lemma_others_kept_trans(tun@, t0, old(tun)@);
                                assert(lookup(pm@, lowered@) == Some(v));
                                assert forall|k: Seq<char>| #[trigger]
                                    lookup(tun@, k) == if has_lowered_key(pm@.take(i + 1), k)
                                        && lookup(pm@, k) is Some {
                                        lookup(pm@, k)
                                    } else {
                                        lookup(old(tun)@, k)
                                    } by {
                                    lemma_insert_lookup(t0, tun@, lowered@, v, k);
                                    lemma_lowered_step(pm@, i as int, k);
                                }
                            }
                        },
                        None => {
                            proof {
                                assert forall|k: Seq<char>| #[trigger]
                                    lookup(tun@, k) == if has_lowered_key(pm@.take(i + 1), k)
                                        && lookup(pm@, k) is Some {
                                        lookup(pm@, k)
                                    } else {
                                        lookup(old(tun)@, k)
                                    } by {
                                    lemma_lowered_step(pm@, i as int, k);
                                }
                            }
                        },
                    }
                },
                YamlKey::Other(_) => {
                    proof {
                        assert forall|k: Seq<char>| #[trigger]
                            lookup(tun@, k) == if has_lowered_key(pm@.take(i + 1), k) && lookup(
                                pm@,
                                k,
                            ) is Some {
                                lookup(pm@, k)
                            } else {
                                lookup(old(tun)@, k)
                            } by {
                            lemma_lowered_step(pm@, i as int, k);
                        }
                    }
                },
            }
            i = i + 1;
        }
        assert(pm@.take(pm@.len() as int) =~= pm@);
    }
}

/// Extending a prefix by one entry adds at most that entry's lowered key.
proof fn lemma_lowered_step(m: Seq<(YamlKey, serde_yaml_ng::Value)>, i: int, k: Seq<char>)
    requires
        0 <= i < m.len(),
    ensures
        has_lowered_key(m.take(i + 1), k) == (has_lowered_key(m.take(i), k) || lowers_to(m[i].0, k)),
{
    if has_lowered_key(m.take(i + 1), k) {
        let j = choose|j: int|
            0 <= j < m.take(i + 1).len() && lowers_to((#[trigger] m.take(i + 1)[j]).0, k);
        if j < i {
            assert(m.take(i)[j] == m.take(i + 1)[j]);
        }
    }
    if has_lowered_key(m.take(i), k) {
        let j = choose|j: int|
            0 <= j < m.take(i).len() && lowers_to((#[trigger] m.take(i)[j]).0, k);
        assert(m.take(i)[j] == m.take(i + 1)[j]);
    }
    if lowers_to(m[i].0, k) {
        assert(m.take(i + 1)[i] == m[i]);
    }
}

/// Which step of reading YAML text failed.
pub enum YamlStep {
    /// The text is not valid YAML; the parser's message.
    Syntax(String),
    /// Its merge keys (`<<`) could not be applied.
    Merge,
}

/// Why a file could not be read as a mapping; each names the file.
pub enum MappingError {
    NotFound(String),
    /// The file, and the parser's message.
    Syntax(String, String),
    Merge(String),
    NotMapping(String),
}

/// Whether `serde_yaml_ng` parses `text` as a YAML value.
pub uninterp spec fn yaml_parse_ok(text: Seq<char>) -> bool;

/// The message `serde_yaml_ng` gives when it cannot parse `text`.
pub uninterp spec fn yaml_syntax_message(text: Seq<char>) -> Seq<char>;

/// Whether the merge keys of the value parsed from `text` can be applied.
pub uninterp spec fn yaml_merge_ok(text: Seq<char>) -> bool;

/// Whether the value parsed from `text`, merged, is a mapping.
pub uninterp spec fn yaml_top_is_mapping(text: Seq<char>) -> bool;

/// The entries of the mapping parsed from `text`, merged, as the library
/// holds them.
pub uninterp spec fn yaml_top_mapping(text: Seq<char>) -> Seq<(YamlKeyView, RuntimeValueView)>;

/// The entries of a mapping by their views.
pub open spec fn entry_views(s: Seq<(YamlKey, RuntimeValue)>) -> Seq<(YamlKeyView, RuntimeValueView)> {
    s.map_values(|e: (YamlKey, RuntimeValue)| (e.0@, e.1@))
}

/// `serde_yaml_ng::from_str::<Value>` (its error's text kept) then
/// `Value::apply_merge`; a mapping
/// comes back as the library's entries (string keys as text, nested
/// mappings one level deep), any other value as `None`. The keys of a YAML
/// mapping are distinct, at the top and in each nested mapping.
#[verifier::external_body]
fn parse_yaml_merged(text: &str) -> (r: Result<Option<RuntimeMapping>, YamlStep>)
    ensures
        (r matches Err(YamlStep::Syntax(_))) <==> !yaml_parse_ok(text@),
        r matches Err(YamlStep::Syntax(m)) ==> m@ == yaml_syntax_message(text@),
        (r matches Err(YamlStep::Merge)) <==> (yaml_parse_ok(text@) && !yaml_merge_ok(text@)),
        r is Ok <==> (yaml_parse_ok(text@) && yaml_merge_ok(text@)),
        r matches Ok(o) ==> (o is Some <==> yaml_top_is_mapping(text@)),
        r matches Ok(Some(m)) ==> entry_views(m.entries@) == yaml_top_mapping(text@) && mapping_wf(m.entries@),
{
    let mut v: serde_yaml_ng::Value = serde_yaml_ng::from_str(text).map_err(|e| YamlStep::Syntax(e.to_string()))?;
    v.apply_merge().map_err(|_| YamlStep::Merge)?;
    let key = |(k, y)| (match k { serde_yaml_ng::Value::String(s) => YamlKey::Text(s), o => YamlKey::Other(o) }, y);
    let val = |(k, x)| (k, match x {
        serde_yaml_ng::Value::Mapping(m) => RuntimeValue::Mapping(m.into_iter().map(key).collect()),
        o => RuntimeValue::Plain(o),
    });
    Ok(match v {
        serde_yaml_ng::Value::Mapping(m) => Some(RuntimeMapping { entries: m.into_iter().map(key).map(val).collect() }),
        _ => None,
    })
}

/// The text of a mapping error.
pub open spec fn mapping_error_text(e: MappingError) -> Seq<char> {
    match e {
        MappingError::NotFound(p) => "file not found \""@ + p@ + "\""@,
        MappingError::Syntax(p, m) => "YAML syntax error: in "@ + p@ + ": "@ + m@,
        MappingError::Merge(p) => "failed to apply merge \""@ + p@ + "\""@,
        MappingError::NotMapping(p) => "failed to transform to yaml mapping \""@ + p@ + "\""@,
    }
}

impl MappingError {
    /// The text of the error.
    pub fn message(&self) -> (r: String)
        ensures
            r@ == mapping_error_text(*self),
    {
        match self {
            MappingError::NotFound(p) => {
                let mut s = "file not found \"".to_owned();
                s.append(p.as_str());
                s.append("\"");
                s
            },
            MappingError::Syntax(p, m) => {
                let mut s = "YAML syntax error: in ".to_owned();
                s.append(p.as_str());
                s.append(": ");
                s.append(m.as_str());
                s
            },
            MappingError::Merge(p) => {
                let mut s = "failed to apply merge \"".to_owned();
                s.append(p.as_str());
                s.append("\"");
                s
            },
            MappingError::NotMapping(p) => {
                let mut s = "failed to transform to yaml mapping \"".to_owned();
                s.append(p.as_str());
                s.append("\"");
                s
            },
        }
    }
}

/// Reads the text of the file at `path` (`None` when there is no such file)
/// as a mapping, with merge keys applied.
pub fn mapping_from_text(path: &str, text: Option<&str>) -> (r: Result<RuntimeMapping, MappingError>)
    ensures
        text is None ==> (r matches Err(MappingError::NotFound(p)) && p@ == path@),
        text matches Some(t) ==> {
            &&& !yaml_parse_ok(t@) ==> (r matches Err(MappingError::Syntax(p, m)) && p@ == path@ && m@
                == yaml_syntax_message(t@))
            &&& (yaml_parse_ok(t@) && !yaml_merge_ok(t@)) ==> (r matches Err(MappingError::Merge(p))
                && p@ == path@)
            &&& (yaml_parse_ok(t@) && yaml_merge_ok(t@)) ==> {
                &&& (r is Ok <==> yaml_top_is_mapping(t@))
                &&& !yaml_top_is_mapping(t@) ==> (r matches Err(MappingError::NotMapping(p)) && p@
                    == path@)
                &&& r matches Ok(m) ==> (entry_views(m.entries@) == yaml_top_mapping(t@) && mapping_wf(
                    m.entries@,
                ))
            }
        },
{
    let t = match text {
        Some(t) => t,
        None => {
            return Err(MappingError::NotFound(path.to_owned()));
        },
    };
    match parse_yaml_merged(t) {
        Err(YamlStep::Syntax(m)) => Err(MappingError::Syntax(path.to_owned(), m)),
        Err(YamlStep::Merge) => Err(MappingError::Merge(path.to_owned())),
        Ok(None) => Err(MappingError::NotMapping(path.to_owned())),
        Ok(Some(m)) => Ok(m),
    }
}

} // verus!
