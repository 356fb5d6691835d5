//! The plugin cache: its order, its freshness, and the clock it is stamped with.
use vstd::prelude::*;

use crate::order::{lemma_text_facts, text_order};
use crate::paths::{compare_paths, compare_strings, lemma_path_order_facts, path_order};
use crate::plugin::{
    format_label, installed_bundle, is_installed_plugin_bundle, scope_label, BundleProbe, Plugin,
    PluginView,
};
use crate::text::{decimal, push_decimal, push_str};

verus! {

/// The layout version that caches are written with.
pub const CACHE_VERSION: u8 = 2;

/// The plugin list as stored on disk, with the version of its layout and the
/// time (seconds since the epoch) it was made.
pub struct PluginCache {
    pub version: u8,
    pub generated_at: u64,
    pub plugins: Vec<Plugin>,
}

// ---------------------------------------------------------------------------
// Order
// ---------------------------------------------------------------------------

/// The order plugins are listed in: by family, then name, then format label,
/// then scope label, then path.
pub open spec fn plugin_order(a: PluginView, b: PluginView) -> int {
    let by_family = text_order(a.family, b.family);
    let by_name = text_order(a.name, b.name);
    let by_format = text_order(format_label(a.format), format_label(b.format));
    let by_scope = text_order(scope_label(a.scope), scope_label(b.scope));
    if by_family != 0 {
        by_family
    } else if by_name != 0 {
        by_name
    } else if by_format != 0 {
        by_format
    } else if by_scope != 0 {
        by_scope
    } else {
        path_order(a.path, b.path)
    }
}

/// The plugin order is a total preorder: swapping flips the sign, and it is transitive.
pub proof fn lemma_plugin_order(a: PluginView, b: PluginView, c: PluginView)
    ensures
        plugin_order(a, b) == -plugin_order(b, a),
        -1 <= plugin_order(a, b) <= 1,
        plugin_order(a, b) <= 0 && plugin_order(b, c) <= 0 ==> plugin_order(a, c) <= 0,
{
    lemma_text_facts(a.family, b.family, c.family);
    lemma_text_facts(b.family, c.family, a.family);
    lemma_text_facts(a.family, c.family, b.family);
    lemma_text_facts(a.name, b.name, c.name);
    lemma_text_facts(b.name, c.name, a.name);
    lemma_text_facts(a.name, c.name, b.name);
    lemma_text_facts(format_label(a.format), format_label(b.format), format_label(c.format));
    lemma_text_facts(format_label(b.format), format_label(c.format), format_label(a.format));
    lemma_text_facts(format_label(a.format), format_label(c.format), format_label(b.format));
    lemma_text_facts(scope_label(a.scope), scope_label(b.scope), scope_label(c.scope));
    lemma_text_facts(scope_label(b.scope), scope_label(c.scope), scope_label(a.scope));
    lemma_text_facts(scope_label(a.scope), scope_label(c.scope), scope_label(b.scope));
    lemma_path_order_facts(a.path, b.path, c.path);
    lemma_path_order_facts(b.path, c.path, a.path);
    lemma_path_order_facts(a.path, c.path, b.path);
}

/// Three-way comparison of two plugins in list order.
pub fn compare_plugins(a: &Plugin, b: &Plugin) -> (r: i8)
    ensures
        r as int == plugin_order(a@, b@),
{
    let c = compare_strings(&a.family, &b.family);
    if c != 0 {
        return c;
    }
    let c = compare_strings(&a.name, &b.name);
    if c != 0 {
        return c;
    }
    let c = compare_strings(&a.format.label(), &b.format.label());
    if c != 0 {
        return c;
    }
    let c = compare_strings(&a.scope.label(), &b.scope.label());
    if c != 0 {
        return c;
    }
    compare_paths(a.path.as_str(), b.path.as_str())
}

/// Every plugin comes no later in list order than the ones after it.
pub open spec fn is_sorted(s: Seq<Plugin>) -> bool {
    forall|i: int, j: int| 0 <= i < j < s.len() ==> plugin_order(#[trigger] s[i]@, #[trigger] s[j]@) <= 0
}

/// The plugins that tie with `q` in list order.
pub open spec fn ties_with(q: Plugin) -> spec_fn(Plugin) -> bool {
    |p: Plugin| plugin_order(p@, q@) == 0
}

proof fn lemma_filter_none(s: Seq<Plugin>, pred: spec_fn(Plugin) -> bool)
    requires
        forall|i: int| 0 <= i < s.len() ==> !pred(#[trigger] s[i]),
    ensures
        s.filter(pred) == Seq::<Plugin>::empty(),
    decreases s.len(),
{
    reveal(Seq::filter);
    if s.len() > 0 {
        lemma_filter_none(s.drop_last(), pred);
    }
}

/// Inserting `x` in front of a run of plugins that all come after it keeps
/// every class of tying plugins in order, with `x` last in its own class.
proof fn lemma_insert_keeps_ties(s: Seq<Plugin>, k: int, x: Plugin, q: Plugin)
    requires
        0 <= k <= s.len(),
        forall|m: int| k <= m < s.len() ==> plugin_order(#[trigger] s[m]@, x@) > 0,
    ensures
        s.insert(k, x).filter(ties_with(q)) == if plugin_order(x@, q@) == 0 {
            s.filter(ties_with(q)).push(x)
        } else {
            s.filter(ties_with(q))
        },
{
    let pred = ties_with(q);
    let front = s.subrange(0, k);
    let back = s.subrange(k, s.len() as int);
    assert(s == front + back);
    assert(s.insert(k, x) == front.push(x) + back);
    Seq::filter_distributes_over_add(front.push(x), back, pred);
    Seq::filter_distributes_over_add(front, back, pred);
    front.lemma_filter_push(x, pred);
    if plugin_order(x@, q@) == 0 {
        assert forall|i: int| 0 <= i < back.len() implies !pred(#[trigger] back[i]) by {
            lemma_plugin_order(back[i]@, q@, x@);
            lemma_plugin_order(q@, x@, back[i]@);
            lemma_plugin_order(x@, q@, back[i]@);
        }
        lemma_filter_none(back, pred);
        assert(front.filter(pred) + Seq::<Plugin>::empty() == front.filter(pred));
        assert(front.filter(pred).push(x) + Seq::<Plugin>::empty() == front.filter(pred).push(x));
    }
}

/// The plugins in list order. The sort is stable: plugins that tie keep
/// their relative order.
pub fn sort_plugins(plugins: Vec<Plugin>) -> (sorted: Vec<Plugin>)
    ensures
        sorted@.to_multiset() == plugins@.to_multiset(),
        is_sorted(sorted@),
        forall|q: Plugin| #[trigger] sorted@.filter(ties_with(q)) == plugins@.filter(ties_with(q)),
        is_sorted(plugins@) ==> sorted@ == plugins@,
{
    broadcast use vstd::seq_lib::to_multiset_build, vstd::seq_lib::to_multiset_insert;

    let mut out: Vec<Plugin> = Vec::new();
    let mut i: usize = 0;
    assert(out@ == plugins@.take(0));
    assert forall|q: Plugin| #[trigger] out@.filter(ties_with(q)) == plugins@.take(0).filter(ties_with(q)) by {
        reveal(Seq::filter);
    }
    while i < plugins.len()
        invariant
            i <= plugins@.len(),
            out@.to_multiset() == plugins@.take(i as int).to_multiset(),
            is_sorted(out@),
            is_sorted(plugins@) ==> out@ == plugins@.take(i as int),
            forall|q: Plugin| #[trigger] out@.filter(ties_with(q)) == plugins@.take(i as int).filter(ties_with(q)),
        decreases plugins@.len() - i,
    {
        let x = plugins[i].clone();
        let mut k = out.len();
        while k > 0 && compare_plugins(&out[k - 1], &x) > 0
            invariant
                k <= out@.len(),
                is_sorted(out@),
                forall|m: int| k <= m < out@.len() ==> plugin_order(#[trigger] out@[m]@, x@) > 0,
            decreases k,
        {
            k -= 1;
        }
        proof {
            let old_out = out@;
            if is_sorted(plugins@) && k < old_out.len() {
                let last = old_out.len() - 1;
                assert(old_out[last] == plugins@[i - 1]);
                assert(plugin_order(old_out[last]@, x@) > 0);
                assert(plugin_order(plugins@[i - 1]@, plugins@[i as int]@) <= 0);
            }
            if k > 0 {
                assert(plugin_order(old_out[k - 1]@, x@) <= 0);
            }
            assert forall|m: int| 0 <= m < k implies plugin_order(#[trigger] old_out[m]@, x@) <= 0 by {
                if m < k - 1 {
                    lemma_plugin_order(old_out[m]@, old_out[k - 1]@, x@);
                }
            }
            assert forall|m: int| k <= m < old_out.len() implies plugin_order(x@, #[trigger] old_out[m]@) < 0 by {
                lemma_plugin_order(old_out[m]@, x@, x@);
            }
            let new_out = old_out.insert(k as int, x);
            old_out.insert_ensures(k as int, x);
            assert forall|p: int, q: int| 0 <= p < q < new_out.len() implies plugin_order(#[trigger] new_out[p]@, #[trigger] new_out[q]@) <= 0 by {
                if q < k {
                } else if q == k {
                } else if p < k {
                    lemma_plugin_order(old_out[p]@, x@, old_out[q - 1]@);
                } else if p == k {
                } else {
                }
            }
            assert(plugins@.take(i + 1) == plugins@.take(i as int).push(x));
        }
        let ghost before = out@;
        let ghost xv = x;
        out.insert(k, x);
        proof {
            vstd::seq_lib::to_multiset_insert(before, k as int, xv);
            assert(out@.to_multiset() == before.to_multiset().insert(xv));
            assert(plugins@.take(i + 1) == plugins@.take(i as int).push(xv));
            vstd::seq_lib::to_multiset_build(plugins@.take(i as int), xv);
            assert(plugins@.take(i + 1).to_multiset() == plugins@.take(i as int).to_multiset().insert(xv));
            if is_sorted(plugins@) {
                assert(out@ == before.push(xv));
            }
            assert forall|q: Plugin| #[trigger] out@.filter(ties_with(q)) == plugins@.take(i + 1).filter(ties_with(q)) by {
                lemma_insert_keeps_ties(before, k as int, xv, q);
                plugins@.take(i as int).lemma_filter_push(xv, ties_with(q));
            }
        }
        i += 1;
    }
    assert(plugins@.take(plugins@.len() as int) == plugins@);
    out
}


// ---------------------------------------------------------------------------
// Freshness
// ---------------------------------------------------------------------------

/// Some cached plugin is no longer an installed bundle, judged by the probe
/// of its path at the same position.
pub open spec fn plugins_changed(plugins: Seq<Plugin>, probes: Seq<BundleProbe>) -> bool {
    exists|i: int|
        0 <= i < plugins.len() && !installed_bundle(
            #[trigger] plugins[i].path@,
            plugins[i].format,
            probes[i],
        )
}

/// Some root was modified after `generated_at`.
pub open spec fn roots_changed(root_modified: Seq<Option<u64>>, generated_at: u64) -> bool {
    exists|i: int|
        0 <= i < root_modified.len() && (#[trigger] root_modified[i] matches Some(m) && m > generated_at)
}

/// A cache must be rebuilt when its layout is old, a plugin in it is gone, or a
/// root changed after it was made.
pub open spec fn stale(cache: PluginCache, probes: Seq<BundleProbe>, root_modified: Seq<Option<u64>>) -> bool {
    cache.version != CACHE_VERSION || plugins_changed(cache.plugins@, probes) || roots_changed(
        root_modified,
        cache.generated_at,
    )
}

/// Whether a cached plugin is no longer installed; `probes[i]` is what was
/// seen at the path of `plugins[i]`.
pub fn cached_plugins_changed(plugins: &Vec<Plugin>, probes: &Vec<BundleProbe>) -> (r: bool)
    requires
        probes@.len() == plugins@.len(),
    ensures
        r == plugins_changed(plugins@, probes@),
{
    let mut i: usize = 0;
    while i < plugins.len()
        invariant
            probes@.len() == plugins@.len(),
            i <= plugins@.len(),
            forall|k: int|
                0 <= k < i ==> installed_bundle(#[trigger] plugins@[k].path@, plugins@[k].format, probes@[k]),
        decreases plugins@.len() - i,
    {
        if !is_installed_plugin_bundle(plugins[i].path.as_str(), plugins[i].format, &probes[i]) {
            return true;
        }
        i += 1;
    }
    false
}

/// Whether a root was modified after `generated_at`; `root_modified[i]` is the
/// modification time of root `i`, when it could be read.
pub fn roots_changed_since(root_modified: &Vec<Option<u64>>, generated_at: u64) -> (r: bool)
    ensures
        r == roots_changed(root_modified@, generated_at),
{
    let mut i: usize = 0;
    while i < root_modified.len()
        invariant
            i <= root_modified@.len(),
            forall|k: int| 0 <= k < i ==> !(#[trigger] root_modified@[k] matches Some(m) && m > generated_at),
        decreases root_modified@.len() - i,
    {
        match root_modified[i] {
            Some(m) => {
                if m > generated_at {
                    return true;
                }
            },
            None => {},
        }
        i += 1;
    }
    false
}

/// Whether a loaded cache must be rebuilt.
pub fn cache_is_stale(cache: &PluginCache, probes: &Vec<BundleProbe>, root_modified: &Vec<Option<u64>>) -> (r: bool)
    requires
        probes@.len() == cache.plugins@.len(),
    ensures
        r == stale(*cache, probes@, root_modified@),
{
    cache.version != CACHE_VERSION || cached_plugins_changed(&cache.plugins, probes)
        || roots_changed_since(root_modified, cache.generated_at)
}

/// The loaded cache when it can be used as it is; `None` asks for a new scan.
pub fn load_or_refresh_cache(
    loaded: Option<PluginCache>,
    probes: &Vec<BundleProbe>,
    root_modified: &Vec<Option<u64>>,
) -> (r: Option<PluginCache>)
    requires
        loaded matches Some(c) ==> probes@.len() == c.plugins@.len(),
    ensures
        match loaded {
            Some(c) => if stale(c, probes@, root_modified@) {
                r is None
            } else {
                r == Some(c)
            },
            None => r is None,
        },
{
    match loaded {
        Some(cache) => {
            if cache_is_stale(&cache, probes, root_modified) {
                None
            } else {
                Some(cache)
            }
        },
        None => None,
    }
}

// ---------------------------------------------------------------------------
// Time
// ---------------------------------------------------------------------------

#[verifier::external_type_specification]
#[verifier::external_body]
pub struct ExSystemTime(std::time::SystemTime);

/// `SystemTime::now` reads the system clock; nothing is claimed of the reading.
pub assume_specification[ std::time::SystemTime::now ]() -> std::time::SystemTime;

/// Whole seconds from the Unix epoch to `t`, or `None` when `t` is earlier:
/// what `SystemTime::duration_since(UNIX_EPOCH)` followed by
/// `Duration::as_secs` gives. It depends on `t` alone.
pub uninterp spec fn seconds_since_epoch(t: std::time::SystemTime) -> Option<u64>;

/// Calls `SystemTime::duration_since` from `UNIX_EPOCH` and `Duration::as_secs`
/// on the `Ok` value, dropping the error. Claimed: the result is
/// `seconds_since_epoch(time)`, a function of `time` alone.
#[verifier::external_body]
fn epoch_seconds(time: std::time::SystemTime) -> (r: Option<u64>)
    ensures
        r == seconds_since_epoch(time),
{
    time.duration_since(std::time::UNIX_EPOCH).ok().map(|d| d.as_secs())
}

/// Whole seconds from the Unix epoch to `time`; `None` for earlier times.
pub fn system_time_to_unix(time: std::time::SystemTime) -> (r: Option<u64>)
    ensures
        r == seconds_since_epoch(time),
{
    epoch_seconds(time)
}

/// The seconds of a clock reading, or 0 when it is before the epoch.
pub open spec fn seconds_or_zero(t: std::time::SystemTime) -> u64 {
    match seconds_since_epoch(t) {
        Some(s) => s,
        None => 0,
    }
}

/// The current time in seconds since the epoch, or 0 when the clock reads earlier.
pub fn unix_now() -> (r: u64)
    ensures
        exists|t: std::time::SystemTime| r == seconds_or_zero(t),
{
    let now = std::time::SystemTime::now();
    let r = match system_time_to_unix(now) {
        Some(t) => t,
        None => 0,
    };
    assert(r == seconds_or_zero(now));
    r
}

/// A modification time in seconds since the epoch, from what the metadata showed.
pub fn modified_unix(modified: Option<std::time::SystemTime>) -> (r: Option<u64>)
    ensures
        r == match modified {
            Some(t) => seconds_since_epoch(t),
            None => None,
        },
{
    match modified {
        Some(t) => system_time_to_unix(t),
        None => None,
    }
}

/// How a time stamp is shown: "<seconds>s since epoch".
pub open spec fn unix_time_text(timestamp: u64) -> Seq<char> {
    decimal(timestamp as nat) + "s since epoch"@
}

/// The text shown for a time stamp.
pub fn format_unix_time(timestamp: u64) -> (r: String)
    ensures
        r@ == unix_time_text(timestamp),
{
    let mut r = String::new();
    push_decimal(&mut r, timestamp);
    push_str(&mut r, "s since epoch");
    r
}

/// Distinct time stamps are shown differently.
pub proof fn lemma_unix_time_text_injective(a: u64, b: u64)
    requires
        unix_time_text(a) == unix_time_text(b),
    ensures
        a == b,
{
    let suffix = "s since epoch"@;
    let da = decimal(a as nat);
    let db = decimal(b as nat);
    assert(unix_time_text(a).len() == da.len() + suffix.len());
    assert(unix_time_text(b).len() == db.len() + suffix.len());
    assert(unix_time_text(a).subrange(0, da.len() as int) == da);
    assert(unix_time_text(b).subrange(0, db.len() as int) == db);
    assert(da.len() == db.len());
    crate::text::lemma_decimal_injective(a as nat, b as nat);
}

// ---------------------------------------------------------------------------
// Building
// ---------------------------------------------------------------------------

/// A cache of the given scan, stamped `generated_at`, with the plugins in list order.
pub fn cache_from_scan(plugins: Vec<Plugin>, generated_at: u64) -> (cache: PluginCache)
    ensures
        cache.version == CACHE_VERSION,
        cache.generated_at == generated_at,
        cache.plugins@.to_multiset() == plugins@.to_multiset(),
        is_sorted(cache.plugins@),
        forall|q: Plugin| #[trigger] cache.plugins@.filter(ties_with(q)) == plugins@.filter(ties_with(q)),
{
    let sorted = sort_plugins(plugins);
    PluginCache { version: CACHE_VERSION, generated_at, plugins: sorted }
}

/// The cache to store after a scan: the plugins in list order, stamped with
/// the current time.
pub fn scan_and_store_cache(plugins: Vec<Plugin>) -> (cache: PluginCache)
    ensures
        cache.version == CACHE_VERSION,
        cache.plugins@.to_multiset() == plugins@.to_multiset(),
        is_sorted(cache.plugins@),
        forall|q: Plugin| #[trigger] cache.plugins@.filter(ties_with(q)) == plugins@.filter(ties_with(q)),
        exists|t: std::time::SystemTime| cache.generated_at == seconds_or_zero(t),
{
    let now = unix_now();
    cache_from_scan(plugins, now)
}

} // verus!
