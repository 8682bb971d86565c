//! The thumbnail cache: key generation, file names, the metadata kept beside
//! each image, and the expiry decisions.
//!
//! The files themselves are read and written by the caller; this module
//! decides what they are called, what the metadata says, and whether an
//! entry may still be served.

use vstd::prelude::*;
use crate::json::{field, JsonNumber, JsonValue};
use crate::text::{append_str, chars_of, decimal, decimal_chars, string_of};
use crate::tools::owned_str;

verus! {

/// How long a thumbnail stays valid by default: a day, in milliseconds.
pub const DEFAULT_TTL_MS: u64 = 86400000;

/// Where and for how long thumbnails are cached, and the URL they are served under.
#[derive(Clone, Debug)]
pub struct ThumbnailCacheConfig {
    pub cache_dir: String,
    /// Time to live, in milliseconds.
    pub ttl_ms: u64,
    pub base_url: String,
}

/// The base URL that thumbnails of a server at `host:port` are served under.
pub open spec fn base_url_of(host: Seq<char>, port: u16) -> Seq<char> {
    "http://"@ + host + ":"@ + decimal(port as nat) + "/thumbnail"@
}

impl ThumbnailCacheConfig {
    pub fn new(cache_dir: String, ttl_ms: u64, host: &str, port: u16) -> (r: Self)
        ensures
            r.cache_dir == cache_dir,
            r.ttl_ms == ttl_ms,
            r.base_url@ == base_url_of(host@, port),
    {
        let mut out: Vec<char> = Vec::new();
        append_str(&mut out, "http://");
        append_str(&mut out, host);
        append_str(&mut out, ":");
        let mut d = decimal_chars(port as u64);
        out.append(&mut d);
        append_str(&mut out, "/thumbnail");
        ThumbnailCacheConfig { cache_dir, ttl_ms, base_url: string_of(out.as_slice()) }
    }
}

/// What is recorded beside each cached image.
#[derive(Debug)]
pub struct ThumbnailMetadata {
    /// When the image was cached, in milliseconds since the Unix epoch.
    pub cached_at: i64,
    /// The asset the image shows.
    pub source: String,
    pub content_hash: Option<String>,
}

/// A cache of thumbnail images in one directory.
#[derive(Debug)]
pub struct ThumbnailCache {
    config: ThumbnailCacheConfig,
}

/// The digit of a value below 16, in lower case.
pub open spec fn hex_char(d: nat) -> char {
    if d < 10 {
        crate::text::digit_char(d)
    } else if d == 10 {
        'a'
    } else if d == 11 {
        'b'
    } else if d == 12 {
        'c'
    } else if d == 13 {
        'd'
    } else if d == 14 {
        'e'
    } else {
        'f'
    }
}

/// The last `n` hexadecimal digits of `v`, most significant first.
pub open spec fn hex_digits(v: nat, n: nat) -> Seq<char>
    decreases n,
{
    if n == 0 {
        Seq::empty()
    } else {
        hex_digits(v / 16, (n - 1) as nat).push(hex_char(v % 16))
    }
}

/// `dir` and `file` joined as one path.
pub open spec fn join_path(dir: Seq<char>, file: Seq<char>) -> Seq<char> {
    if dir.len() == 0 {
        file
    } else if dir.last() == '/' {
        dir + file
    } else {
        dir + seq!['/'] + file
    }
}

/// The metadata member `key` of a metadata object.
pub open spec fn meta_member(v: JsonValue, key: Seq<char>) -> Option<JsonValue> {
    v.spec_get(key)
}

/// The creation time and source that a metadata value records, if it is well formed.
pub open spec fn parse_metadata(v: JsonValue) -> Option<(i64, Seq<char>)> {
    let at = match meta_member(v, "cached_at"@) {
        Some(JsonValue::Number(JsonNumber::PosInt(n))) => if n <= i64::MAX as u64 {
            Some(n as i64)
        } else {
            None
        },
        Some(JsonValue::Number(JsonNumber::NegInt(n))) => Some(n),
        _ => None,
    };
    let source = match meta_member(v, "source"@) {
        Some(JsonValue::Str(s)) => Some(s@),
        _ => None,
    };
    let hash_ok = match meta_member(v, "content_hash"@) {
        None => true,
        Some(JsonValue::Null) => true,
        Some(JsonValue::Str(_)) => true,
        _ => false,
    };
    if v is Object && at is Some && source is Some && hash_ok {
        Some((at->0, source->0))
    } else {
        None
    }
}

/// Whether an entry has expired at `now`: its metadata is missing or
/// malformed, or more than `ttl` milliseconds have passed since it was cached.
pub open spec fn expired_at(meta: Option<JsonValue>, now: i64, ttl: u64) -> bool {
    match meta {
        None => true,
        Some(v) => match parse_metadata(v) {
            None => true,
            Some((at, _)) => now - at > ttl,
        },
    }
}

/// The key of a cache file: the name without `.png`, for the image files.
pub open spec fn image_key(name: Seq<char>) -> Option<Seq<char>> {
    if name.len() > 4 && name.subrange(name.len() - 4, name.len() as int) == ".png"@ && !(
    forall|i: int| 0 <= i < name.len() - 4 ==> name[i] == '.') {
        Some(name.subrange(0, name.len() - 4))
    } else {
        None
    }
}

/// The keys among `candidates` whose entries have expired, in order.
pub open spec fn expired_keys(candidates: Seq<(String, Option<JsonValue>)>, now: i64, ttl: u64) -> Seq<
    Seq<char>,
>
    decreases candidates.len(),
{
    if candidates.len() == 0 {
        seq![]
    } else if expired_at(candidates.last().1, now, ttl) {
        expired_keys(candidates.drop_last(), now, ttl).push(candidates.last().0@)
    } else {
        expired_keys(candidates.drop_last(), now, ttl)
    }
}

/// What loading a cached image comes to.
#[derive(Debug, Clone, Copy, PartialEq, Eq, Structural)]
pub enum LoadAction {
    /// There is no image under the key.
    NotFound,
    /// The entry has expired: remove it and report so.
    Expired,
    /// Read and return the image.
    Read,
}

/// Relies on `SystemTime::now` and `SystemTime::duration_since(UNIX_EPOCH)`: the
/// milliseconds since the Unix epoch, or zero for a clock set before it. It
/// never panics.
#[verifier::external_body]
fn epoch_millis() -> (r: u128) {
    std::time::SystemTime::now()
        .duration_since(std::time::UNIX_EPOCH)
        .unwrap_or(std::time::Duration::ZERO)
        .as_millis()
}

/// The time now in milliseconds since the Unix epoch, saturated at `i64::MAX`.
fn now_millis() -> (r: i64)
    ensures
        r >= 0,
{
    let m = epoch_millis();
    if m > i64::MAX as u128 {
        i64::MAX
    } else {
        m as i64
    }
}

/// The hash that `DefaultHasher::new()` gives after hashing `source` and then
/// `millis`. Its keys are fixed, not drawn per process, so the hash depends on
/// these values alone (within one build of the library).
pub uninterp spec fn source_time_hash_of(source: Seq<char>, millis: u128) -> u64;

/// Relies on `std::hash::DefaultHasher` (`new`, `Hash::hash`, `Hasher::finish`):
/// a hash of the source and the time, which depends on them alone.
#[verifier::external_body]
fn source_time_hash(source: &str, millis: u128) -> (r: u64)
    ensures
        r == source_time_hash_of(source@, millis),
{
    let mut hasher = std::collections::hash_map::DefaultHasher::new();
    std::hash::Hash::hash(source, &mut hasher);
    std::hash::Hash::hash(&millis, &mut hasher);
    std::hash::Hasher::finish(&hasher)
}

fn hex_digit(d: u64) -> (c: char)
    requires
        d < 16,
    ensures
        c == hex_char(d as nat),
{
    if d < 10 {
        crate::text::digit(d)
    } else if d == 10 {
        'a'
    } else if d == 11 {
        'b'
    } else if d == 12 {
        'c'
    } else if d == 13 {
        'd'
    } else if d == 14 {
        'e'
    } else {
        'f'
    }
}

/// The sixteen lower-case hexadecimal digits of `h`.
pub fn hex16(h: u64) -> (r: String)
    ensures
        r@ == hex_digits(h as nat, 16),
{
    let mut v: u64 = h;
    let mut tail: Vec<char> = Vec::new();
    let mut n: usize = 16;
    while n > 0
        invariant
            n <= 16,
            hex_digits(h as nat, 16) == hex_digits(v as nat, n as nat) + tail@,
        decreases n,
    {
        let c = hex_digit(v % 16);
        tail.insert(0, c);
        proof {
            assert(hex_digits(v as nat, n as nat) == hex_digits((v / 16) as nat, (n - 1) as nat).push(c));
            assert(hex_digits(v as nat, n as nat) + tail@.subrange(1, tail@.len() as int)
                =~= hex_digits((v / 16) as nat, (n - 1) as nat) + tail@);
        }
        v = v / 16;
        n -= 1;
    }
    assert(hex_digits(v as nat, 0) =~= Seq::<char>::empty());
    assert(tail@ =~= hex_digits(h as nat, 16));
    string_of(tail.as_slice())
}

fn joined(dir: &str, key: &str, ext: &str) -> (r: String)
    ensures
        r@ == join_path(dir@, key@ + ext@),
{
    let mut out = chars_of(dir);
    if out.len() > 0 && out[out.len() - 1] != '/' {
        out.push('/');
    }
    append_str(&mut out, key);
    append_str(&mut out, ext);
    assert(out@ =~= join_path(dir@, key@ + ext@));
    string_of(out.as_slice())
}

impl ThumbnailCache {
    pub closed spec fn spec_config(&self) -> ThumbnailCacheConfig {
        self.config
    }

    /// A cache over `config`; its directory must exist before entries are stored.
    pub fn new(config: ThumbnailCacheConfig) -> (r: Self)
        ensures
            r.spec_config() == config,
    {
        ThumbnailCache { config }
    }

    pub fn cache_dir(&self) -> (r: &str)
        ensures
            r@ == self.spec_config().cache_dir@,
    {
        self.config.cache_dir.as_str()
    }

    pub fn base_url(&self) -> (r: &str)
        ensures
            r@ == self.spec_config().base_url@,
    {
        self.config.base_url.as_str()
    }

    /// The time to live, in milliseconds.
    pub fn ttl(&self) -> (r: u64)
        ensures
            r == self.spec_config().ttl_ms,
    {
        self.config.ttl_ms
    }

    /// The key for an image of `source` cached at `millis` milliseconds since
    /// the Unix epoch: sixteen hexadecimal digits of a hash of the two.
    pub fn cache_key_at(&self, source: &str, millis: u128) -> (r: String)
        ensures
            r@ == hex_digits(source_time_hash_of(source@, millis) as nat, 16),
    {
        let h = source_time_hash(source, millis);
        hex16(h)
    }

    /// A fresh key for an image of `source`: the key for it at the time now,
    /// so that saving the same source twice gives two entries.
    pub fn generate_cache_key(&self, source: &str) -> (r: String)
        ensures
            exists|millis: u128| r@ == hex_digits(#[trigger] source_time_hash_of(source@, millis) as nat, 16),
    {
        let millis = epoch_millis();
        self.cache_key_at(source, millis)
    }

    /// The path of the image stored under `key`.
    pub fn cache_path(&self, key: &str) -> (r: String)
        ensures
            r@ == join_path(self.spec_config().cache_dir@, key@ + ".png"@),
    {
        joined(self.config.cache_dir.as_str(), key, ".png")
    }

    /// The path of the metadata stored beside the image under `key`.
    pub fn metadata_path(&self, key: &str) -> (r: String)
        ensures
            r@ == join_path(self.spec_config().cache_dir@, key@ + ".meta"@),
    {
        joined(self.config.cache_dir.as_str(), key, ".meta")
    }

    /// The URL the image under `key` is served at.
    pub fn thumbnail_url(&self, key: &str) -> (r: String)
        ensures
            r@ == self.spec_config().base_url@ + "/"@ + key@,
    {
        let mut out = chars_of(self.config.base_url.as_str());
        append_str(&mut out, "/");
        append_str(&mut out, key);
        string_of(out.as_slice())
    }

    /// The metadata of an image of `source` cached now.
    pub fn new_metadata(&self, source: &str) -> (r: ThumbnailMetadata)
        ensures
            r.source@ == source@,
            r.content_hash is None,
    {
        ThumbnailMetadata { cached_at: now_millis(), source: owned_str(source), content_hash: None }
    }

    /// Whether the entry with this metadata (`None`: missing or unreadable) has
    /// expired at `now`.
    pub fn is_expired_at(&self, meta: Option<&JsonValue>, now: i64) -> (r: bool)
        ensures
            r == expired_at(
                deref_meta(meta),
                now,
                self.spec_config().ttl_ms,
            ),
    {
        match meta {
            None => true,
            Some(v) => match metadata_from_json(v) {
                None => true,
                Some(m) => (now as i128) - (m.cached_at as i128) > self.config.ttl_ms as i128,
            },
        }
    }

    /// Whether the entry with this metadata has expired now.
    pub fn is_expired(&self, meta: Option<&JsonValue>) -> (r: bool)
        ensures
            exists|now: i64| r == #[trigger] expired_at(
                deref_meta(meta),
                now,
                self.spec_config().ttl_ms,
            ),
    {
        let now = now_millis();
        self.is_expired_at(meta, now)
    }

    /// What loading the entry comes to at `now`, given whether its image file
    /// exists and its metadata.
    pub fn load_action_at(&self, image_exists: bool, meta: Option<&JsonValue>, now: i64) -> (r:
        LoadAction)
        ensures
            !image_exists ==> r == LoadAction::NotFound,
            image_exists && expired_at(
                deref_meta(meta),
                now,
                self.spec_config().ttl_ms,
            ) ==> r == LoadAction::Expired,
            image_exists && !expired_at(
                deref_meta(meta),
                now,
                self.spec_config().ttl_ms,
            ) ==> r == LoadAction::Read,
    {
        if !image_exists {
            LoadAction::NotFound
        } else if self.is_expired_at(meta, now) {
            LoadAction::Expired
        } else {
            LoadAction::Read
        }
    }

    /// What loading the entry comes to now.
    pub fn load_action(&self, image_exists: bool, meta: Option<&JsonValue>) -> (r: LoadAction)
        ensures
            !image_exists ==> r == LoadAction::NotFound,
            image_exists ==> exists|now: i64| (r == LoadAction::Expired) == #[trigger] expired_at(
                deref_meta(meta),
                now,
                self.spec_config().ttl_ms,
            ) && (r == LoadAction::Expired || r == LoadAction::Read),
    {
        let now = now_millis();
        self.load_action_at(image_exists, meta, now)
    }

    /// The keys, among entries read from the cache directory with their
    /// metadata, whose entries have expired now.
    pub fn expired_keys(&self, candidates: &Vec<(String, Option<JsonValue>)>) -> (r: Vec<String>)
        ensures
            exists|now: i64| r@.map_values(|s: String| s@) == #[trigger] expired_keys(
                candidates@,
                now,
                self.spec_config().ttl_ms,
            ),
    {
        let now = now_millis();
        self.expired_keys_at(candidates, now)
    }

    /// The keys, among entries read from the cache directory with their
    /// metadata, whose entries have expired at `now`.
    pub fn expired_keys_at(&self, candidates: &Vec<(String, Option<JsonValue>)>, now: i64) -> (r: Vec<
        String,
    >)
        ensures
            r@.map_values(|s: String| s@) == expired_keys(candidates@, now, self.spec_config().ttl_ms),
    {
        let mut out: Vec<String> = Vec::new();
        let mut i: usize = 0;
        assert(out@.map_values(|s: String| s@) =~= seq![]);
        while i < candidates.len()
            invariant
                i <= candidates@.len(),
                out@.map_values(|s: String| s@) == expired_keys(
                    candidates@.subrange(0, i as int),
                    now,
                    self.spec_config().ttl_ms,
                ),
            decreases candidates@.len() - i,
        {
            let ghost p = candidates@.subrange(0, i + 1);
            assert(p.drop_last() =~= candidates@.subrange(0, i as int));
            assert(p.last() == candidates@[i as int]);
            let c = &candidates[i];
            if self.is_expired_at(c.1.as_ref(), now) {
                let ghost before = out@;
                out.push(owned_str(c.0.as_str()));
                assert(out@.map_values(|s: String| s@) =~= before.map_values(|s: String| s@).push(
                    c.0@,
                ));
            }
            i += 1;
        }
        assert(candidates@.subrange(0, candidates@.len() as int) =~= candidates@);
        out
    }
}

/// Why a load does not return the image stored under `key`, if it does not.
pub fn load_refusal(action: LoadAction, key: &str) -> (r: Option<String>)
    ensures
        action == LoadAction::NotFound ==> r is Some && r->0@ == "Thumbnail not found: "@ + key@,
        action == LoadAction::Expired ==> r is Some && r->0@ == "Thumbnail expired and removed: "@
            + key@,
        action == LoadAction::Read ==> r is None,
{
    let prefix = match action {
        LoadAction::NotFound => "Thumbnail not found: ",
        LoadAction::Expired => "Thumbnail expired and removed: ",
        LoadAction::Read => return None,
    };
    let mut out = chars_of(prefix);
    append_str(&mut out, key);
    Some(string_of(out.as_slice()))
}

/// `{"cached_at": .., "source": .., "content_hash": ..}`.
pub fn metadata_json(meta: &ThumbnailMetadata) -> (r: JsonValue)
    ensures
        parse_metadata(r) == Some((meta.cached_at, meta.source@)),
{
    let at = if meta.cached_at >= 0 {
        JsonNumber::PosInt(meta.cached_at as u64)
    } else {
        JsonNumber::NegInt(meta.cached_at)
    };
    let hash = match &meta.content_hash {
        Some(h) => JsonValue::Str(owned_str(h.as_str())),
        None => JsonValue::Null,
    };
    let r = JsonValue::Object(
        vec![
            (owned_str("cached_at"), JsonValue::Number(at)),
            (owned_str("source"), JsonValue::Str(owned_str(meta.source.as_str()))),
            (owned_str("content_hash"), hash),
        ],
    );
    proof {
        reveal_strlit("cached_at");
        reveal_strlit("source");
        reveal_strlit("content_hash");
        reveal_with_fuel(field, 4);
        assert("cached_at"@.len() == 9);
        assert("source"@.len() == 6);
        assert("content_hash"@.len() == 12);
        let e = r->Object_0@;
        assert(e.drop_last().drop_last().last() == e[0]);
        assert(e.drop_last().last() == e[1]);
    }
    r
}

/// The metadata a value records, if it is well formed.
pub fn metadata_from_json(v: &JsonValue) -> (r: Option<ThumbnailMetadata>)
    ensures
        match parse_metadata(*v) {
            Some((at, source)) => r is Some && r->0.cached_at == at && r->0.source@ == source,
            None => r is None,
        },
{
    if !(match v {
        JsonValue::Object(_) => true,
        _ => false,
    }) {
        return None;
    }
    let at = match v.get("cached_at") {
        Some(JsonValue::Number(JsonNumber::PosInt(n))) => if *n <= i64::MAX as u64 {
            *n as i64
        } else {
            return None;
        },
        Some(JsonValue::Number(JsonNumber::NegInt(n))) => *n,
        _ => return None,
    };
    let source = match v.get("source") {
        Some(JsonValue::Str(s)) => owned_str(s.as_str()),
        _ => return None,
    };
    let content_hash = match v.get("content_hash") {
        None => None,
        Some(JsonValue::Null) => None,
        Some(JsonValue::Str(h)) => Some(owned_str(h.as_str())),
        _ => return None,
    };
    Some(ThumbnailMetadata { cached_at: at, source, content_hash })
}

/// The key of a file in the cache directory, for image files.
pub fn image_file_key(name: &str) -> (r: Option<String>)
    ensures
        opt_chars(r) == image_key(name@),
{
    let cs = chars_of(name);
    let n = cs.len();
    if n <= 4 {
        return None;
    }
    let ext = chars_of(".png");
    proof {
        reveal_strlit(".png");
    }
    if !(cs[n - 4] == '.' && cs[n - 3] == 'p' && cs[n - 2] == 'n' && cs[n - 1] == 'g') {
        assert(cs@.subrange(n - 4, n as int) != ".png"@) by {
            if cs@.subrange(n - 4, n as int) == ".png"@ {
                assert(cs@.subrange(n - 4, n as int)[0] == cs@[n - 4]);
                assert(cs@.subrange(n - 4, n as int)[1] == cs@[n - 3]);
                assert(cs@.subrange(n - 4, n as int)[2] == cs@[n - 2]);
                assert(cs@.subrange(n - 4, n as int)[3] == cs@[n - 1]);
            }
        };
        return None;
    }
    assert(cs@.subrange(n - 4, n as int) =~= ".png"@);
    let mut all_dots = true;
    let mut i: usize = 0;
    while i < n - 4
        invariant
            n == cs@.len(),
            n > 4,
            i <= n - 4,
            all_dots == forall|j: int| 0 <= j < i ==> cs@[j] == '.',
        decreases n - 4 - i,
    {
        if cs[i] != '.' {
            all_dots = false;
        }
        i += 1;
    }
    if all_dots {
        return None;
    }
    let mut key: Vec<char> = Vec::new();
    let mut k: usize = 0;
    while k < n - 4
        invariant
            n == cs@.len(),
            n > 4,
            k <= n - 4,
            key@ == cs@.subrange(0, k as int),
        decreases n - 4 - k,
    {
        key.push(cs[k]);
        assert(key@ =~= cs@.subrange(0, k + 1));
        k += 1;
    }
    Some(string_of(key.as_slice()))
}

/// The metadata value behind an optional reference.
pub open spec fn deref_meta(meta: Option<&JsonValue>) -> Option<JsonValue> {
    match meta {
        Some(v) => Some(*v),
        None => None,
    }
}

pub open spec fn opt_chars(o: Option<String>) -> Option<Seq<char>> {
    match o {
        Some(s) => Some(s@),
        None => None,
    }
}

/// An entry is served until its time to live has passed and reported expired
/// from then on: at most `ttl` milliseconds after it was cached it is still
/// valid, and any later it has expired.
pub proof fn lemma_ttl_boundary(meta: JsonValue, ttl: u64, now: i64)
    requires
        parse_metadata(meta) is Some,
    ensures
        match parse_metadata(meta) {
            Some((at, _)) => (now - at <= ttl ==> !expired_at(Some(meta), now, ttl)) && (now - at
                > ttl ==> expired_at(Some(meta), now, ttl)),
            None => true,
        },
{
}

/// Cleanup selects exactly the expired entries: a key is selected if and only
/// if its entry has expired, and the order of the directory is kept.
pub proof fn lemma_cleanup_selects_expired(candidates: Seq<(String, Option<JsonValue>)>, now: i64, ttl: u64)
    ensures
        forall|k: Seq<char>| #[trigger] expired_keys(candidates, now, ttl).contains(k) <==> exists|i: int|
            0 <= i < candidates.len() && candidates[i].0@ == k && expired_at(candidates[i].1, now, ttl),
    decreases candidates.len(),
{
    if candidates.len() > 0 {
        let rest = candidates.drop_last();
        let last = candidates.len() - 1;
        let selected = expired_keys(candidates, now, ttl);
        let earlier = expired_keys(rest, now, ttl);
        let last_expired = expired_at(candidates[last].1, now, ttl);
        lemma_cleanup_selects_expired(rest, now, ttl);
        assert(candidates.last() == candidates[last]);
        assert(forall|i: int| 0 <= i < rest.len() ==> rest[i] == candidates[i]);
        if last_expired {
            assert(selected == earlier.push(candidates[last].0@));
        } else {
            assert(selected == earlier);
        }
        assert forall|k: Seq<char>| #[trigger] selected.contains(k) <==> exists|i: int|
            0 <= i < candidates.len() && candidates[i].0@ == k && expired_at(candidates[i].1, now, ttl) by {
            if selected.contains(k) {
                let j = choose|j: int| 0 <= j < selected.len() && selected[j] == k;
                if j < earlier.len() {
                    assert(earlier[j] == k);
                    assert(earlier.contains(k));
                    let i = choose|i: int| 0 <= i < rest.len() && rest[i].0@ == k && expired_at(
                        rest[i].1,
                        now,
                        ttl,
                    );
                    assert(candidates[i] == rest[i]);
                } else {
                    assert(last_expired && candidates[last].0@ == k);
                }
            }
            if exists|i: int| 0 <= i < candidates.len() && candidates[i].0@ == k && expired_at(candidates[i].1, now, ttl) {
                let i = choose|i: int| 0 <= i < candidates.len() && candidates[i].0@ == k && expired_at(
                    candidates[i].1,
                    now,
                    ttl,
                );
                if i == last {
                    assert(selected[selected.len() - 1] == k);
                } else {
                    assert(rest[i] == candidates[i]);
                    assert(earlier.contains(k));
                    let j = choose|j: int| 0 <= j < earlier.len() && earlier[j] == k;
                    assert(selected[j] == k);
                }
            }
        };
    }
}

/// A freshly saved entry is read back: the metadata written for it parses to
/// the same time and source, and it has not expired while its time to live lasts.
pub proof fn lemma_saved_entry_loads(meta: ThumbnailMetadata, written: JsonValue, ttl: u64, now: i64)
    requires
        parse_metadata(written) == Some((meta.cached_at, meta.source@)),
        meta.cached_at <= now,
        now - meta.cached_at <= ttl,
    ensures
        !expired_at(Some(written), now, ttl),
{
}

} // verus!
