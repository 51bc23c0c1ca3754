//! The cache of access-key nonces. Each key of the cache is an access key, an
//! account id and a public key in text form; its value is the last nonce handed
//! out for it. Handing out nonces from the cache keeps the transactions of one
//! access key in order without asking the network each time.

use crate::error::{RpcError, RpcTransactionError};
use crate::outcome::{
    async_send_shows_stale_nonce, commit_shows_stale_nonce, stale_nonce_after_async_send,
    stale_nonce_after_commit, FinalExecutionOutcome,
};
use crate::types::CryptoHash;
use vstd::prelude::*;

verus! {

/// An access key: the account id and the public key, in text form.
pub type CacheKey = (String, String);

/// The view of a cache key.
pub type CacheKeyView = (Seq<char>, Seq<char>);

pub open spec fn key_view(k: CacheKey) -> CacheKeyView {
    (k.0@, k.1@)
}

/// The nonce that the cache hands out for `k`, when it holds `k`.
pub open spec fn cached_next(m: Map<CacheKeyView, u64>, k: CacheKeyView) -> Option<u64> {
    if m.contains_key(k) {
        Some((m[k] + 1) as u64)
    } else {
        None
    }
}

/// The cache after handing out a nonce for `k`.
pub open spec fn after_cached_next(m: Map<CacheKeyView, u64>, k: CacheKeyView) -> Map<CacheKeyView, u64> {
    if m.contains_key(k) {
        m.insert(k, (m[k] + 1) as u64)
    } else {
        m
    }
}

/// The nonce handed out once the network reported `ak_nonce` for `k`: one above
/// it, or the nonce already cached for `k` when that is higher.
pub open spec fn recorded_nonce(m: Map<CacheKeyView, u64>, k: CacheKeyView, ak_nonce: u64) -> u64 {
    if m.contains_key(k) && m[k] > ak_nonce + 1 {
        m[k]
    } else {
        (ak_nonce + 1) as u64
    }
}

/// The cache after the network reported `ak_nonce` for `k`.
pub open spec fn after_record(m: Map<CacheKeyView, u64>, k: CacheKeyView, ak_nonce: u64) -> Map<CacheKeyView, u64> {
    m.insert(k, recorded_nonce(m, k, ak_nonce))
}

/// The cache after the answer to a committed transaction signed with `k`.
pub open spec fn after_commit_check(
    m: Map<CacheKeyView, u64>,
    k: CacheKeyView,
    result: Result<FinalExecutionOutcome, RpcError<RpcTransactionError>>,
) -> Map<CacheKeyView, u64> {
    if commit_shows_stale_nonce(result) {
        m.remove(k)
    } else {
        m
    }
}

/// The cache after the answer to a transaction signed with `k` and sent
/// without waiting.
pub open spec fn after_async_check(
    m: Map<CacheKeyView, u64>,
    k: CacheKeyView,
    result: Result<CryptoHash, RpcError<String>>,
) -> Map<CacheKeyView, u64> {
    if async_send_shows_stale_nonce(result) {
        m.remove(k)
    } else {
        m
    }
}

/// An answer that shows a stale nonce makes the next sending with that access
/// key ask the network for its nonce, which is then one above the network's;
/// any other answer keeps the cache as it was.
pub proof fn law_stale_nonce_forces_refetch(
    m: Map<CacheKeyView, u64>,
    k: CacheKeyView,
    result: Result<FinalExecutionOutcome, RpcError<RpcTransactionError>>,
    ak_nonce: u64,
)
    requires
        ak_nonce < u64::MAX,
    ensures
        commit_shows_stale_nonce(result) ==> cached_next(after_commit_check(m, k, result), k) is None
            && recorded_nonce(after_commit_check(m, k, result), k, ak_nonce) == ak_nonce + 1,
        !commit_shows_stale_nonce(result) ==> after_commit_check(m, k, result) == m,
{
}

/// One operation of the nonce cache, as its functions perform it: handing out
/// a cached nonce, recording the network's nonce, dropping a key, and checking
/// the answer to a committed transaction or to one sent without waiting.
pub enum CacheOp {
    Next(CacheKeyView),
    Record(CacheKeyView, u64),
    Invalidate(CacheKeyView),
    CommitCheck(CacheKeyView, Result<FinalExecutionOutcome, RpcError<RpcTransactionError>>),
    AsyncCheck(CacheKeyView, Result<CryptoHash, RpcError<String>>),
}

/// The cache after one operation, as the ensures of the functions that
/// perform it state.
pub open spec fn apply_op(m: Map<CacheKeyView, u64>, op: CacheOp) -> Map<CacheKeyView, u64> {
    match op {
        CacheOp::Next(k) => after_cached_next(m, k),
        CacheOp::Record(k, n) => after_record(m, k, n),
        CacheOp::Invalidate(k) => m.remove(k),
        CacheOp::CommitCheck(k, r) => after_commit_check(m, k, r),
        CacheOp::AsyncCheck(k, r) => after_async_check(m, k, r),
    }
}

/// The cache after a sequence of operations, in order.
pub open spec fn apply_ops(m: Map<CacheKeyView, u64>, ops: Seq<CacheOp>) -> Map<CacheKeyView, u64>
    decreases ops.len(),
{
    if ops.len() == 0 {
        m
    } else {
        apply_op(apply_ops(m, ops.drop_last()), ops.last())
    }
}

/// Whether an operation drops the access key `k`: invalidating it, or checking
/// an answer for it that shows its nonce went stale.
pub open spec fn drops_key(op: CacheOp, k: CacheKeyView) -> bool {
    match op {
        CacheOp::Invalidate(j) => j == k,
        CacheOp::CommitCheck(j, r) => j == k && commit_shows_stale_nonce(r),
        CacheOp::AsyncCheck(j, r) => j == k && async_send_shows_stale_nonce(r),
        _ => false,
    }
}

/// Once a nonce was fetched for an access key, whether recorded from the
/// network or handed out from the cache, the key stays cached through any
/// operations that do not drop it: a later fetch hands its nonce out from the
/// cache and asks the network for no access key.
pub proof fn law_fetched_key_stays_cached(
    m: Map<CacheKeyView, u64>,
    k: CacheKeyView,
    ak_nonce: u64,
    ops: Seq<CacheOp>,
)
    requires
        forall|i: int| 0 <= i < ops.len() ==> !drops_key(#[trigger] ops[i], k),
    ensures
        apply_ops(after_record(m, k, ak_nonce), ops).contains_key(k),
        cached_next(apply_ops(after_record(m, k, ak_nonce), ops), k) is Some,
        m.contains_key(k) ==> apply_ops(after_cached_next(m, k), ops).contains_key(k),
        m.contains_key(k) ==> cached_next(apply_ops(after_cached_next(m, k), ops), k) is Some,
{
    lemma_cached_key_survives(after_record(m, k, ak_nonce), k, ops);
    if m.contains_key(k) {
        lemma_cached_key_survives(after_cached_next(m, k), k, ops);
    }
}

proof fn lemma_cached_key_survives(m: Map<CacheKeyView, u64>, k: CacheKeyView, ops: Seq<CacheOp>)
    requires
        m.contains_key(k),
        forall|i: int| 0 <= i < ops.len() ==> !drops_key(#[trigger] ops[i], k),
    ensures
        apply_ops(m, ops).contains_key(k),
    decreases ops.len(),
{
    if ops.len() > 0 {
        let front = ops.drop_last();
        assert forall|i: int| 0 <= i < front.len() implies !drops_key(#[trigger] front[i], k) by {
            assert(front[i] == ops[i]);
        }
        lemma_cached_key_survives(m, k, front);
        assert(!drops_key(ops[ops.len() - 1], k));
    }
}

/// Handing out a nonce from the cache never adds or drops a key: a key that is
/// not cached gets no nonce and the cache stays exactly as it was, and a cached
/// key only has its nonce raised by one.
pub proof fn law_miss_changes_nothing(m: Map<CacheKeyView, u64>, k: CacheKeyView)
    ensures
        !m.contains_key(k) ==> cached_next(m, k) is None && after_cached_next(m, k) == m,
        !m.contains_key(k) ==> !after_cached_next(m, k).contains_key(k),
        after_cached_next(m, k).dom() == m.dom(),
        m.contains_key(k) && m[k] < u64::MAX ==> after_cached_next(m, k)[k] == m[k] + 1
            && cached_next(m, k) == Some(after_cached_next(m, k)[k]),
        forall|j: CacheKeyView| j != k && #[trigger] m.contains_key(j) ==> after_cached_next(m, k)[j] == m[j],
{
    assert(after_cached_next(m, k).dom() =~= m.dom());
}

/// While an access key stays cached, the nonces handed out for it follow one
/// another: each is above the one cached before, and the next is one above it.
pub proof fn law_cached_nonces_follow(m: Map<CacheKeyView, u64>, k: CacheKeyView)
    requires
        m.contains_key(k),
        m[k] + 1 < u64::MAX,
    ensures
        cached_next(m, k) == Some((m[k] + 1) as u64),
        cached_next(after_cached_next(m, k), k) == Some((m[k] + 2) as u64),
{
}

/// A nonce recorded from the network is above the network's nonce for the key,
/// never below the one cached before, and is what the cache then holds.
pub proof fn law_record_never_lowers(m: Map<CacheKeyView, u64>, k: CacheKeyView, ak_nonce: u64)
    requires
        ak_nonce < u64::MAX,
    ensures
        recorded_nonce(m, k, ak_nonce) > ak_nonce,
        m.contains_key(k) ==> recorded_nonce(m, k, ak_nonce) >= m[k],
        after_record(m, k, ak_nonce).contains_key(k),
        after_record(m, k, ak_nonce)[k] == recorded_nonce(m, k, ak_nonce),
{
}

/// After a nonce is recorded, the cache continues from it.
pub proof fn law_record_then_cached(m: Map<CacheKeyView, u64>, k: CacheKeyView, ak_nonce: u64)
    requires
        ak_nonce < u64::MAX,
        recorded_nonce(m, k, ak_nonce) < u64::MAX,
    ensures
        cached_next(after_record(m, k, ak_nonce), k) == Some(
            (recorded_nonce(m, k, ak_nonce) + 1) as u64,
        ),
{
}

/// Once an access key is dropped, the cache hands out nothing for it, and the
/// next nonce recorded for it is one above what the network reports.
pub proof fn law_invalidate_forgets(m: Map<CacheKeyView, u64>, k: CacheKeyView, ak_nonce: u64)
    requires
        ak_nonce < u64::MAX,
    ensures
        cached_next(m.remove(k), k) is None,
        recorded_nonce(m.remove(k), k, ak_nonce) == ak_nonce + 1,
{
}

/// What is done for one access key leaves every other key as it was.
pub proof fn law_other_keys_untouched(
    m: Map<CacheKeyView, u64>,
    k: CacheKeyView,
    other: CacheKeyView,
    ak_nonce: u64,
)
    requires
        k != other,
    ensures
        after_cached_next(m, k).contains_key(other) == m.contains_key(other),
        after_record(m, k, ak_nonce).contains_key(other) == m.contains_key(other),
        m.remove(k).contains_key(other) == m.contains_key(other),
        m.contains_key(other) ==> {
            &&& after_cached_next(m, k)[other] == m[other]
            &&& after_record(m, k, ak_nonce)[other] == m[other]
            &&& m.remove(k)[other] == m[other]
        },
{
}

/// The lists of a cache agree with its view, and no key occurs twice.
pub open spec fn parts_wf(keys: Seq<CacheKey>, nonces: Seq<u64>, map: Map<CacheKeyView, u64>) -> bool {
    &&& keys.len() == nonces.len()
    &&& forall|i: int, j: int|
        0 <= i < keys.len() && 0 <= j < keys.len() && i != j ==> key_view(#[trigger] keys[i])
            != key_view(#[trigger] keys[j])
    &&& forall|i: int|
        0 <= i < keys.len() ==> map.contains_key(key_view(#[trigger] keys[i])) && map[key_view(keys[i])]
            == nonces[i]
    &&& forall|k: CacheKeyView|
        #[trigger] map.contains_key(k) ==> exists|i: int| 0 <= i < keys.len() && key_view(#[trigger] keys[i]) == k
}

/// The position of `key` in `keys`.
fn find(keys: &Vec<CacheKey>, key: &CacheKey) -> (r: Option<usize>)
    ensures
        r matches Some(i) ==> i < keys@.len() && key_view(keys@[i as int]) == key_view(*key),
        r is None ==> forall|j: int| 0 <= j < keys@.len() ==> key_view(#[trigger] keys@[j]) != key_view(*key),
{
    let n = keys.len();
    let mut i: usize = 0;
    while i < n
        invariant
            n == keys@.len(),
            0 <= i <= n,
            forall|j: int| 0 <= j < i ==> key_view(#[trigger] keys@[j]) != key_view(*key),
        decreases n - i,
    {
        let k = &keys[i];
        if k.0 == key.0 && k.1 == key.1 {
            return Some(i);
        }
        i = i + 1;
    }
    None
}

/// The nonces of access keys, as a list of keys that holds no key twice and a
/// list of nonces of the same length.
pub struct NonceCache {
    keys: Vec<CacheKey>,
    nonces: Vec<u64>,
    map: Ghost<Map<CacheKeyView, u64>>,
}

impl View for NonceCache {
    type V = Map<CacheKeyView, u64>;

    closed spec fn view(&self) -> Map<CacheKeyView, u64> {
        self.map@
    }
}

impl NonceCache {
    #[verifier::type_invariant]
    closed spec fn inv(self) -> bool {
        parts_wf(self.keys@, self.nonces@, self.map@)
    }

    /// An empty cache.
    pub fn new() -> (r: NonceCache)
        ensures
            r@ == Map::<CacheKeyView, u64>::empty(),
    {
        NonceCache { keys: Vec::new(), nonces: Vec::new(), map: Ghost(Map::empty()) }
    }

    /// Moves the lists out, leaving the cache empty.
    fn take_parts(&mut self) -> (r: (Vec<CacheKey>, Vec<u64>, Ghost<Map<CacheKeyView, u64>>))
        ensures
            parts_wf(r.0@, r.1@, r.2@),
            r.2@ == old(self)@,
    {
        let mut cache = NonceCache::new();
        std::mem::swap(&mut cache, self);
        proof {
            use_type_invariant(&cache);
        }
        let NonceCache { keys, nonces, map } = cache;
        (keys, nonces, map)
    }

    /// The number of access keys cached.
    pub fn len(&self) -> (r: usize)
        ensures
            r == self@.len(),
    {
        proof {
            use_type_invariant(self);
            lemma_dom_is_keys(self.keys@, self.nonces@, self.map@);
        }
        self.keys.len()
    }

    /// The nonce last handed out for `key`, if the cache holds it.
    pub fn get(&self, key: &CacheKey) -> (r: Option<u64>)
        ensures
            r == (if self@.contains_key(key_view(*key)) {
                Some(self@[key_view(*key)])
            } else {
                None
            }),
    {
        proof {
            use_type_invariant(self);
        }
        match find(&self.keys, key) {
            Some(i) => Some(self.nonces[i]),
            None => None,
        }
    }

    /// Hands out the next nonce of a cached access key: one above the nonce last
    /// handed out for it, which the cache then holds. Returns `None`, and changes
    /// nothing, when the key is not cached.
    pub fn next_cached(&mut self, key: &CacheKey) -> (r: Option<u64>)
        requires
            old(self)@.contains_key(key_view(*key)) ==> old(self)@[key_view(*key)] < u64::MAX,
        ensures
            r == cached_next(old(self)@, key_view(*key)),
            final(self)@ == after_cached_next(old(self)@, key_view(*key)),
            !old(self)@.contains_key(key_view(*key)) ==> r is None && final(self)@ == old(self)@,
            final(self)@.dom() == old(self)@.dom(),
    {
        let (keys, mut nonces, map) = self.take_parts();
        let ghost kv = key_view(*key);
        match find(&keys, key) {
            None => {
                *self = NonceCache { keys, nonces, map };
                None
            },
            Some(i) => {
                let n = nonces[i] + 1;
                nonces.set(i, n);
                let ghost m2 = map@.insert(kv, n);
                proof {
                    assert forall|k: CacheKeyView| #[trigger] m2.contains_key(k) implies exists|j: int|
                        0 <= j < keys@.len() && key_view(#[trigger] keys@[j]) == k by {
                        if k != kv {
                            assert(map@.contains_key(k));
                        } else {
                            assert(key_view(keys@[i as int]) == k);
                        }
                    }
                }
                *self = NonceCache { keys, nonces, map: Ghost(m2) };
                Some(n)
            },
        }
    }

    /// Records the nonce `ak_nonce` that the network reported for an access key:
    /// the key's next nonce becomes one above it, or stays what the cache holds
    /// when that is higher, and is handed out.
    ///
    /// When two fetches for one key miss the cache at once and both record the
    /// same network nonce, the second is handed the same nonce as the first:
    /// recording never advances a nonce that is already cached, it only keeps
    /// the higher of the two.
    pub fn record_access_key(&mut self, key: CacheKey, ak_nonce: u64) -> (r: u64)
        requires
            ak_nonce < u64::MAX,
        ensures
            r == recorded_nonce(old(self)@, key_view(key), ak_nonce),
            final(self)@ == after_record(old(self)@, key_view(key), ak_nonce),
    {
        let (mut keys, mut nonces, map) = self.take_parts();
        let fresh = ak_nonce + 1;
        let ghost kv = key_view(key);
        match find(&keys, &key) {
            Some(i) => {
                let cur = nonces[i];
                let n = if cur > fresh { cur } else { fresh };
                nonces.set(i, n);
                let ghost m2 = map@.insert(kv, n);
                proof {
                    assert forall|k: CacheKeyView| #[trigger] m2.contains_key(k) implies exists|j: int|
                        0 <= j < keys@.len() && key_view(#[trigger] keys@[j]) == k by {
                        if k != kv {
                            assert(map@.contains_key(k));
                        } else {
                            assert(key_view(keys@[i as int]) == k);
                        }
                    }
                }
                *self = NonceCache { keys, nonces, map: Ghost(m2) };
                n
            },
            None => {
                let ghost old_keys = keys@;
                keys.push(key);
                nonces.push(fresh);
                let ghost m2 = map@.insert(kv, fresh);
                proof {
                    let last = keys@.len() - 1;
                    assert(key_view(keys@[last]) == kv);
                    assert forall|i: int| 0 <= i < keys@.len() implies m2.contains_key(key_view(#[trigger] keys@[i]))
                        && m2[key_view(keys@[i])] == nonces@[i] by {
                        if i < last {
                            assert(old_keys[i] == keys@[i]);
                            assert(key_view(keys@[i]) != kv);
                        }
                    }
                    assert forall|k: CacheKeyView| #[trigger] m2.contains_key(k) implies exists|j: int|
                        0 <= j < keys@.len() && key_view(#[trigger] keys@[j]) == k by {
                        if k != kv {
                            assert(map@.contains_key(k));
                            let j = choose|j: int| 0 <= j < old_keys.len() && key_view(#[trigger] old_keys[j]) == k;
                            assert(keys@[j] == old_keys[j]);
                        } else {
                            assert(key_view(keys@[last]) == k);
                        }
                    }
                }
                *self = NonceCache { keys, nonces, map: Ghost(m2) };
                fresh
            },
        }
    }

    /// Drops the nonce of an access key, so that the next one is asked of the
    /// network.
    pub fn invalidate(&mut self, key: &CacheKey)
        ensures
            final(self)@ == old(self)@.remove(key_view(*key)),
    {
        let (mut keys, mut nonces, map) = self.take_parts();
        let ghost kv = key_view(*key);
        match find(&keys, key) {
            None => {
                proof {
                    assert forall|k: CacheKeyView| #[trigger] map@.contains_key(k) implies k != kv by {
                        let j = choose|j: int| 0 <= j < keys@.len() && key_view(#[trigger] keys@[j]) == k;
                    }
                    assert(map@.remove(kv) =~= map@);
                }
                *self = NonceCache { keys, nonces, map };
            },
            Some(i) => {
                let ghost ok = keys@;
                let ghost on = nonces@;
                keys.remove(i);
                nonces.remove(i);
                let ghost m2 = map@.remove(kv);
                proof {
                    assert forall|a: int, b: int|
                        0 <= a < keys@.len() && 0 <= b < keys@.len() && a != b implies key_view(
                            #[trigger] keys@[a],
                        ) != key_view(#[trigger] keys@[b]) by {
                        let oa = if a < i { a } else { a + 1 };
                        let ob = if b < i { b } else { b + 1 };
                        assert(keys@[a] == ok[oa]);
                        assert(keys@[b] == ok[ob]);
                    }
                    assert forall|a: int| 0 <= a < keys@.len() implies m2.contains_key(key_view(#[trigger] keys@[a]))
                        && m2[key_view(keys@[a])] == nonces@[a] by {
                        let oa = if a < i { a } else { a + 1 };
                        assert(keys@[a] == ok[oa]);
                        assert(nonces@[a] == on[oa]);
                        assert(key_view(ok[oa]) != key_view(ok[i as int]));
                    }
                    assert forall|k: CacheKeyView| #[trigger] m2.contains_key(k) implies exists|j: int|
                        0 <= j < keys@.len() && key_view(#[trigger] keys@[j]) == k by {
                        assert(map@.contains_key(k));
                        let j = choose|j: int| 0 <= j < ok.len() && key_view(#[trigger] ok[j]) == k;
                        assert(j != i);
                        let nj = if j < i { j } else { j - 1 };
                        assert(keys@[nj] == ok[j]);
                    }
                }
                *self = NonceCache { keys, nonces, map: Ghost(m2) };
            },
        }
    }

    /// Drops the nonce of the access key that signed a committed transaction
    /// when the answer shows that it went stale (`commit_shows_stale_nonce`);
    /// otherwise changes nothing.
    pub fn check_and_invalidate_cache(
        &mut self,
        key: &CacheKey,
        result: &Result<FinalExecutionOutcome, RpcError<RpcTransactionError>>,
    )
        ensures
            final(self)@ == after_commit_check(old(self)@, key_view(*key), *result),
    {
        if stale_nonce_after_commit(result) {
            self.invalidate(key);
        }
    }

    /// Drops the nonce of the access key that signed a transaction sent without
    /// waiting when the RPC's handler reported an error; otherwise changes nothing.
    pub fn check_async_and_invalidate_cache(
        &mut self,
        key: &CacheKey,
        result: &Result<CryptoHash, RpcError<String>>,
    )
        ensures
            final(self)@ == after_async_check(old(self)@, key_view(*key), *result),
    {
        if stale_nonce_after_async_send(result) {
            self.invalidate(key);
        }
    }
}

proof fn lemma_dom_is_keys(keys: Seq<CacheKey>, nonces: Seq<u64>, map: Map<CacheKeyView, u64>)
    requires
        parts_wf(keys, nonces, map),
    ensures
        map.len() == keys.len(),
{
    let s = keys.map_values(|k: CacheKey| key_view(k));
    assert forall|k: CacheKeyView| #[trigger] map.dom().contains(k) <==> s.to_set().contains(k) by {
        if map.dom().contains(k) {
            let i = choose|i: int| 0 <= i < keys.len() && key_view(#[trigger] keys[i]) == k;
            assert(s[i] == k);
        }
        if s.to_set().contains(k) {
            let i = choose|i: int| 0 <= i < s.len() && s[i] == k;
            assert(key_view(keys[i]) == k);
        }
    }
    assert(map.dom() =~= s.to_set());
    assert forall|i: int, j: int| 0 <= i < s.len() && 0 <= j < s.len() && i != j implies s[i] != s[j] by {
        assert(key_view(keys[i]) != key_view(keys[j]));
    }
    assert(s.no_duplicates());
    s.unique_seq_to_set();
}

} // verus!
