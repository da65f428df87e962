use vstd::prelude::*;

pub mod errors;
pub mod models;

use crate::errors::{CurrentIPNotInWhitelistError, PoolError};
use crate::models::{live_records, proxy_live, APIResponse, JGProxy};

verus! {

/// Response code the provider sends with a usable batch.
pub const CODE_SUCCESS: u32 = 0;

/// Response code the provider sends when the caller's origin is not
/// whitelisted.
pub const CODE_NOT_IN_WHITELIST: u32 = 113;

/// A rotating pool of short-lived proxy records.
///
/// The pool owns an unordered collection of records and three parameters:
/// how many records one refill requests (`size`), the low-watermark count
/// under which a refill is forced (`min_proxies`), and the safety threshold
/// in seconds under which a record counts as already expired
/// (`expire_threshold`).
///
/// The pool itself is a plain value: the caller that shares it between
/// concurrent tasks is responsible for wrapping it in a mutual-exclusion
/// lock and for performing the provider fetches whose outcomes are handed
/// to [`JGProxiesPool::add_new_proxies`].
pub struct JGProxiesPool {
    proxies: Vec<JGProxy>,
    size: usize,
    min_proxies: usize,
    expire_threshold: usize,
}

impl JGProxiesPool {
    /// The records currently stored, in storage order.
    pub closed spec fn records(self) -> Seq<JGProxy> {
        self.proxies@
    }

    /// Records requested per refill.
    pub closed spec fn spec_size(self) -> usize {
        self.size
    }

    /// The low-watermark: fewer stored records than this forces a refill.
    pub closed spec fn spec_min_proxies(self) -> usize {
        self.min_proxies
    }

    /// The safety margin in seconds: a record within this margin of its
    /// expiry is treated as already expired.
    pub closed spec fn spec_expire_threshold(self) -> usize {
        self.expire_threshold
    }

    /// The three configuration parameters of `self` and `other` agree.
    pub open spec fn same_config(self, other: JGProxiesPool) -> bool {
        &&& self.spec_size() == other.spec_size()
        &&& self.spec_min_proxies() == other.spec_min_proxies()
        &&& self.spec_expire_threshold() == other.spec_expire_threshold()
    }

    /// How many records the pool currently stores.
    pub fn proxy_count(&self) -> (n: usize)
        ensures
            n == self.records().len(),
    {
        self.proxies.len()
    }

    /// Records requested per refill; the count a driver passes to the
    /// provider when [`JGProxiesPool::needs_refill`] says a refill is due.
    pub fn size(&self) -> (n: usize)
        ensures
            n == self.spec_size(),
    {
        self.size
    }

    /// The low-watermark parameter.
    pub fn min_proxies(&self) -> (n: usize)
        ensures
            n == self.spec_min_proxies(),
    {
        self.min_proxies
    }

    /// The safety margin parameter, in seconds.
    pub fn expire_threshold(&self) -> (n: usize)
        ensures
            n == self.spec_expire_threshold(),
    {
        self.expire_threshold
    }

    /// Remove every record whose remaining lifetime at `now` is at or below
    /// the safety threshold; the usable records keep their order.
    pub fn evict_expired(&mut self, now: i64)
        ensures
            old(self).same_config(*final(self)),
            final(self).records() == live_records(
                old(self).records(),
                now,
                old(self).spec_expire_threshold(),
            ),
    {
        let ghost pred = |p: JGProxy| proxy_live(p, now, self.expire_threshold);
        let mut kept: Vec<JGProxy> = Vec::new();
        let n = self.proxies.len();
        let mut i: usize = 0;
        while i < n
            invariant
                i <= n,
                n == self.proxies.len(),
                pred == (|p: JGProxy| proxy_live(p, now, self.expire_threshold)),
                kept@ == self.proxies@.take(i as int).filter(pred),
            decreases n - i,
        {
            let p = &self.proxies[i];
            if is_live(p, now, self.expire_threshold) {
                kept.push(p.clone());
            }
            proof {
                let s = self.proxies@;
                let gi = i as int;
                assert(s.take(gi + 1) =~= s.take(gi).push(s[gi]));
                s.take(gi).lemma_filter_push(s[gi], pred);
            }
            i += 1;
        }
        proof {
            assert(self.proxies@.take(n as int) == self.proxies@);
        }
        self.proxies = kept;
    }

    /// The refill decision of the low-watermark rule: a refill is due
    /// exactly when the stored count has fallen under `min_proxies`.
    pub fn needs_refill(&self) -> (r: bool)
        ensures
            r == (self.records().len() < self.spec_min_proxies()),
    {
        self.proxies.len() < self.min_proxies
    }

    /// Apply the outcome of one provider fetch.
    ///
    /// `fetched` is `None` when the transport or the decoding of the
    /// response failed, `Some` when the provider answered with its
    /// envelope. On a successful envelope the whole batch is appended
    /// (duplicates included); on any failure the stored records are left
    /// untouched and the failure is classified: no authorization maps to
    /// [`PoolError::NotWhitelisted`], a transport or decoding failure to
    /// [`PoolError::Provisioning`], and any other envelope code to
    /// [`PoolError::UnexpectedProviderResponse`].
    pub fn add_new_proxies(&mut self, fetched: Option<APIResponse>) -> (r: Result<
        usize,
        PoolError,
    >)
        ensures
            old(self).same_config(*final(self)),
            match fetched {
                Option::None => {
                    &&& final(self).records() == old(self).records()
                    &&& r == Result::<usize, PoolError>::Err(PoolError::Provisioning)
                },
                Option::Some(resp) => {
                    if resp.code == CODE_SUCCESS {
                        &&& final(self).records() == old(self).records() + resp.proxies@
                        &&& r matches Result::Ok(n) && n == resp.proxies@.len()
                    } else if resp.code == CODE_NOT_IN_WHITELIST {
                        &&& final(self).records() == old(self).records()
                        &&& r == Result::<usize, PoolError>::Err(
                            PoolError::NotWhitelisted(CurrentIPNotInWhitelistError),
                        )
                    } else {
                        &&& final(self).records() == old(self).records()
                        &&& r == Result::<usize, PoolError>::Err(
                            PoolError::UnexpectedProviderResponse(resp.code),
                        )
                    }
                },
            },
    {
        match fetched {
            Option::None => Result::Err(PoolError::Provisioning),
            Option::Some(resp) => {
                if resp.code == CODE_SUCCESS {
                    let mut batch = resp.proxies;
                    let added = batch.len();
                    self.proxies.append(&mut batch);
                    Result::Ok(added)
                } else if resp.code == CODE_NOT_IN_WHITELIST {
                    Result::Err(PoolError::NotWhitelisted(CurrentIPNotInWhitelistError))
                } else {
                    Result::Err(PoolError::UnexpectedProviderResponse(resp.code))
                }
            },
        }
    }

    /// Build a pool from its three parameters and the outcome of the one
    /// synchronous fetch that construction performs. The pool exists only
    /// if that fetch succeeded; every failure is reported instead of
    /// handing out a silently empty pool.
    pub fn new(
        size: usize,
        min_proxies: usize,
        expire_threshold: usize,
        fetched: Option<APIResponse>,
    ) -> (r: Result<JGProxiesPool, PoolError>)
        ensures
            match fetched {
                Option::None => r == Result::<JGProxiesPool, PoolError>::Err(
                    PoolError::Provisioning,
                ),
                Option::Some(resp) => {
                    if resp.code == CODE_SUCCESS {
                        &&& r matches Result::Ok(pool)
                        &&& pool.records() == resp.proxies@
                        &&& pool.spec_size() == size
                        &&& pool.spec_min_proxies() == min_proxies
                        &&& pool.spec_expire_threshold() == expire_threshold
                    } else if resp.code == CODE_NOT_IN_WHITELIST {
                        r == Result::<JGProxiesPool, PoolError>::Err(
                            PoolError::NotWhitelisted(CurrentIPNotInWhitelistError),
                        )
                    } else {
                        r == Result::<JGProxiesPool, PoolError>::Err(
                            PoolError::UnexpectedProviderResponse(resp.code),
                        )
                    }
                },
            },
    {
        let mut proxies_pool = JGProxiesPool {
            proxies: Vec::new(),
            size,
            min_proxies,
            expire_threshold,
        };
        match proxies_pool.add_new_proxies(fetched) {
            Result::Ok(_) => Result::Ok(proxies_pool),
            Result::Err(e) => Result::Err(e),
        }
    }

    /// Build a pool with the default parameters: refills of 100 records, a
    /// low-watermark of 30, and a 30 second safety margin.
    pub fn new_default(fetched: Option<APIResponse>) -> (r: Result<JGProxiesPool, PoolError>)
        ensures
            match fetched {
                Option::None => r == Result::<JGProxiesPool, PoolError>::Err(
                    PoolError::Provisioning,
                ),
                Option::Some(resp) => {
                    if resp.code == CODE_SUCCESS {
                        &&& r matches Result::Ok(pool)
                        &&& pool.records() == resp.proxies@
                        &&& pool.spec_size() == 100
                        &&& pool.spec_min_proxies() == 30
                        &&& pool.spec_expire_threshold() == 30
                    } else if resp.code == CODE_NOT_IN_WHITELIST {
                        r == Result::<JGProxiesPool, PoolError>::Err(
                            PoolError::NotWhitelisted(CurrentIPNotInWhitelistError),
                        )
                    } else {
                        r == Result::<JGProxiesPool, PoolError>::Err(
                            PoolError::UnexpectedProviderResponse(resp.code),
                        )
                    }
                },
            },
    {
        JGProxiesPool::new(100, 30, 30, fetched)
    }

    /// Hand out one usable record: evict everything at or under the safety
    /// threshold, then choose among the survivors at random. The chosen
    /// record stays stored — selection never consumes it. Fails with
    /// [`PoolError::PoolExhausted`] exactly when nothing usable remains.
    pub fn get_proxy(&mut self, now: i64) -> (r: Result<JGProxy, PoolError>)
        ensures
            old(self).same_config(*final(self)),
            final(self).records() == live_records(
                old(self).records(),
                now,
                old(self).spec_expire_threshold(),
            ),
            match r {
                Result::Ok(p) => {
                    &&& final(self).records().contains(p)
                    &&& proxy_live(p, now, old(self).spec_expire_threshold())
                    &&& final(self).records().len() > 0
                },
                Result::Err(e) => {
                    &&& e == PoolError::PoolExhausted
                    &&& final(self).records().len() == 0
                },
            },
    {
        broadcast use vstd::seq_lib::group_filter_ensures;

        self.evict_expired(now);
        let n = self.proxies.len();
        if n == 0 {
            Result::Err(PoolError::PoolExhausted)
        } else {
            let i = random_index(n);
            let chosen = self.proxies[i].clone();
            proof {
                assert(self.proxies@[i as int] == chosen);
                assert(self.proxies@.contains(chosen));
            }
            Result::Ok(chosen)
        }
    }
}

/// Relies on `rand::random_range`: a uniformly distributed index drawn
/// from the thread-local generator, strictly below `len`. The draw is
/// random, so nothing beyond its range can be promised.
#[verifier::external_body]
fn random_index(len: usize) -> (r: usize)
    requires
        len > 0,
    ensures
        r < len,
{
    rand::random_range(0..len)
}

/// Whether `p` is still usable at `now`: its remaining lifetime must
/// strictly exceed `threshold` seconds.
pub fn is_live(p: &JGProxy, now: i64, threshold: usize) -> (r: bool)
    ensures
        r == proxy_live(*p, now, threshold),
{
    (p.expire_time as i128) - (now as i128) > (threshold as i128)
}

} // verus!
