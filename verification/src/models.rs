use vstd::prelude::*;

verus! {

/// A leased proxy endpoint issued by the provider.
///
/// `expire_time` is the absolute expiry instant in seconds since the Unix
/// epoch; callers compare it against a clock reading in the same scale.
/// A record is immutable once constructed: it is only ever discarded, never
/// changed.
#[derive(Debug)]
pub struct JGProxy {
    pub city: String,
    pub expire_time: i64,
    pub ip: String,
    pub isp: Option<String>,
    pub port: u32,
}

impl Clone for JGProxy {
    fn clone(&self) -> (r: Self)
        ensures
            r == *self,
    {
        JGProxy {
            city: self.city.clone(),
            expire_time: self.expire_time,
            ip: self.ip.clone(),
            isp: self.isp.clone(),
            port: self.port,
        }
    }
}

/// The provider's response envelope: a status code, the batch of records,
/// and informational fields the pool does not act on.
#[derive(Debug)]
pub struct APIResponse {
    pub code: u32,
    pub proxies: Vec<JGProxy>,
    pub msg: String,
    pub success: bool,
}

/// A record is usable at `now` when its remaining lifetime strictly exceeds
/// the safety threshold; one exactly at the threshold counts as expired.
pub open spec fn proxy_live(p: JGProxy, now: i64, threshold: usize) -> bool {
    p.expire_time - now > threshold as int
}

/// The records of `s` that are still usable at `now`, in their original
/// order and multiplicity.
pub open spec fn live_records(s: Seq<JGProxy>, now: i64, threshold: usize) -> Seq<JGProxy> {
    s.filter(|p: JGProxy| proxy_live(p, now, threshold))
}

/// Expiry invariant of the store: every record that survives an eviction
/// pass is usable, with a remaining lifetime strictly above the safety
/// threshold. A record handed to a caller is drawn from this sequence.
pub proof fn lemma_eviction_keeps_only_live(s: Seq<JGProxy>, now: i64, threshold: usize, i: int)
    requires
        0 <= i < live_records(s, now, threshold).len(),
    ensures
        proxy_live(live_records(s, now, threshold)[i], now, threshold),
{
    broadcast use vstd::seq_lib::group_filter_ensures;

}

/// Non-destructive selection: when every stored record is still usable at
/// `now`, an eviction pass at `now` keeps the stored sequence exactly as
/// it was. Selection only evicts and reads, so any number of selections
/// made without the clock advancing never shrinks the pool.
pub proof fn lemma_selection_non_destructive(s: Seq<JGProxy>, now: i64, threshold: usize)
    requires
        forall|i: int| 0 <= i < s.len() ==> proxy_live(#[trigger] s[i], now, threshold),
    ensures
        live_records(s, now, threshold) == s,
    decreases s.len(),
{
    reveal(Seq::filter);
    let pred = |p: JGProxy| proxy_live(p, now, threshold);
    if s.len() == 0 {
        assert(s.filter(pred) == s);
    } else {
        let prefix = s.drop_last();
        assert(forall|i: int| 0 <= i < prefix.len() ==> proxy_live(#[trigger] prefix[i], now, threshold));
        lemma_selection_non_destructive(prefix, now, threshold);
        assert(pred(s.last()));
        assert(s.filter(pred) == prefix.push(s.last()));
        assert(prefix.push(s.last()) =~= s);
    }
}

} // verus!
