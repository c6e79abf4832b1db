use vstd::prelude::*;

verus! {

/// A base fee as the estimator may use it.
#[derive(Clone, Copy, Debug, PartialEq, Eq, Structural)]
pub struct BaseFeeReading {
    pub base_fee: u128,
    /// Set where the value is the last one known because a fetch failed.
    pub stale: bool,
}

/// The last base fee fetched from a node, kept for a short time.
///
/// Times are in seconds on whatever clock the caller reads.
#[derive(Clone, Copy, Debug)]
pub struct BaseFeeCache {
    pub last: Option<u128>,
    pub fetched_at: u64,
    pub ttl: u64,
}

impl BaseFeeCache {
    /// An empty cache whose values live `ttl` seconds.
    pub fn new(ttl: u64) -> (r: BaseFeeCache)
        ensures
            r.last is None,
            r.ttl == ttl,
    {
        BaseFeeCache { last: None, fetched_at: 0, ttl }
    }

    /// Whether the cached value may still be used at time `now`.
    pub open spec fn is_fresh(&self, now: u64) -> bool {
        self.last is Some && self.fetched_at <= now && now - self.fetched_at < self.ttl
    }

    /// The cached base fee where it is still fresh at `now`; `None` means a
    /// fetch is due.
    pub fn fresh(&self, now: u64) -> (r: Option<u128>)
        ensures
            self.is_fresh(now) ==> r == self.last,
            !self.is_fresh(now) ==> r is None,
    {
        match self.last {
            Some(fee) => {
                if self.fetched_at <= now && now - self.fetched_at < self.ttl {
                    Some(fee)
                } else {
                    None
                }
            },
            None => None,
        }
    }

    /// Records the outcome of a fetch made at `now` and says which base fee
    /// to use: the fetched one, or, where the fetch failed, the last one known
    /// marked stale. Only where nothing was ever fetched is there none.
    pub fn record(&mut self, fetched: Option<u128>, now: u64) -> (r: Option<BaseFeeReading>)
        ensures
            match fetched {
                Some(fee) => {
                    &&& r == Some(BaseFeeReading { base_fee: fee, stale: false })
                    &&& final(self).last == Some(fee)
                    &&& final(self).fetched_at == now
                    &&& final(self).ttl == old(self).ttl
                },
                None => {
                    &&& *final(self) == *old(self)
                    &&& match old(self).last {
                        Some(last) => r == Some(BaseFeeReading { base_fee: last, stale: true }),
                        None => r is None,
                    }
                },
            },
    {
        match fetched {
            Some(fee) => {
                self.last = Some(fee);
                self.fetched_at = now;
                Some(BaseFeeReading { base_fee: fee, stale: false })
            },
            None => match self.last {
                Some(last) => Some(BaseFeeReading { base_fee: last, stale: true }),
                None => None,
            },
        }
    }
}

} // verus!
