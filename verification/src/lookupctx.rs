//! The base pricing context: per-ticker price and vol providers, one rate
//! provider and one day-count provider.
use vstd::prelude::*;

use crate::calendar::Date;
use crate::instrument::{Instrument, InstrumentView, Ticker};
use crate::marketdataproviders::{
    FixedValuationDatePeriodProvider,
    FixedVolSurface,
    FixedZeroRateProvider,
    SinglePriceProvider,
};
use crate::pricingctx::{CtxView, PricingCtx};

verus! {

/// Ticker-keyed provider tables.  Lookups resolve to the latest entry for a
/// ticker, so a later insertion for the same ticker wins.
pub struct LookupCtx {
    pub vol_providers: Vec<(Ticker, FixedVolSurface)>,
    pub market_price_providers: Vec<(Ticker, SinglePriceProvider)>,
    pub rate_provider: FixedZeroRateProvider,
    pub date_period_provider: FixedValuationDatePeriodProvider,
}

/// The mathematical content of a lookup context: two ticker-keyed tables of
/// double bit patterns and the valuation date.
pub struct LookupCtxView {
    pub vols: Seq<(Seq<char>, u64)>,
    pub prices: Seq<(Seq<char>, u64)>,
    pub valuation_date: Date,
}

impl View for LookupCtx {
    type V = LookupCtxView;

    open spec fn view(&self) -> LookupCtxView {
        LookupCtxView {
            vols: Seq::new(
                self.vol_providers@.len(),
                |i: int| (self.vol_providers@[i].0@, self.vol_providers@[i].1.vol),
            ),
            prices: Seq::new(
                self.market_price_providers@.len(),
                |i: int| (self.market_price_providers@[i].0@, self.market_price_providers@[i].1.price),
            ),
            valuation_date: self.date_period_provider.valuation_date,
        }
    }
}

/// The latest value stored for a key, if any.
pub open spec fn spec_lookup(pairs: Seq<(Seq<char>, u64)>, key: Seq<char>) -> Option<u64>
    decreases pairs.len(),
{
    if pairs.len() == 0 {
        None
    } else if pairs.last().0 == key {
        Some(pairs.last().1)
    } else {
        spec_lookup(pairs.drop_last(), key)
    }
}

/// The ticker a provider lookup resolves for an instrument: an option
/// resolves through its underlying.
pub open spec fn spec_underlying_ticker(iv: InstrumentView) -> Seq<char> {
    match iv {
        InstrumentView::Option(o) => o.underlying,
        InstrumentView::Stock(t) => t,
    }
}

/// The view of a ticker-to-bits table handed to a constructor.
pub open spec fn spec_pairs(s: Seq<(Ticker, u64)>) -> Seq<(Seq<char>, u64)> {
    Seq::new(s.len(), |i: int| (s[i].0@, s[i].1))
}

fn lookup_price(
    pairs: &Vec<(Ticker, SinglePriceProvider)>,
    key: &Ticker,
    Ghost(vp): Ghost<Seq<(Seq<char>, u64)>>,
) -> (r: Option<SinglePriceProvider>)
    requires
        vp == Seq::new(pairs@.len(), |i: int| (pairs@[i].0@, pairs@[i].1.price)),
    ensures
        match spec_lookup(vp, key@) {
            Some(b) => r == Some(SinglePriceProvider { price: b }),
            None => r is None,
        },
{
    let mut k: usize = pairs.len();
    proof {
        assert(vp.take(k as int) =~= vp);
    }
    while k > 0
        invariant
            0 <= k <= pairs@.len(),
            vp == Seq::new(pairs@.len(), |i: int| (pairs@[i].0@, pairs@[i].1.price)),
            spec_lookup(vp, key@) == spec_lookup(vp.take(k as int), key@),
        decreases k,
    {
        k = k - 1;
        let ghost prefix = vp.take(k + 1);
        proof {
            assert(prefix.drop_last() =~= vp.take(k as int));
            assert(prefix.last() == vp[k as int]);
        }
        if pairs[k].0 == *key {
            assert(prefix.last().0 == key@);
            return Some(pairs[k].1);
        }
        assert(prefix.last().0 != key@);
    }
    proof {
        assert(vp.take(0) =~= Seq::<(Seq<char>, u64)>::empty());
    }
    None
}

fn lookup_vol(
    pairs: &Vec<(Ticker, FixedVolSurface)>,
    key: &Ticker,
    Ghost(vp): Ghost<Seq<(Seq<char>, u64)>>,
) -> (r: Option<FixedVolSurface>)
    requires
        vp == Seq::new(pairs@.len(), |i: int| (pairs@[i].0@, pairs@[i].1.vol)),
    ensures
        match spec_lookup(vp, key@) {
            Some(b) => r == Some(FixedVolSurface { vol: b }),
            None => r is None,
        },
{
    let mut k: usize = pairs.len();
    proof {
        assert(vp.take(k as int) =~= vp);
    }
    while k > 0
        invariant
            0 <= k <= pairs@.len(),
            vp == Seq::new(pairs@.len(), |i: int| (pairs@[i].0@, pairs@[i].1.vol)),
            spec_lookup(vp, key@) == spec_lookup(vp.take(k as int), key@),
        decreases k,
    {
        k = k - 1;
        let ghost prefix = vp.take(k + 1);
        proof {
            assert(prefix.drop_last() =~= vp.take(k as int));
            assert(prefix.last() == vp[k as int]);
        }
        if pairs[k].0 == *key {
            assert(prefix.last().0 == key@);
            return Some(pairs[k].1);
        }
        assert(prefix.last().0 != key@);
    }
    proof {
        assert(vp.take(0) =~= Seq::<(Seq<char>, u64)>::empty());
    }
    None
}

impl LookupCtx {
    /// Builds the base context from a valuation date and ticker-keyed spot
    /// and vol tables (double bit patterns).
    pub fn new_from_prices_and_vols(
        valuation_date: Date,
        market_prices: &Vec<(Ticker, u64)>,
        vols: &Vec<(Ticker, u64)>,
    ) -> (r: PricingCtx)
        requires
            valuation_date.wf(),
        ensures
            r@ == CtxView::Lookup(
                LookupCtxView {
                    vols: spec_pairs(vols@),
                    prices: spec_pairs(market_prices@),
                    valuation_date,
                },
            ),
    {
        let mut mprvs: Vec<(Ticker, SinglePriceProvider)> = Vec::new();
        let mut k: usize = 0;
        while k < market_prices.len()
            invariant
                0 <= k <= market_prices@.len(),
                mprvs@.len() == k,
                forall|i: int| #![all_triggers] 0 <= i < k ==> mprvs@[i].0@ == market_prices@[i].0@
                    && mprvs@[i].1.price == market_prices@[i].1,
            decreases market_prices@.len() - k,
        {
            let t = market_prices[k].0.clone();
            let p = SinglePriceProvider::new(market_prices[k].1);
            mprvs.push((t, p));
            k += 1;
        }
        let mut vprvs: Vec<(Ticker, FixedVolSurface)> = Vec::new();
        let mut j: usize = 0;
        while j < vols.len()
            invariant
                0 <= j <= vols@.len(),
                vprvs@.len() == j,
                forall|i: int| #![all_triggers] 0 <= i < j ==> vprvs@[i].0@ == vols@[i].0@
                    && vprvs@[i].1.vol == vols@[i].1,
            decreases vols@.len() - j,
        {
            let t = vols[j].0.clone();
            let v = FixedVolSurface::new(vols[j].1);
            vprvs.push((t, v));
            j += 1;
        }
        let lc = LookupCtx {
            vol_providers: vprvs,
            market_price_providers: mprvs,
            rate_provider: FixedZeroRateProvider,
            date_period_provider: FixedValuationDatePeriodProvider::new(valuation_date),
        };
        proof {
            assert(lc@.prices =~= spec_pairs(market_prices@));
            assert(lc@.vols =~= spec_pairs(vols@));
        }
        PricingCtx::LookupExecutor(lc)
    }

    /// Builds the base context with market prices only.
    pub fn new_market_price_only(
        valuation_date: Date,
        market_prices: &Vec<(Ticker, u64)>,
    ) -> (r: PricingCtx)
        requires
            valuation_date.wf(),
        ensures
            r@ == CtxView::Lookup(
                LookupCtxView {
                    vols: Seq::empty(),
                    prices: spec_pairs(market_prices@),
                    valuation_date,
                },
            ),
    {
        let vols: Vec<(Ticker, u64)> = Vec::new();
        proof {
            assert(spec_pairs(vols@) =~= Seq::<(Seq<char>, u64)>::empty());
        }
        LookupCtx::new_from_prices_and_vols(valuation_date, market_prices, &vols)
    }

    pub fn vol_provider(&self, instrument: &Instrument) -> (r: Option<FixedVolSurface>)
        ensures
            match spec_lookup(self@.vols, spec_underlying_ticker(instrument@)) {
                Some(b) => r == Some(FixedVolSurface { vol: b }),
                None => r is None,
            },
    {
        let ticker = match instrument {
            Instrument::Option(opt) => &opt.underlying.ticker,
            Instrument::Stock(stock) => &stock.ticker,
        };
        lookup_vol(&self.vol_providers, ticker, Ghost(self@.vols))
    }

    pub fn market_price_provider(&self, instrument: &Instrument) -> (r: Option<
        SinglePriceProvider,
    >)
        ensures
            match spec_lookup(self@.prices, spec_underlying_ticker(instrument@)) {
                Some(b) => r == Some(SinglePriceProvider { price: b }),
                None => r is None,
            },
    {
        let ticker = match instrument {
            Instrument::Option(opt) => &opt.underlying.ticker,
            Instrument::Stock(stock) => &stock.ticker,
        };
        lookup_price(&self.market_price_providers, ticker, Ghost(self@.prices))
    }

    pub fn ir_provider(&self, _instrument: &Instrument) -> (r: Option<FixedZeroRateProvider>)
        ensures
            r == Some(FixedZeroRateProvider),
    {
        Some(self.rate_provider)
    }

    pub fn period_provider(&self, _instrument: &Instrument) -> (r: Option<
        FixedValuationDatePeriodProvider,
    >)
        ensures
            r == Some(
                FixedValuationDatePeriodProvider { valuation_date: self@.valuation_date },
            ),
    {
        Some(self.date_period_provider)
    }
}

impl Clone for LookupCtx {
    fn clone(&self) -> (r: LookupCtx)
        ensures
            r@ == self@,
    {
        let mut mprvs: Vec<(Ticker, SinglePriceProvider)> = Vec::new();
        let mut k: usize = 0;
        while k < self.market_price_providers.len()
            invariant
                0 <= k <= self.market_price_providers@.len(),
                mprvs@.len() == k,
                forall|i: int| #![all_triggers] 0 <= i < k ==> mprvs@[i].0@
                    == self.market_price_providers@[i].0@ && mprvs@[i].1
                    == self.market_price_providers@[i].1,
            decreases self.market_price_providers@.len() - k,
        {
            let t = self.market_price_providers[k].0.clone();
            let p = self.market_price_providers[k].1;
            mprvs.push((t, p));
            k += 1;
        }
        let mut vprvs: Vec<(Ticker, FixedVolSurface)> = Vec::new();
        let mut j: usize = 0;
        while j < self.vol_providers.len()
            invariant
                0 <= j <= self.vol_providers@.len(),
                vprvs@.len() == j,
                forall|i: int| #![all_triggers] 0 <= i < j ==> vprvs@[i].0@
                    == self.vol_providers@[i].0@ && vprvs@[i].1 == self.vol_providers@[i].1,
            decreases self.vol_providers@.len() - j,
        {
            let t = self.vol_providers[j].0.clone();
            let v = self.vol_providers[j].1;
            vprvs.push((t, v));
            j += 1;
        }
        let r = LookupCtx {
            vol_providers: vprvs,
            market_price_providers: mprvs,
            rate_provider: self.rate_provider,
            date_period_provider: self.date_period_provider,
        };
        proof {
            assert(r@.prices =~= self@.prices);
            assert(r@.vols =~= self@.vols);
        }
        r
    }
}

} // verus!
