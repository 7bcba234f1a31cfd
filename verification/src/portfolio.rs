//! Positions and the ordered portfolio container.
//!
//! Positions are kept in an insertion-ordered table with unique identifiers:
//! a stock position is keyed by its ticker and further trades accumulate
//! into its size, while every option trade receives a fresh identifier from
//! a counter and stands alone.
use vstd::prelude::*;
use vstd::string::StringExecFns;

use crate::calendar::Date;
use crate::error::PricerError;
use crate::expr::Expr;
use crate::instrument::{Instrument, InstrumentView, OptionType, StockOptionView, Ticker};
use crate::text::{spec_decimal, spec_decimal_pad2, spec_decimal_pad4};

verus! {

/// The identifier of a position inside a portfolio.
#[derive(Debug, Eq, Hash)]
pub struct PositionId(pub String);

impl View for PositionId {
    type V = Seq<char>;

    open spec fn view(&self) -> Seq<char> {
        self.0@
    }
}

impl Clone for PositionId {
    fn clone(&self) -> (r: PositionId)
        ensures
            r == *self,
    {
        PositionId(self.0.clone())
    }
}

impl PartialEq for PositionId {
    fn eq(&self, other: &PositionId) -> (r: bool) {
        crate::text::str_eq(self.0.as_str(), other.0.as_str())
    }
}

impl vstd::std_specs::cmp::PartialEqSpecImpl for PositionId {
    open spec fn obeys_eq_spec() -> bool {
        true
    }

    open spec fn eq_spec(&self, other: &PositionId) -> bool {
        self.0@ == other.0@
    }
}

impl PositionId {
    /// The identifier as a fresh string.
    pub fn to_string(&self) -> (r: String)
        ensures
            r@ == self@,
    {
        self.0.clone()
    }
}

/// A sized holding of an instrument.  The size is a symbolic real, so that
/// accumulated trades stay exact per-operation.
#[derive(Debug)]
pub struct Position {
    pub size: Expr,
    pub instrument: Instrument,
}

/// The mathematical content of a position.
pub struct PositionView {
    pub size: Expr,
    pub instrument: InstrumentView,
}

impl View for Position {
    type V = PositionView;

    open spec fn view(&self) -> PositionView {
        PositionView { size: self.size, instrument: self.instrument@ }
    }
}

impl Clone for Position {
    fn clone(&self) -> (r: Position)
        ensures
            r@ == self@,
    {
        Position { size: self.size.clone(), instrument: self.instrument.clone() }
    }
}

impl Position {
    pub fn new(size: Expr, instrument: Instrument) -> (r: Self)
        ensures
            r == (Position { size, instrument }),
    {
        Self { size, instrument }
    }
}

/// The flat image of one position, as the surrounding driver consumes it.
#[derive(Debug)]
pub struct PositionData {
    pub position_id: PositionId,
    pub size: Expr,
    pub ticker: Ticker,
    pub strike: Option<u64>,
    pub expiry: Option<Date>,
    pub option_type: Option<OptionType>,
}

impl PositionData {
    pub fn new(
        position_id: PositionId,
        size: Expr,
        ticker: Ticker,
        strike: Option<u64>,
        expiry: Option<Date>,
        option_type: Option<OptionType>,
    ) -> (r: Self)
        ensures
            r == (PositionData { position_id, size, ticker, strike, expiry, option_type }),
    {
        Self { position_id, size, ticker, strike, expiry, option_type }
    }

    /// The image of a position under its identifier: an option contributes
    /// its underlying's ticker, strike, expiry and kind; a stock only its
    /// ticker.
    pub fn from_position(pid: &PositionId, pos: &Position) -> (r: Self)
        ensures
            r.position_id@ == pid@,
            r.size == pos.size,
            match pos.instrument@ {
                InstrumentView::Option(o) => r.ticker@ == o.underlying && r.strike == Some(
                    o.strike,
                ) && r.expiry == Some(o.expiry) && r.option_type == Some(o.option_type),
                InstrumentView::Stock(t) => r.ticker@ == t && r.strike is None && r.expiry is None
                    && r.option_type is None,
            },
    {
        let size = pos.size.clone();
        match &pos.instrument {
            Instrument::Option(opt) => PositionData::new(
                pid.clone(),
                size,
                opt.underlying.ticker.clone(),
                Some(opt.strike),
                Some(opt.expiry),
                Some(opt.option_type),
            ),
            Instrument::Stock(s) => PositionData::new(
                pid.clone(),
                size,
                s.ticker.clone(),
                None,
                None,
                None,
            ),
        }
    }
}

/// The identifier an option trade receives: ticker, expiry as `yyyymmdd`,
/// `C` or `P`, an underscore and the trade counter.
pub open spec fn spec_trade_id(o: StockOptionView, tid: int) -> Seq<char> {
    o.underlying + spec_decimal_pad4(o.expiry.year as int) + spec_decimal_pad2(
        o.expiry.month as int,
    ) + spec_decimal_pad2(o.expiry.day as int) + (match o.option_type {
        OptionType::Call => "C"@,
        OptionType::Put => "P"@,
    }) + "_"@ + spec_decimal(tid)
}

/// The identifier a trade is stored under: its ticker for a stock, a fresh
/// counter-based identifier for an option.
pub open spec fn spec_pid(iv: InstrumentView, tid: int) -> Seq<char> {
    match iv {
        InstrumentView::Option(o) => spec_trade_id(o, tid),
        InstrumentView::Stock(t) => t,
    }
}

/// The index of an identifier among stored positions, if present.
pub open spec fn spec_find(ps: Seq<(PositionId, Position)>, pid: Seq<char>) -> Option<int>
    decreases ps.len(),
{
    if ps.len() == 0 {
        None
    } else if ps.first().0@ == pid {
        Some(0)
    } else {
        match spec_find(ps.drop_first(), pid) {
            None => None,
            Some(i) => Some(i + 1),
        }
    }
}

/// How many stored positions hold a stock.
pub open spec fn spec_count_stocks(ps: Seq<(PositionId, Position)>) -> int
    decreases ps.len(),
{
    if ps.len() == 0 {
        0
    } else {
        spec_count_stocks(ps.drop_last()) + (if ps.last().1.instrument@ matches
            InstrumentView::Stock(_) {
            1int
        } else {
            0int
        })
    }
}

/// How many stored positions hold an option.
pub open spec fn spec_count_options(ps: Seq<(PositionId, Position)>) -> int
    decreases ps.len(),
{
    if ps.len() == 0 {
        0
    } else {
        spec_count_options(ps.drop_last()) + (if ps.last().1.instrument@ matches
            InstrumentView::Option(_) {
            1int
        } else {
            0int
        })
    }
}

/// An ordered collection of positions with unique identifiers.
pub struct Portfolio {
    trade_id_counter: u64,
    positions: Vec<(PositionId, Position)>,
    pub position_ids: Vec<PositionId>,
}

impl Portfolio {
    /// The cached identifier list mirrors the table, and identifiers are
    /// unique.
    pub closed spec fn wf(&self) -> bool {
        &&& self.position_ids@.len() == self.positions@.len()
        &&& forall|i: int| #![all_triggers] 0 <= i < self.positions@.len()
            ==> self.position_ids@[i]@ == self.positions@[i].0@
        &&& forall|i: int, j: int| #![all_triggers] 0 <= i < j < self.positions@.len()
            ==> self.positions@[i].0@ != self.positions@[j].0@
        &&& forall|i: int| #![all_triggers] 0 <= i < self.positions@.len()
            ==> self.positions@[i].1.instrument@.wf()
    }

    /// Every stored instrument is well-formed.
    pub proof fn lemma_wf_instruments(&self)
        requires
            self.wf(),
        ensures
            forall|i: int| #![all_triggers] 0 <= i < self.spec_positions().len()
                ==> self.spec_positions()[i].1.instrument@.wf(),
    {
    }

    /// The stored positions, in insertion order.
    pub closed spec fn spec_positions(&self) -> Seq<(PositionId, Position)> {
        self.positions@
    }

    /// The trade counter.
    pub closed spec fn spec_counter(&self) -> int {
        self.trade_id_counter as int
    }

    /// The cached identifier list.
    pub closed spec fn spec_position_ids(&self) -> Seq<PositionId> {
        self.position_ids@
    }

    pub fn new() -> (r: Self)
        ensures
            r.wf(),
            r.spec_positions() == Seq::<(PositionId, Position)>::empty(),
            r.spec_counter() == 0,
            r.spec_position_ids() == Seq::<PositionId>::empty(),
    {
        let r = Self { trade_id_counter: 0, positions: Vec::new(), position_ids: Vec::new() };
        r
    }

    /// Draws the next trade counter value and renders the identifier of an
    /// option trade.
    fn gen_trade_id(&mut self, opt: &crate::instrument::StockOption) -> (r: String)
        requires
            old(self).trade_id_counter < u64::MAX,
            opt.expiry.wf(),
        ensures
            r@ == spec_trade_id(opt@, old(self).trade_id_counter as int),
            final(self).trade_id_counter == old(self).trade_id_counter + 1,
            final(self).positions == old(self).positions,
            final(self).position_ids == old(self).position_ids,
    {
        let tid = self.trade_id_counter;
        self.trade_id_counter = self.trade_id_counter + 1;
        let opttype_char: &str = match opt.option_type {
            OptionType::Call => "C",
            OptionType::Put => "P",
        };
        let mut id = opt.underlying.ticker.0.clone();
        let y = crate::text::u64_to_string_pad4(opt.expiry.year as u64);
        id.append(y.as_str());
        let m = crate::text::u64_to_string_pad2(opt.expiry.month as u64);
        id.append(m.as_str());
        let d = crate::text::u64_to_string_pad2(opt.expiry.day as u64);
        id.append(d.as_str());
        id.append(opttype_char);
        id.append("_");
        let t = crate::text::u64_to_string(tid);
        id.append(t.as_str());
        proof {
            reveal_strlit("C");
            reveal_strlit("P");
            reveal_strlit("_");
            assert(id@ =~= spec_trade_id(opt@, tid as int));
        }
        id
    }

    fn find_position(&self, pid: &PositionId) -> (r: Option<usize>)
        ensures
            match spec_find(self.positions@, pid@) {
                Some(i) => r matches Some(k) && k == i && 0 <= i < self.positions@.len()
                    && self.positions@[i].0@ == pid@,
                None => r is None,
            },
    {
        let mut k: usize = 0;
        while k < self.positions.len()
            invariant
                0 <= k <= self.positions@.len(),
                forall|j: int| 0 <= j < k ==> self.positions@[j].0@ != pid@,
            decreases self.positions@.len() - k,
        {
            if self.positions[k].0 == *pid {
                proof {
                    lemma_find_at(self.positions@, pid@, k as int);
                }
                return Some(k);
            }
            k += 1;
        }
        proof {
            lemma_find_none(self.positions@, pid@);
        }
        None
    }

    /// Adds a trade.  A stock trade joins the position keyed by its ticker,
    /// adding to its size; an option trade always opens a new position
    /// under a fresh identifier.
    pub fn add_trade(&mut self, instrument: &Instrument, size: u64) -> (r: Result<
        (),
        PricerError,
    >)
        requires
            old(self).wf(),
            old(self).spec_counter() < u64::MAX,
            instrument@.wf(),
        ensures
            r is Ok,
            final(self).wf(),
            ({
                let pid = spec_pid(instrument@, old(self).spec_counter());
                match spec_find(old(self).spec_positions(), pid) {
                    Some(i) => {
                        &&& final(self).spec_positions().len() == old(
                            self,
                        ).spec_positions().len()
                        &&& forall|j: int| #![all_triggers] 0 <= j < old(
                            self,
                        ).spec_positions().len() && j != i ==> final(self).spec_positions()[j]
                            == old(self).spec_positions()[j]
                        &&& final(self).spec_positions()[i].0 == old(self).spec_positions()[i].0
                        &&& final(self).spec_positions()[i].1.instrument == old(
                            self,
                        ).spec_positions()[i].1.instrument
                        &&& final(self).spec_positions()[i].1.size == Expr::Add(
                            Box::new(old(self).spec_positions()[i].1.size),
                            Box::new(Expr::Num(size)),
                        )
                        &&& final(self).spec_position_ids() == old(self).spec_position_ids()
                    },
                    None => {
                        &&& final(self).spec_positions().len() == old(
                            self,
                        ).spec_positions().len() + 1
                        &&& forall|j: int| #![all_triggers] 0 <= j < old(
                            self,
                        ).spec_positions().len() ==> final(self).spec_positions()[j] == old(
                            self,
                        ).spec_positions()[j]
                        &&& final(self).spec_positions().last().0@ == pid
                        &&& final(self).spec_positions().last().1.size == Expr::Num(size)
                        &&& final(self).spec_positions().last().1.instrument == *instrument
                        &&& final(self).spec_position_ids().len() == old(
                            self,
                        ).spec_position_ids().len() + 1
                    },
                }
            }),
    {
        let pid = match instrument {
            Instrument::Option(opt) => PositionId(self.gen_trade_id(opt)),
            Instrument::Stock(s) => PositionId(s.ticker.0.clone()),
        };
        match self.find_position(&pid) {
            Some(idx) => {
                let old_size = self.positions[idx].1.size.clone();
                let merged = Expr::Add(Box::new(old_size), Box::new(Expr::Num(size)));
                let inst = self.positions[idx].1.instrument.clone();
                let kept = self.positions[idx].0.clone();
                self.positions.set(idx, (kept, Position::new(merged, inst)));
            },
            None => {
                let pos = Position::new(Expr::Num(size), instrument.clone());
                self.positions.push((pid.clone(), pos));
                self.position_ids.push(pid);
                proof {
                    lemma_find_none_means_absent(old(self).positions@, spec_pid(
                        instrument@,
                        old(self).spec_counter(),
                    ));
                }
            },
        }
        Ok(())
    }

    /// Every stored position's identifier and instrument, in insertion
    /// order.
    pub fn instruments(&self) -> (r: Vec<(String, Instrument)>)
        ensures
            r@.len() == self.spec_positions().len(),
            forall|i: int| #![all_triggers] 0 <= i < r@.len() ==> r@[i].0@
                == self.spec_positions()[i].0@ && r@[i].1@
                == self.spec_positions()[i].1.instrument@,
    {
        let mut r: Vec<(String, Instrument)> = Vec::new();
        let mut k: usize = 0;
        while k < self.positions.len()
            invariant
                0 <= k <= self.positions@.len(),
                r@.len() == k,
                forall|i: int| #![all_triggers] 0 <= i < k ==> r@[i].0@ == self.positions@[i].0@
                    && r@[i].1@ == self.positions@[i].1.instrument@,
            decreases self.positions@.len() - k,
        {
            let id = self.positions[k].0.to_string();
            let inst = self.positions[k].1.instrument.clone();
            r.push((id, inst));
            k += 1;
        }
        r
    }

    /// The positions in insertion order, with their identifiers.
    pub fn positions_in_order(&self) -> (r: &Vec<(PositionId, Position)>)
        ensures
            r@ == self.spec_positions(),
    {
        &self.positions
    }

    pub fn get_position(&self, pid: &PositionId) -> (r: Option<&Position>)
        ensures
            match spec_find(self.spec_positions(), pid@) {
                Some(i) => r matches Some(p) && *p == self.spec_positions()[i].1,
                None => r is None,
            },
    {
        match self.find_position(pid) {
            Some(idx) => Some(&self.positions[idx].1),
            None => None,
        }
    }

    /// The flat image of every position, in insertion order.
    pub fn get_position_data(&self) -> (r: Vec<PositionData>)
        ensures
            r@.len() == self.spec_positions().len(),
            forall|i: int| #![all_triggers] 0 <= i < r@.len() ==> r@[i].position_id@
                == self.spec_positions()[i].0@ && r@[i].size == self.spec_positions()[i].1.size,
    {
        let mut r: Vec<PositionData> = Vec::new();
        let mut k: usize = 0;
        while k < self.positions.len()
            invariant
                0 <= k <= self.positions@.len(),
                r@.len() == k,
                forall|i: int| #![all_triggers] 0 <= i < k ==> r@[i].position_id@
                    == self.positions@[i].0@ && r@[i].size == self.positions@[i].1.size,
            decreases self.positions@.len() - k,
        {
            r.push(PositionData::from_position(&self.positions[k].0, &self.positions[k].1));
            k += 1;
        }
        r
    }

    /// How many positions hold a stock.
    pub fn equity_pos_len(&self) -> (r: usize)
        ensures
            r == spec_count_stocks(self.spec_positions()),
    {
        let mut n: usize = 0;
        let mut k: usize = 0;
        while k < self.positions.len()
            invariant
                0 <= k <= self.positions@.len(),
                n == spec_count_stocks(self.positions@.take(k as int)),
                n <= k,
            decreases self.positions@.len() - k,
        {
            proof {
                assert(self.positions@.take(k + 1).drop_last() =~= self.positions@.take(k as int));
            }
            if matches!(self.positions[k].1.instrument, Instrument::Stock(_)) {
                n += 1;
            }
            k += 1;
        }
        proof {
            assert(self.positions@.take(self.positions@.len() as int) =~= self.positions@);
        }
        n
    }

    /// How many positions hold an option.
    pub fn option_trades_len(&self) -> (r: usize)
        ensures
            r == spec_count_options(self.spec_positions()),
    {
        let mut n: usize = 0;
        let mut k: usize = 0;
        while k < self.positions.len()
            invariant
                0 <= k <= self.positions@.len(),
                n == spec_count_options(self.positions@.take(k as int)),
                n <= k,
            decreases self.positions@.len() - k,
        {
            proof {
                assert(self.positions@.take(k + 1).drop_last() =~= self.positions@.take(k as int));
            }
            if matches!(self.positions[k].1.instrument, Instrument::Option(_)) {
                n += 1;
            }
            k += 1;
        }
        proof {
            assert(self.positions@.take(self.positions@.len() as int) =~= self.positions@);
        }
        n
    }
}

/// A match at index `k`, with no earlier match, is what the search finds.
proof fn lemma_find_at(ps: Seq<(PositionId, Position)>, pid: Seq<char>, k: int)
    requires
        0 <= k < ps.len(),
        ps[k].0@ == pid,
        forall|j: int| 0 <= j < k ==> ps[j].0@ != pid,
    ensures
        spec_find(ps, pid) == Some(k),
    decreases ps.len(),
{
    if k > 0 {
        assert(forall|j: int| 0 <= j < k - 1 ==> ps.drop_first()[j] == ps[j + 1]);
        lemma_find_at(ps.drop_first(), pid, k - 1);
    }
}

/// No match anywhere means the search fails.
proof fn lemma_find_none(ps: Seq<(PositionId, Position)>, pid: Seq<char>)
    requires
        forall|j: int| 0 <= j < ps.len() ==> ps[j].0@ != pid,
    ensures
        spec_find(ps, pid) is None,
    decreases ps.len(),
{
    if ps.len() > 0 {
        lemma_find_none(ps.drop_first(), pid);
    }
}

/// A failed search means the identifier is absent.
proof fn lemma_find_none_means_absent(ps: Seq<(PositionId, Position)>, pid: Seq<char>)
    requires
        spec_find(ps, pid) is None,
    ensures
        forall|j: int| 0 <= j < ps.len() ==> ps[j].0@ != pid,
    decreases ps.len(),
{
    if ps.len() > 0 {
        lemma_find_none_means_absent(ps.drop_first(), pid);
        assert(ps.first().0@ != pid);
        assert(forall|j: int| 1 <= j < ps.len() ==> ps[j].0@ == ps.drop_first()[j - 1].0@);
    }
}

} // verus!
