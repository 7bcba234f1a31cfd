//! The per-coordinate shifted executor and the stacked vectorized context.
use vstd::prelude::*;

use crate::error::{PricerError, PricerErrorView};
use crate::expr::Expr;
use crate::instrument::Instrument;
use crate::pricingctx::{
    spec_apply_shift_items,
    spec_instrument_rank,
    spec_items_view,
    spec_measure_rank,
    spec_price,
    spec_process_shifts,
    spec_scaled,
    Axis,
    CtxView,
    Measure,
    PricingCtx,
    VectorResult,
};
use crate::portfolio::Position;
use crate::positioncalculator::PositionScaler;
use crate::transform::{
    spec_shift_item_at,
    ShiftItem,
    ShiftItemView,
    TransformAlignment,
    TransformDefView,
    TransformDefinition,
};

verus! {

/// Wraps a base context with the shift items of one scenario coordinate.
pub struct ShiftedExecutor {
    pub base_ctx: Box<PricingCtx>,
    pub shifts: Vec<ShiftItem>,
}

impl ShiftedExecutor {
    pub fn new(base_ctx: &PricingCtx, shifts: Vec<ShiftItem>) -> (r: Self)
        ensures
            r.base_ctx@ == base_ctx@,
            spec_items_view(r.shifts@) == spec_items_view(shifts@),
    {
        Self { base_ctx: Box::new(base_ctx.clone()), shifts }
    }

    /// Applies the base context's shifts, then this coordinate's items in
    /// insertion order.
    pub fn process(&self, measure: Measure, instrument: &Instrument, v: Expr) -> (r: Expr)
        ensures
            r == spec_process_shifts(
                CtxView::Shifted(Box::new(self.base_ctx@), spec_items_view(self.shifts@)),
                measure,
                instrument@,
                v,
            ),
        decreases *self,
    {
        let ghost items = spec_items_view(self.shifts@);
        let mut v = self.base_ctx.process_shifts(measure, instrument, v);
        let ghost inner = v;
        let mut k: usize = 0;
        while k < self.shifts.len()
            invariant
                0 <= k <= self.shifts@.len(),
                items == spec_items_view(self.shifts@),
                v == spec_apply_shift_items(items, measure, instrument@, inner, k as int),
            decreases self.shifts@.len() - k,
        {
            let si = &self.shifts[k];
            if si.shift_target.is_target(measure) && si.instrument_filter.accept(instrument) {
                v = crate::expr::shifted(v, si.rel_shift, si.abs_shift);
            }
            k += 1;
        }
        v
    }
}

impl Clone for ShiftedExecutor {
    fn clone(&self) -> (r: ShiftedExecutor)
        ensures
            r.base_ctx@ == self.base_ctx@,
            spec_items_view(r.shifts@) == spec_items_view(self.shifts@),
        decreases *self,
    {
        let mut shifts: Vec<ShiftItem> = Vec::new();
        let mut k: usize = 0;
        while k < self.shifts.len()
            invariant
                0 <= k <= self.shifts@.len(),
                shifts@.len() == k,
                forall|i: int| #![all_triggers] 0 <= i < k ==> shifts@[i]@ == self.shifts@[i]@,
            decreases self.shifts@.len() - k,
        {
            let si = &self.shifts[k];
            shifts.push(
                ShiftItem::new(&si.instrument_filter, &si.shift_target, si.rel_shift, si.abs_shift),
            );
            k += 1;
        }
        proof {
            assert(spec_items_view(shifts@) =~= spec_items_view(self.shifts@));
        }
        ShiftedExecutor { base_ctx: Box::new((*self.base_ctx).clone()), shifts }
    }
}


/// The mathematical content of a stacked context: its axis, the shared base
/// context, the parent chain, the transform, and the cached axes and shape.
pub struct StackedCtxView {
    pub axis: Axis,
    pub base: CtxView,
    pub parent: Option<Box<StackedCtxView>>,
    pub td: TransformDefView,
    pub axes: Seq<Axis>,
    pub shape: Seq<usize>,
}

/// The axes of a context: the parent's axes with this context's axis
/// appended, unless it is identical to the last entry (a `Stacked`
/// alignment reuses the parent's axis).
pub open spec fn spec_stacked_axes(parent: Option<StackedCtxView>, axis: Axis) -> Seq<Axis> {
    match parent {
        None => seq![axis],
        Some(p) => if p.axes.len() > 0 && p.axes.last() == axis {
            p.axes
        } else {
            p.axes.push(axis)
        },
    }
}

/// What constructing a stacked context yields.
pub open spec fn spec_new_stacked(
    axis: Axis,
    base: CtxView,
    parent: Option<StackedCtxView>,
    td: TransformDefView,
) -> StackedCtxView {
    let axes = spec_stacked_axes(parent, axis);
    StackedCtxView {
        axis,
        base,
        parent: match parent {
            None => None,
            Some(p) => Some(Box::new(p)),
        },
        td,
        axes,
        shape: Seq::new(axes.len(), |k: int| axes[k].dim),
    }
}

impl StackedCtxView {
    /// Construction invariants: a coherent transform, a well-formed base
    /// shared with the parent chain, and axes/shape caches that follow the
    /// construction rule.
    pub open spec fn wf(self) -> bool
        decreases self,
    {
        &&& self.base.wf()
        &&& self.td.rels.len() == self.td.abss.len()
        &&& match self.parent {
            None => self.axes == seq![self.axis],
            Some(p) => {
                &&& p.wf()
                &&& p.base == self.base
                &&& self.axes == spec_stacked_axes(Some(*p), self.axis)
            },
        }
        &&& self.axes.len() >= 1
        &&& self.shape == Seq::new(self.axes.len(), |k: int| self.axes[k].dim)
    }
}

/// The ancestor-plus-self chain of a stacked context, root first.
pub open spec fn spec_chain(s: StackedCtxView) -> Seq<StackedCtxView>
    decreases s,
{
    match s.parent {
        None => seq![s],
        Some(p) => spec_chain(*p).push(s),
    }
}

/// The shift items that the contexts of a chain contribute for one axis at
/// one index, in root-first order; out-of-range access fails.
pub open spec fn spec_fill(ctxs: Seq<StackedCtxView>, ax: Axis, i: int) -> Result<
    Seq<ShiftItemView>,
    PricerErrorView,
>
    decreases ctxs.len(),
{
    if ctxs.len() == 0 {
        Ok(Seq::empty())
    } else {
        match spec_fill(ctxs.drop_last(), ax, i) {
            Err(e) => Err(e),
            Ok(pre) => {
                let c = ctxs.last();
                if c.axis == ax {
                    match spec_shift_item_at(c.td, i) {
                        Err(e) => Err(e),
                        Ok(si) => Ok(pre.push(si)),
                    }
                } else {
                    Ok(pre)
                }
            },
        }
    }
}

/// The stride of axis `k` in a row-major layout: the product of the later
/// dimensions.
pub open spec fn spec_stride(shape: Seq<usize>, k: int) -> int
    decreases shape.len() - k,
{
    if k + 1 >= shape.len() {
        1
    } else {
        shape[k + 1] * spec_stride(shape, k + 1)
    }
}

/// The number of entries of a tensor of this shape.
pub open spec fn spec_total(shape: Seq<usize>) -> int {
    if shape.len() == 0 {
        1
    } else {
        shape[0] * spec_stride(shape, 0)
    }
}

/// The coordinate along axis `k` of the row-major entry `flat`.
pub open spec fn spec_coord(shape: Seq<usize>, flat: int, k: int) -> int {
    (flat / spec_stride(shape, k)) % (shape[k] as int)
}

/// The shift items of the tensor entry `flat`: for each axis in order, the
/// chain's contributions at that axis's coordinate.
pub open spec fn spec_collect_shifts(s: StackedCtxView, flat: int, k: int) -> Result<
    Seq<ShiftItemView>,
    PricerErrorView,
>
    decreases k,
{
    if k <= 0 {
        Ok(Seq::empty())
    } else {
        match spec_collect_shifts(s, flat, k - 1) {
            Err(e) => Err(e),
            Ok(pre) => match spec_fill(
                spec_chain(s),
                s.axes[k - 1],
                spec_coord(s.shape, flat, k - 1),
            ) {
                Err(e) => Err(e),
                Ok(items) => Ok(pre + items),
            },
        }
    }
}

/// The tensor entry `flat`: the measure priced through a fresh shifted
/// executor that carries this coordinate's shift items over the base.
pub open spec fn spec_stacked_entry(
    s: StackedCtxView,
    m: Measure,
    iv: crate::instrument::InstrumentView,
    flat: int,
) -> Result<Expr, PricerErrorView>
    decreases spec_instrument_rank(iv), spec_measure_rank(m), 4int, 0int,
{
    match spec_collect_shifts(s, flat, s.axes.len() as int) {
        Err(e) => Err(e),
        Ok(items) => spec_price(CtxView::Shifted(Box::new(s.base), items), m, iv),
    }
}

/// The first `n` tensor entries in row-major order; the first failing
/// coordinate aborts the whole tensor.
pub open spec fn spec_stacked_upto(
    s: StackedCtxView,
    m: Measure,
    iv: crate::instrument::InstrumentView,
    n: int,
) -> Result<Seq<Expr>, PricerErrorView>
    decreases spec_instrument_rank(iv), spec_measure_rank(m), 5int, n,
{
    if n <= 0 {
        Ok(Seq::empty())
    } else {
        match spec_stacked_upto(s, m, iv, n - 1) {
            Err(e) => Err(e),
            Ok(pre) => match spec_stacked_entry(s, m, iv, n - 1) {
                Err(e) => Err(e),
                Ok(e) => Ok(pre.push(e)),
            },
        }
    }
}

/// A failing prefix decides the whole fill.
proof fn lemma_fill_extend_err(ctxs: Seq<StackedCtxView>, ax: Axis, i: int, k: int)
    requires
        0 <= k <= ctxs.len(),
        spec_fill(ctxs.take(k), ax, i) is Err,
    ensures
        spec_fill(ctxs, ax, i) == spec_fill(ctxs.take(k), ax, i),
    decreases ctxs.len(),
{
    if k == ctxs.len() {
        assert(ctxs.take(k) =~= ctxs);
    } else {
        assert(ctxs.drop_last() =~= ctxs.take(ctxs.len() - 1));
        assert(ctxs.take(ctxs.len() - 1).take(k) =~= ctxs.take(k));
        lemma_fill_extend_err(ctxs.take(ctxs.len() - 1), ax, i, k);
    }
}

/// A failing prefix of axes decides the whole collection.
proof fn lemma_collect_extend_err(s: StackedCtxView, flat: int, k: int, n: int)
    requires
        0 <= k <= n,
        spec_collect_shifts(s, flat, k) is Err,
    ensures
        spec_collect_shifts(s, flat, n) == spec_collect_shifts(s, flat, k),
    decreases n,
{
    if k < n {
        lemma_collect_extend_err(s, flat, k, n - 1);
    }
}

/// A failing coordinate decides the whole tensor.
proof fn lemma_upto_extend_err(
    s: StackedCtxView,
    m: Measure,
    iv: crate::instrument::InstrumentView,
    k: int,
    n: int,
)
    requires
        0 <= k <= n,
        spec_stacked_upto(s, m, iv, k) is Err,
    ensures
        spec_stacked_upto(s, m, iv, n) == spec_stacked_upto(s, m, iv, k),
    decreases n,
{
    if k < n {
        lemma_upto_extend_err(s, m, iv, k, n - 1);
    }
}

/// A dimension of zero empties the tensor.
proof fn lemma_total_zero(shape: Seq<usize>, j: int)
    requires
        0 <= j < shape.len(),
        shape[j] == 0,
    ensures
        spec_total(shape) == 0,
{
    lemma_stride_zero(shape, 0, j);
    if j == 0 {
        assert(spec_total(shape) == shape[0] * spec_stride(shape, 0));
    } else {
        assert(spec_stride(shape, 0) == 0);
    }
}

/// A zero dimension beyond `k` zeroes the stride at `k`.
proof fn lemma_stride_zero(shape: Seq<usize>, k: int, j: int)
    requires
        0 <= k <= j < shape.len(),
        shape[j] == 0,
    ensures
        k < j ==> spec_stride(shape, k) == 0,
    decreases j - k,
{
    if k < j {
        lemma_stride_zero(shape, k + 1, j);
        if k + 1 == j {
            assert(spec_stride(shape, k) == shape[k + 1] * spec_stride(shape, k + 1));
        } else {
            assert(spec_stride(shape, k) == shape[k + 1] * spec_stride(shape, k + 1));
        }
    }
}

/// With every dimension positive, each stride is positive and divides into
/// the total without exceeding it.
proof fn lemma_stride_bounds(shape: Seq<usize>, k: int)
    requires
        0 <= k < shape.len(),
        forall|j: int| 0 <= j < shape.len() ==> shape[j] >= 1,
    ensures
        1 <= spec_stride(shape, k),
        shape[k] * spec_stride(shape, k) <= spec_total(shape),
    decreases shape.len() - k,
{
    if k + 1 >= shape.len() {
        assert(spec_stride(shape, k) == 1);
    } else {
        lemma_stride_bounds(shape, k + 1);
        assert(spec_stride(shape, k) == shape[k + 1] * spec_stride(shape, k + 1));
        assert(spec_stride(shape, k) >= 1) by (nonlinear_arith)
            requires
                spec_stride(shape, k) == shape[k + 1] * spec_stride(shape, k + 1),
                shape[k + 1] >= 1,
                spec_stride(shape, k + 1) >= 1,
        ;
    }
    lemma_prefix_total(shape, k);
}

/// The product of the first `k` dimensions.
spec fn spec_prefix_product(shape: Seq<usize>, k: int) -> int
    decreases k,
{
    if k <= 0 {
        1
    } else {
        spec_prefix_product(shape, k - 1) * shape[k - 1]
    }
}

/// The total factors as any prefix product times the stride before it.
proof fn lemma_prefix_total(shape: Seq<usize>, k: int)
    requires
        0 <= k < shape.len(),
        forall|j: int| 0 <= j < shape.len() ==> shape[j] >= 1,
    ensures
        spec_total(shape) == spec_prefix_product(shape, k) * (shape[k] * spec_stride(shape, k)),
        spec_prefix_product(shape, k) >= 1,
        shape[k] * spec_stride(shape, k) <= spec_total(shape),
    decreases k,
{
    if k == 0 {
        assert(spec_prefix_product(shape, 0) == 1);
        assert(spec_total(shape) == shape[0] * spec_stride(shape, 0));
    } else {
        lemma_prefix_total(shape, k - 1);
        assert(spec_stride(shape, k - 1) == shape[k] * spec_stride(shape, k));
        assert(spec_total(shape) == spec_prefix_product(shape, k - 1) * (shape[k - 1] * (shape[k]
            * spec_stride(shape, k)))) by (nonlinear_arith)
            requires
                spec_total(shape) == spec_prefix_product(shape, k - 1) * (shape[k - 1]
                    * spec_stride(shape, k - 1)),
                spec_stride(shape, k - 1) == shape[k] * spec_stride(shape, k),
        ;
        assert(spec_prefix_product(shape, k) == spec_prefix_product(shape, k - 1) * shape[k - 1]);
        assert(spec_prefix_product(shape, k) >= 1) by (nonlinear_arith)
            requires
                spec_prefix_product(shape, k) == spec_prefix_product(shape, k - 1) * shape[k - 1],
                spec_prefix_product(shape, k - 1) >= 1,
                shape[k - 1] >= 1,
        ;
        assert(spec_total(shape) == spec_prefix_product(shape, k) * (shape[k] * spec_stride(
            shape,
            k,
        ))) by (nonlinear_arith)
            requires
                spec_total(shape) == spec_prefix_product(shape, k - 1) * (shape[k - 1] * (shape[k]
                    * spec_stride(shape, k))),
                spec_prefix_product(shape, k) == spec_prefix_product(shape, k - 1) * shape[k - 1],
        ;
    }
    let pk = spec_prefix_product(shape, k);
    let rest = shape[k] * spec_stride(shape, k);
    lemma_stride_pos(shape, k);
    assert(rest >= 1) by (nonlinear_arith)
        requires
            rest == shape[k] * spec_stride(shape, k),
            shape[k] >= 1,
            spec_stride(shape, k) >= 1,
    ;
    assert(rest <= pk * rest) by (nonlinear_arith)
        requires
            pk >= 1,
            rest >= 0,
    ;
}

/// With every dimension positive, every stride is positive.
proof fn lemma_stride_pos(shape: Seq<usize>, k: int)
    requires
        0 <= k < shape.len(),
        forall|j: int| 0 <= j < shape.len() ==> shape[j] >= 1,
    ensures
        spec_stride(shape, k) >= 1,
    decreases shape.len() - k,
{
    if k + 1 >= shape.len() {
    } else {
        lemma_stride_pos(shape, k + 1);
        assert(spec_stride(shape, k) >= 1) by (nonlinear_arith)
            requires
                spec_stride(shape, k) == shape[k + 1] * spec_stride(shape, k + 1),
                shape[k + 1] >= 1,
                spec_stride(shape, k + 1) >= 1,
        ;
    }
}

/// A recursive composition of scenario transforms, evaluated across the
/// Cartesian product of its coordinates.
pub struct StackedVectorizedPricingCtx {
    pub axis: Axis,
    pub base_ctx: PricingCtx,
    pub parent: Option<Box<StackedVectorizedPricingCtx>>,
    pub transform_def: TransformDefinition,
    pub axes: Vec<Axis>,
    pub shape: Vec<usize>,
}

/// The view of a stacked context.
pub open spec fn spec_stacked_view(s: StackedVectorizedPricingCtx) -> StackedCtxView
    decreases s,
{
    StackedCtxView {
        axis: s.axis,
        base: s.base_ctx@,
        parent: match s.parent {
            None => None,
            Some(p) => Some(Box::new(spec_stacked_view(*p))),
        },
        td: s.transform_def@,
        axes: s.axes@,
        shape: s.shape@,
    }
}

impl View for StackedVectorizedPricingCtx {
    type V = StackedCtxView;

    open spec fn view(&self) -> StackedCtxView {
        spec_stacked_view(*self)
    }
}

impl Clone for StackedVectorizedPricingCtx {
    fn clone(&self) -> (r: StackedVectorizedPricingCtx)
        ensures
            r@ == self@,
        decreases *self,
    {
        let parent = match &self.parent {
            None => None,
            Some(p) => Some(Box::new((**p).clone())),
        };
        StackedVectorizedPricingCtx {
            axis: self.axis,
            base_ctx: self.base_ctx.clone(),
            parent,
            transform_def: self.transform_def.clone(),
            axes: crate::copy_vec(&self.axes),
            shape: crate::copy_vec(&self.shape),
        }
    }
}

impl StackedVectorizedPricingCtx {
    pub fn new(
        axis: Axis,
        base_ctx: &PricingCtx,
        parent: Option<&StackedVectorizedPricingCtx>,
        transform_def: TransformDefinition,
    ) -> (r: Self)
        requires
            base_ctx@.wf(),
            transform_def.wf(),
            match parent {
                Some(p) => p@.wf() && p@.base == base_ctx@,
                None => true,
            },
        ensures
            r@ == spec_new_stacked(
                axis,
                base_ctx@,
                match parent {
                    Some(p) => Some(p@),
                    None => None,
                },
                transform_def@,
            ),
            r@.wf(),
    {
        let mut axes: Vec<Axis> = match parent {
            Some(p) => crate::copy_vec(&p.axes),
            None => Vec::new(),
        };
        if axes.len() > 0 && axes[axes.len() - 1] == axis {
        } else {
            axes.push(axis);
        }
        let mut shape: Vec<usize> = Vec::new();
        let mut k: usize = 0;
        while k < axes.len()
            invariant
                0 <= k <= axes@.len(),
                shape@.len() == k,
                forall|j: int| 0 <= j < k ==> shape@[j] == axes@[j].dim,
            decreases axes@.len() - k,
        {
            shape.push(axes[k].dim);
            k += 1;
        }
        let parent_owned = match parent {
            Some(p) => Some(Box::new(p.clone())),
            None => None,
        };
        let r = StackedVectorizedPricingCtx {
            axis,
            base_ctx: base_ctx.clone(),
            parent: parent_owned,
            transform_def,
            axes,
            shape,
        };
        proof {
            let pv = match parent {
                Some(p) => Some(p@),
                None => None,
            };
            assert(r@.axes =~= spec_stacked_axes(pv, axis));
            assert(r@.shape =~= Seq::new(r@.axes.len(), |j: int| r@.axes[j].dim));
            match parent {
                Some(p) => {
                    assert(p@.axes.len() >= 1);
                },
                None => {
                    assert(r@.axes =~= seq![axis]);
                },
            }
        }
        r
    }

    /// Wraps a base context in a root stacked context with axis 0.
    pub fn shift_base_ctx(ctx: &PricingCtx, transform_def: TransformDefinition) -> (r: Self)
        requires
            ctx@.wf(),
            transform_def.wf(),
        ensures
            r@ == spec_new_stacked(
                Axis { axis_id: 0, dim: transform_def@.rels.len() as usize },
                ctx@,
                None,
                transform_def@,
            ),
            r@.wf(),
    {
        let axis = Axis::new_base_axis(transform_def.len());
        StackedVectorizedPricingCtx::new(axis, ctx, None, transform_def)
    }

    /// Composes a further transform: `Orthogonal` opens a new axis,
    /// `Stacked` reuses the parent's.
    pub fn shift_vector_ctx(
        ctx: &StackedVectorizedPricingCtx,
        transform_def: TransformDefinition,
        alignment: TransformAlignment,
    ) -> (r: Self)
        requires
            ctx@.wf(),
            transform_def.wf(),
            ctx@.axis.axis_id < usize::MAX,
        ensures
            r@ == spec_new_stacked(
                match alignment {
                    TransformAlignment::Stacked => ctx@.axis,
                    TransformAlignment::Orthogonal => Axis {
                        axis_id: (ctx@.axis.axis_id + 1) as usize,
                        dim: transform_def@.rels.len() as usize,
                    },
                },
                ctx@.base,
                Some(ctx@),
                transform_def@,
            ),
            r@.wf(),
    {
        let axis = match alignment {
            TransformAlignment::Stacked => ctx.axis(),
            TransformAlignment::Orthogonal => Axis::new_from_parent(
                ctx.axis(),
                transform_def.len(),
            ),
        };
        StackedVectorizedPricingCtx::new(axis, &ctx.base_ctx, Some(ctx), transform_def)
    }

    /// Collects the ancestor-plus-self contexts, root first.
    fn fill_ctx_vec<'a>(&'a self, v: &mut Vec<&'a StackedVectorizedPricingCtx>)
        ensures
            final(v)@.len() == old(v)@.len() + spec_chain(self@).len(),
            forall|k: int| 0 <= k < old(v)@.len() ==> final(v)@[k] == old(v)@[k],
            forall|k: int| #![all_triggers] 0 <= k < spec_chain(self@).len() ==> final(v)@[old(
                v,
            )@.len() + k]@ == spec_chain(self@)[k],
        decreases *self,
    {
        if let Some(p) = &self.parent {
            p.fill_ctx_vec(v);
        }
        v.push(self);
    }

    fn ctx_vec<'a>(&'a self) -> (r: Vec<&'a StackedVectorizedPricingCtx>)
        ensures
            r@.len() == spec_chain(self@).len(),
            forall|k: int| #![all_triggers] 0 <= k < spec_chain(self@).len() ==> r@[k]@
                == spec_chain(self@)[k],
    {
        let mut v: Vec<&StackedVectorizedPricingCtx> = Vec::new();
        self.fill_ctx_vec(&mut v);
        v
    }

    /// Appends each chain context's contribution for one axis at one index.
    fn fill_shift_item_vec(
        ctxs: &Vec<&StackedVectorizedPricingCtx>,
        ax: Axis,
        i: usize,
        v: &mut Vec<ShiftItem>,
        Ghost(chain): Ghost<Seq<StackedCtxView>>,
    ) -> (r: Result<(), PricerError>)
        requires
            chain.len() == ctxs@.len(),
            forall|k: int| #![all_triggers] 0 <= k < ctxs@.len() ==> ctxs@[k]@ == chain[k],
            forall|k: int| #![all_triggers] 0 <= k < chain.len() ==> chain[k].td.rels.len()
                == chain[k].td.abss.len(),
        ensures
            match spec_fill(chain, ax, i as int) {
                Ok(items) => r is Ok && spec_items_view(final(v)@) == spec_items_view(old(v)@)
                    + items,
                Err(e) => r matches Err(pe) && pe@ == e,
            },
    {
        let ghost items0 = spec_items_view(old(v)@);
        let mut k: usize = 0;
        proof {
            assert(chain.take(0) =~= Seq::<StackedCtxView>::empty());
            assert(spec_items_view(v@) =~= items0 + Seq::<ShiftItemView>::empty());
        }
        while k < ctxs.len()
            invariant
                0 <= k <= ctxs@.len(),
                chain.len() == ctxs@.len(),
                forall|j: int| #![all_triggers] 0 <= j < ctxs@.len() ==> ctxs@[j]@ == chain[j],
                forall|j: int| #![all_triggers] 0 <= j < chain.len() ==> chain[j].td.rels.len()
                    == chain[j].td.abss.len(),
                items0 == spec_items_view(old(v)@),
                spec_fill(chain.take(k as int), ax, i as int) matches Ok(items)
                    && spec_items_view(v@) == items0 + items,
            decreases ctxs@.len() - k,
        {
            let ghost pre = spec_fill(chain.take(k as int), ax, i as int)->Ok_0;
            proof {
                assert(chain.take(k + 1).drop_last() =~= chain.take(k as int));
                assert(chain.take(k + 1).last() == chain[k as int]);
            }
            let ctx = ctxs[k];
            if ctx.axis == ax {
                match ctx.transform_def.shift_item_at(i) {
                    Ok(si) => {
                        let ghost vpre = v@;
                        v.push(si);
                        proof {
                            assert(v@ =~= vpre.push(si));
                            assert(spec_items_view(vpre) == items0 + pre);
                            assert(spec_items_view(vpre).len() == vpre.len());
                            assert(vpre.len() == items0.len() + pre.len());
                            assert forall|j: int| 0 <= j < v@.len() implies spec_items_view(v@)[j]
                                == (items0 + pre.push(si@))[j] by {
                                assert(spec_items_view(v@)[j] == v@[j]@);
                                if j < vpre.len() {
                                    assert(v@[j] == vpre[j]);
                                    assert(spec_items_view(vpre)[j] == vpre[j]@);
                                    if j < items0.len() {
                                        assert((items0 + pre)[j] == items0[j]);
                                        assert((items0 + pre.push(si@))[j] == items0[j]);
                                    } else {
                                        assert((items0 + pre)[j] == pre[j - items0.len()]);
                                        assert(pre.push(si@)[j - items0.len()] == pre[j
                                            - items0.len()]);
                                        assert((items0 + pre.push(si@))[j] == pre.push(si@)[j
                                            - items0.len()]);
                                    }
                                } else {
                                    assert(j == vpre.len());
                                    assert(v@[j] == si);
                                    assert(pre.push(si@)[j - items0.len()] == si@);
                                    assert((items0 + pre.push(si@))[j] == si@);
                                }
                            }
                            assert(spec_items_view(v@) =~= items0 + pre.push(si@));
                        }
                    },
                    Err(e) => {
                        proof {
                            lemma_fill_extend_err(chain, ax, i as int, k + 1);
                        }
                        return Err(e);
                    },
                }
            }
            k += 1;
        }
        proof {
            assert(chain.take(chain.len() as int) =~= chain);
        }
        Ok(())
    }

    pub fn axes(&self) -> (r: &Vec<Axis>)
        ensures
            r@ == self@.axes,
    {
        &self.axes
    }

    pub fn shape(&self) -> (r: &Vec<usize>)
        ensures
            r@ == self@.shape,
    {
        &self.shape
    }

    pub fn axis(&self) -> (r: Axis)
        ensures
            r == self@.axis,
    {
        self.axis
    }

    /// Evaluates a measure across all coordinates into a tensor of the
    /// context's shape, row-major; the first failing coordinate aborts.
    pub fn price(&self, measure: Measure, instrument: &Instrument) -> (r: Result<
        VectorResult,
        PricerError,
    >)
        requires
            self@.wf(),
            instrument@.wf(),
            spec_total(self@.shape) <= usize::MAX,
        ensures
            match spec_stacked_upto(self@, measure, instrument@, spec_total(self@.shape)) {
                Ok(vals) => r matches Ok(vr) && vr.shape@ == self@.shape && vr.values@ == vals,
                Err(e) => r matches Err(pe) && pe@ == e,
            },
    decreases spec_instrument_rank(instrument@), spec_measure_rank(measure), 5int,
    {
        let ghost sv = self@;
        proof {
            assert(sv.axes.len() == sv.shape.len());
        }
        let n = self.shape.len();
        let mut j: usize = 0;
        while j < n
            invariant
                0 <= j <= n,
                n == sv.shape.len(),
                sv == self@,
                self@.wf(),
                forall|q: int| 0 <= q < j ==> sv.shape[q] >= 1,
            decreases n - j,
        {
            if self.shape[j] == 0 {
                proof {
                    lemma_total_zero(sv.shape, j as int);
                }
                return Ok(VectorResult::new(crate::copy_vec(&self.shape), Vec::new()));
            }
            j += 1;
        }
        assert(forall|q: int| 0 <= q < sv.shape.len() ==> sv.shape[q] >= 1);
        // row-major strides, from the last axis inwards
        let mut strides: Vec<usize> = Vec::new();
        let mut back: usize = 0;
        while back < n
            invariant
                0 <= back <= n,
                n == sv.shape.len(),
                sv == self@,
                self@.wf(),
                spec_total(sv.shape) <= usize::MAX,
                forall|q: int| 0 <= q < sv.shape.len() ==> sv.shape[q] >= 1,
                strides@.len() == back,
                forall|q: int| #![all_triggers] 0 <= q < back ==> strides@[q] == spec_stride(
                    sv.shape,
                    n - 1 - q,
                ),
            decreases n - back,
        {
            let k = n - 1 - back;
            proof {
                lemma_stride_bounds(sv.shape, k as int);
            }
            let s: usize = if back == 0 {
                1
            } else {
                proof {
                    if k + 1 < n {
                        lemma_stride_bounds(sv.shape, k as int);
                    }
                }
                let prev = strides[back - 1];
                assert(prev == spec_stride(sv.shape, k + 1));
                assert(sv.shape[k as int] * spec_stride(sv.shape, k as int) <= spec_total(
                    sv.shape,
                ));
                assert(spec_stride(sv.shape, k as int) == sv.shape[k + 1] * spec_stride(
                    sv.shape,
                    k + 1,
                ));
                assert(spec_stride(sv.shape, k as int) <= spec_total(sv.shape)) by (
                nonlinear_arith)
                    requires
                        sv.shape[k as int] >= 1,
                        spec_stride(sv.shape, k as int) >= 1,
                        sv.shape[k as int] * spec_stride(sv.shape, k as int) <= spec_total(
                            sv.shape,
                        ),
                ;
                self.shape[k + 1] * prev
            };
            strides.push(s);
            back += 1;
        }
        // reverse into axis order
        let mut strides_fwd: Vec<usize> = Vec::new();
        let mut q: usize = 0;
        while q < n
            invariant
                0 <= q <= n,
                n == sv.shape.len(),
                strides@.len() == n,
                forall|t: int| #![all_triggers] 0 <= t < n ==> strides@[t] == spec_stride(
                    sv.shape,
                    n - 1 - t,
                ),
                strides_fwd@.len() == q,
                forall|t: int| #![all_triggers] 0 <= t < q ==> strides_fwd@[t] == spec_stride(
                    sv.shape,
                    t,
                ),
            decreases n - q,
        {
            strides_fwd.push(strides[n - 1 - q]);
            q += 1;
        }
        proof {
            lemma_stride_bounds(sv.shape, 0);
        }
        let total: usize = self.shape[0] * strides_fwd[0];
        assert(total == spec_total(sv.shape));
        let ctxv = self.ctx_vec();
        let ghost chain = spec_chain(sv);
        proof {
            lemma_chain_wf(sv);
        }
        let mut values: Vec<Expr> = Vec::new();
        let mut flat: usize = 0;
        while flat < total
            invariant
                0 <= flat <= total,
                n == sv.shape.len(),
                sv == self@,
                self@.wf(),
                instrument@.wf(),
                total == spec_total(sv.shape),
                forall|t: int| 0 <= t < sv.shape.len() ==> sv.shape[t] >= 1,
                strides_fwd@.len() == n,
                forall|t: int| #![all_triggers] 0 <= t < n ==> strides_fwd@[t] == spec_stride(
                    sv.shape,
                    t,
                ),
                ctxv@.len() == chain.len(),
                chain == spec_chain(sv),
                forall|t: int| #![all_triggers] 0 <= t < chain.len() ==> ctxv@[t]@ == chain[t],
                forall|t: int| #![all_triggers] 0 <= t < chain.len() ==> chain[t].td.rels.len()
                    == chain[t].td.abss.len(),
                sv.axes.len() == n,
                spec_stacked_upto(sv, measure, instrument@, flat as int) matches Ok(vals)
                    && values@ == vals,
            decreases total - flat,
        {
            let mut shifts: Vec<ShiftItem> = Vec::new();
            let mut ak: usize = 0;
            proof {
                assert(spec_items_view(shifts@) =~= Seq::<ShiftItemView>::empty());
                assert(spec_collect_shifts(sv, flat as int, 0) == Ok::<_, PricerErrorView>(
                    Seq::<ShiftItemView>::empty(),
                ));
            }
            while ak < n
                invariant
                    0 <= ak <= n,
                    n == sv.shape.len(),
                    sv == self@,
                    self@.wf(),
                    0 <= flat < total,
                    total == spec_total(sv.shape),
                    forall|t: int| 0 <= t < sv.shape.len() ==> sv.shape[t] >= 1,
                    strides_fwd@.len() == n,
                    forall|t: int| #![all_triggers] 0 <= t < n ==> strides_fwd@[t] == spec_stride(
                        sv.shape,
                        t,
                    ),
                    ctxv@.len() == chain.len(),
                    chain == spec_chain(sv),
                    forall|t: int| #![all_triggers] 0 <= t < chain.len() ==> ctxv@[t]@ == chain[t],
                    forall|t: int| #![all_triggers] 0 <= t < chain.len() ==> chain[t].td.rels.len()
                        == chain[t].td.abss.len(),
                    sv.axes.len() == n,
                    instrument@.wf(),
                    spec_stacked_upto(sv, measure, instrument@, flat as int) matches Ok(vals)
                        && values@ == vals,
                    spec_collect_shifts(sv, flat as int, ak as int) matches Ok(items)
                        && spec_items_view(shifts@) == items,
                decreases n - ak,
            {
                proof {
                    lemma_stride_bounds(sv.shape, ak as int);
                }
                let idx: usize = (flat / strides_fwd[ak]) % self.shape[ak];
                assert(idx == spec_coord(sv.shape, flat as int, ak as int));
                assert(sv.axes[ak as int].dim == sv.shape[ak as int]);
                match Self::fill_shift_item_vec(
                    &ctxv,
                    self.axes[ak],
                    idx,
                    &mut shifts,
                    Ghost(chain),
                ) {
                    Ok(_) => {},
                    Err(e) => {
                        proof {
                            reveal_with_fuel(spec_stacked_upto, 2);
                            lemma_collect_extend_err(
                                sv,
                                flat as int,
                                ak + 1,
                                sv.axes.len() as int,
                            );
                            lemma_upto_extend_err(
                                sv,
                                measure,
                                instrument@,
                                flat + 1,
                                total as int,
                            );
                        }
                        return Err(e);
                    },
                }
                ak += 1;
            }
            let sliced_ctx = PricingCtx::ShiftedExecutor(
                ShiftedExecutor::new(&self.base_ctx, shifts),
            );
            proof {
                assert(sliced_ctx@ == CtxView::Shifted(
                    Box::new(sv.base),
                    spec_collect_shifts(sv, flat as int, sv.axes.len() as int)->Ok_0,
                ));
                lemma_base_wf(sv);
            }
            let x = match sliced_ctx.price(measure, instrument) {
                Ok(x) => x,
                Err(e) => {
                    proof {
                        reveal_with_fuel(spec_stacked_upto, 2);
                        lemma_upto_extend_err(sv, measure, instrument@, flat + 1, total as int);
                    }
                    return Err(e);
                },
            };
            values.push(x);
            proof {
                reveal_with_fuel(spec_stacked_upto, 2);
            }
            flat += 1;
        }
        Ok(VectorResult::new(crate::copy_vec(&self.shape), values))
    }

    /// Evaluates a measure for a position: the instrument tensor with every
    /// entry rescaled by the position size under the measure's scaling
    /// policy.
    pub fn price_position(&self, measure: Measure, position: &Position) -> (r: Result<
        VectorResult,
        PricerError,
    >)
        requires
            self@.wf(),
            position.instrument@.wf(),
            spec_total(self@.shape) <= usize::MAX,
        ensures
            match spec_stacked_upto(
                self@,
                measure,
                position.instrument@,
                spec_total(self@.shape),
            ) {
                Ok(vals) => r matches Ok(vr) && vr.shape@ == self@.shape && vr.values@.len()
                    == vals.len() && (forall|k: int| #![all_triggers] 0 <= k < vals.len()
                    ==> vr.values@[k] == spec_scaled(measure, position.size, vals[k])),
                Err(e) => r matches Err(pe) && pe@ == e,
            },
    {
        let vectorres = match self.price(measure, &position.instrument) {
            Ok(v) => v,
            Err(e) => {
                return Err(e);
            },
        };
        let position_scaler = PositionScaler::new(measure, position);
        let ghost vals0 = vectorres.values@;
        let mut scaled: Vec<Expr> = Vec::new();
        let mut k: usize = 0;
        while k < vectorres.values.len()
            invariant
                0 <= k <= vectorres.values@.len(),
                vectorres.values@ == vals0,
                position_scaler.measure == measure,
                position_scaler.position == position,
                scaled@.len() == k,
                forall|j: int| #![all_triggers] 0 <= j < k ==> scaled@[j] == spec_scaled(
                    measure,
                    position.size,
                    vals0[j],
                ),
            decreases vectorres.values@.len() - k,
        {
            let e = vectorres.values[k].clone();
            scaled.push(position_scaler.scale(e));
            k += 1;
        }
        Ok(VectorResult::new(vectorres.shape, scaled))
    }
}

/// A successful tensor holds one entry per coordinate.
pub proof fn lemma_upto_len(
    s: StackedCtxView,
    m: Measure,
    iv: crate::instrument::InstrumentView,
    n: int,
)
    requires
        n >= 0,
        spec_stacked_upto(s, m, iv, n) is Ok,
    ensures
        spec_stacked_upto(s, m, iv, n)->Ok_0.len() == n,
    decreases n,
{
    if n > 0 {
        lemma_upto_len(s, m, iv, n - 1);
    }
}

/// A tensor never has negatively many entries.
pub proof fn lemma_total_nonneg(shape: Seq<usize>)
    ensures
        spec_total(shape) >= 0,
{
    if shape.len() > 0 {
        lemma_stride_nonneg(shape, 0);
        assert(shape[0] * spec_stride(shape, 0) >= 0) by (nonlinear_arith)
            requires
                shape[0] >= 0,
                spec_stride(shape, 0) >= 0,
        ;
    }
}

/// Strides are never negative.
pub proof fn lemma_stride_nonneg(shape: Seq<usize>, k: int)
    ensures
        spec_stride(shape, k) >= 0,
    decreases shape.len() - k,
{
    if k + 1 < shape.len() {
        lemma_stride_nonneg(shape, k + 1);
        assert(shape[k + 1] * spec_stride(shape, k + 1) >= 0) by (nonlinear_arith)
            requires
                shape[k + 1] >= 0,
                spec_stride(shape, k + 1) >= 0,
        ;
    }
}

/// Every context of a well-formed chain has a coherent transform.
proof fn lemma_chain_wf(s: StackedCtxView)
    requires
        s.wf(),
    ensures
        forall|k: int| #![all_triggers] 0 <= k < spec_chain(s).len()
            ==> spec_chain(s)[k].td.rels.len() == spec_chain(s)[k].td.abss.len(),
    decreases s,
{
    match s.parent {
        None => {},
        Some(p) => {
            lemma_chain_wf(*p);
        },
    }
}

/// The base of a well-formed stacked context is well-formed.
proof fn lemma_base_wf(s: StackedCtxView)
    requires
        s.wf(),
    ensures
        s.base.wf(),
{
}

} // verus!
