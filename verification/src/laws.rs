//! The library's general laws, stated and proved once and for all.
use vstd::prelude::*;

use crate::error::PricerErrorView;
use crate::expr::Expr;
use crate::instrument::InstrumentView;
use crate::pricingctx::{
    spec_apply_shift_items,
    spec_measure_name,
    spec_parse_measure,
    spec_price,
    spec_scaled,
    Axis,
    CtxView,
    Measure,
};
use crate::stackedvectorctx::{
    spec_chain,
    spec_collect_shifts,
    spec_coord,
    spec_fill,
    spec_new_stacked,
    spec_stacked_entry,
    spec_stacked_upto,
    spec_stride,
    StackedCtxView,
};
use crate::transform::{
    spec_accept,
    spec_is_target,
    spec_shift_item_at,
    ShiftItemView,
    TransformDefView,
};

verus! {

/// Measure round-trip: parsing a measure's own name yields the measure
/// back, for every measure.
pub proof fn lemma_measure_roundtrip(m: Measure)
    ensures
        spec_parse_measure(spec_measure_name(m)) == Ok::<Measure, PricerErrorView>(m),
{
    reveal_strlit("price");
    reveal_strlit("exposure");
    reveal_strlit("underlying_price");
    reveal_strlit("vol");
    reveal_strlit("rate");
    reveal_strlit("time_to_expiry");
    reveal_strlit("delta");
    reveal_strlit("gamma");
    assert("price"@.len() == 5);
    assert("exposure"@.len() == 8);
    assert("underlying_price"@.len() == 16);
    assert("vol"@.len() == 3);
    assert("rate"@.len() == 4);
    assert("time_to_expiry"@.len() == 14);
    assert("delta"@.len() == 5);
    assert("gamma"@.len() == 5);
    assert("delta"@[0] == 'd' && "price"@[0] == 'p' && "gamma"@[0] == 'g');
    match m {
        Measure::Price => {
            assert(spec_parse_measure(spec_measure_name(m)) == Ok::<Measure, PricerErrorView>(m));
        },
        Measure::Exposure => {
            assert(spec_parse_measure(spec_measure_name(m)) == Ok::<Measure, PricerErrorView>(m));
        },
        Measure::UnderlyingPrice => {
            assert(spec_parse_measure(spec_measure_name(m)) == Ok::<Measure, PricerErrorView>(m));
        },
        Measure::Vol => {
            assert(spec_parse_measure(spec_measure_name(m)) == Ok::<Measure, PricerErrorView>(m));
        },
        Measure::Rate => {
            assert(spec_parse_measure(spec_measure_name(m)) == Ok::<Measure, PricerErrorView>(m));
        },
        Measure::TimeToExpiry => {
            assert(spec_parse_measure(spec_measure_name(m)) == Ok::<Measure, PricerErrorView>(m));
        },
        Measure::Delta => {
            assert(spec_parse_measure(spec_measure_name(m)) == Ok::<Measure, PricerErrorView>(m));
        },
        Measure::Gamma => {
            assert(spec_parse_measure(spec_measure_name(m)) == Ok::<Measure, PricerErrorView>(m));
        },
    }
}

/// An axes list under the construction rule always ends in the context's
/// own axis.
pub proof fn lemma_axes_end_in_axis(s: StackedCtxView)
    requires
        s.wf(),
    ensures
        s.axes.len() >= 1,
        s.axes.last() == s.axis,
    decreases s,
{
    match s.parent {
        None => {},
        Some(p) => {
            lemma_axes_end_in_axis(*p);
        },
    }
}

/// Shape law: for a stacked context built by any sequence of compositions,
/// the shape is exactly the ordered list of dims of the distinct axes in
/// the axes list — and neighbouring axes are always distinct.
pub proof fn lemma_shape_law(s: StackedCtxView)
    requires
        s.wf(),
    ensures
        s.shape.len() == s.axes.len(),
        forall|k: int| 0 <= k < s.axes.len() ==> s.shape[k] == s.axes[k].dim,
        forall|k: int| 0 <= k < s.axes.len() - 1 ==> #[trigger] s.axes[k] != s.axes[k + 1],
    decreases s,
{
    match s.parent {
        None => {},
        Some(p) => {
            lemma_shape_law(*p);
            lemma_axes_end_in_axis(*p);
        },
    }
}

/// A shift item whose target does not cover the measure, or whose filter
/// does not accept the instrument, leaves shift processing unchanged.
/// Transforms with disjoint targets or disjoint filters therefore act
/// independently at every dispatch point: each one's items are inert
/// wherever the other's apply.
pub proof fn lemma_inert_shift_item(
    items: Seq<ShiftItemView>,
    m: Measure,
    iv: InstrumentView,
    e: Expr,
    si: ShiftItemView,
)
    requires
        !(spec_is_target(si.shift_target, m) && spec_accept(si.instrument_filter, iv)),
    ensures
        spec_apply_shift_items(items.push(si), m, iv, e, items.len() as int + 1) == spec_apply_shift_items(
            items,
            m,
            iv,
            e,
            items.len() as int,
        ),
{
    lemma_apply_prefix_agrees(items.push(si), items, m, iv, e, items.len() as int);
}

/// Applying a shift list only looks at the first `k` items.
proof fn lemma_apply_prefix_agrees(
    a: Seq<ShiftItemView>,
    b: Seq<ShiftItemView>,
    m: Measure,
    iv: InstrumentView,
    e: Expr,
    k: int,
)
    requires
        forall|j: int| 0 <= j < k ==> a[j] == b[j],
    ensures
        spec_apply_shift_items(a, m, iv, e, k) == spec_apply_shift_items(b, m, iv, e, k),
    decreases k,
{
    if k > 0 {
        lemma_apply_prefix_agrees(a, b, m, iv, e, k - 1);
    }
}

/// Stacked superposition: the items contributed for one axis at one index
/// by a context and its ancestors are the ancestors' contributions followed
/// by the context's own — each transform sharing the axis adds its shift at
/// the same coordinate, in composition order.
pub proof fn lemma_stacked_superposition(s: StackedCtxView, ax: Axis, i: int)
    requires
        s.parent is Some,
    ensures
        spec_fill(spec_chain(s), ax, i) == (match spec_fill(
            spec_chain(*s.parent->Some_0),
            ax,
            i,
        ) {
            Err(e) => Err(e),
            Ok(pre) => if s.axis == ax {
                match spec_shift_item_at(s.td, i) {
                    Err(e) => Err(e),
                    Ok(si) => Ok(pre.push(si)),
                }
            } else {
                Ok(pre)
            }
        }),
{
    let p = *s.parent->Some_0;
    assert(spec_chain(s) == spec_chain(p).push(s));
    assert(spec_chain(s).drop_last() =~= spec_chain(p));
    assert(spec_chain(s).last() == s);
}

/// Scaling policy: every measure but exposure is rescaled by the constant
/// one — the result is independent of the position size — while exposure
/// is rescaled by the size itself.
pub proof fn lemma_scaling_policy(m: Measure, size: Expr, e: Expr)
    ensures
        m != Measure::Exposure ==> spec_scaled(m, size, e) == Expr::Mul(
            Box::new(Expr::Num(crate::expr::BITS_ONE)),
            Box::new(e),
        ),
        m == Measure::Exposure ==> spec_scaled(m, size, e) == Expr::Mul(
            Box::new(size),
            Box::new(e),
        ),
{
}

/// Pure passthrough: a root context over one transform prices a measure to
/// a tensor with one entry per shift, and with a passthrough filter and
/// everywhere-identical shifts every entry is the same expression: the
/// dispatched value wrapped once by that shift.
pub proof fn lemma_pure_passthrough(
    base: CtxView,
    td: TransformDefView,
    m: Measure,
    iv: InstrumentView,
    flat: int,
)
    requires
        td.rels.len() == td.abss.len(),
        td.rels.len() <= usize::MAX,
        td.rels.len() >= 1,
        forall|j: int| 0 <= j < td.rels.len() ==> #[trigger] td.rels[j] == td.rels[0],
        forall|j: int| 0 <= j < td.abss.len() ==> #[trigger] td.abss[j] == td.abss[0],
        0 <= flat < td.rels.len(),
    ensures
        ({
            let k = td.rels.len() as usize;
            let s = spec_new_stacked(Axis { axis_id: 0, dim: k }, base, None, td);
            spec_stacked_entry(s, m, iv, flat) == spec_stacked_entry(s, m, iv, 0)
        }),
{
    let k = td.rels.len() as usize;
    let s = spec_new_stacked(Axis { axis_id: 0, dim: k }, base, None, td);
    assert(s.axes =~= seq![Axis { axis_id: 0, dim: k }]);
    assert(s.shape =~= seq![k]);
    lemma_root_entry(base, td, m, iv, flat);
    lemma_root_entry(base, td, m, iv, 0);
}

/// The tensor entry of a one-transform root context at a coordinate: the
/// measure priced under exactly that coordinate's shift item.
pub proof fn lemma_root_entry(
    base: CtxView,
    td: TransformDefView,
    m: Measure,
    iv: InstrumentView,
    flat: int,
)
    requires
        td.rels.len() == td.abss.len(),
        td.rels.len() <= usize::MAX,
        0 <= flat < td.rels.len(),
    ensures
        ({
            let k = td.rels.len() as usize;
            let s = spec_new_stacked(Axis { axis_id: 0, dim: k }, base, None, td);
            spec_stacked_entry(s, m, iv, flat) == spec_price(
                CtxView::Shifted(
                    Box::new(base),
                    seq![
                        ShiftItemView {
                            instrument_filter: td.filter,
                            shift_target: td.target,
                            rel_shift: td.rels[flat],
                            abs_shift: td.abss[flat],
                        },
                    ],
                ),
                m,
                iv,
            )
        }),
{
    let k = td.rels.len() as usize;
    let s = spec_new_stacked(Axis { axis_id: 0, dim: k }, base, None, td);
    reveal_with_fuel(crate::stackedvectorctx::spec_collect_shifts, 2);
    assert(s.axes =~= seq![Axis { axis_id: 0, dim: k }]);
    assert(s.axes[0] == Axis { axis_id: 0, dim: k });
    assert(s.axes.len() == 1);
    assert(s.shape =~= seq![k]);
    assert(spec_chain(s) =~= seq![s]);
    assert(spec_stride(s.shape, 0) == 1);
    assert(spec_coord(s.shape, flat, 0) == flat % (k as int));
    assert(flat % (k as int) == flat) by {
        vstd::arithmetic::div_mod::lemma_small_mod(flat as nat, k as nat);
    }
    assert(spec_fill(spec_chain(s).drop_last(), Axis { axis_id: 0, dim: k }, flat)
        == Ok::<Seq<ShiftItemView>, PricerErrorView>(Seq::empty())) by {
        assert(spec_chain(s).drop_last() =~= Seq::<StackedCtxView>::empty());
    }
    let item = ShiftItemView {
        instrument_filter: td.filter,
        shift_target: td.target,
        rel_shift: td.rels[flat],
        abs_shift: td.abss[flat],
    };
    assert(spec_fill(spec_chain(s), Axis { axis_id: 0, dim: k }, flat) == Ok::<
        Seq<ShiftItemView>,
        PricerErrorView,
    >(Seq::empty().push(item)));
    assert(Seq::<ShiftItemView>::empty() + Seq::empty().push(item) =~= Seq::empty().push(
        item,
    ));
    assert(spec_collect_shifts(s, flat, 1) == Ok::<Seq<ShiftItemView>, PricerErrorView>(
        Seq::empty().push(item),
    ));
    assert(Seq::empty().push(item) =~= seq![item]);
}


/// Orthogonal decomposition: in a two-transform orthogonal composition,
/// the tensor entry at row `i` and column `j` carries exactly the first
/// transform's shift at `i` followed by the second's at `j`.  Together with
/// `lemma_inert_shift_item`, transforms that target disjoint measures or
/// disjoint filters therefore act independently coordinate by coordinate.
pub proof fn lemma_orthogonal_coordinates(
    base: CtxView,
    td1: TransformDefView,
    td2: TransformDefView,
    a0: Axis,
    a1: Axis,
    i: int,
    j: int,
)
    requires
        td1.rels.len() == td1.abss.len(),
        td2.rels.len() == td2.abss.len(),
        a0.dim == td1.rels.len(),
        a1.dim == td2.rels.len(),
        a0 != a1,
        0 <= i < td1.rels.len(),
        0 <= j < td2.rels.len(),
    ensures
        ({
            let parent = spec_new_stacked(a0, base, None, td1);
            let child = spec_new_stacked(a1, base, Some(parent), td2);
            let item1 = ShiftItemView {
                instrument_filter: td1.filter,
                shift_target: td1.target,
                rel_shift: td1.rels[i],
                abs_shift: td1.abss[i],
            };
            let item2 = ShiftItemView {
                instrument_filter: td2.filter,
                shift_target: td2.target,
                rel_shift: td2.rels[j],
                abs_shift: td2.abss[j],
            };
            spec_collect_shifts(child, i * (a1.dim as int) + j, 2) == Ok::<
                Seq<ShiftItemView>,
                PricerErrorView,
            >(seq![item1, item2])
        }),
{
    let parent = spec_new_stacked(a0, base, None, td1);
    let child = spec_new_stacked(a1, base, Some(parent), td2);
    let d1 = a1.dim as int;
    let flat = i * d1 + j;
    let item1 = ShiftItemView {
        instrument_filter: td1.filter,
        shift_target: td1.target,
        rel_shift: td1.rels[i],
        abs_shift: td1.abss[i],
    };
    let item2 = ShiftItemView {
        instrument_filter: td2.filter,
        shift_target: td2.target,
        rel_shift: td2.rels[j],
        abs_shift: td2.abss[j],
    };
    assert(parent.axes =~= seq![a0]);
    assert(child.axes =~= seq![a0, a1]);
    assert(child.shape =~= seq![a0.dim, a1.dim]);
    assert(spec_chain(parent) =~= seq![parent]);
    assert(spec_chain(child) =~= seq![parent, child]);
    // the row-major coordinates of `flat` are (i, j)
    assert(spec_stride(child.shape, 1) == 1);
    assert(spec_stride(child.shape, 0) == d1);
    assert(flat / d1 == i && flat % d1 == j) by {
        vstd::arithmetic::div_mod::lemma_fundamental_div_mod_converse(flat, d1, i, j);
    }
    assert(spec_coord(child.shape, flat, 0) == i % (a0.dim as int));
    assert(i % (a0.dim as int) == i) by {
        vstd::arithmetic::div_mod::lemma_small_mod(i as nat, a0.dim as nat);
    }
    assert(spec_coord(child.shape, flat, 1) == (flat / 1) % d1);
    assert(flat / 1 == flat) by {
        vstd::arithmetic::div_mod::lemma_div_basics(flat);
    }
    // axis 0: only the first transform contributes, at index i
    reveal_with_fuel(spec_fill, 3);
    let chain = spec_chain(child);
    assert(chain.drop_last() =~= seq![parent]);
    assert(seq![parent].drop_last() =~= Seq::<StackedCtxView>::empty());
    assert(spec_fill(seq![parent], a0, i) == Ok::<Seq<ShiftItemView>, PricerErrorView>(
        Seq::empty().push(item1),
    ));
    assert(spec_fill(chain, a0, i) == Ok::<Seq<ShiftItemView>, PricerErrorView>(
        Seq::empty().push(item1),
    ));
    // axis 1: only the second transform contributes, at index j
    assert(spec_fill(seq![parent], a1, j) == Ok::<Seq<ShiftItemView>, PricerErrorView>(
        Seq::empty(),
    ));
    assert(spec_fill(chain, a1, j) == Ok::<Seq<ShiftItemView>, PricerErrorView>(
        Seq::empty().push(item2),
    ));
    reveal_with_fuel(spec_collect_shifts, 3);
    assert(spec_collect_shifts(child, flat, 0) == Ok::<Seq<ShiftItemView>, PricerErrorView>(
        Seq::empty(),
    ));
    assert(spec_collect_shifts(child, flat, 1) == Ok::<Seq<ShiftItemView>, PricerErrorView>(
        Seq::empty() + Seq::empty().push(item1),
    ));
    assert(Seq::<ShiftItemView>::empty() + Seq::empty().push(item1) =~= seq![item1]);
    assert(spec_collect_shifts(child, flat, 2) == Ok::<Seq<ShiftItemView>, PricerErrorView>(
        seq![item1] + Seq::empty().push(item2),
    ));
    assert(seq![item1] + Seq::empty().push(item2) =~= seq![item1, item2]);
}


/// Stacked decomposition: when a second transform reuses the parent's
/// axis, the tensor stays one-dimensional and the entry at index `i`
/// carries both transforms' shifts at that same index, in composition
/// order — the superposed scenario.
pub proof fn lemma_stacked_coordinates(
    base: CtxView,
    td1: TransformDefView,
    td2: TransformDefView,
    a0: Axis,
    i: int,
)
    requires
        td1.rels.len() == td1.abss.len(),
        td2.rels.len() == td2.abss.len(),
        a0.dim == td1.rels.len(),
        0 <= i < td1.rels.len(),
        i < td2.rels.len(),
    ensures
        ({
            let parent = spec_new_stacked(a0, base, None, td1);
            let child = spec_new_stacked(a0, base, Some(parent), td2);
            let item1 = ShiftItemView {
                instrument_filter: td1.filter,
                shift_target: td1.target,
                rel_shift: td1.rels[i],
                abs_shift: td1.abss[i],
            };
            let item2 = ShiftItemView {
                instrument_filter: td2.filter,
                shift_target: td2.target,
                rel_shift: td2.rels[i],
                abs_shift: td2.abss[i],
            };
            child.shape == seq![a0.dim] && spec_collect_shifts(child, i, 1) == Ok::<
                Seq<ShiftItemView>,
                PricerErrorView,
            >(seq![item1, item2])
        }),
{
    let parent = spec_new_stacked(a0, base, None, td1);
    let child = spec_new_stacked(a0, base, Some(parent), td2);
    let item1 = ShiftItemView {
        instrument_filter: td1.filter,
        shift_target: td1.target,
        rel_shift: td1.rels[i],
        abs_shift: td1.abss[i],
    };
    let item2 = ShiftItemView {
        instrument_filter: td2.filter,
        shift_target: td2.target,
        rel_shift: td2.rels[i],
        abs_shift: td2.abss[i],
    };
    assert(parent.axes =~= seq![a0]);
    assert(child.axes =~= seq![a0]);
    assert(child.shape =~= seq![a0.dim]);
    assert(spec_chain(parent) =~= seq![parent]);
    assert(spec_chain(child) =~= seq![parent, child]);
    assert(spec_stride(child.shape, 0) == 1);
    assert(spec_coord(child.shape, i, 0) == (i / 1) % (a0.dim as int));
    assert(i / 1 == i) by {
        vstd::arithmetic::div_mod::lemma_div_basics(i);
    }
    assert(i % (a0.dim as int) == i) by {
        vstd::arithmetic::div_mod::lemma_small_mod(i as nat, a0.dim as nat);
    }
    reveal_with_fuel(spec_fill, 3);
    let chain = spec_chain(child);
    assert(chain.drop_last() =~= seq![parent]);
    assert(seq![parent].drop_last() =~= Seq::<StackedCtxView>::empty());
    assert(spec_fill(seq![parent], a0, i) == Ok::<Seq<ShiftItemView>, PricerErrorView>(
        Seq::empty().push(item1),
    ));
    assert(spec_fill(chain, a0, i) == Ok::<Seq<ShiftItemView>, PricerErrorView>(
        Seq::empty().push(item1).push(item2),
    ));
    reveal_with_fuel(spec_collect_shifts, 2);
    assert(spec_collect_shifts(child, i, 0) == Ok::<Seq<ShiftItemView>, PricerErrorView>(
        Seq::empty(),
    ));
    assert(spec_collect_shifts(child, i, 1) == Ok::<Seq<ShiftItemView>, PricerErrorView>(
        Seq::empty() + Seq::empty().push(item1).push(item2),
    ));
    assert(Seq::<ShiftItemView>::empty() + Seq::empty().push(item1).push(item2) =~= seq![
        item1,
        item2,
    ]);
}


/// Each entry of a successful tensor is its own coordinate's evaluation:
/// the measure priced through a fresh shifted executor for that coordinate.
pub proof fn lemma_tensor_entries(
    s: StackedCtxView,
    m: Measure,
    iv: InstrumentView,
    n: int,
    t: int,
)
    requires
        spec_stacked_upto(s, m, iv, n) is Ok,
        0 <= t < n,
    ensures
        spec_stacked_entry(s, m, iv, t) is Ok,
        spec_stacked_upto(s, m, iv, n)->Ok_0[t] == spec_stacked_entry(s, m, iv, t)->Ok_0,
    decreases n,
{
    crate::stackedvectorctx::lemma_upto_len(s, m, iv, n);
    if t < n - 1 {
        lemma_tensor_entries(s, m, iv, n - 1, t);
        crate::stackedvectorctx::lemma_upto_len(s, m, iv, n - 1);
    }
}

} // verus!
