use vstd::prelude::*;

use crate::goods::{kind_in_slot, lemma_slots_are_a_bijection, slot_of, GoodKind, GOOD_COUNT};
use crate::table::GoodTable;

verus! {

/// How many markets are plotted.
pub const MARKET_COUNT: usize = 3;

/// Operation index of the sell prices of a market.
pub const SELL: usize = 0;

/// Operation index of the buy prices of a market.
pub const BUY: usize = 1;

/// Operation index of the liquidity of a market.
pub const LIQUIDITY: usize = 2;

/// `dst` is an element-by-element clone of `src`.
pub open spec fn is_clone_of<T: Clone>(src: Seq<T>, dst: Seq<T>) -> bool {
    &&& dst.len() == src.len()
    &&& forall|j: int| 0 <= j < src.len() ==> cloned(#[trigger] src[j], dst[j])
}

/// Whether market `m` of the data has a liquidity table holding a series for `gk`.
pub open spec fn has_liquidity<V>(data: Seq<Vec<GoodTable<V>>>, m: int, gk: GoodKind) -> bool {
    &&& 0 <= m < data.len()
    &&& LIQUIDITY < data[m]@.len()
    &&& data[m]@[LIQUIDITY as int]@.contains_key(gk)
}

/// What the split holds for good `gk` of market `m`: a clone of the liquidity
/// series that the data holds for it, or an empty series where it holds none.
pub open spec fn split_slot<T: Clone>(
    data: Seq<Vec<GoodTable<Vec<T>>>>,
    m: int,
    gk: GoodKind,
    out: Seq<T>,
) -> bool {
    if has_liquidity(data, m, gk) {
        is_clone_of(data[m]@[LIQUIDITY as int]@[gk]@, out)
    } else {
        out.len() == 0
    }
}

/// `liq` is the grid of liquidity series of `data`: three rows of four
/// series, the series of good `gk` of market `m` standing in row `m` at the
/// slot of `gk`.
pub open spec fn is_split_of<T: Clone>(data: Seq<Vec<GoodTable<Vec<T>>>>, liq: Seq<Vec<Vec<T>>>) -> bool {
    &&& liq.len() == MARKET_COUNT
    &&& forall|m: int| 0 <= m < MARKET_COUNT ==> (#[trigger] liq[m])@.len() == GOOD_COUNT
    &&& forall|m: int, gk: GoodKind|
        0 <= m < MARKET_COUNT ==> split_slot(data, m, gk, #[trigger] liq[m]@[slot_of(gk) as int]@)
}

/// The input that the split accepts: every market has sell, buy and
/// liquidity tables, and the markets past the third have nothing in their
/// liquidity table (the grid has no row for them).
pub open spec fn splittable<V>(data: Seq<Vec<GoodTable<V>>>) -> bool {
    forall|m: int|
        0 <= m < data.len() ==> {
            &&& LIQUIDITY < (#[trigger] data[m])@.len()
            &&& m >= MARKET_COUNT ==> data[m]@[LIQUIDITY as int]@ == Map::<GoodKind, V>::empty()
        }
}

/// Rearranges the liquidity tables of the markets into a grid of series:
/// one row per market (always three), and in each row one series per good
/// (always four), in slot order. A good that a market has no liquidity
/// series for, and a market that the data does not have, get empty series;
/// markets past the third, whose liquidity tables are empty, are left out.
pub fn data_split<T: Clone>(data: &Vec<Vec<GoodTable<Vec<T>>>>) -> (liq: Vec<Vec<Vec<T>>>)
    requires
        splittable(data@),
    ensures
        is_split_of(data@, liq@),
{
    let mut liq: Vec<Vec<Vec<T>>> = Vec::new();
    let mut m: usize = 0;
    while m < MARKET_COUNT
        invariant
            m <= MARKET_COUNT,
            splittable(data@),
            liq@.len() == m,
            forall|i: int| 0 <= i < m ==> (#[trigger] liq@[i])@.len() == GOOD_COUNT,
            forall|i: int, k: int|
                0 <= i < m && 0 <= k < GOOD_COUNT ==> split_slot(data@, i, kind_in_slot(k), #[trigger] liq@[i]@[k]@),
        decreases MARKET_COUNT - m,
    {
        let mut row: Vec<Vec<T>> = Vec::new();
        let mut k: usize = 0;
        while k < GOOD_COUNT
            invariant
                k <= GOOD_COUNT,
                m < MARKET_COUNT,
                splittable(data@),
                row@.len() == k,
                forall|j: int| 0 <= j < k ==> split_slot(data@, m as int, kind_in_slot(j), #[trigger] row@[j]@),
            decreases GOOD_COUNT - k,
        {
            let gk = GoodKind::in_slot(k);
            let mut series: Vec<T> = Vec::new();
            if m < data.len() {
                let tables = &data[m];
                if let Some(v) = tables[LIQUIDITY].get(gk) {
                    series = v.clone();
                }
            }
            row.push(series);
            k = k + 1;
        }
        liq.push(row);
        m = m + 1;
    }
    assert forall|i: int, gk: GoodKind|
        0 <= i < MARKET_COUNT implies split_slot(data@, i, gk, #[trigger] liq@[i]@[slot_of(gk) as int]@) by {
        lemma_slots_are_a_bijection(gk, 0);
    }
    liq
}

/// The split reads nothing but the liquidity tables: two inputs whose
/// liquidity tables hold the same series (however those tables were filled,
/// and whatever their sell and buy tables hold) have the same splits.
pub proof fn lemma_split_reads_only_liquidity<T: Clone>(
    data: Seq<Vec<GoodTable<Vec<T>>>>,
    other: Seq<Vec<GoodTable<Vec<T>>>>,
    liq: Seq<Vec<Vec<T>>>,
)
    requires
        data.len() == other.len(),
        forall|m: int|
            0 <= m < data.len() ==> (LIQUIDITY < (#[trigger] data[m])@.len() <==> LIQUIDITY < other[m]@.len()),
        forall|m: int|
            0 <= m < data.len() && LIQUIDITY < (#[trigger] data[m])@.len() ==> data[m]@[LIQUIDITY as int]@
                == other[m]@[LIQUIDITY as int]@,
    ensures
        is_split_of(data, liq) <==> is_split_of(other, liq),
{
    assert forall|m: int, gk: GoodKind, out: Seq<T>|
        0 <= m < MARKET_COUNT implies #[trigger] split_slot(data, m, gk, out) == split_slot(other, m, gk, out) by {
        if 0 <= m < data.len() {
            assert(LIQUIDITY < data[m]@.len() <==> LIQUIDITY < other[m]@.len());
        }
    }
}

/// Cloning an element of type `T` always gives back an equal value.
pub open spec fn clone_is_exact<T: Clone>() -> bool {
    forall|x: T, y: T| #[trigger] cloned(x, y) ==> x == y
}

/// For elements whose clones are equal to the original, the split is fully
/// determined: any two splits of the same data hold the same series.
pub proof fn lemma_split_determined<T: Clone>(
    data: Seq<Vec<GoodTable<Vec<T>>>>,
    a: Seq<Vec<Vec<T>>>,
    b: Seq<Vec<Vec<T>>>,
)
    requires
        clone_is_exact::<T>(),
        is_split_of(data, a),
        is_split_of(data, b),
    ensures
        forall|m: int, k: int| 0 <= m < MARKET_COUNT && 0 <= k < GOOD_COUNT ==> (#[trigger] a[m]@[k])@ == b[m]@[k]@,
{
    assert forall|m: int, k: int| 0 <= m < MARKET_COUNT && 0 <= k < GOOD_COUNT implies (#[trigger] a[m]@[k])@
        == b[m]@[k]@ by {
        let gk = kind_in_slot(k);
        lemma_slots_are_a_bijection(gk, k);
        assert(split_slot(data, m, gk, a[m]@[slot_of(gk) as int]@));
        assert(split_slot(data, m, gk, b[m]@[slot_of(gk) as int]@));
        if has_liquidity(data, m, gk) {
            let src = data[m]@[LIQUIDITY as int]@[gk]@;
            assert forall|j: int| 0 <= j < src.len() implies a[m]@[k]@[j] == b[m]@[k]@[j] by {
                assert(cloned(src[j], a[m]@[k]@[j]));
                assert(cloned(src[j], b[m]@[k]@[j]));
            }
        }
        assert(a[m]@[k]@ =~= b[m]@[k]@);
    }
}

/// For elements whose clones are equal to the original, two inputs whose
/// liquidity tables hold the same series are split into the same grid,
/// whatever their sell and buy tables hold and in whatever order their
/// tables were filled.
pub proof fn lemma_same_liquidity_same_split<T: Clone>(
    data: Seq<Vec<GoodTable<Vec<T>>>>,
    other: Seq<Vec<GoodTable<Vec<T>>>>,
    a: Seq<Vec<Vec<T>>>,
    b: Seq<Vec<Vec<T>>>,
)
    requires
        clone_is_exact::<T>(),
        data.len() == other.len(),
        forall|m: int|
            0 <= m < data.len() ==> (LIQUIDITY < (#[trigger] data[m])@.len() <==> LIQUIDITY < other[m]@.len()),
        forall|m: int|
            0 <= m < data.len() && LIQUIDITY < (#[trigger] data[m])@.len() ==> data[m]@[LIQUIDITY as int]@
                == other[m]@[LIQUIDITY as int]@,
        is_split_of(data, a),
        is_split_of(other, b),
    ensures
        a.len() == b.len(),
        forall|m: int| 0 <= m < MARKET_COUNT ==> (#[trigger] a[m])@.len() == b[m]@.len(),
        forall|m: int, k: int| 0 <= m < MARKET_COUNT && 0 <= k < GOOD_COUNT ==> (#[trigger] a[m]@[k])@ == b[m]@[k]@,
{
    lemma_split_reads_only_liquidity(data, other, b);
    lemma_split_determined(data, a, b);
}

/// Every cell of the split is built from the stored liquidity series alone:
/// where market `m` holds a liquidity series for `gk`, the cell at row `m`,
/// slot of `gk`, has as many points, and its point `j` is a clone of the
/// stored point `j` (same order, nothing dropped or added); where it holds
/// none, the cell is empty.
pub proof fn lemma_split_clones_in_order<T: Clone>(
    data: Seq<Vec<GoodTable<Vec<T>>>>,
    liq: Seq<Vec<Vec<T>>>,
    m: int,
    gk: GoodKind,
)
    requires
        is_split_of(data, liq),
        0 <= m < MARKET_COUNT,
    ensures
        ({
            let cell = liq[m]@[slot_of(gk) as int]@;
            if m < data.len() && LIQUIDITY < data[m]@.len() && data[m]@[LIQUIDITY as int]@.contains_key(gk) {
                let stored = data[m]@[LIQUIDITY as int]@[gk]@;
                &&& cell.len() == stored.len()
                &&& forall|j: int| 0 <= j < stored.len() ==> cloned(#[trigger] stored[j], cell[j])
            } else {
                cell.len() == 0
            }
        }),
{
    assert(split_slot(data, m, gk, liq[m]@[slot_of(gk) as int]@));
}

/// For elements whose clones are equal to the original (such as `u64`), the
/// cell of the split at row `m`, slot of `gk`, is exactly the liquidity series
/// that market `m` holds for `gk`, point for point in the same order, and it is
/// empty where the market holds none.
pub proof fn lemma_split_copies_series<T: Clone>(
    data: Seq<Vec<GoodTable<Vec<T>>>>,
    liq: Seq<Vec<Vec<T>>>,
    m: int,
    gk: GoodKind,
)
    requires
        clone_is_exact::<T>(),
        is_split_of(data, liq),
        0 <= m < MARKET_COUNT,
    ensures
        (m < data.len() && LIQUIDITY < data[m]@.len() && data[m]@[LIQUIDITY as int]@.contains_key(gk))
            ==> liq[m]@[slot_of(gk) as int]@ == data[m]@[LIQUIDITY as int]@[gk]@,
        !(m < data.len() && LIQUIDITY < data[m]@.len() && data[m]@[LIQUIDITY as int]@.contains_key(gk))
            ==> liq[m]@[slot_of(gk) as int]@ == Seq::<T>::empty(),
{
    lemma_split_clones_in_order(data, liq, m, gk);
    let cell = liq[m]@[slot_of(gk) as int]@;
    if m < data.len() && LIQUIDITY < data[m]@.len() && data[m]@[LIQUIDITY as int]@.contains_key(gk) {
        let stored = data[m]@[LIQUIDITY as int]@[gk]@;
        assert forall|j: int| 0 <= j < stored.len() implies cell[j] == stored[j] by {
            assert(cloned(stored[j], cell[j]));
        }
        assert(cell =~= stored);
    } else {
        assert(cell =~= Seq::<T>::empty());
    }
}

/// The split accepts any data whose markets each have at least three tables
/// and whose markets from the fourth on hold no liquidity, whatever the first
/// three markets hold; it refuses data with a market of fewer than three
/// tables, and data with liquidity in a market past the third.
pub proof fn lemma_splittable_inputs<V>(data: Seq<Vec<GoodTable<V>>>)
    ensures
        ((forall|m: int| 0 <= m < data.len() ==> 3 <= (#[trigger] data[m])@.len())
            && (forall|m: int| 3 <= m < data.len() ==> (#[trigger] data[m])@[2]@.dom() =~= Set::<GoodKind>::empty()))
            ==> splittable(data),
        forall|m: int| 0 <= m < data.len() && (#[trigger] data[m])@.len() < 3 ==> !splittable(data),
        forall|m: int, gk: GoodKind|
            3 <= m < data.len() && 2 < data[m]@.len() && #[trigger] data[m]@[2]@.contains_key(gk) ==> !splittable(data),
{
    if (forall|m: int| 0 <= m < data.len() ==> 3 <= (#[trigger] data[m])@.len())
        && (forall|m: int| 3 <= m < data.len() ==> (#[trigger] data[m])@[2]@.dom() =~= Set::<GoodKind>::empty()) {
        assert forall|m: int| 3 <= m < data.len() implies (#[trigger] data[m])@[2]@ == Map::<GoodKind, V>::empty() by {
            assert(data[m]@[2]@.dom() =~= Set::<GoodKind>::empty());
            assert(data[m]@[2]@ =~= Map::<GoodKind, V>::empty());
        }
    }
    assert forall|m: int, gk: GoodKind|
        3 <= m < data.len() && 2 < data[m]@.len() && #[trigger] data[m]@[2]@.contains_key(gk) implies !splittable(data) by {
        if splittable(data) {
            assert(data[m]@[2]@ == Map::<GoodKind, V>::empty());
        }
    }
}

/// Cloning a `u64` gives back the same number.
pub proof fn lemma_u64_clone_is_exact()
    ensures
        clone_is_exact::<u64>(),
{
}

/// Whether the split accepts `data` (see [`splittable`]).
pub fn is_splittable<V>(data: &Vec<Vec<GoodTable<V>>>) -> (b: bool)
    ensures
        b == splittable(data@),
{
    let mut m: usize = 0;
    while m < data.len()
        invariant
            m <= data@.len(),
            forall|i: int|
                0 <= i < m ==> {
                    &&& LIQUIDITY < (#[trigger] data@[i])@.len()
                    &&& i >= MARKET_COUNT ==> data@[i]@[LIQUIDITY as int]@ == Map::<GoodKind, V>::empty()
                },
        decreases data@.len() - m,
    {
        let tables = &data[m];
        if tables.len() <= LIQUIDITY {
            return false;
        }
        if m >= MARKET_COUNT && !tables[LIQUIDITY].is_empty() {
            return false;
        }
        m = m + 1;
    }
    true
}

/// The value that the data holds for good `gk` in operation `op` of market `market`.
pub open spec fn holds<V>(data: Seq<Vec<GoodTable<V>>>, market: int, op: int, gk: GoodKind) -> bool {
    &&& 0 <= market < data.len()
    &&& 0 <= op < data[market]@.len()
    &&& data[market]@[op]@.contains_key(gk)
}

/// Looks up the series of good `gk` in operation `op` (sell, buy or liquidity) of market `market`.
pub fn series_of<V>(data: &Vec<Vec<GoodTable<V>>>, market: usize, op: usize, gk: GoodKind) -> (r: Option<&V>)
    ensures
        r is Some <==> holds(data@, market as int, op as int, gk),
        r matches Some(v) ==> *v == data@[market as int]@[op as int]@[gk],
{
    if market < data.len() {
        let tables = &data[market];
        if op < tables.len() {
            tables[op].get(gk)
        } else {
            None
        }
    } else {
        None
    }
}

/// A series is found exactly where the data has it: for any market index
/// within the data, any operation index within that market's tables, and any
/// good the table holds, and nowhere else.
pub proof fn lemma_series_found_exactly<V>(data: Seq<Vec<GoodTable<V>>>, market: int, op: int, gk: GoodKind)
    ensures
        (0 <= market < data.len() && 0 <= op < data[market]@.len() && data[market]@[op]@.contains_key(gk))
            ==> holds(data, market, op, gk),
        holds(data, market, op, gk) ==> (0 <= market < data.len() && 0 <= op < data[market]@.len()
            && data[market]@[op]@.contains_key(gk)),
{
}

/// The panels are the sell prices of USD, YEN and YUAN, then their buy prices.
pub proof fn lemma_panel_order()
    ensures
        price_panels_spec().len() == 6,
        forall|i: int| 0 <= i < 3 ==> (#[trigger] price_panels_spec()[i]).0 == 0,
        forall|i: int| 3 <= i < 6 ==> (#[trigger] price_panels_spec()[i]).0 == 1,
        forall|i: int| 0 <= i < 6 ==> (#[trigger] price_panels_spec()[i]).1 == kind_in_slot(i % 3),
{
}

/// The price panels of a market, in the order in which they are laid out:
/// the sell prices of USD, YEN and YUAN, then their buy prices.
pub open spec fn price_panels_spec() -> Seq<(usize, GoodKind)> {
    seq![
        (SELL, GoodKind::USD),
        (SELL, GoodKind::YEN),
        (SELL, GoodKind::YUAN),
        (BUY, GoodKind::USD),
        (BUY, GoodKind::YEN),
        (BUY, GoodKind::YUAN),
    ]
}

/// The price panels of a market, each as its operation and good.
pub fn price_panels() -> (v: Vec<(usize, GoodKind)>)
    ensures
        v@ == price_panels_spec(),
{
    let v = vec![
        (SELL, GoodKind::USD),
        (SELL, GoodKind::YEN),
        (SELL, GoodKind::YUAN),
        (BUY, GoodKind::USD),
        (BUY, GoodKind::YEN),
        (BUY, GoodKind::YUAN),
    ];
    assert(v@ =~= price_panels_spec());
    v
}

} // verus!
