use vstd::prelude::*;

use crate::goods::{kind_in_slot, label_of, GoodKind, GOOD_COUNT};
use crate::goods::{lemma_slots_are_a_bijection, slot_of};
use crate::market::{is_split_of, split_slot, MARKET_COUNT, SELL};
use crate::table::GoodTable;

verus! {

/// The word that names operation `op`: the sell operation is "Sell", any other "Buy".
pub open spec fn side_label_of(op: usize) -> Seq<char> {
    if op == SELL {
        "Sell"@
    } else {
        "Buy"@
    }
}

/// The word that names operation `op`.
pub fn side_label(op: usize) -> (s: &'static str)
    ensures
        s@ == side_label_of(op),
{
    if op == SELL {
        "Sell"
    } else {
        "Buy"
    }
}

/// The title of the price plot of good `gk` in operation `op`, such as "Sell USD".
pub fn panel_title(op: usize, gk: GoodKind) -> (t: String)
    ensures
        t@ == side_label_of(op) + " "@ + label_of(gk),
{
    let mut t = side_label(op).to_owned();
    t.append(" ");
    t.append(gk.label());
    t
}

/// The id of the widgets of the price panel of good `gk` in operation `op`
/// in the UI description, such as "SellUSD".
pub fn panel_id(op: usize, gk: GoodKind) -> (t: String)
    ensures
        t@ == side_label_of(op) + label_of(gk),
{
    let mut t = side_label(op).to_owned();
    t.append(gk.label());
    t
}

/// The id of the button of the price panel of good `gk` in operation `op`,
/// such as "SellUSDbtn".
pub fn button_id(op: usize, gk: GoodKind) -> (t: String)
    ensures
        t@ == side_label_of(op) + label_of(gk) + "btn"@,
{
    let mut t = panel_id(op, gk);
    t.append("btn");
    t
}

/// The name of the price series of good `gk` in operation `op`, such as "Sell price USD".
pub fn price_label(op: usize, gk: GoodKind) -> (t: String)
    ensures
        t@ == side_label_of(op) + " price "@ + label_of(gk),
{
    let mut t = side_label(op).to_owned();
    t.append(" price ");
    t.append(gk.label());
    t
}

/// `v` names the liquidity series of a market in slot order.
pub open spec fn is_liquidity_legend(v: Seq<String>) -> bool {
    &&& v.len() == GOOD_COUNT
    &&& forall|k: int| 0 <= k < GOOD_COUNT ==> (#[trigger] v[k])@ == label_of(kind_in_slot(k))
}

/// The legend of the liquidity plot: one name per liquidity series, in slot order.
pub fn liquidity_labels() -> (v: Vec<String>)
    ensures
        is_liquidity_legend(v@),
{
    let mut v: Vec<String> = Vec::new();
    let mut k: usize = 0;
    while k < GOOD_COUNT
        invariant
            k <= GOOD_COUNT,
            v@.len() == k,
            forall|j: int| 0 <= j < k ==> (#[trigger] v@[j])@ == label_of(kind_in_slot(j)),
        decreases GOOD_COUNT - k,
    {
        let gk = GoodKind::in_slot(k);
        v.push(gk.label().to_owned());
        k = k + 1;
    }
    v
}

/// The legend of the liquidity plot names the series beside it: in every
/// market, the series at position `k` of the split is the liquidity of the
/// good that the legend names at position `k`.
pub proof fn lemma_legend_names_split_series<T: Clone>(
    data: Seq<Vec<GoodTable<Vec<T>>>>,
    liq: Seq<Vec<Vec<T>>>,
    legend: Seq<String>,
    m: int,
    k: int,
)
    requires
        is_split_of(data, liq),
        is_liquidity_legend(legend),
        0 <= m < MARKET_COUNT,
        0 <= k < GOOD_COUNT,
    ensures
        ({
            let gk = kind_in_slot(k);
            &&& legend[k]@ == label_of(gk)
            &&& split_slot(data, m, gk, liq[m]@[k]@)
        }),
{
    let gk = kind_in_slot(k);
    lemma_slots_are_a_bijection(gk, k);
    assert(slot_of(gk) == k);
    assert(split_slot(data, m, gk, liq[m]@[slot_of(gk) as int]@));
}

/// Operation zero is named "Sell" and every other operation "Buy".
pub proof fn lemma_side_names(op: usize)
    ensures
        op == 0 ==> side_label_of(op) == seq!['S', 'e', 'l', 'l'],
        op != 0 ==> side_label_of(op) == seq!['B', 'u', 'y'],
{
    reveal_strlit("Sell");
    reveal_strlit("Buy");
    assert("Sell"@ =~= seq!['S', 'e', 'l', 'l']);
    assert("Buy"@ =~= seq!['B', 'u', 'y']);
}

} // verus!
