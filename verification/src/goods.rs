use vstd::prelude::*;

verus! {

/// The goods that a market quotes.
#[derive(Clone, Copy, Debug, PartialEq, Eq, Structural, Hash)]
pub enum GoodKind {
    USD,
    YEN,
    YUAN,
    EUR,
}

/// How many goods there are, and so how many liquidity series a market has.
pub const GOOD_COUNT: usize = 4;

/// Position of a good among the liquidity series of a market.
pub open spec fn slot_of(gk: GoodKind) -> nat {
    match gk {
        GoodKind::USD => 0,
        GoodKind::YEN => 1,
        GoodKind::YUAN => 2,
        GoodKind::EUR => 3,
    }
}

/// The good whose liquidity series stands at position `slot` (meaningful for `slot < 4`).
pub open spec fn kind_in_slot(slot: int) -> GoodKind {
    if slot == 0 {
        GoodKind::USD
    } else if slot == 1 {
        GoodKind::YEN
    } else if slot == 2 {
        GoodKind::YUAN
    } else {
        GoodKind::EUR
    }
}

/// The name under which a good is shown.
pub open spec fn label_of(gk: GoodKind) -> Seq<char> {
    match gk {
        GoodKind::USD => "USD"@,
        GoodKind::YEN => "YEN"@,
        GoodKind::YUAN => "YUAN"@,
        GoodKind::EUR => "EUR"@,
    }
}

/// The goods whose buy and sell prices are plotted, in the order of the panels.
pub open spec fn price_kinds_spec() -> Seq<GoodKind> {
    seq![GoodKind::USD, GoodKind::YEN, GoodKind::YUAN]
}

impl GoodKind {
    /// Index of this good among the liquidity series of a market.
    pub fn slot(&self) -> (i: usize)
        ensures
            i == slot_of(*self),
    {
        match self {
            GoodKind::USD => 0,
            GoodKind::YEN => 1,
            GoodKind::YUAN => 2,
            GoodKind::EUR => 3,
        }
    }

    /// The good whose liquidity series stands at position `slot`.
    pub fn in_slot(slot: usize) -> (gk: GoodKind)
        requires
            slot < GOOD_COUNT,
        ensures
            gk == kind_in_slot(slot as int),
    {
        if slot == 0 {
            GoodKind::USD
        } else if slot == 1 {
            GoodKind::YEN
        } else if slot == 2 {
            GoodKind::YUAN
        } else {
            GoodKind::EUR
        }
    }

    /// The name under which this good is shown ("USD", "YEN", "YUAN", "EUR").
    pub fn label(&self) -> (s: &'static str)
        ensures
            s@ == label_of(*self),
    {
        match self {
            GoodKind::USD => "USD",
            GoodKind::YEN => "YEN",
            GoodKind::YUAN => "YUAN",
            GoodKind::EUR => "EUR",
        }
    }
}

/// The goods whose buy and sell prices are plotted (every good but EUR), in panel order.
pub fn price_kinds() -> (v: Vec<GoodKind>)
    ensures
        v@ == price_kinds_spec(),
{
    let v = vec![GoodKind::USD, GoodKind::YEN, GoodKind::YUAN];
    assert(v@ =~= price_kinds_spec());
    v
}

/// Every good has exactly one liquidity slot, and every slot below four holds exactly one good.
pub proof fn lemma_slots_are_a_bijection(gk: GoodKind, slot: int)
    ensures
        slot_of(gk) < GOOD_COUNT,
        kind_in_slot(slot_of(gk) as int) == gk,
        0 <= slot < GOOD_COUNT ==> slot_of(kind_in_slot(slot)) == slot,
{
}

/// The liquidity series of a market come in the order USD, YEN, YUAN, EUR,
/// and the goods are shown under their own names.
pub proof fn lemma_slot_order_and_names(gk: GoodKind)
    ensures
        gk == GoodKind::USD ==> slot_of(gk) == 0 && label_of(gk) == seq!['U', 'S', 'D'],
        gk == GoodKind::YEN ==> slot_of(gk) == 1 && label_of(gk) == seq!['Y', 'E', 'N'],
        gk == GoodKind::YUAN ==> slot_of(gk) == 2 && label_of(gk) == seq!['Y', 'U', 'A', 'N'],
        gk == GoodKind::EUR ==> slot_of(gk) == 3 && label_of(gk) == seq!['E', 'U', 'R'],
        price_kinds_spec() == seq![GoodKind::USD, GoodKind::YEN, GoodKind::YUAN],
{
    reveal_strlit("USD");
    reveal_strlit("YEN");
    reveal_strlit("YUAN");
    reveal_strlit("EUR");
    assert("USD"@ =~= seq!['U', 'S', 'D']);
    assert("YEN"@ =~= seq!['Y', 'E', 'N']);
    assert("YUAN"@ =~= seq!['Y', 'U', 'A', 'N']);
    assert("EUR"@ =~= seq!['E', 'U', 'R']);
}

} // verus!
