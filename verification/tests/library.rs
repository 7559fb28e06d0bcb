use market_view::goods::{price_kinds, GoodKind, GOOD_COUNT};
use market_view::labels::{button_id, liquidity_labels, panel_id, panel_title, price_label, side_label};
use market_view::market::{data_split, is_splittable, price_panels, series_of, BUY, LIQUIDITY, MARKET_COUNT, SELL};
use market_view::table::GoodTable;
use market_view::window::{candle_size, RangeControl, ScaleFix, Settled};

fn market(sell: &[(GoodKind, Vec<u64>)], buy: &[(GoodKind, Vec<u64>)], liq: &[(GoodKind, Vec<u64>)]) -> Vec<GoodTable<Vec<u64>>> {
    let mut tables = Vec::new();
    for entries in [sell, buy, liq] {
        let mut t = GoodTable::new();
        for (gk, v) in entries.iter() {
            t.insert(*gk, v.clone());
        }
        tables.push(t);
    }
    tables
}

#[test]
fn slots_follow_liquidity_order() {
    assert_eq!(GoodKind::USD.slot(), 0);
    assert_eq!(GoodKind::YEN.slot(), 1);
    assert_eq!(GoodKind::YUAN.slot(), 2);
    assert_eq!(GoodKind::EUR.slot(), 3);
    for k in 0..GOOD_COUNT {
        assert_eq!(GoodKind::in_slot(k).slot(), k);
    }
}

#[test]
fn goods_have_their_names() {
    assert_eq!(GoodKind::USD.label(), "USD");
    assert_eq!(GoodKind::YEN.label(), "YEN");
    assert_eq!(GoodKind::YUAN.label(), "YUAN");
    assert_eq!(GoodKind::EUR.label(), "EUR");
    assert_eq!(format!("{:?}", GoodKind::YUAN), GoodKind::YUAN.label());
}

#[test]
fn price_kinds_leave_out_eur() {
    assert_eq!(price_kinds(), vec![GoodKind::USD, GoodKind::YEN, GoodKind::YUAN]);
}

#[test]
fn table_reads_back_what_was_written() {
    let mut t: GoodTable<u64> = GoodTable::new();
    assert_eq!(t.get(GoodKind::USD), None);
    assert!(!t.contains_key(GoodKind::EUR));
    assert_eq!(t.insert(GoodKind::USD, 7), None);
    assert_eq!(t.insert(GoodKind::EUR, 9), None);
    assert_eq!(t.get(GoodKind::USD), Some(&7));
    assert_eq!(t.get(GoodKind::EUR), Some(&9));
    assert_eq!(t.get(GoodKind::YEN), None);
    assert_eq!(t.insert(GoodKind::USD, 8), Some(7));
    assert_eq!(t.get(GoodKind::USD), Some(&8));
    assert_eq!(t.get(GoodKind::EUR), Some(&9));
    assert!(t.contains_key(GoodKind::EUR));
    assert!(!t.contains_key(GoodKind::YUAN));
}

#[test]
fn split_places_each_liquidity_series_in_its_slot() {
    let data = vec![
        market(&[], &[], &[(GoodKind::EUR, vec![4, 4]), (GoodKind::USD, vec![1]), (GoodKind::YEN, vec![2, 2, 2])]),
        market(&[(GoodKind::USD, vec![99])], &[], &[(GoodKind::YUAN, vec![3])]),
    ];
    let liq = data_split(&data);
    assert_eq!(liq.len(), MARKET_COUNT);
    for row in liq.iter() {
        assert_eq!(row.len(), GOOD_COUNT);
    }
    assert_eq!(liq[0], vec![vec![1], vec![2, 2, 2], vec![], vec![4, 4]]);
    assert_eq!(liq[1], vec![vec![], vec![], vec![3], vec![]]);
    // the data has no third market: its row is empty
    assert_eq!(liq[2], vec![Vec::<u64>::new(), vec![], vec![], vec![]]);
}

#[test]
fn split_leaves_out_markets_past_the_third() {
    let data = vec![
        market(&[], &[], &[(GoodKind::USD, vec![1])]),
        market(&[], &[], &[]),
        market(&[], &[], &[(GoodKind::EUR, vec![3])]),
        market(&[(GoodKind::USD, vec![7])], &[], &[]),
        market(&[], &[(GoodKind::YEN, vec![8])], &[]),
    ];
    let liq = data_split(&data);
    assert_eq!(liq.len(), 3);
    assert_eq!(liq[0], vec![vec![1], vec![], vec![], vec![]]);
    assert_eq!(liq[1], vec![Vec::<u64>::new(), vec![], vec![], vec![]]);
    assert_eq!(liq[2], vec![vec![], vec![], vec![], vec![3]]);
}

#[test]
fn split_ignores_write_order() {
    let a = vec![market(&[], &[], &[(GoodKind::YEN, vec![2]), (GoodKind::USD, vec![1]), (GoodKind::EUR, vec![4])])];
    let b = vec![market(&[], &[], &[(GoodKind::EUR, vec![4]), (GoodKind::USD, vec![1]), (GoodKind::YEN, vec![2])])];
    assert_eq!(data_split(&a), data_split(&b));
}

#[test]
fn table_emptiness() {
    let mut t: GoodTable<u64> = GoodTable::new();
    assert!(t.is_empty());
    t.insert(GoodKind::YUAN, 1);
    assert!(!t.is_empty());
}

#[test]
fn split_of_no_markets_is_all_empty() {
    let data: Vec<Vec<GoodTable<Vec<u64>>>> = Vec::new();
    let liq = data_split(&data);
    assert_eq!(liq.len(), 3);
    assert!(liq.iter().all(|row| row.len() == 4 && row.iter().all(|s| s.is_empty())));
}

#[test]
fn split_reads_only_liquidity() {
    let data = vec![market(&[(GoodKind::USD, vec![5])], &[(GoodKind::USD, vec![6])], &[])];
    let liq = data_split(&data);
    assert!(liq[0].iter().all(|s| s.is_empty()));
}

#[test]
fn series_lookup() {
    let data = vec![market(&[(GoodKind::USD, vec![5, 6])], &[(GoodKind::YEN, vec![7])], &[(GoodKind::EUR, vec![8])])];
    assert_eq!(series_of(&data, 0, SELL, GoodKind::USD), Some(&vec![5, 6]));
    assert_eq!(series_of(&data, 0, BUY, GoodKind::YEN), Some(&vec![7]));
    assert_eq!(series_of(&data, 0, LIQUIDITY, GoodKind::EUR), Some(&vec![8]));
    assert_eq!(series_of(&data, 0, BUY, GoodKind::USD), None);
    assert_eq!(series_of(&data, 0, 3, GoodKind::USD), None);
    assert_eq!(series_of(&data, 1, SELL, GoodKind::USD), None);
}

#[test]
fn panels_come_sell_first() {
    assert_eq!(
        price_panels(),
        vec![
            (SELL, GoodKind::USD),
            (SELL, GoodKind::YEN),
            (SELL, GoodKind::YUAN),
            (BUY, GoodKind::USD),
            (BUY, GoodKind::YEN),
            (BUY, GoodKind::YUAN),
        ]
    );
}

#[test]
fn labels_and_titles() {
    assert_eq!(side_label(0), "Sell");
    assert_eq!(side_label(1), "Buy");
    assert_eq!(side_label(2), "Buy");
    assert_eq!(panel_title(0, GoodKind::USD), "Sell USD");
    assert_eq!(panel_title(1, GoodKind::YUAN), "Buy YUAN");
    assert_eq!(price_label(0, GoodKind::YEN), "Sell price YEN");
    assert_eq!(price_label(1, GoodKind::USD), "Buy price USD");
    assert_eq!(liquidity_labels(), vec!["USD", "YEN", "YUAN", "EUR"]);
    assert_eq!(panel_id(0, GoodKind::YEN), "SellYEN");
    assert_eq!(panel_id(1, GoodKind::YUAN), "BuyYUAN");
    assert_eq!(button_id(0, GoodKind::USD), "SellUSDbtn");
    assert_eq!(button_id(1, GoodKind::YEN), "BuyYENbtn");
}

#[test]
fn legend_names_the_split_series() {
    let data = vec![market(&[], &[], &[(GoodKind::YUAN, vec![3])])];
    let liq = data_split(&data);
    let legend = liquidity_labels();
    let k = legend.iter().position(|l| l == "YUAN").unwrap();
    assert_eq!(liq[0][k], vec![3]);
}

#[test]
fn candle_sizes() {
    assert_eq!(candle_size(0), 2);
    assert_eq!(candle_size(64), 2);
    assert_eq!(candle_size(194), 2);
    assert_eq!(candle_size(195), 3);
    assert_eq!(candle_size(2000), 30);
    assert_eq!(candle_size(usize::MAX), usize::MAX / 65);
}

#[test]
fn wide_window_is_kept() {
    let c = RangeControl::new();
    assert_eq!(c.settle(10, 40), Settled { start: 10, end: 40, fix: ScaleFix::Keep });
    assert_eq!(c.settle(0, 2), Settled { start: 0, end: 2, fix: ScaleFix::Keep });
}

#[test]
fn narrow_window_moves_the_other_slider() {
    let mut c = RangeControl::new();
    assert!(c.start_changing);
    assert_eq!(c.settle(30, 20), Settled { start: 30, end: 32, fix: ScaleFix::SetEnd(32) });
    assert_eq!(c.settle(5, 6), Settled { start: 5, end: 7, fix: ScaleFix::SetEnd(7) });
    c.end_moved();
    assert!(!c.start_changing);
    assert_eq!(c.settle(30, 20), Settled { start: 18, end: 20, fix: ScaleFix::SetStart(18) });
    assert_eq!(c.settle(5, 5), Settled { start: 3, end: 5, fix: ScaleFix::SetStart(3) });
    c.start_moved();
    assert!(c.start_changing);
}

#[test]
fn settling_twice_changes_nothing() {
    let mut c = RangeControl::new();
    let s = c.settle(8, 8);
    c.end_moved();
    assert_eq!(c.settle(s.start, s.end), Settled { start: s.start, end: s.end, fix: ScaleFix::Keep });
}

#[test]
fn settle_range_limits() {
    let mut c = RangeControl::new();
    assert!(c.can_settle(3, 3));
    assert!(!c.can_settle(usize::MAX, 0));
    assert!(!c.can_settle(usize::MAX - 1, 0));
    assert!(c.can_settle(usize::MAX - 2, 0));
    c.end_moved();
    assert!(!c.can_settle(1, 1));
    assert!(c.can_settle(0, 2));
    assert!(c.can_settle(2, 2));
}

#[test]
fn price_plan_uses_settled_window() {
    let c = RangeControl::new();
    let p = c.plan_price_draw(0, 2000);
    assert_eq!(p.window, Settled { start: 0, end: 2000, fix: ScaleFix::Keep });
    assert_eq!(p.candle, 30);
    let q = c.plan_price_draw(100, 100);
    assert_eq!(q.window.end, 102);
    assert_eq!(q.candle, 2);
}

#[test]
fn splittable_inputs() {
    let ok = vec![market(&[], &[], &[]), market(&[], &[], &[]), market(&[], &[], &[]), market(&[(GoodKind::USD, vec![1])], &[], &[])];
    assert!(is_splittable(&ok));
    let extra_liquidity = vec![market(&[], &[], &[]), market(&[], &[], &[]), market(&[], &[], &[]), market(&[], &[], &[(GoodKind::EUR, vec![1])])];
    assert!(!is_splittable(&extra_liquidity));
    let mut short = vec![market(&[], &[], &[])];
    short[0].pop();
    assert!(!is_splittable(&short));
    let none: Vec<Vec<GoodTable<Vec<u64>>>> = Vec::new();
    assert!(is_splittable(&none));
}
