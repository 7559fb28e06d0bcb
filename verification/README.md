# market_view

Verified core of a GTK viewer for market price and liquidity series.

- `src/goods.rs`: the goods and their order among liquidity series.
- `src/table.rs`: a map from goods to series, held in a std `HashMap` keyed by each good's slot.
- `src/market.rs`: the layout of the market data, series lookup, and the split of the liquidity tables into a grid of series.
- `src/window.rs`: which window of points a panel plots when the sliders move, and the candle size.
- `src/labels.rs`: titles, series names, widget ids and the liquidity legend.
- `app/lib.rs`: the GTK front end (widgets, drawing, floating-point y-axis bounds).
