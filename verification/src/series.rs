//! Splitting a price history into one series per symbol.
//!
//! The server sends the prices of all symbols back to back in one list;
//! each symbol gets an equal share of it, in the order of the symbols.

use vstd::prelude::*;

verus! {

/// The number of prices each symbol gets (zero when there are no symbols).
pub open spec fn rows_per_symbol(num_symbols: int, num_prices: int) -> int {
    if num_symbols > 0 { num_prices / num_symbols } else { 0 }
}

/// Where each symbol's prices lie: symbol `i` owns the positions from
/// `i * rows` up to `(i + 1) * rows`; nothing is drawn when there are no
/// symbols, no prices, or fewer prices than symbols.
pub open spec fn series_ranges(num_symbols: int, num_prices: int) -> Seq<(int, int)> {
    let rows = rows_per_symbol(num_symbols, num_prices);
    if num_symbols > 0 && num_prices > 0 && rows > 0 {
        Seq::new(num_symbols as nat, |i: int| (i * rows, i * rows + rows))
    } else {
        Seq::empty()
    }
}

/// The range of positions of each symbol's prices in the combined list.
pub fn price_series_ranges(num_symbols: usize, num_prices: usize) -> (ranges: Vec<(usize, usize)>)
    ensures
        ranges@.len() == series_ranges(num_symbols as int, num_prices as int).len(),
        forall|i: int| 0 <= i < ranges@.len() ==>
            (#[trigger] ranges@[i]).0 as int == series_ranges(num_symbols as int, num_prices as int)[i].0
                && ranges@[i].1 as int == series_ranges(num_symbols as int, num_prices as int)[i].1,
{
    let mut ranges: Vec<(usize, usize)> = Vec::new();
    if num_symbols == 0 || num_prices == 0 {
        return ranges;
    }
    let rows = num_prices / num_symbols;
    if rows == 0 {
        return ranges;
    }
    let mut i: usize = 0;
    while i < num_symbols
        invariant
            num_symbols > 0,
            rows == num_prices / num_symbols,
            rows > 0,
            i <= num_symbols,
            ranges@.len() == i,
            forall|j: int| 0 <= j < i ==>
                (#[trigger] ranges@[j]).0 as int == j * rows && ranges@[j].1 as int == j * rows + rows,
        decreases num_symbols - i,
    {
        proof {
            assert(i * rows + rows <= num_symbols * rows) by (nonlinear_arith)
                requires
                    i < num_symbols,
                    rows > 0;
            assert(num_symbols * rows <= num_prices) by (nonlinear_arith)
                requires
                    rows == num_prices / num_symbols,
                    num_symbols > 0;
            assert(0 <= i * rows) by (nonlinear_arith)
                requires
                    rows > 0;
        }
        let start = i * rows;
        ranges.push((start, start + rows));
        i = i + 1;
    }
    ranges
}

/// The symbols' ranges lie inside the price list, one after the other,
/// without overlapping.
pub proof fn law_series_partition(num_symbols: int, num_prices: int)
    requires
        num_symbols >= 0,
        num_prices >= 0,
    ensures
        forall|i: int| 0 <= i < series_ranges(num_symbols, num_prices).len() ==> {
            let r = #[trigger] series_ranges(num_symbols, num_prices)[i];
            &&& 0 <= r.0 < r.1 <= num_prices
            &&& r.1 - r.0 == rows_per_symbol(num_symbols, num_prices)
            &&& (i + 1 < series_ranges(num_symbols, num_prices).len() ==> series_ranges(num_symbols, num_prices)[i + 1].0 == r.1)
        },
{
    let rows = rows_per_symbol(num_symbols, num_prices);
    if num_symbols > 0 && num_prices > 0 && rows > 0 {
        assert forall|i: int| 0 <= i < series_ranges(num_symbols, num_prices).len() implies {
            let r = #[trigger] series_ranges(num_symbols, num_prices)[i];
            &&& 0 <= r.0 < r.1 <= num_prices
            &&& r.1 - r.0 == rows
            &&& (i + 1 < series_ranges(num_symbols, num_prices).len() ==> series_ranges(num_symbols, num_prices)[i + 1].0 == r.1)
        } by {
            assert(i * rows + rows <= num_symbols * rows) by (nonlinear_arith)
                requires
                    i < num_symbols,
                    rows > 0;
            assert(num_symbols * rows <= num_prices) by (nonlinear_arith)
                requires
                    rows == num_prices / num_symbols,
                    num_symbols > 0;
            assert(0 <= i * rows) by (nonlinear_arith)
                requires
                    rows > 0,
                    i >= 0;
            assert((i + 1) * rows == i * rows + rows) by (nonlinear_arith);
        }
    }
}

} // verus!
