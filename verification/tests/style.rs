use tick_dashboard::number::{Change, Float};
use tick_dashboard::record::Lvl1Data;
use tick_dashboard::style::{Color, Delta, RowStyle};

const GREEN: Color = Color::Rgb(166, 227, 161);
const RED: Color = Color::Rgb(243, 139, 168);
const DARK: Color = Color::Rgb(24, 24, 27);

fn quote(bid: f64, ask: f64, trade: f64) -> Lvl1Data {
    let mut record = Lvl1Data::default();
    record.best_bid = Float::from_bits(bid.to_bits());
    record.best_ask = Float::from_bits(ask.to_bits());
    record.last_trade_price = Float::from_bits(trade.to_bits());
    record
}

#[test]
fn tint_of_each_change() {
    assert_eq!(Color::tint(Change::Up), GREEN);
    assert_eq!(Color::tint(Change::Down), RED);
    assert_eq!(Color::tint(Change::Unchanged), Color::Reset);
}

#[test]
fn trade_price_up_overrides_both_cells() {
    let delta = Delta::between(&quote(1.0, 2.0, 12.0), &quote(1.0, 2.0, 10.0));
    assert_eq!(delta, Delta { bid: Change::Unchanged, ask: Change::Unchanged, trade: Change::Up });
    assert_eq!(delta.style(), RowStyle { bid_fg: DARK, ask_fg: DARK, bg: GREEN, fg: DARK });
}

#[test]
fn trade_price_up_overrides_cells_that_moved_themselves() {
    let delta = Delta::between(&quote(0.5, 3.0, 12.0), &quote(1.0, 2.0, 10.0));
    assert_eq!(delta, Delta { bid: Change::Down, ask: Change::Up, trade: Change::Up });
    assert_eq!(delta.style(), RowStyle { bid_fg: DARK, ask_fg: DARK, bg: GREEN, fg: DARK });
}

#[test]
fn trade_price_down_tints_the_row_unfavourably() {
    let delta = Delta::between(&quote(1.5, 2.5, 9.0), &quote(1.0, 2.0, 12.0));
    assert_eq!(delta, Delta { bid: Change::Up, ask: Change::Up, trade: Change::Down });
    assert_eq!(delta.style(), RowStyle { bid_fg: DARK, ask_fg: DARK, bg: RED, fg: DARK });
}

#[test]
fn unchanged_bid_and_raised_ask_with_still_trade() {
    let delta = Delta::between(&quote(1.0, 2.5, 10.0), &quote(1.0, 2.0, 10.0));
    assert_eq!(delta, Delta { bid: Change::Unchanged, ask: Change::Up, trade: Change::Unchanged });
    assert_eq!(
        delta.style(),
        RowStyle { bid_fg: Color::Reset, ask_fg: GREEN, bg: Color::Reset, fg: Color::Reset }
    );
}

#[test]
fn bid_and_ask_are_tinted_apart_with_still_trade() {
    let delta = Delta::between(&quote(0.9, 2.5, 10.0), &quote(1.0, 2.0, 10.0));
    assert_eq!(delta, Delta { bid: Change::Down, ask: Change::Up, trade: Change::Unchanged });
    assert_eq!(
        delta.style(),
        RowStyle { bid_fg: RED, ask_fg: GREEN, bg: Color::Reset, fg: Color::Reset }
    );
    let delta = Delta::between(&quote(1.1, 1.5, 10.0), &quote(1.0, 2.0, 10.0));
    assert_eq!(
        delta.style(),
        RowStyle { bid_fg: GREEN, ask_fg: RED, bg: Color::Reset, fg: Color::Reset }
    );
}

#[test]
fn nothing_moved_leaves_everything_plain() {
    let delta = Delta::between(&quote(1.0, 2.0, 10.0), &quote(1.0, 2.0, 10.0));
    assert_eq!(
        delta.style(),
        RowStyle {
            bid_fg: Color::Reset,
            ask_fg: Color::Reset,
            bg: Color::Reset,
            fg: Color::Reset
        }
    );
}

#[test]
fn every_classification_has_the_style_of_the_policy() {
    let changes = [Change::Up, Change::Down, Change::Unchanged];
    for bid in changes {
        for ask in changes {
            for trade in changes {
                let style = Delta { bid, ask, trade }.style();
                match trade {
                    Change::Unchanged => {
                        assert_eq!(style.bid_fg, Color::tint(bid));
                        assert_eq!(style.ask_fg, Color::tint(ask));
                        assert_eq!(style.bg, Color::Reset);
                        assert_eq!(style.fg, Color::Reset);
                    }
                    _ => {
                        assert_eq!(style.bid_fg, DARK);
                        assert_eq!(style.ask_fg, DARK);
                        assert_eq!(style.bg, Color::tint(trade));
                        assert_eq!(style.fg, DARK);
                    }
                }
            }
        }
    }
}
