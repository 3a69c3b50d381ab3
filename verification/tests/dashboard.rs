use tick_dashboard::clock::MAX_TIMESTAMP_MS;
use tick_dashboard::dashboard::{
    band_constraints, panel_constraints, frame, quote_table, summary_table, ui, Table,
};
use tick_dashboard::layout::{Area, Constraint};
use tick_dashboard::number::Float;
use tick_dashboard::record::Lvl1Data;
use tick_dashboard::ring::DataList;
use tick_dashboard::style::Color;
use tick_dashboard::table::{Cell, Content, Row};

fn screen(width: u16, height: u16) -> Area {
    Area { x: 0, y: 0, width, height }
}

fn update(id: i64, price: f64, qty: f64, last_trade_time: i64) -> Lvl1Data {
    let mut record = Lvl1Data::default();
    record.tkr_id = id;
    record.tkr = format!("SYM{}", id);
    record.timestamp_ms = 1_700_000_000_000 + id;
    record.last_trade_price = Float::from_bits(price.to_bits());
    record.last_trade_qty = Float::from_bits(qty.to_bits());
    record.last_trade_time = last_trade_time;
    record
}

fn caption(row: &Row) -> String {
    assert_eq!(row.cells.len(), 2);
    assert_eq!((row.bg, row.fg), (None, None));
    assert_eq!((row.cells[0].fg, row.cells[1].fg), (None, None));
    label(&row.cells[0])
}

fn label(cell: &Cell) -> String {
    match &cell.content {
        Content::Text(text) => text.clone(),
        other => panic!("no text: {:?}", other),
    }
}

fn check_summary(table: &Table, record: &Lvl1Data) {
    assert_eq!(table.title, "Summary");
    assert!(table.header.is_none());
    assert_eq!(table.widths, vec![12, 30]);
    assert_eq!(table.rows.len(), 4);
    assert_eq!(caption(&table.rows[0]), "TKR:");
    assert_eq!(label(&table.rows[0].cells[1]), record.tkr);
    assert_eq!(caption(&table.rows[1]), "Price:");
    match &table.rows[1].cells[1].content {
        Content::Fixed(value, 2) => assert_eq!(value.to_bits(), record.last_trade_price.to_bits()),
        other => panic!("no price: {:?}", other),
    }
    assert_eq!(caption(&table.rows[2]), "Quantity:");
    match &table.rows[2].cells[1].content {
        Content::Shortest(value) => assert_eq!(value.to_bits(), record.last_trade_qty.to_bits()),
        other => panic!("no quantity: {:?}", other),
    }
    assert_eq!(caption(&table.rows[3]), "Last Trade:");
}

#[test]
fn constraints_of_the_screen() {
    assert_eq!(
        band_constraints(),
        vec![Constraint::Length(1), Constraint::Min(0), Constraint::Length(1)]
    );
    assert_eq!(
        panel_constraints(),
        vec![Constraint::Percentage(50), Constraint::Percentage(50)]
    );
}

#[test]
fn summary_table_shows_the_record_behind_captions() {
    let record = update(3, 101.25, 0.5, 1_700_000_000_000);
    let table = summary_table(&record, String::from("then"));
    check_summary(&table, &record);
    assert_eq!(label(&table.rows[3].cells[1]), "then");
}

#[test]
fn quote_table_has_the_six_captions_dark_on_light() {
    let table = quote_table(Vec::new());
    assert_eq!(table.title, "Level 1 Quotes");
    assert_eq!(table.widths, vec![12, 12, 12, 12, 12, 12]);
    assert!(table.rows.is_empty());
    let header = table.header.expect("the quote table has a header");
    let captions: Vec<String> = header.cells.iter().map(label).collect();
    assert_eq!(captions, vec!["TKR", "Price", "Quantity", "Time", "Bid", "Ask"]);
    assert!(header.cells.iter().all(|cell| cell.fg.is_none()));
    assert_eq!(header.bg, Some(Color::Rgb(205, 214, 244)));
    assert_eq!(header.fg, Some(Color::Rgb(17, 17, 27)));
}

#[test]
fn frame_puts_each_panel_on_its_area() {
    let record = Lvl1Data::default();
    let shown = frame(
        screen(1, 1),
        screen(2, 2),
        screen(3, 3),
        screen(4, 4),
        summary_table(&record, String::new()),
        quote_table(Vec::new()),
    );
    assert_eq!(shown.title, "Trading Dashboard");
    assert_eq!(shown.hint, "Press q to quit...");
    assert_eq!(shown.title_area, screen(1, 1));
    assert_eq!(shown.summary_area, screen(2, 2));
    assert_eq!(shown.quotes_area, screen(3, 3));
    assert_eq!(shown.hint_area, screen(4, 4));
    assert_eq!(shown.summary.title, "Summary");
    assert_eq!(shown.quotes.title, "Level 1 Quotes");
}

#[test]
fn ui_lays_the_four_panels_out() {
    let ring = DataList::new(3);
    let shown = ui(screen(80, 24), &ring).expect("the epoch can be shown");
    assert_eq!(shown.title_area, Area { x: 0, y: 0, width: 80, height: 1 });
    assert_eq!(shown.summary_area, Area { x: 0, y: 1, width: 40, height: 22 });
    assert_eq!(shown.quotes_area, Area { x: 40, y: 1, width: 40, height: 22 });
    assert_eq!(shown.hint_area, Area { x: 0, y: 23, width: 80, height: 1 });
}

#[test]
fn ui_lays_out_from_the_corner_of_its_area() {
    let ring = DataList::new(2);
    let shown = ui(Area { x: 10, y: 5, width: 20, height: 10 }, &ring).expect("shown");
    assert_eq!(shown.title_area, Area { x: 10, y: 5, width: 20, height: 1 });
    assert_eq!(shown.summary_area, Area { x: 10, y: 6, width: 10, height: 8 });
    assert_eq!(shown.quotes_area, Area { x: 20, y: 6, width: 10, height: 8 });
    assert_eq!(shown.hint_area, Area { x: 10, y: 14, width: 20, height: 1 });
}

#[test]
fn ui_shows_the_newest_record_and_the_quote_rows() {
    let mut ring = DataList::new(3);
    let newest = update(4, 9.0, 0.125, 1_700_000_000_500);
    ring.insert(update(1, 10.0, 1.0, 1_700_000_000_100));
    ring.insert(update(2, 10.0, 1.0, 1_700_000_000_200));
    ring.insert(update(3, 12.0, 1.0, 1_700_000_000_300));
    ring.insert(newest.clone());
    let shown = ui(screen(80, 24), &ring).expect("every timestamp can be shown");
    assert_eq!(shown.title, "Trading Dashboard");
    assert_eq!(shown.hint, "Press q to quit...");
    check_summary(&shown.summary, &newest);
    let last_trade = label(&shown.summary.rows[3].cells[1]);
    assert!(!last_trade.is_empty());
    assert_ne!(last_trade, "1700000000500");
    assert_eq!(shown.quotes.title, "Level 1 Quotes");
    assert_eq!(shown.quotes.widths, vec![12; 6]);
    assert!(shown.quotes.header.is_some());
    assert_eq!(shown.quotes.rows.len(), 2);
    assert_eq!(label(&shown.quotes.rows[0].cells[0]), "SYM4");
    assert_eq!(shown.quotes.rows[0].bg, Some(Color::Rgb(243, 139, 168)));
    assert_eq!(label(&shown.quotes.rows[1].cells[0]), "SYM3");
    assert_eq!(shown.quotes.rows[1].bg, Some(Color::Rgb(166, 227, 161)));
}

#[test]
fn ui_is_none_when_the_last_trade_cannot_be_shown() {
    let mut ring = DataList::new(3);
    ring.insert(update(1, 10.0, 1.0, MAX_TIMESTAMP_MS + 1));
    assert!(ui(screen(80, 24), &ring).is_none());
    ring.insert(update(2, 10.0, 1.0, MAX_TIMESTAMP_MS));
    assert!(ui(screen(80, 24), &ring).is_some());
}

#[test]
fn ui_is_none_when_an_intake_cannot_be_shown() {
    let mut ring = DataList::new(3);
    let mut record = update(1, 10.0, 1.0, 0);
    record.timestamp_ms = i64::MIN;
    ring.insert(record);
    assert!(ui(screen(80, 24), &ring).is_none());
    ring.insert(update(2, 10.0, 1.0, 0));
    assert!(ui(screen(80, 24), &ring).is_none());
    ring.insert(update(3, 10.0, 1.0, 0));
    assert!(ui(screen(80, 24), &ring).is_some());
}

#[test]
fn ui_on_an_empty_screen_still_has_its_content() {
    let ring = DataList::new(2);
    let shown = ui(screen(0, 0), &ring).expect("the epoch can be shown");
    assert_eq!(shown.quotes.rows.len(), 1);
    assert_eq!(shown.summary.rows.len(), 4);
}
