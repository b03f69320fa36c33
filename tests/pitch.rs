use libts::pitch::{
    bs_side, cancel_reason, from_bytes, to_bytes, AddOrder, Body, CancelReason, CrossTrade,
    CrossTradeNet, CrossType, EventCode, Message, OrderCancelled, OrderDelete, OrderExecuted,
    OrderExecutedWithPrice, ReplaceOrder, Side, SymbolDirectory, SymbolDirectoryNet,
    SymbolTradingActionNet, SystemEvent, SystemEventNet, Trade, TradingAction, TradingState,
};
use libts::Error;

fn add_order() -> Message {
    Message {
        index: 1,
        tracking: 2,
        timestamp: 123456123,
        body: Body::AddOrder(AddOrder {
            reference: 202207041518,
            side: Side::Buy,
            qty: 100,
            price: 51050,
        }),
    }
}

fn add_order_bytes() -> Vec<u8> {
    vec![
        b'A', b'B', 1, 0, 2, 0, 123, 202, 91, 7, 238, 151, 122, 20, 47, 0, 0, 0, 100, 0, 0, 0, 106,
        199, 0, 0,
    ]
}

fn symbol_dir_bytes() -> Vec<u8> {
    vec![
        b'R', 78, 99, 117, 49, 57, 48, 56, 0, 0, 0, 0, 0, 0, 0, 0, 0, 0, 70, 0, 2, 0, 3, 0, 98, 116,
        140, 58, 5, 0, 0, 0, 5, 0, 0, 0, 0, 0, 0, 0, 0, 0, 0, 0,
    ]
}

#[test]
fn test_to_bytes() {
    let msg = add_order();
    let expected: Vec<u8> = add_order_bytes();
    let bb = to_bytes(&msg).unwrap();
    assert_eq!(bb, expected);
}

#[test]
fn test_from_bytes() {
    let expected = add_order();
    let buf: Vec<u8> = add_order_bytes();
    let msg: Message = from_bytes(&buf[..]).unwrap();
    assert_eq!(msg, expected);
    let buf: Vec<u8> = symbol_dir_bytes();
    let _msg: Message = from_bytes(&buf[..]).unwrap();
}

#[test]
fn test_event() {
    let mut ev: SystemEventNet = Default::default();
    ev.event_code = EventCode::StartOfMessages.code();
    assert!(EventCode::StartOfMessages == ev.event());
}

#[test]
fn test_symboldir() {
    println!(
        "sizeof SymbolDirectoryNet: {}",
        std::mem::size_of::<SymbolDirectoryNet>()
    );
}

#[test]
fn test_state() {
    let mut sym_tr: SymbolTradingActionNet = Default::default();
    sym_tr.trading_state = TradingState::PreAuction.code();
    assert_eq!(TradingState::PreAuction, sym_tr.state());
}

#[test]
fn test_side() {
    let bs = Side::BuyCover.code();
    assert_eq!(Side::BuyCover, bs_side(bs));
}

#[test]
fn test_reason() {
    let r = CancelReason::OddLot.code();
    assert_eq!(CancelReason::OddLot, cancel_reason(r));
    let r = CancelReason::OutOfPriceBand.code();
    assert_eq!(CancelReason::OutOfPriceBand, cancel_reason(r));
}

#[test]
fn test_cross_type() {
    let mut cr: CrossTradeNet = Default::default();
    cr.type_ = CrossType::Closing.code();
    assert_eq!(CrossType::Closing, cr.cross_type());
    cr.type_ = CrossType::Intraday.code();
    assert_eq!(CrossType::Intraday, cr.cross_type());
}

#[test]
fn pitch_symbol_directory_strips_padding() {
    let msg = from_bytes(&symbol_dir_bytes()).unwrap();
    assert_eq!(msg.index, 2);
    assert_eq!(msg.tracking, 3);
    assert_eq!(msg.timestamp, 982283362);
    match msg.body {
        Body::SymbolDirectory(s) => {
            assert_eq!(s.symbol, "cu1908");
            assert_eq!(s.market_category, b'N');
            assert_eq!(s.classification, b'F');
            assert_eq!(s.precision, 0);
            assert_eq!(s.round_lot_size, 5);
            assert_eq!(s.turnover_multi, 5);
            assert_eq!(s.lower_limit, 0);
            assert_eq!(s.upper_limit, 0);
        }
        _ => panic!("not a symbol directory entry"),
    }
}

#[test]
fn pitch_symbol_not_utf8() {
    let mut buf = symbol_dir_bytes();
    buf[2] = 0xff;
    assert_eq!(from_bytes(&buf), Err(Error::ExpectedString));
}

#[test]
fn pitch_short_input_is_eof() {
    let buf = add_order_bytes();
    assert_eq!(from_bytes(&buf[..7]), Err(Error::Eof));
    assert_eq!(from_bytes(&[0xffu8; 7]), Err(Error::Eof));
    assert_eq!(from_bytes(&[]), Err(Error::Eof));
}

#[test]
fn pitch_unknown_tag_is_syntax() {
    assert_eq!(from_bytes(&[0xffu8; 8]), Err(Error::Syntax));
    let mut buf = add_order_bytes();
    buf[0] = b'Z';
    assert_eq!(from_bytes(&buf), Err(Error::Syntax));
}

#[test]
fn pitch_exact_length() {
    let mut buf = add_order_bytes();
    assert_eq!(from_bytes(&buf[..25]), Err(Error::Eof));
    buf.push(0);
    assert_eq!(from_bytes(&buf), Err(Error::TrailingCharacters));
}

#[test]
fn pitch_bad_enum_byte_is_syntax() {
    let mut buf = add_order_bytes();
    buf[1] = b'Z';
    assert_eq!(from_bytes(&buf), Err(Error::Syntax));
    let cross = Message {
        index: 1,
        tracking: 1,
        timestamp: 1,
        body: Body::CrossTrade(CrossTrade {
            qty: 1,
            price: 1,
            match_no: 1,
            cross_type: CrossType::Halted,
            pclose: 1,
            open_interest: 1,
        }),
    };
    let mut buf = to_bytes(&cross).unwrap();
    buf[1] = b'Z';
    assert_eq!(from_bytes(&buf), Err(Error::Syntax));
}

fn all_kinds() -> Vec<Message> {
    let bodies = vec![
        Body::SystemEvent(SystemEvent { event: EventCode::EndOfMessages, time_hours: 461000 }),
        Body::SymbolDirectory(SymbolDirectory {
            symbol: "au2412".to_owned(),
            market_category: b'H',
            classification: b'F',
            precision: -2,
            round_lot_size: 1,
            turnover_multi: 1000,
            lower_limit: -5,
            upper_limit: 700000,
        }),
        Body::TradingAction(TradingAction { trading_state: TradingState::Break, reason: 7 }),
        Body::AddOrder(AddOrder { reference: 1, side: Side::SellClose, qty: 3, price: -4 }),
        Body::OrderExecuted(OrderExecuted { printable: true, reference: 5, qty: 6, match_no: 7 }),
        Body::OrderExecutedWithPrice(OrderExecutedWithPrice {
            printable: false,
            reference: 8,
            qty: 9,
            price: 10,
            match_no: 11,
        }),
        Body::OrderCancelled(OrderCancelled {
            reason: CancelReason::BrokenSession,
            reference: 12,
            cancelled: 13,
        }),
        Body::OrderDelete(OrderDelete { reason: CancelReason::Arb, reference: u64::MAX }),
        Body::ReplaceOrder(ReplaceOrder {
            old_reference: 14,
            new_reference: 15,
            qty: 16,
            price: i32::MIN,
        }),
        Body::Trade(Trade { reference: 17, side: Side::Sell, qty: 18, price: 19, match_no: 20 }),
        Body::CrossTrade(CrossTrade {
            qty: 21,
            price: 22,
            match_no: 23,
            cross_type: CrossType::Opening,
            pclose: -24,
            open_interest: 25,
        }),
    ];
    bodies
        .into_iter()
        .enumerate()
        .map(|(i, body)| Message { index: i as u16, tracking: 40000, timestamp: 3599999999, body })
        .collect()
}

#[test]
fn pitch_round_trip_every_kind() {
    let sizes = [14usize, 44, 12, 26, 30, 34, 22, 18, 33, 34, 34];
    for (m, size) in all_kinds().into_iter().zip(sizes) {
        let b = to_bytes(&m).unwrap();
        assert_eq!(b.len(), size);
        assert_eq!(from_bytes(&b), Ok(m));
    }
}

#[test]
fn pitch_long_symbol_is_cut() {
    let m = Message {
        index: 0,
        tracking: 0,
        timestamp: 0,
        body: Body::SymbolDirectory(SymbolDirectory {
            symbol: "abcdefghijklmnopqrst".to_owned(),
            market_category: 0,
            classification: 0,
            precision: 0,
            round_lot_size: 0,
            turnover_multi: 0,
            lower_limit: 0,
            upper_limit: 0,
        }),
    };
    let b = to_bytes(&m).unwrap();
    assert_eq!(&b[2..18], b"abcdefghijklmnop");
    match from_bytes(&b).unwrap().body {
        Body::SymbolDirectory(s) => assert_eq!(s.symbol, "abcdefghijklmnop"),
        _ => panic!("not a symbol directory entry"),
    }
}

#[test]
fn pitch_enum_names() {
    assert_eq!(EventCode::EmergencyQuoteOnly.name(), "Emergency QuoteOnly");
    assert_eq!(CancelReason::OddLot.name(), "not normalization lots");
    assert_eq!(CrossType::Halted.name(), "UnCross after Halted");
    assert_eq!(Side::SellClose.name(), "SellClose");
    assert_eq!(TradingState::PreAuction.name(), "PreAuction");
    assert_eq!(Side::from_code(b'C'), Some(Side::BuyCover));
    assert_eq!(Side::from_code(b'Z'), None);
}
