//! Semantic messages: what each wire record means, and the two-way mapping
//! between bytes and messages.
use vstd::bytes::*;
use vstd::prelude::*;
use vstd::string::StringSliceAdditionalSpecFns;
use vstd::utf8::*;

use super::enums::{CancelReason, CrossType, EventCode, Side, TradingState};
use super::proto::{
    AddOrderNet, CrossTradeNet, OrderCancelNet, OrderDeleteNet, OrderExecutedNet,
    OrderExecutedWithPriceNet, OrderReplaceNet, SymbolDirectoryNet, SymbolTradingActionNet,
    SystemEventNet, TradeNet, TAG_ADD_ORDER, TAG_CROSS_TRADE, TAG_ORDER_CANCELLED,
    TAG_ORDER_DELETE, TAG_ORDER_EXECUTED, TAG_ORDER_EXECUTED_WITH_PRICE, TAG_REPLACE_ORDER,
    TAG_SYMBOL_DIRECTORY, TAG_SYSTEM_EVENT, TAG_TRADE, TAG_TRADING_ACTION,
};
use crate::codec::{
    from_bytes as de_from_bytes, parse_exact, str_from_utf8, to_bytes as ser_to_bytes, Decode,
    Encode, Error,
    Result,
};

verus! {

/// A message of the protocol.
#[derive(Debug, Clone, PartialEq)]
pub struct Message {
    /// Integer identifying the underlying instrument, assigned daily.
    pub index: u16,
    /// Internal tracking number.
    pub tracking: u16,
    /// Microseconds since the start of the hour.
    pub timestamp: u32,
    /// Body of one of the supported message types.
    pub body: Body,
}

/// The message body.
#[derive(Debug, Clone, PartialEq)]
pub enum Body {
    SystemEvent(SystemEvent),
    SymbolDirectory(SymbolDirectory),
    TradingAction(TradingAction),
    AddOrder(AddOrder),
    OrderExecuted(OrderExecuted),
    OrderExecutedWithPrice(OrderExecutedWithPrice),
    OrderCancelled(OrderCancelled),
    OrderDelete(OrderDelete),
    ReplaceOrder(ReplaceOrder),
    Trade(Trade),
    CrossTrade(CrossTrade),
}

/// An instrument's static data.
#[derive(Debug, Clone, PartialEq)]
pub struct SymbolDirectory {
    pub symbol: String,
    pub market_category: u8,
    pub classification: u8,
    pub precision: i8,
    pub round_lot_size: u32,
    pub turnover_multi: u32,
    pub lower_limit: i32,
    pub upper_limit: i32,
}

/// A stage of the trading day, with the hours since the Unix epoch.
#[derive(Debug, Clone, Copy, PartialEq, Eq)]
pub struct SystemEvent {
    pub event: EventCode,
    pub time_hours: u32,
}

/// A change of an instrument's trading state.
#[derive(Debug, Clone, Copy, PartialEq, Eq)]
pub struct TradingAction {
    pub trading_state: TradingState,
    pub reason: u16,
}

/// A new resting order.
#[derive(Debug, Clone, Copy, PartialEq, Eq)]
pub struct AddOrder {
    pub reference: u64,
    pub side: Side,
    pub qty: u32,
    pub price: i32,
}

/// An execution of part or all of a resting order.
#[derive(Debug, Clone, Copy, PartialEq, Eq)]
pub struct OrderExecuted {
    pub printable: bool,
    pub reference: u64,
    pub qty: u32,
    pub match_no: u64,
}

/// An execution at a price other than the order's.
#[derive(Debug, Clone, Copy, PartialEq, Eq)]
pub struct OrderExecutedWithPrice {
    pub printable: bool,
    pub reference: u64,
    pub qty: u32,
    pub price: i32,
    pub match_no: u64,
}

/// A cancellation of part of a resting order.
#[derive(Debug, Clone, Copy, PartialEq, Eq)]
pub struct OrderCancelled {
    pub reason: CancelReason,
    pub reference: u64,
    pub cancelled: u32,
}

/// The removal of a resting order.
#[derive(Debug, Clone, Copy, PartialEq, Eq)]
pub struct OrderDelete {
    pub reason: CancelReason,
    pub reference: u64,
}

/// The replacement of a resting order by a new one.
#[derive(Debug, Clone, Copy, PartialEq, Eq)]
pub struct ReplaceOrder {
    pub old_reference: u64,
    pub new_reference: u64,
    pub qty: u32,
    pub price: i32,
}

/// A trade against a non-displayed order.
#[derive(Debug, Clone, Copy, PartialEq, Eq)]
pub struct Trade {
    pub reference: u64,
    pub side: Side,
    pub qty: u32,
    pub price: i32,
    pub match_no: u64,
}

/// The result of an uncross.
#[derive(Debug, Clone, Copy, PartialEq, Eq)]
pub struct CrossTrade {
    pub qty: u32,
    pub price: i32,
    pub match_no: u64,
    pub cross_type: CrossType,
    pub pclose: i32,
    pub open_interest: u32,
}

impl SystemEventNet {
    /// The message the record stands for, or `Syntax` when an enumerated
    /// byte is outside its set.
    pub open spec fn spec_to_message(self) -> Result<Message> {
        match EventCode::spec_from_code(self.event_code) {
            Some(c) => Ok(
                Message {
                    index: self.index,
                    tracking: self.tracking,
                    timestamp: self.timestamp,
                    body: Body::SystemEvent(
                        SystemEvent {
                            event: c,
                            time_hours: self.time_hours,
                        },
                    ),
                },
            ),
            None => Err(Error::Syntax),
        }
    }

    /// Converts the record into its message; see [`Self::spec_to_message`].
    pub fn to_message(&self) -> (r: Result<Message>)
        ensures
            r == self.spec_to_message(),
    {
        match EventCode::from_code(self.event_code) {
            Some(c) => Ok(
                Message {
                    index: self.index,
                    tracking: self.tracking,
                    timestamp: self.timestamp,
                    body: Body::SystemEvent(
                        SystemEvent {
                            event: c,
                            time_hours: self.time_hours,
                        },
                    ),
                },
            ),
            None => Err(Error::Syntax),
        }
    }
}

impl SymbolTradingActionNet {
    /// The message the record stands for, or `Syntax` when an enumerated
    /// byte is outside its set.
    pub open spec fn spec_to_message(self) -> Result<Message> {
        match TradingState::spec_from_code(self.trading_state) {
            Some(c) => Ok(
                Message {
                    index: self.index,
                    tracking: self.tracking,
                    timestamp: self.timestamp,
                    body: Body::TradingAction(
                        TradingAction {
                            trading_state: c,
                            reason: self.reason,
                        },
                    ),
                },
            ),
            None => Err(Error::Syntax),
        }
    }

    /// Converts the record into its message; see [`Self::spec_to_message`].
    pub fn to_message(&self) -> (r: Result<Message>)
        ensures
            r == self.spec_to_message(),
    {
        match TradingState::from_code(self.trading_state) {
            Some(c) => Ok(
                Message {
                    index: self.index,
                    tracking: self.tracking,
                    timestamp: self.timestamp,
                    body: Body::TradingAction(
                        TradingAction {
                            trading_state: c,
                            reason: self.reason,
                        },
                    ),
                },
            ),
            None => Err(Error::Syntax),
        }
    }
}

impl AddOrderNet {
    /// The message the record stands for, or `Syntax` when an enumerated
    /// byte is outside its set.
    pub open spec fn spec_to_message(self) -> Result<Message> {
        match Side::spec_from_code(self.buy_sell) {
            Some(c) => Ok(
                Message {
                    index: self.index,
                    tracking: self.tracking,
                    timestamp: self.timestamp,
                    body: Body::AddOrder(
                        AddOrder {
                            reference: self.ref_no,
                            side: c,
                            qty: self.qty,
                            price: self.price,
                        },
                    ),
                },
            ),
            None => Err(Error::Syntax),
        }
    }

    /// Converts the record into its message; see [`Self::spec_to_message`].
    pub fn to_message(&self) -> (r: Result<Message>)
        ensures
            r == self.spec_to_message(),
    {
        match Side::from_code(self.buy_sell) {
            Some(c) => Ok(
                Message {
                    index: self.index,
                    tracking: self.tracking,
                    timestamp: self.timestamp,
                    body: Body::AddOrder(
                        AddOrder {
                            reference: self.ref_no,
                            side: c,
                            qty: self.qty,
                            price: self.price,
                        },
                    ),
                },
            ),
            None => Err(Error::Syntax),
        }
    }
}

impl OrderExecutedNet {
    /// The message the record stands for, or `Syntax` when an enumerated
    /// byte is outside its set.
    pub open spec fn spec_to_message(self) -> Result<Message> {
        Ok(
            Message {
                index: self.index,
                tracking: self.tracking,
                timestamp: self.timestamp,
                body: Body::OrderExecuted(
                    OrderExecuted {
                        printable: self.printable,
                        reference: self.ref_no,
                        qty: self.qty,
                        match_no: self.match_no,
                    },
                ),
            },
        )
    }

    /// Converts the record into its message; see [`Self::spec_to_message`].
    pub fn to_message(&self) -> (r: Result<Message>)
        ensures
            r == self.spec_to_message(),
    {
        Ok(
            Message {
                index: self.index,
                tracking: self.tracking,
                timestamp: self.timestamp,
                body: Body::OrderExecuted(
                    OrderExecuted {
                        printable: self.printable,
                        reference: self.ref_no,
                        qty: self.qty,
                        match_no: self.match_no,
                    },
                ),
            },
        )
    }
}

impl OrderExecutedWithPriceNet {
    /// The message the record stands for, or `Syntax` when an enumerated
    /// byte is outside its set.
    pub open spec fn spec_to_message(self) -> Result<Message> {
        Ok(
            Message {
                index: self.index,
                tracking: self.tracking,
                timestamp: self.timestamp,
                body: Body::OrderExecutedWithPrice(
                    OrderExecutedWithPrice {
                        printable: self.printable,
                        reference: self.ref_no,
                        qty: self.qty,
                        price: self.price,
                        match_no: self.match_no,
                    },
                ),
            },
        )
    }

    /// Converts the record into its message; see [`Self::spec_to_message`].
    pub fn to_message(&self) -> (r: Result<Message>)
        ensures
            r == self.spec_to_message(),
    {
        Ok(
            Message {
                index: self.index,
                tracking: self.tracking,
                timestamp: self.timestamp,
                body: Body::OrderExecutedWithPrice(
                    OrderExecutedWithPrice {
                        printable: self.printable,
                        reference: self.ref_no,
                        qty: self.qty,
                        price: self.price,
                        match_no: self.match_no,
                    },
                ),
            },
        )
    }
}

impl OrderCancelNet {
    /// The message the record stands for, or `Syntax` when an enumerated
    /// byte is outside its set.
    pub open spec fn spec_to_message(self) -> Result<Message> {
        match CancelReason::spec_from_code(self.cancel_reason) {
            Some(c) => Ok(
                Message {
                    index: self.index,
                    tracking: self.tracking,
                    timestamp: self.timestamp,
                    body: Body::OrderCancelled(
                        OrderCancelled {
                            reason: c,
                            reference: self.ref_no,
                            cancelled: self.qty,
                        },
                    ),
                },
            ),
            None => Err(Error::Syntax),
        }
    }

    /// Converts the record into its message; see [`Self::spec_to_message`].
    pub fn to_message(&self) -> (r: Result<Message>)
        ensures
            r == self.spec_to_message(),
    {
        match CancelReason::from_code(self.cancel_reason) {
            Some(c) => Ok(
                Message {
                    index: self.index,
                    tracking: self.tracking,
                    timestamp: self.timestamp,
                    body: Body::OrderCancelled(
                        OrderCancelled {
                            reason: c,
                            reference: self.ref_no,
                            cancelled: self.qty,
                        },
                    ),
                },
            ),
            None => Err(Error::Syntax),
        }
    }
}

impl OrderDeleteNet {
    /// The message the record stands for, or `Syntax` when an enumerated
    /// byte is outside its set.
    pub open spec fn spec_to_message(self) -> Result<Message> {
        match CancelReason::spec_from_code(self.cancel_reason) {
            Some(c) => Ok(
                Message {
                    index: self.index,
                    tracking: self.tracking,
                    timestamp: self.timestamp,
                    body: Body::OrderDelete(
                        OrderDelete {
                            reason: c,
                            reference: self.ref_no,
                        },
                    ),
                },
            ),
            None => Err(Error::Syntax),
        }
    }

    /// Converts the record into its message; see [`Self::spec_to_message`].
    pub fn to_message(&self) -> (r: Result<Message>)
        ensures
            r == self.spec_to_message(),
    {
        match CancelReason::from_code(self.cancel_reason) {
            Some(c) => Ok(
                Message {
                    index: self.index,
                    tracking: self.tracking,
                    timestamp: self.timestamp,
                    body: Body::OrderDelete(
                        OrderDelete {
                            reason: c,
                            reference: self.ref_no,
                        },
                    ),
                },
            ),
            None => Err(Error::Syntax),
        }
    }
}

impl OrderReplaceNet {
    /// The message the record stands for, or `Syntax` when an enumerated
    /// byte is outside its set.
    pub open spec fn spec_to_message(self) -> Result<Message> {
        Ok(
            Message {
                index: self.index,
                tracking: self.tracking,
                timestamp: self.timestamp,
                body: Body::ReplaceOrder(
                    ReplaceOrder {
                        old_reference: self.ref_no,
                        new_reference: self.new_ref_no,
                        qty: self.qty,
                        price: self.price,
                    },
                ),
            },
        )
    }

    /// Converts the record into its message; see [`Self::spec_to_message`].
    pub fn to_message(&self) -> (r: Result<Message>)
        ensures
            r == self.spec_to_message(),
    {
        Ok(
            Message {
                index: self.index,
                tracking: self.tracking,
                timestamp: self.timestamp,
                body: Body::ReplaceOrder(
                    ReplaceOrder {
                        old_reference: self.ref_no,
                        new_reference: self.new_ref_no,
                        qty: self.qty,
                        price: self.price,
                    },
                ),
            },
        )
    }
}

impl TradeNet {
    /// The message the record stands for, or `Syntax` when an enumerated
    /// byte is outside its set.
    pub open spec fn spec_to_message(self) -> Result<Message> {
        match Side::spec_from_code(self.buy_sell) {
            Some(c) => Ok(
                Message {
                    index: self.index,
                    tracking: self.tracking,
                    timestamp: self.timestamp,
                    body: Body::Trade(
                        Trade {
                            reference: self.ref_no,
                            side: c,
                            qty: self.qty,
                            price: self.price,
                            match_no: self.match_no,
                        },
                    ),
                },
            ),
            None => Err(Error::Syntax),
        }
    }

    /// Converts the record into its message; see [`Self::spec_to_message`].
    pub fn to_message(&self) -> (r: Result<Message>)
        ensures
            r == self.spec_to_message(),
    {
        match Side::from_code(self.buy_sell) {
            Some(c) => Ok(
                Message {
                    index: self.index,
                    tracking: self.tracking,
                    timestamp: self.timestamp,
                    body: Body::Trade(
                        Trade {
                            reference: self.ref_no,
                            side: c,
                            qty: self.qty,
                            price: self.price,
                            match_no: self.match_no,
                        },
                    ),
                },
            ),
            None => Err(Error::Syntax),
        }
    }
}

impl CrossTradeNet {
    /// The message the record stands for, or `Syntax` when an enumerated
    /// byte is outside its set.
    pub open spec fn spec_to_message(self) -> Result<Message> {
        match CrossType::spec_from_code(self.type_) {
            Some(c) => Ok(
                Message {
                    index: self.index,
                    tracking: self.tracking,
                    timestamp: self.timestamp,
                    body: Body::CrossTrade(
                        CrossTrade {
                            qty: self.qty,
                            price: self.price,
                            match_no: self.match_no,
                            cross_type: c,
                            pclose: self.pclose,
                            open_interest: self.open_interest,
                        },
                    ),
                },
            ),
            None => Err(Error::Syntax),
        }
    }

    /// Converts the record into its message; see [`Self::spec_to_message`].
    pub fn to_message(&self) -> (r: Result<Message>)
        ensures
            r == self.spec_to_message(),
    {
        match CrossType::from_code(self.type_) {
            Some(c) => Ok(
                Message {
                    index: self.index,
                    tracking: self.tracking,
                    timestamp: self.timestamp,
                    body: Body::CrossTrade(
                        CrossTrade {
                            qty: self.qty,
                            price: self.price,
                            match_no: self.match_no,
                            cross_type: c,
                            pclose: self.pclose,
                            open_interest: self.open_interest,
                        },
                    ),
                },
            ),
            None => Err(Error::Syntax),
        }
    }
}


/// `b` without its trailing NUL bytes.
pub open spec fn trim_nul(b: Seq<u8>) -> Seq<u8>
    decreases b.len(),
{
    if b.len() > 0 && b.last() == 0 {
        trim_nul(b.drop_last())
    } else {
        b
    }
}

/// The first 16 bytes of `b`, padded with NUL bytes when `b` is shorter.
pub open spec fn pad16(b: Seq<u8>) -> Seq<u8> {
    Seq::new(16, |i: int| if i < b.len() { b[i] } else { 0u8 })
}

/// The symbol field that carries `text`: its UTF-8 bytes, padded or cut to 16.
pub open spec fn symbol_field(text: Seq<char>) -> u128 {
    spec_u128_from_le_bytes(pad16(encode_utf8(text)))
}

impl SymbolDirectoryNet {
    /// The symbol's bytes: the field's 16 bytes without trailing NULs.
    pub open spec fn symbol_bytes(self) -> Seq<u8> {
        trim_nul(spec_u128_to_le_bytes(self.symbol))
    }

    /// Whether `r` is what converting the record gives: `ExpectedString`
    /// when the symbol's bytes are not UTF-8, else the message with their
    /// text as its symbol.
    pub open spec fn converts_to(self, r: Result<Message>) -> bool {
        if valid_utf8(self.symbol_bytes()) {
            &&& r is Ok
            &&& r->Ok_0.index == self.index
            &&& r->Ok_0.tracking == self.tracking
            &&& r->Ok_0.timestamp == self.timestamp
            &&& r->Ok_0.body matches Body::SymbolDirectory(s) && s.symbol@ == decode_utf8(
                self.symbol_bytes(),
            ) && s.market_category == self.market_category && s.classification
                == self.classification && s.precision == self.precision && s.round_lot_size
                == self.lot_size && s.turnover_multi == self.turnover_multi && s.lower_limit
                == self.lower_limit && s.upper_limit == self.upper_limit
        } else {
            r == Err::<Message, Error>(Error::ExpectedString)
        }
    }

    /// Converts the record into its message; see [`Self::converts_to`].
    pub fn to_message(&self) -> (r: Result<Message>)
        ensures
            self.converts_to(r),
    {
        let bytes = u128_to_le_bytes(self.symbol);
        let mut ll: usize = 16;
        assert(bytes@.take(16) =~= bytes@);
        while ll > 0 && bytes[ll - 1] == 0
            invariant
                ll <= 16,
                bytes@.len() == 16,
                bytes@ == spec_u128_to_le_bytes(self.symbol),
                trim_nul(bytes@.take(ll as int)) == trim_nul(bytes@),
            decreases ll,
        {
            assert(bytes@.take(ll as int).drop_last() =~= bytes@.take(ll - 1));
            ll = ll - 1;
        }
        let (head, _) = bytes.as_slice().split_at(ll);
        assert(head@ == self.symbol_bytes());
        match str_from_utf8(head) {
            Some(text) => {
                proof {
                    encode_utf8_decode_utf8(text@);
                }
                Ok(
                    Message {
                        index: self.index,
                        tracking: self.tracking,
                        timestamp: self.timestamp,
                        body: Body::SymbolDirectory(
                            SymbolDirectory {
                                symbol: text.to_owned(),
                                market_category: self.market_category,
                                classification: self.classification,
                                precision: self.precision,
                                round_lot_size: self.lot_size,
                                turnover_multi: self.turnover_multi,
                                lower_limit: self.lower_limit,
                                upper_limit: self.upper_limit,
                            },
                        ),
                    },
                )
            },
            None => Err(Error::ExpectedString),
        }
    }
}

/// The symbol field that carries `text`; see [`symbol_field`].
fn symbol_field_of(text: &String) -> (r: u128)
    ensures
        r == symbol_field(text@),
{
    let b = text.as_str().as_bytes();
    let n: usize = if b.len() > 16 {
        16
    } else {
        b.len()
    };
    let mut arr = [0u8; 16];
    let mut i: usize = 0;
    while i < n
        invariant
            n <= 16,
            n <= b@.len(),
            i <= n,
            forall|j: int| 0 <= j < i ==> arr@[j] == b@[j],
            forall|j: int| i <= j < 16 ==> arr@[j] == 0,
        decreases n - i,
    {
        arr[i] = b[i];
        i = i + 1;
    }
    assert(arr@ =~= pad16(b@));
    u128_from_le_bytes(arr.as_slice())
}

/// What decoding `buf` gives: whether `r` is the result owed on it.
/// A buffer under 8 bytes is `Eof`; an unknown first byte is `Syntax`;
/// otherwise the tag's record must take all of `buf`, and is converted.
pub open spec fn decodes(buf: Seq<u8>, r: Result<Message>) -> bool {
    if buf.len() < 8 {
        r == Err::<Message, Error>(Error::Eof)
    } else     if buf[0] == TAG_SYSTEM_EVENT {
        match parse_exact::<SystemEventNet>(buf) {
            Ok(w) => r == w.spec_to_message(),
            Err(e) => r == Err::<Message, Error>(e),
        }
    } else if buf[0] == TAG_SYMBOL_DIRECTORY {
        match parse_exact::<SymbolDirectoryNet>(buf) {
            Ok(w) => w.converts_to(r),
            Err(e) => r == Err::<Message, Error>(e),
        }
    } else if buf[0] == TAG_TRADING_ACTION {
        match parse_exact::<SymbolTradingActionNet>(buf) {
            Ok(w) => r == w.spec_to_message(),
            Err(e) => r == Err::<Message, Error>(e),
        }
    } else if buf[0] == TAG_ADD_ORDER {
        match parse_exact::<AddOrderNet>(buf) {
            Ok(w) => r == w.spec_to_message(),
            Err(e) => r == Err::<Message, Error>(e),
        }
    } else if buf[0] == TAG_ORDER_EXECUTED {
        match parse_exact::<OrderExecutedNet>(buf) {
            Ok(w) => r == w.spec_to_message(),
            Err(e) => r == Err::<Message, Error>(e),
        }
    } else if buf[0] == TAG_ORDER_EXECUTED_WITH_PRICE {
        match parse_exact::<OrderExecutedWithPriceNet>(buf) {
            Ok(w) => r == w.spec_to_message(),
            Err(e) => r == Err::<Message, Error>(e),
        }
    } else if buf[0] == TAG_ORDER_CANCELLED {
        match parse_exact::<OrderCancelNet>(buf) {
            Ok(w) => r == w.spec_to_message(),
            Err(e) => r == Err::<Message, Error>(e),
        }
    } else if buf[0] == TAG_ORDER_DELETE {
        match parse_exact::<OrderDeleteNet>(buf) {
            Ok(w) => r == w.spec_to_message(),
            Err(e) => r == Err::<Message, Error>(e),
        }
    } else if buf[0] == TAG_REPLACE_ORDER {
        match parse_exact::<OrderReplaceNet>(buf) {
            Ok(w) => r == w.spec_to_message(),
            Err(e) => r == Err::<Message, Error>(e),
        }
    } else if buf[0] == TAG_TRADE {
        match parse_exact::<TradeNet>(buf) {
            Ok(w) => r == w.spec_to_message(),
            Err(e) => r == Err::<Message, Error>(e),
        }
    } else if buf[0] == TAG_CROSS_TRADE {
        match parse_exact::<CrossTradeNet>(buf) {
            Ok(w) => r == w.spec_to_message(),
            Err(e) => r == Err::<Message, Error>(e),
        }
    } else {
        r == Err::<Message, Error>(Error::Syntax)
    }
}

/// The bytes a tag's record takes, or `None` for a byte that is no tag.
pub open spec fn tag_size(tag: u8) -> Option<nat> {
    if tag == TAG_SYSTEM_EVENT {
        Some(14)
    } else if tag == TAG_SYMBOL_DIRECTORY {
        Some(44)
    } else if tag == TAG_TRADING_ACTION {
        Some(12)
    } else if tag == TAG_ADD_ORDER {
        Some(26)
    } else if tag == TAG_ORDER_EXECUTED {
        Some(30)
    } else if tag == TAG_ORDER_EXECUTED_WITH_PRICE {
        Some(34)
    } else if tag == TAG_ORDER_CANCELLED {
        Some(22)
    } else if tag == TAG_ORDER_DELETE {
        Some(18)
    } else if tag == TAG_REPLACE_ORDER {
        Some(33)
    } else if tag == TAG_TRADE {
        Some(34)
    } else if tag == TAG_CROSS_TRADE {
        Some(34)
    } else {
        None
    }
}

/// Decodes one message from `buf`, which must hold exactly its record.
pub fn from_bytes(buf: &[u8]) -> (r: Result<Message>)
    ensures
        decodes(buf@, r),
{
    if buf.len() < 8 {
        return Err(Error::Eof);
    }
    if buf[0] == TAG_SYSTEM_EVENT {
        let w: SystemEventNet = de_from_bytes(buf)?;
        return w.to_message();
    }
    if buf[0] == TAG_SYMBOL_DIRECTORY {
        let w: SymbolDirectoryNet = de_from_bytes(buf)?;
        return w.to_message();
    }
    if buf[0] == TAG_TRADING_ACTION {
        let w: SymbolTradingActionNet = de_from_bytes(buf)?;
        return w.to_message();
    }
    if buf[0] == TAG_ADD_ORDER {
        let w: AddOrderNet = de_from_bytes(buf)?;
        return w.to_message();
    }
    if buf[0] == TAG_ORDER_EXECUTED {
        let w: OrderExecutedNet = de_from_bytes(buf)?;
        return w.to_message();
    }
    if buf[0] == TAG_ORDER_EXECUTED_WITH_PRICE {
        let w: OrderExecutedWithPriceNet = de_from_bytes(buf)?;
        return w.to_message();
    }
    if buf[0] == TAG_ORDER_CANCELLED {
        let w: OrderCancelNet = de_from_bytes(buf)?;
        return w.to_message();
    }
    if buf[0] == TAG_ORDER_DELETE {
        let w: OrderDeleteNet = de_from_bytes(buf)?;
        return w.to_message();
    }
    if buf[0] == TAG_REPLACE_ORDER {
        let w: OrderReplaceNet = de_from_bytes(buf)?;
        return w.to_message();
    }
    if buf[0] == TAG_TRADE {
        let w: TradeNet = de_from_bytes(buf)?;
        return w.to_message();
    }
    if buf[0] == TAG_CROSS_TRADE {
        let w: CrossTradeNet = de_from_bytes(buf)?;
        return w.to_message();
    }
    Err(Error::Syntax)
}

/// The bytes that encode `m`: its record with the tag of its body.
pub open spec fn message_wire(m: Message) -> Seq<u8> {
    match m.body {
        Body::SystemEvent(s) => SystemEventNet::wire(
            SystemEventNet {
                tag: TAG_SYSTEM_EVENT,
                index: m.index,
                tracking: m.tracking,
                timestamp: m.timestamp,
                event_code: s.event.spec_code(),
                time_hours: s.time_hours,
            },
        ),
        Body::TradingAction(s) => SymbolTradingActionNet::wire(
            SymbolTradingActionNet {
                tag: TAG_TRADING_ACTION,
                index: m.index,
                tracking: m.tracking,
                timestamp: m.timestamp,
                trading_state: s.trading_state.spec_code(),
                reason: s.reason,
            },
        ),
        Body::AddOrder(s) => AddOrderNet::wire(
            AddOrderNet {
                tag: TAG_ADD_ORDER,
                index: m.index,
                tracking: m.tracking,
                timestamp: m.timestamp,
                buy_sell: s.side.spec_code(),
                ref_no: s.reference,
                qty: s.qty,
                price: s.price,
            },
        ),
        Body::OrderExecuted(s) => OrderExecutedNet::wire(
            OrderExecutedNet {
                tag: TAG_ORDER_EXECUTED,
                index: m.index,
                tracking: m.tracking,
                timestamp: m.timestamp,
                printable: s.printable,
                ref_no: s.reference,
                qty: s.qty,
                match_no: s.match_no,
            },
        ),
        Body::OrderExecutedWithPrice(s) => OrderExecutedWithPriceNet::wire(
            OrderExecutedWithPriceNet {
                tag: TAG_ORDER_EXECUTED_WITH_PRICE,
                index: m.index,
                tracking: m.tracking,
                timestamp: m.timestamp,
                printable: s.printable,
                ref_no: s.reference,
                qty: s.qty,
                price: s.price,
                match_no: s.match_no,
            },
        ),
        Body::OrderCancelled(s) => OrderCancelNet::wire(
            OrderCancelNet {
                tag: TAG_ORDER_CANCELLED,
                index: m.index,
                tracking: m.tracking,
                timestamp: m.timestamp,
                cancel_reason: s.reason.spec_code(),
                ref_no: s.reference,
                qty: s.cancelled,
            },
        ),
        Body::OrderDelete(s) => OrderDeleteNet::wire(
            OrderDeleteNet {
                tag: TAG_ORDER_DELETE,
                index: m.index,
                tracking: m.tracking,
                timestamp: m.timestamp,
                cancel_reason: s.reason.spec_code(),
                ref_no: s.reference,
            },
        ),
        Body::ReplaceOrder(s) => OrderReplaceNet::wire(
            OrderReplaceNet {
                tag: TAG_REPLACE_ORDER,
                index: m.index,
                tracking: m.tracking,
                timestamp: m.timestamp,
                ref_no: s.old_reference,
                new_ref_no: s.new_reference,
                qty: s.qty,
                price: s.price,
            },
        ),
        Body::Trade(s) => TradeNet::wire(
            TradeNet {
                tag: TAG_TRADE,
                index: m.index,
                tracking: m.tracking,
                timestamp: m.timestamp,
                buy_sell: s.side.spec_code(),
                ref_no: s.reference,
                qty: s.qty,
                price: s.price,
                match_no: s.match_no,
            },
        ),
        Body::CrossTrade(s) => CrossTradeNet::wire(
            CrossTradeNet {
                tag: TAG_CROSS_TRADE,
                index: m.index,
                tracking: m.tracking,
                timestamp: m.timestamp,
                type_: s.cross_type.spec_code(),
                qty: s.qty,
                price: s.price,
                match_no: s.match_no,
                pclose: s.pclose,
                open_interest: s.open_interest,
            },
        ),
        Body::SymbolDirectory(s) => SymbolDirectoryNet::wire(
            SymbolDirectoryNet {
                tag: TAG_SYMBOL_DIRECTORY,
                market_category: s.market_category,
                symbol: symbol_field(s.symbol@),
                classification: s.classification,
                precision: s.precision,
                index: m.index,
                tracking: m.tracking,
                timestamp: m.timestamp,
                lot_size: s.round_lot_size,
                turnover_multi: s.turnover_multi,
                lower_limit: s.lower_limit,
                upper_limit: s.upper_limit,
            },
        ),
    }
}

/// Encodes a message; a symbol longer than 16 bytes is cut to 16.
pub fn to_bytes(v: &Message) -> (r: Result<Vec<u8>>)
    ensures
        r is Ok,
        r->Ok_0@ == message_wire(*v),
{
    match &v.body {
        Body::SystemEvent(s) => ser_to_bytes(
            &SystemEventNet {
                tag: TAG_SYSTEM_EVENT,
                index: v.index,
                tracking: v.tracking,
                timestamp: v.timestamp,
                event_code: s.event.code(),
                time_hours: s.time_hours,
            },
        ),
        Body::TradingAction(s) => ser_to_bytes(
            &SymbolTradingActionNet {
                tag: TAG_TRADING_ACTION,
                index: v.index,
                tracking: v.tracking,
                timestamp: v.timestamp,
                trading_state: s.trading_state.code(),
                reason: s.reason,
            },
        ),
        Body::AddOrder(s) => ser_to_bytes(
            &AddOrderNet {
                tag: TAG_ADD_ORDER,
                index: v.index,
                tracking: v.tracking,
                timestamp: v.timestamp,
                buy_sell: s.side.code(),
                ref_no: s.reference,
                qty: s.qty,
                price: s.price,
            },
        ),
        Body::OrderExecuted(s) => ser_to_bytes(
            &OrderExecutedNet {
                tag: TAG_ORDER_EXECUTED,
                index: v.index,
                tracking: v.tracking,
                timestamp: v.timestamp,
                printable: s.printable,
                ref_no: s.reference,
                qty: s.qty,
                match_no: s.match_no,
            },
        ),
        Body::OrderExecutedWithPrice(s) => ser_to_bytes(
            &OrderExecutedWithPriceNet {
                tag: TAG_ORDER_EXECUTED_WITH_PRICE,
                index: v.index,
                tracking: v.tracking,
                timestamp: v.timestamp,
                printable: s.printable,
                ref_no: s.reference,
                qty: s.qty,
                price: s.price,
                match_no: s.match_no,
            },
        ),
        Body::OrderCancelled(s) => ser_to_bytes(
            &OrderCancelNet {
                tag: TAG_ORDER_CANCELLED,
                index: v.index,
                tracking: v.tracking,
                timestamp: v.timestamp,
                cancel_reason: s.reason.code(),
                ref_no: s.reference,
                qty: s.cancelled,
            },
        ),
        Body::OrderDelete(s) => ser_to_bytes(
            &OrderDeleteNet {
                tag: TAG_ORDER_DELETE,
                index: v.index,
                tracking: v.tracking,
                timestamp: v.timestamp,
                cancel_reason: s.reason.code(),
                ref_no: s.reference,
            },
        ),
        Body::ReplaceOrder(s) => ser_to_bytes(
            &OrderReplaceNet {
                tag: TAG_REPLACE_ORDER,
                index: v.index,
                tracking: v.tracking,
                timestamp: v.timestamp,
                ref_no: s.old_reference,
                new_ref_no: s.new_reference,
                qty: s.qty,
                price: s.price,
            },
        ),
        Body::Trade(s) => ser_to_bytes(
            &TradeNet {
                tag: TAG_TRADE,
                index: v.index,
                tracking: v.tracking,
                timestamp: v.timestamp,
                buy_sell: s.side.code(),
                ref_no: s.reference,
                qty: s.qty,
                price: s.price,
                match_no: s.match_no,
            },
        ),
        Body::CrossTrade(s) => ser_to_bytes(
            &CrossTradeNet {
                tag: TAG_CROSS_TRADE,
                index: v.index,
                tracking: v.tracking,
                timestamp: v.timestamp,
                type_: s.cross_type.code(),
                qty: s.qty,
                price: s.price,
                match_no: s.match_no,
                pclose: s.pclose,
                open_interest: s.open_interest,
            },
        ),
        Body::SymbolDirectory(s) => ser_to_bytes(
            &SymbolDirectoryNet {
                tag: TAG_SYMBOL_DIRECTORY,
                market_category: s.market_category,
                symbol: symbol_field_of(&s.symbol),
                classification: s.classification,
                precision: s.precision,
                index: v.index,
                tracking: v.tracking,
                timestamp: v.timestamp,
                lot_size: s.round_lot_size,
                turnover_multi: s.turnover_multi,
                lower_limit: s.lower_limit,
                upper_limit: s.upper_limit,
            },
        ),
    }
}

/// Whether the wire layout carries `m` unchanged: a symbol must take at
/// most 16 bytes of UTF-8 and must not end in a NUL.
pub open spec fn wire_compatible(m: Message) -> bool {
    match m.body {
        Body::SymbolDirectory(s) => {
            let b = encode_utf8(s.symbol@);
            b.len() <= 16 && (b.len() > 0 ==> b.last() != 0)
        },
        _ => true,
    }
}

proof fn lemma_trim_pad_from(b: Seq<u8>, k: nat)
    requires
        b.len() <= k <= 16,
        b.len() > 0 ==> b.last() != 0,
    ensures
        trim_nul(pad16(b).take(k as int)) == b,
    decreases k,
{
    if k == b.len() {
        assert(pad16(b).take(k as int) =~= b);
    } else {
        assert(pad16(b).take(k as int).drop_last() =~= pad16(b).take(k - 1));
        lemma_trim_pad_from(b, (k - 1) as nat);
    }
}

/// Trimming the NUL padding of a padded symbol gives its bytes back.
proof fn lemma_trim_pad(b: Seq<u8>)
    requires
        b.len() <= 16,
        b.len() > 0 ==> b.last() != 0,
    ensures
        trim_nul(pad16(b)) == b,
{
    lemma_trim_pad_from(b, 16);
    assert(pad16(b).take(16) =~= pad16(b));
}

/// Encoding a message and decoding the bytes gives the message back, for
/// every message the wire layout can carry.
pub proof fn lemma_pitch_round_trip(m: Message)
    requires
        wire_compatible(m),
    ensures
        decodes(message_wire(m), Ok(m)),
{
    match m.body {
        Body::SystemEvent(s) => {
            let w = SystemEventNet {
                tag: TAG_SYSTEM_EVENT,
                index: m.index,
                tracking: m.tracking,
                timestamp: m.timestamp,
                event_code: s.event.spec_code(),
                time_hours: s.time_hours,
            };
            SystemEventNet::lemma_round_trip(w, Seq::empty());
            let bytes = SystemEventNet::wire(w);
            assert(bytes + Seq::<u8>::empty() =~= bytes);
            s.event.lemma_code_round_trip();
        },
        Body::TradingAction(s) => {
            let w = SymbolTradingActionNet {
                tag: TAG_TRADING_ACTION,
                index: m.index,
                tracking: m.tracking,
                timestamp: m.timestamp,
                trading_state: s.trading_state.spec_code(),
                reason: s.reason,
            };
            SymbolTradingActionNet::lemma_round_trip(w, Seq::empty());
            let bytes = SymbolTradingActionNet::wire(w);
            assert(bytes + Seq::<u8>::empty() =~= bytes);
            s.trading_state.lemma_code_round_trip();
        },
        Body::AddOrder(s) => {
            let w = AddOrderNet {
                tag: TAG_ADD_ORDER,
                index: m.index,
                tracking: m.tracking,
                timestamp: m.timestamp,
                buy_sell: s.side.spec_code(),
                ref_no: s.reference,
                qty: s.qty,
                price: s.price,
            };
            AddOrderNet::lemma_round_trip(w, Seq::empty());
            let bytes = AddOrderNet::wire(w);
            assert(bytes + Seq::<u8>::empty() =~= bytes);
            s.side.lemma_code_round_trip();
        },
        Body::OrderExecuted(s) => {
            let w = OrderExecutedNet {
                tag: TAG_ORDER_EXECUTED,
                index: m.index,
                tracking: m.tracking,
                timestamp: m.timestamp,
                printable: s.printable,
                ref_no: s.reference,
                qty: s.qty,
                match_no: s.match_no,
            };
            OrderExecutedNet::lemma_round_trip(w, Seq::empty());
            let bytes = OrderExecutedNet::wire(w);
            assert(bytes + Seq::<u8>::empty() =~= bytes);
        },
        Body::OrderExecutedWithPrice(s) => {
            let w = OrderExecutedWithPriceNet {
                tag: TAG_ORDER_EXECUTED_WITH_PRICE,
                index: m.index,
                tracking: m.tracking,
                timestamp: m.timestamp,
                printable: s.printable,
                ref_no: s.reference,
                qty: s.qty,
                price: s.price,
                match_no: s.match_no,
            };
            OrderExecutedWithPriceNet::lemma_round_trip(w, Seq::empty());
            let bytes = OrderExecutedWithPriceNet::wire(w);
            assert(bytes + Seq::<u8>::empty() =~= bytes);
        },
        Body::OrderCancelled(s) => {
            let w = OrderCancelNet {
                tag: TAG_ORDER_CANCELLED,
                index: m.index,
                tracking: m.tracking,
                timestamp: m.timestamp,
                cancel_reason: s.reason.spec_code(),
                ref_no: s.reference,
                qty: s.cancelled,
            };
            OrderCancelNet::lemma_round_trip(w, Seq::empty());
            let bytes = OrderCancelNet::wire(w);
            assert(bytes + Seq::<u8>::empty() =~= bytes);
            s.reason.lemma_code_round_trip();
        },
        Body::OrderDelete(s) => {
            let w = OrderDeleteNet {
                tag: TAG_ORDER_DELETE,
                index: m.index,
                tracking: m.tracking,
                timestamp: m.timestamp,
                cancel_reason: s.reason.spec_code(),
                ref_no: s.reference,
            };
            OrderDeleteNet::lemma_round_trip(w, Seq::empty());
            let bytes = OrderDeleteNet::wire(w);
            assert(bytes + Seq::<u8>::empty() =~= bytes);
            s.reason.lemma_code_round_trip();
        },
        Body::ReplaceOrder(s) => {
            let w = OrderReplaceNet {
                tag: TAG_REPLACE_ORDER,
                index: m.index,
                tracking: m.tracking,
                timestamp: m.timestamp,
                ref_no: s.old_reference,
                new_ref_no: s.new_reference,
                qty: s.qty,
                price: s.price,
            };
            OrderReplaceNet::lemma_round_trip(w, Seq::empty());
            let bytes = OrderReplaceNet::wire(w);
            assert(bytes + Seq::<u8>::empty() =~= bytes);
        },
        Body::Trade(s) => {
            let w = TradeNet {
                tag: TAG_TRADE,
                index: m.index,
                tracking: m.tracking,
                timestamp: m.timestamp,
                buy_sell: s.side.spec_code(),
                ref_no: s.reference,
                qty: s.qty,
                price: s.price,
                match_no: s.match_no,
            };
            TradeNet::lemma_round_trip(w, Seq::empty());
            let bytes = TradeNet::wire(w);
            assert(bytes + Seq::<u8>::empty() =~= bytes);
            s.side.lemma_code_round_trip();
        },
        Body::CrossTrade(s) => {
            let w = CrossTradeNet {
                tag: TAG_CROSS_TRADE,
                index: m.index,
                tracking: m.tracking,
                timestamp: m.timestamp,
                type_: s.cross_type.spec_code(),
                qty: s.qty,
                price: s.price,
                match_no: s.match_no,
                pclose: s.pclose,
                open_interest: s.open_interest,
            };
            CrossTradeNet::lemma_round_trip(w, Seq::empty());
            let bytes = CrossTradeNet::wire(w);
            assert(bytes + Seq::<u8>::empty() =~= bytes);
            s.cross_type.lemma_code_round_trip();
        },
        Body::SymbolDirectory(s) => {
            let e = encode_utf8(s.symbol@);
            let w = SymbolDirectoryNet {
                tag: TAG_SYMBOL_DIRECTORY,
                market_category: s.market_category,
                symbol: symbol_field(s.symbol@),
                classification: s.classification,
                precision: s.precision,
                index: m.index,
                tracking: m.tracking,
                timestamp: m.timestamp,
                lot_size: s.round_lot_size,
                turnover_multi: s.turnover_multi,
                lower_limit: s.lower_limit,
                upper_limit: s.upper_limit,
            };
            SymbolDirectoryNet::lemma_round_trip(w, Seq::empty());
            let bytes = SymbolDirectoryNet::wire(w);
            assert(bytes + Seq::<u8>::empty() =~= bytes);
            lemma_auto_spec_u128_to_from_le_bytes();
            assert(pad16(e).len() == 16);
            assert(spec_u128_to_le_bytes(w.symbol) == pad16(e));
            lemma_trim_pad(e);
            encode_utf8_valid_utf8(s.symbol@);
            encode_utf8_decode_utf8(s.symbol@);
        },
    }
}

/// A buffer under 8 bytes is `Eof`, whatever its first byte.
pub proof fn lemma_short_input(buf: Seq<u8>, r: Result<Message>)
    requires
        buf.len() < 8,
        decodes(buf, r),
    ensures
        r == Err::<Message, Error>(Error::Eof),
{
}

/// A buffer of 8 bytes or more whose first byte is no tag is `Syntax`.
pub proof fn lemma_unknown_tag(buf: Seq<u8>, r: Result<Message>)
    requires
        buf.len() >= 8,
        tag_size(buf[0]) is None,
        decodes(buf, r),
    ensures
        r == Err::<Message, Error>(Error::Syntax),
{
}

/// A record takes exactly its tag's byte count: fewer bytes are `Eof`, and
/// any byte after the record is `TrailingCharacters`.
pub proof fn lemma_exact_length(buf: Seq<u8>, r: Result<Message>)
    requires
        buf.len() >= 8,
        tag_size(buf[0]) is Some,
        decodes(buf, r),
    ensures
        buf.len() < tag_size(buf[0])->Some_0 ==> r == Err::<Message, Error>(Error::Eof),
        buf.len() > tag_size(buf[0])->Some_0 ==> r == Err::<Message, Error>(
            Error::TrailingCharacters,
        ),
        buf.len() == tag_size(buf[0])->Some_0 ==> r != Err::<Message, Error>(Error::Eof) && r
            != Err::<Message, Error>(Error::TrailingCharacters),
{
}

proof fn lemma_trim_nul_last(b: Seq<u8>)
    ensures
        trim_nul(b).len() > 0 ==> trim_nul(b).last() != 0,
    decreases b.len(),
{
    if b.len() > 0 && b.last() == 0 {
        lemma_trim_nul_last(b.drop_last());
    }
}

/// A decoded symbol is the UTF-8 text of the symbol field's bytes without
/// their NUL padding, and ends in no NUL.
pub proof fn lemma_symbol_text(buf: Seq<u8>, r: Result<Message>)
    requires
        buf.len() >= 8,
        buf[0] == TAG_SYMBOL_DIRECTORY,
        decodes(buf, r),
        r is Ok,
    ensures
        r->Ok_0.body matches Body::SymbolDirectory(s) && encode_utf8(s.symbol@) == trim_nul(
            buf.subrange(2, 18),
        ) && (encode_utf8(s.symbol@).len() > 0 ==> encode_utf8(s.symbol@).last() != 0),
{
    let w = SymbolDirectoryNet::parse(buf)->Ok_0.0;
    lemma_auto_spec_u128_to_from_le_bytes();
    assert(spec_u128_to_le_bytes(w.symbol) == buf.subrange(2, 18));
    decode_utf8_encode_utf8(w.symbol_bytes());
    lemma_trim_nul_last(buf.subrange(2, 18));
}

} // verus!
