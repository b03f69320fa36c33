//! Wire layouts: one fixed-width little-endian record per message tag.
use vstd::bytes::*;
use vstd::prelude::*;

use super::enums::{CancelReason, CrossType, EventCode, Side, TradingState};
use crate::codec::{
    le_u128_at, le_u16_at, le_u32_at, le_u64_at, Decode, Deserializer, Encode, Error, Result,
    Serializer,
};

verus! {

/// The tag byte of [`SystemEventNet`].
pub const TAG_SYSTEM_EVENT: u8 = 83; // 'S'

/// The tag byte of [`SymbolDirectoryNet`].
pub const TAG_SYMBOL_DIRECTORY: u8 = 82; // 'R'

/// The tag byte of [`SymbolTradingActionNet`].
pub const TAG_TRADING_ACTION: u8 = 72; // 'H'

/// The tag byte of [`AddOrderNet`].
pub const TAG_ADD_ORDER: u8 = 65; // 'A'

/// The tag byte of [`OrderExecutedNet`].
pub const TAG_ORDER_EXECUTED: u8 = 69; // 'E'

/// The tag byte of [`OrderExecutedWithPriceNet`].
pub const TAG_ORDER_EXECUTED_WITH_PRICE: u8 = 67; // 'C'

/// The tag byte of [`OrderCancelNet`].
pub const TAG_ORDER_CANCELLED: u8 = 88; // 'X'

/// The tag byte of [`OrderDeleteNet`].
pub const TAG_ORDER_DELETE: u8 = 68; // 'D'

/// The tag byte of [`OrderReplaceNet`].
pub const TAG_REPLACE_ORDER: u8 = 85; // 'U'

/// The tag byte of [`TradeNet`].
pub const TAG_TRADE: u8 = 80; // 'P'

/// The tag byte of [`CrossTradeNet`].
pub const TAG_CROSS_TRADE: u8 = 81; // 'Q'

proof fn lemma_i8_bits(v: i8)
    ensures
        (v as u8) as i8 == v,
{
    assert((v as u8) as i8 == v) by (bit_vector);
}

proof fn lemma_i32_bits(v: i32)
    ensures
        (v as u32) as i32 == v,
{
    assert((v as u32) as i32 == v) by (bit_vector);
}


/// The wire layout of a system event.
/// Its 14 bytes hold the fields in order, with no padding.
#[derive(Debug, Clone, Copy, Default, PartialEq, Eq)]
pub struct SystemEventNet {
    pub tag: u8,
    pub event_code: u8,
    pub index: u16,
    pub tracking: u16,
    pub time_hours: u32,
    pub timestamp: u32,
}

impl SystemEventNet {
    /// Bytes the record takes on the wire.
    pub const SIZE: usize = 14;
}

impl DeepView for SystemEventNet {
    type V = SystemEventNet;

    open spec fn deep_view(&self) -> SystemEventNet {
        *self
    }
}

impl Decode for SystemEventNet {
    /// `Eof` on fewer than 14 bytes, else the fields at their offsets.
    open spec fn parse(input: Seq<u8>) -> Result<(SystemEventNet, nat)> {
        if input.len() < 14 {
            Err(Error::Eof)
        } else {
            Ok(
                (
                    SystemEventNet {
                        tag: input[0],
                        event_code: input[1],
                        index: spec_u16_from_le_bytes(input.subrange(2, 4)),
                        tracking: spec_u16_from_le_bytes(input.subrange(4, 6)),
                        time_hours: spec_u32_from_le_bytes(input.subrange(6, 10)),
                        timestamp: spec_u32_from_le_bytes(input.subrange(10, 14)),
                    },
                    14,
                ),
            )
        }
    }

    proof fn lemma_parse_len(input: Seq<u8>) {
    }

    fn decode<'de>(de: &mut Deserializer<'de>) -> (r: Result<SystemEventNet>) {
        let ghost input = de@;
        let b = de.next_bytes(14)?;
        proof {
            assert(b@.subrange(2, 4) =~= input.subrange(2, 4));
            assert(b@.subrange(4, 6) =~= input.subrange(4, 6));
            assert(b@.subrange(6, 10) =~= input.subrange(6, 10));
            assert(b@.subrange(10, 14) =~= input.subrange(10, 14));
        }
        Ok(
            SystemEventNet {
                tag: b[0],
                event_code: b[1],
                index: le_u16_at(b, 2),
                tracking: le_u16_at(b, 4),
                time_hours: le_u32_at(b, 6),
                timestamp: le_u32_at(b, 10),
            },
        )
    }
}

impl Encode for SystemEventNet {
    open spec fn fits(v: SystemEventNet) -> bool {
        true
    }

    open spec fn wire(v: SystemEventNet) -> Seq<u8> {
        seq![v.tag]
            + seq![v.event_code]
            + spec_u16_to_le_bytes(v.index)
            + spec_u16_to_le_bytes(v.tracking)
            + spec_u32_to_le_bytes(v.time_hours)
            + spec_u32_to_le_bytes(v.timestamp)
    }

    proof fn lemma_round_trip(v: SystemEventNet, rest: Seq<u8>) {
        lemma_auto_spec_u16_to_from_le_bytes();
        lemma_auto_spec_u32_to_from_le_bytes();
        let input = Self::wire(v) + rest;
        assert(Self::wire(v).len() == 14);
        assert(input[0] == seq![v.tag][0]);
        assert(input[1] == seq![v.event_code][0]);
        assert(input.subrange(2, 4) =~= spec_u16_to_le_bytes(v.index));
        assert(input.subrange(4, 6) =~= spec_u16_to_le_bytes(v.tracking));
        assert(input.subrange(6, 10) =~= spec_u32_to_le_bytes(v.time_hours));
        assert(input.subrange(10, 14) =~= spec_u32_to_le_bytes(v.timestamp));
    }

    fn encode(&self, ser: &mut Serializer) -> (r: Result<()>) {
        ser.put_u8(self.tag);
        ser.put_u8(self.event_code);
        ser.put_u16(self.index);
        ser.put_u16(self.tracking);
        ser.put_u32(self.time_hours);
        ser.put_u32(self.timestamp);
        assert(ser@ =~= old(ser)@ + Self::wire(*self));
        Ok(())
    }
}

/// The wire layout of a symbol directory entry; the symbol field holds
/// 16 bytes, padded with NULs.
/// Its 44 bytes hold the fields in order, with no padding.
#[derive(Debug, Clone, Copy, Default, PartialEq, Eq)]
pub struct SymbolDirectoryNet {
    pub tag: u8,
    pub market_category: u8,
    pub symbol: u128,
    pub classification: u8,
    pub precision: i8,
    pub index: u16,
    pub tracking: u16,
    pub timestamp: u32,
    pub lot_size: u32,
    pub turnover_multi: u32,
    pub lower_limit: i32,
    pub upper_limit: i32,
}

impl SymbolDirectoryNet {
    /// Bytes the record takes on the wire.
    pub const SIZE: usize = 44;
}

impl DeepView for SymbolDirectoryNet {
    type V = SymbolDirectoryNet;

    open spec fn deep_view(&self) -> SymbolDirectoryNet {
        *self
    }
}

impl Decode for SymbolDirectoryNet {
    /// `Eof` on fewer than 44 bytes, else the fields at their offsets.
    open spec fn parse(input: Seq<u8>) -> Result<(SymbolDirectoryNet, nat)> {
        if input.len() < 44 {
            Err(Error::Eof)
        } else {
            Ok(
                (
                    SymbolDirectoryNet {
                        tag: input[0],
                        market_category: input[1],
                        symbol: spec_u128_from_le_bytes(input.subrange(2, 18)),
                        classification: input[18],
                        precision: input[19] as i8,
                        index: spec_u16_from_le_bytes(input.subrange(20, 22)),
                        tracking: spec_u16_from_le_bytes(input.subrange(22, 24)),
                        timestamp: spec_u32_from_le_bytes(input.subrange(24, 28)),
                        lot_size: spec_u32_from_le_bytes(input.subrange(28, 32)),
                        turnover_multi: spec_u32_from_le_bytes(input.subrange(32, 36)),
                        lower_limit: spec_u32_from_le_bytes(input.subrange(36, 40)) as i32,
                        upper_limit: spec_u32_from_le_bytes(input.subrange(40, 44)) as i32,
                    },
                    44,
                ),
            )
        }
    }

    proof fn lemma_parse_len(input: Seq<u8>) {
    }

    fn decode<'de>(de: &mut Deserializer<'de>) -> (r: Result<SymbolDirectoryNet>) {
        let ghost input = de@;
        let b = de.next_bytes(44)?;
        proof {
            assert(b@.subrange(2, 18) =~= input.subrange(2, 18));
            assert(b@.subrange(20, 22) =~= input.subrange(20, 22));
            assert(b@.subrange(22, 24) =~= input.subrange(22, 24));
            assert(b@.subrange(24, 28) =~= input.subrange(24, 28));
            assert(b@.subrange(28, 32) =~= input.subrange(28, 32));
            assert(b@.subrange(32, 36) =~= input.subrange(32, 36));
            assert(b@.subrange(36, 40) =~= input.subrange(36, 40));
            assert(b@.subrange(40, 44) =~= input.subrange(40, 44));
        }
        Ok(
            SymbolDirectoryNet {
                tag: b[0],
                market_category: b[1],
                symbol: le_u128_at(b, 2),
                classification: b[18],
                precision: b[19] as i8,
                index: le_u16_at(b, 20),
                tracking: le_u16_at(b, 22),
                timestamp: le_u32_at(b, 24),
                lot_size: le_u32_at(b, 28),
                turnover_multi: le_u32_at(b, 32),
                lower_limit: le_u32_at(b, 36) as i32,
                upper_limit: le_u32_at(b, 40) as i32,
            },
        )
    }
}

impl Encode for SymbolDirectoryNet {
    open spec fn fits(v: SymbolDirectoryNet) -> bool {
        true
    }

    open spec fn wire(v: SymbolDirectoryNet) -> Seq<u8> {
        seq![v.tag]
            + seq![v.market_category]
            + spec_u128_to_le_bytes(v.symbol)
            + seq![v.classification]
            + seq![v.precision as u8]
            + spec_u16_to_le_bytes(v.index)
            + spec_u16_to_le_bytes(v.tracking)
            + spec_u32_to_le_bytes(v.timestamp)
            + spec_u32_to_le_bytes(v.lot_size)
            + spec_u32_to_le_bytes(v.turnover_multi)
            + spec_u32_to_le_bytes(v.lower_limit as u32)
            + spec_u32_to_le_bytes(v.upper_limit as u32)
    }

    proof fn lemma_round_trip(v: SymbolDirectoryNet, rest: Seq<u8>) {
        lemma_auto_spec_u128_to_from_le_bytes();
        lemma_auto_spec_u16_to_from_le_bytes();
        lemma_auto_spec_u32_to_from_le_bytes();
        lemma_i8_bits(v.precision);
        lemma_i32_bits(v.lower_limit);
        lemma_i32_bits(v.upper_limit);
        let input = Self::wire(v) + rest;
        assert(Self::wire(v).len() == 44);
        assert(input[0] == seq![v.tag][0]);
        assert(input[1] == seq![v.market_category][0]);
        assert(input.subrange(2, 18) =~= spec_u128_to_le_bytes(v.symbol));
        assert(input[18] == seq![v.classification][0]);
        assert(input[19] == seq![v.precision as u8][0]);
        assert(input.subrange(20, 22) =~= spec_u16_to_le_bytes(v.index));
        assert(input.subrange(22, 24) =~= spec_u16_to_le_bytes(v.tracking));
        assert(input.subrange(24, 28) =~= spec_u32_to_le_bytes(v.timestamp));
        assert(input.subrange(28, 32) =~= spec_u32_to_le_bytes(v.lot_size));
        assert(input.subrange(32, 36) =~= spec_u32_to_le_bytes(v.turnover_multi));
        assert(input.subrange(36, 40) =~= spec_u32_to_le_bytes(v.lower_limit as u32));
        assert(input.subrange(40, 44) =~= spec_u32_to_le_bytes(v.upper_limit as u32));
    }

    fn encode(&self, ser: &mut Serializer) -> (r: Result<()>) {
        ser.put_u8(self.tag);
        ser.put_u8(self.market_category);
        ser.put_u128(self.symbol);
        ser.put_u8(self.classification);
        ser.put_u8(self.precision as u8);
        ser.put_u16(self.index);
        ser.put_u16(self.tracking);
        ser.put_u32(self.timestamp);
        ser.put_u32(self.lot_size);
        ser.put_u32(self.turnover_multi);
        ser.put_u32(self.lower_limit as u32);
        ser.put_u32(self.upper_limit as u32);
        assert(ser@ =~= old(ser)@ + Self::wire(*self));
        Ok(())
    }
}

/// The wire layout of a trading action.
/// Its 12 bytes hold the fields in order, with no padding.
#[derive(Debug, Clone, Copy, Default, PartialEq, Eq)]
pub struct SymbolTradingActionNet {
    pub tag: u8,
    pub trading_state: u8,
    pub reason: u16,
    pub index: u16,
    pub tracking: u16,
    pub timestamp: u32,
}

impl SymbolTradingActionNet {
    /// Bytes the record takes on the wire.
    pub const SIZE: usize = 12;
}

impl DeepView for SymbolTradingActionNet {
    type V = SymbolTradingActionNet;

    open spec fn deep_view(&self) -> SymbolTradingActionNet {
        *self
    }
}

impl Decode for SymbolTradingActionNet {
    /// `Eof` on fewer than 12 bytes, else the fields at their offsets.
    open spec fn parse(input: Seq<u8>) -> Result<(SymbolTradingActionNet, nat)> {
        if input.len() < 12 {
            Err(Error::Eof)
        } else {
            Ok(
                (
                    SymbolTradingActionNet {
                        tag: input[0],
                        trading_state: input[1],
                        reason: spec_u16_from_le_bytes(input.subrange(2, 4)),
                        index: spec_u16_from_le_bytes(input.subrange(4, 6)),
                        tracking: spec_u16_from_le_bytes(input.subrange(6, 8)),
                        timestamp: spec_u32_from_le_bytes(input.subrange(8, 12)),
                    },
                    12,
                ),
            )
        }
    }

    proof fn lemma_parse_len(input: Seq<u8>) {
    }

    fn decode<'de>(de: &mut Deserializer<'de>) -> (r: Result<SymbolTradingActionNet>) {
        let ghost input = de@;
        let b = de.next_bytes(12)?;
        proof {
            assert(b@.subrange(2, 4) =~= input.subrange(2, 4));
            assert(b@.subrange(4, 6) =~= input.subrange(4, 6));
            assert(b@.subrange(6, 8) =~= input.subrange(6, 8));
            assert(b@.subrange(8, 12) =~= input.subrange(8, 12));
        }
        Ok(
            SymbolTradingActionNet {
                tag: b[0],
                trading_state: b[1],
                reason: le_u16_at(b, 2),
                index: le_u16_at(b, 4),
                tracking: le_u16_at(b, 6),
                timestamp: le_u32_at(b, 8),
            },
        )
    }
}

impl Encode for SymbolTradingActionNet {
    open spec fn fits(v: SymbolTradingActionNet) -> bool {
        true
    }

    open spec fn wire(v: SymbolTradingActionNet) -> Seq<u8> {
        seq![v.tag]
            + seq![v.trading_state]
            + spec_u16_to_le_bytes(v.reason)
            + spec_u16_to_le_bytes(v.index)
            + spec_u16_to_le_bytes(v.tracking)
            + spec_u32_to_le_bytes(v.timestamp)
    }

    proof fn lemma_round_trip(v: SymbolTradingActionNet, rest: Seq<u8>) {
        lemma_auto_spec_u16_to_from_le_bytes();
        lemma_auto_spec_u32_to_from_le_bytes();
        let input = Self::wire(v) + rest;
        assert(Self::wire(v).len() == 12);
        assert(input[0] == seq![v.tag][0]);
        assert(input[1] == seq![v.trading_state][0]);
        assert(input.subrange(2, 4) =~= spec_u16_to_le_bytes(v.reason));
        assert(input.subrange(4, 6) =~= spec_u16_to_le_bytes(v.index));
        assert(input.subrange(6, 8) =~= spec_u16_to_le_bytes(v.tracking));
        assert(input.subrange(8, 12) =~= spec_u32_to_le_bytes(v.timestamp));
    }

    fn encode(&self, ser: &mut Serializer) -> (r: Result<()>) {
        ser.put_u8(self.tag);
        ser.put_u8(self.trading_state);
        ser.put_u16(self.reason);
        ser.put_u16(self.index);
        ser.put_u16(self.tracking);
        ser.put_u32(self.timestamp);
        assert(ser@ =~= old(ser)@ + Self::wire(*self));
        Ok(())
    }
}

/// The wire layout of an added order.
/// Its 26 bytes hold the fields in order, with no padding.
#[derive(Debug, Clone, Copy, Default, PartialEq, Eq)]
pub struct AddOrderNet {
    pub tag: u8,
    pub buy_sell: u8,
    pub index: u16,
    pub tracking: u16,
    pub timestamp: u32,
    pub ref_no: u64,
    pub qty: u32,
    pub price: i32,
}

impl AddOrderNet {
    /// Bytes the record takes on the wire.
    pub const SIZE: usize = 26;
}

impl DeepView for AddOrderNet {
    type V = AddOrderNet;

    open spec fn deep_view(&self) -> AddOrderNet {
        *self
    }
}

impl Decode for AddOrderNet {
    /// `Eof` on fewer than 26 bytes, else the fields at their offsets.
    open spec fn parse(input: Seq<u8>) -> Result<(AddOrderNet, nat)> {
        if input.len() < 26 {
            Err(Error::Eof)
        } else {
            Ok(
                (
                    AddOrderNet {
                        tag: input[0],
                        buy_sell: input[1],
                        index: spec_u16_from_le_bytes(input.subrange(2, 4)),
                        tracking: spec_u16_from_le_bytes(input.subrange(4, 6)),
                        timestamp: spec_u32_from_le_bytes(input.subrange(6, 10)),
                        ref_no: spec_u64_from_le_bytes(input.subrange(10, 18)),
                        qty: spec_u32_from_le_bytes(input.subrange(18, 22)),
                        price: spec_u32_from_le_bytes(input.subrange(22, 26)) as i32,
                    },
                    26,
                ),
            )
        }
    }

    proof fn lemma_parse_len(input: Seq<u8>) {
    }

    fn decode<'de>(de: &mut Deserializer<'de>) -> (r: Result<AddOrderNet>) {
        let ghost input = de@;
        let b = de.next_bytes(26)?;
        proof {
            assert(b@.subrange(2, 4) =~= input.subrange(2, 4));
            assert(b@.subrange(4, 6) =~= input.subrange(4, 6));
            assert(b@.subrange(6, 10) =~= input.subrange(6, 10));
            assert(b@.subrange(10, 18) =~= input.subrange(10, 18));
            assert(b@.subrange(18, 22) =~= input.subrange(18, 22));
            assert(b@.subrange(22, 26) =~= input.subrange(22, 26));
        }
        Ok(
            AddOrderNet {
                tag: b[0],
                buy_sell: b[1],
                index: le_u16_at(b, 2),
                tracking: le_u16_at(b, 4),
                timestamp: le_u32_at(b, 6),
                ref_no: le_u64_at(b, 10),
                qty: le_u32_at(b, 18),
                price: le_u32_at(b, 22) as i32,
            },
        )
    }
}

impl Encode for AddOrderNet {
    open spec fn fits(v: AddOrderNet) -> bool {
        true
    }

    open spec fn wire(v: AddOrderNet) -> Seq<u8> {
        seq![v.tag]
            + seq![v.buy_sell]
            + spec_u16_to_le_bytes(v.index)
            + spec_u16_to_le_bytes(v.tracking)
            + spec_u32_to_le_bytes(v.timestamp)
            + spec_u64_to_le_bytes(v.ref_no)
            + spec_u32_to_le_bytes(v.qty)
            + spec_u32_to_le_bytes(v.price as u32)
    }

    proof fn lemma_round_trip(v: AddOrderNet, rest: Seq<u8>) {
        lemma_auto_spec_u16_to_from_le_bytes();
        lemma_auto_spec_u32_to_from_le_bytes();
        lemma_auto_spec_u64_to_from_le_bytes();
        lemma_i32_bits(v.price);
        let input = Self::wire(v) + rest;
        assert(Self::wire(v).len() == 26);
        assert(input[0] == seq![v.tag][0]);
        assert(input[1] == seq![v.buy_sell][0]);
        assert(input.subrange(2, 4) =~= spec_u16_to_le_bytes(v.index));
        assert(input.subrange(4, 6) =~= spec_u16_to_le_bytes(v.tracking));
        assert(input.subrange(6, 10) =~= spec_u32_to_le_bytes(v.timestamp));
        assert(input.subrange(10, 18) =~= spec_u64_to_le_bytes(v.ref_no));
        assert(input.subrange(18, 22) =~= spec_u32_to_le_bytes(v.qty));
        assert(input.subrange(22, 26) =~= spec_u32_to_le_bytes(v.price as u32));
    }

    fn encode(&self, ser: &mut Serializer) -> (r: Result<()>) {
        ser.put_u8(self.tag);
        ser.put_u8(self.buy_sell);
        ser.put_u16(self.index);
        ser.put_u16(self.tracking);
        ser.put_u32(self.timestamp);
        ser.put_u64(self.ref_no);
        ser.put_u32(self.qty);
        ser.put_u32(self.price as u32);
        assert(ser@ =~= old(ser)@ + Self::wire(*self));
        Ok(())
    }
}

/// The wire layout of an order execution.
/// Its 30 bytes hold the fields in order, with no padding.
#[derive(Debug, Clone, Copy, Default, PartialEq, Eq)]
pub struct OrderExecutedNet {
    pub tag: u8,
    pub printable: bool,
    pub index: u16,
    pub tracking: u16,
    pub timestamp: u32,
    pub ref_no: u64,
    pub qty: u32,
    pub match_no: u64,
}

impl OrderExecutedNet {
    /// Bytes the record takes on the wire.
    pub const SIZE: usize = 30;
}

impl DeepView for OrderExecutedNet {
    type V = OrderExecutedNet;

    open spec fn deep_view(&self) -> OrderExecutedNet {
        *self
    }
}

impl Decode for OrderExecutedNet {
    /// `Eof` on fewer than 30 bytes, else the fields at their offsets.
    open spec fn parse(input: Seq<u8>) -> Result<(OrderExecutedNet, nat)> {
        if input.len() < 30 {
            Err(Error::Eof)
        } else {
            Ok(
                (
                    OrderExecutedNet {
                        tag: input[0],
                        printable: input[1] != 0,
                        index: spec_u16_from_le_bytes(input.subrange(2, 4)),
                        tracking: spec_u16_from_le_bytes(input.subrange(4, 6)),
                        timestamp: spec_u32_from_le_bytes(input.subrange(6, 10)),
                        ref_no: spec_u64_from_le_bytes(input.subrange(10, 18)),
                        qty: spec_u32_from_le_bytes(input.subrange(18, 22)),
                        match_no: spec_u64_from_le_bytes(input.subrange(22, 30)),
                    },
                    30,
                ),
            )
        }
    }

    proof fn lemma_parse_len(input: Seq<u8>) {
    }

    fn decode<'de>(de: &mut Deserializer<'de>) -> (r: Result<OrderExecutedNet>) {
        let ghost input = de@;
        let b = de.next_bytes(30)?;
        proof {
            assert(b@.subrange(2, 4) =~= input.subrange(2, 4));
            assert(b@.subrange(4, 6) =~= input.subrange(4, 6));
            assert(b@.subrange(6, 10) =~= input.subrange(6, 10));
            assert(b@.subrange(10, 18) =~= input.subrange(10, 18));
            assert(b@.subrange(18, 22) =~= input.subrange(18, 22));
            assert(b@.subrange(22, 30) =~= input.subrange(22, 30));
        }
        Ok(
            OrderExecutedNet {
                tag: b[0],
                printable: b[1] != 0,
                index: le_u16_at(b, 2),
                tracking: le_u16_at(b, 4),
                timestamp: le_u32_at(b, 6),
                ref_no: le_u64_at(b, 10),
                qty: le_u32_at(b, 18),
                match_no: le_u64_at(b, 22),
            },
        )
    }
}

impl Encode for OrderExecutedNet {
    open spec fn fits(v: OrderExecutedNet) -> bool {
        true
    }

    open spec fn wire(v: OrderExecutedNet) -> Seq<u8> {
        seq![v.tag]
            + seq![if v.printable { 1u8 } else { 0u8 }]
            + spec_u16_to_le_bytes(v.index)
            + spec_u16_to_le_bytes(v.tracking)
            + spec_u32_to_le_bytes(v.timestamp)
            + spec_u64_to_le_bytes(v.ref_no)
            + spec_u32_to_le_bytes(v.qty)
            + spec_u64_to_le_bytes(v.match_no)
    }

    proof fn lemma_round_trip(v: OrderExecutedNet, rest: Seq<u8>) {
        lemma_auto_spec_u16_to_from_le_bytes();
        lemma_auto_spec_u32_to_from_le_bytes();
        lemma_auto_spec_u64_to_from_le_bytes();
        let input = Self::wire(v) + rest;
        assert(Self::wire(v).len() == 30);
        assert(input[0] == seq![v.tag][0]);
        assert(input[1] == seq![if v.printable { 1u8 } else { 0u8 }][0]);
        assert(input.subrange(2, 4) =~= spec_u16_to_le_bytes(v.index));
        assert(input.subrange(4, 6) =~= spec_u16_to_le_bytes(v.tracking));
        assert(input.subrange(6, 10) =~= spec_u32_to_le_bytes(v.timestamp));
        assert(input.subrange(10, 18) =~= spec_u64_to_le_bytes(v.ref_no));
        assert(input.subrange(18, 22) =~= spec_u32_to_le_bytes(v.qty));
        assert(input.subrange(22, 30) =~= spec_u64_to_le_bytes(v.match_no));
    }

    fn encode(&self, ser: &mut Serializer) -> (r: Result<()>) {
        ser.put_u8(self.tag);
        ser.put_u8(if self.printable { 1 } else { 0 });
        ser.put_u16(self.index);
        ser.put_u16(self.tracking);
        ser.put_u32(self.timestamp);
        ser.put_u64(self.ref_no);
        ser.put_u32(self.qty);
        ser.put_u64(self.match_no);
        assert(ser@ =~= old(ser)@ + Self::wire(*self));
        Ok(())
    }
}

/// The wire layout of an order execution at a stated price.
/// Its 34 bytes hold the fields in order, with no padding.
#[derive(Debug, Clone, Copy, Default, PartialEq, Eq)]
pub struct OrderExecutedWithPriceNet {
    pub tag: u8,
    pub printable: bool,
    pub index: u16,
    pub tracking: u16,
    pub timestamp: u32,
    pub ref_no: u64,
    pub qty: u32,
    pub match_no: u64,
    pub price: i32,
}

impl OrderExecutedWithPriceNet {
    /// Bytes the record takes on the wire.
    pub const SIZE: usize = 34;
}

impl DeepView for OrderExecutedWithPriceNet {
    type V = OrderExecutedWithPriceNet;

    open spec fn deep_view(&self) -> OrderExecutedWithPriceNet {
        *self
    }
}

impl Decode for OrderExecutedWithPriceNet {
    /// `Eof` on fewer than 34 bytes, else the fields at their offsets.
    open spec fn parse(input: Seq<u8>) -> Result<(OrderExecutedWithPriceNet, nat)> {
        if input.len() < 34 {
            Err(Error::Eof)
        } else {
            Ok(
                (
                    OrderExecutedWithPriceNet {
                        tag: input[0],
                        printable: input[1] != 0,
                        index: spec_u16_from_le_bytes(input.subrange(2, 4)),
                        tracking: spec_u16_from_le_bytes(input.subrange(4, 6)),
                        timestamp: spec_u32_from_le_bytes(input.subrange(6, 10)),
                        ref_no: spec_u64_from_le_bytes(input.subrange(10, 18)),
                        qty: spec_u32_from_le_bytes(input.subrange(18, 22)),
                        match_no: spec_u64_from_le_bytes(input.subrange(22, 30)),
                        price: spec_u32_from_le_bytes(input.subrange(30, 34)) as i32,
                    },
                    34,
                ),
            )
        }
    }

    proof fn lemma_parse_len(input: Seq<u8>) {
    }

    fn decode<'de>(de: &mut Deserializer<'de>) -> (r: Result<OrderExecutedWithPriceNet>) {
        let ghost input = de@;
        let b = de.next_bytes(34)?;
        proof {
            assert(b@.subrange(2, 4) =~= input.subrange(2, 4));
            assert(b@.subrange(4, 6) =~= input.subrange(4, 6));
            assert(b@.subrange(6, 10) =~= input.subrange(6, 10));
            assert(b@.subrange(10, 18) =~= input.subrange(10, 18));
            assert(b@.subrange(18, 22) =~= input.subrange(18, 22));
            assert(b@.subrange(22, 30) =~= input.subrange(22, 30));
            assert(b@.subrange(30, 34) =~= input.subrange(30, 34));
        }
        Ok(
            OrderExecutedWithPriceNet {
                tag: b[0],
                printable: b[1] != 0,
                index: le_u16_at(b, 2),
                tracking: le_u16_at(b, 4),
                timestamp: le_u32_at(b, 6),
                ref_no: le_u64_at(b, 10),
                qty: le_u32_at(b, 18),
                match_no: le_u64_at(b, 22),
                price: le_u32_at(b, 30) as i32,
            },
        )
    }
}

impl Encode for OrderExecutedWithPriceNet {
    open spec fn fits(v: OrderExecutedWithPriceNet) -> bool {
        true
    }

    open spec fn wire(v: OrderExecutedWithPriceNet) -> Seq<u8> {
        seq![v.tag]
            + seq![if v.printable { 1u8 } else { 0u8 }]
            + spec_u16_to_le_bytes(v.index)
            + spec_u16_to_le_bytes(v.tracking)
            + spec_u32_to_le_bytes(v.timestamp)
            + spec_u64_to_le_bytes(v.ref_no)
            + spec_u32_to_le_bytes(v.qty)
            + spec_u64_to_le_bytes(v.match_no)
            + spec_u32_to_le_bytes(v.price as u32)
    }

    proof fn lemma_round_trip(v: OrderExecutedWithPriceNet, rest: Seq<u8>) {
        lemma_auto_spec_u16_to_from_le_bytes();
        lemma_auto_spec_u32_to_from_le_bytes();
        lemma_auto_spec_u64_to_from_le_bytes();
        lemma_i32_bits(v.price);
        let input = Self::wire(v) + rest;
        assert(Self::wire(v).len() == 34);
        assert(input[0] == seq![v.tag][0]);
        assert(input[1] == seq![if v.printable { 1u8 } else { 0u8 }][0]);
        assert(input.subrange(2, 4) =~= spec_u16_to_le_bytes(v.index));
        assert(input.subrange(4, 6) =~= spec_u16_to_le_bytes(v.tracking));
        assert(input.subrange(6, 10) =~= spec_u32_to_le_bytes(v.timestamp));
        assert(input.subrange(10, 18) =~= spec_u64_to_le_bytes(v.ref_no));
        assert(input.subrange(18, 22) =~= spec_u32_to_le_bytes(v.qty));
        assert(input.subrange(22, 30) =~= spec_u64_to_le_bytes(v.match_no));
        assert(input.subrange(30, 34) =~= spec_u32_to_le_bytes(v.price as u32));
    }

    fn encode(&self, ser: &mut Serializer) -> (r: Result<()>) {
        ser.put_u8(self.tag);
        ser.put_u8(if self.printable { 1 } else { 0 });
        ser.put_u16(self.index);
        ser.put_u16(self.tracking);
        ser.put_u32(self.timestamp);
        ser.put_u64(self.ref_no);
        ser.put_u32(self.qty);
        ser.put_u64(self.match_no);
        ser.put_u32(self.price as u32);
        assert(ser@ =~= old(ser)@ + Self::wire(*self));
        Ok(())
    }
}

/// The wire layout of a partial cancellation.
/// Its 22 bytes hold the fields in order, with no padding.
#[derive(Debug, Clone, Copy, Default, PartialEq, Eq)]
pub struct OrderCancelNet {
    pub tag: u8,
    pub cancel_reason: u8,
    pub index: u16,
    pub tracking: u16,
    pub timestamp: u32,
    pub ref_no: u64,
    pub qty: u32,
}

impl OrderCancelNet {
    /// Bytes the record takes on the wire.
    pub const SIZE: usize = 22;
}

impl DeepView for OrderCancelNet {
    type V = OrderCancelNet;

    open spec fn deep_view(&self) -> OrderCancelNet {
        *self
    }
}

impl Decode for OrderCancelNet {
    /// `Eof` on fewer than 22 bytes, else the fields at their offsets.
    open spec fn parse(input: Seq<u8>) -> Result<(OrderCancelNet, nat)> {
        if input.len() < 22 {
            Err(Error::Eof)
        } else {
            Ok(
                (
                    OrderCancelNet {
                        tag: input[0],
                        cancel_reason: input[1],
                        index: spec_u16_from_le_bytes(input.subrange(2, 4)),
                        tracking: spec_u16_from_le_bytes(input.subrange(4, 6)),
                        timestamp: spec_u32_from_le_bytes(input.subrange(6, 10)),
                        ref_no: spec_u64_from_le_bytes(input.subrange(10, 18)),
                        qty: spec_u32_from_le_bytes(input.subrange(18, 22)),
                    },
                    22,
                ),
            )
        }
    }

    proof fn lemma_parse_len(input: Seq<u8>) {
    }

    fn decode<'de>(de: &mut Deserializer<'de>) -> (r: Result<OrderCancelNet>) {
        let ghost input = de@;
        let b = de.next_bytes(22)?;
        proof {
            assert(b@.subrange(2, 4) =~= input.subrange(2, 4));
            assert(b@.subrange(4, 6) =~= input.subrange(4, 6));
            assert(b@.subrange(6, 10) =~= input.subrange(6, 10));
            assert(b@.subrange(10, 18) =~= input.subrange(10, 18));
            assert(b@.subrange(18, 22) =~= input.subrange(18, 22));
        }
        Ok(
            OrderCancelNet {
                tag: b[0],
                cancel_reason: b[1],
                index: le_u16_at(b, 2),
                tracking: le_u16_at(b, 4),
                timestamp: le_u32_at(b, 6),
                ref_no: le_u64_at(b, 10),
                qty: le_u32_at(b, 18),
            },
        )
    }
}

impl Encode for OrderCancelNet {
    open spec fn fits(v: OrderCancelNet) -> bool {
        true
    }

    open spec fn wire(v: OrderCancelNet) -> Seq<u8> {
        seq![v.tag]
            + seq![v.cancel_reason]
            + spec_u16_to_le_bytes(v.index)
            + spec_u16_to_le_bytes(v.tracking)
            + spec_u32_to_le_bytes(v.timestamp)
            + spec_u64_to_le_bytes(v.ref_no)
            + spec_u32_to_le_bytes(v.qty)
    }

    proof fn lemma_round_trip(v: OrderCancelNet, rest: Seq<u8>) {
        lemma_auto_spec_u16_to_from_le_bytes();
        lemma_auto_spec_u32_to_from_le_bytes();
        lemma_auto_spec_u64_to_from_le_bytes();
        let input = Self::wire(v) + rest;
        assert(Self::wire(v).len() == 22);
        assert(input[0] == seq![v.tag][0]);
        assert(input[1] == seq![v.cancel_reason][0]);
        assert(input.subrange(2, 4) =~= spec_u16_to_le_bytes(v.index));
        assert(input.subrange(4, 6) =~= spec_u16_to_le_bytes(v.tracking));
        assert(input.subrange(6, 10) =~= spec_u32_to_le_bytes(v.timestamp));
        assert(input.subrange(10, 18) =~= spec_u64_to_le_bytes(v.ref_no));
        assert(input.subrange(18, 22) =~= spec_u32_to_le_bytes(v.qty));
    }

    fn encode(&self, ser: &mut Serializer) -> (r: Result<()>) {
        ser.put_u8(self.tag);
        ser.put_u8(self.cancel_reason);
        ser.put_u16(self.index);
        ser.put_u16(self.tracking);
        ser.put_u32(self.timestamp);
        ser.put_u64(self.ref_no);
        ser.put_u32(self.qty);
        assert(ser@ =~= old(ser)@ + Self::wire(*self));
        Ok(())
    }
}

/// The wire layout of an order deletion.
/// Its 18 bytes hold the fields in order, with no padding.
#[derive(Debug, Clone, Copy, Default, PartialEq, Eq)]
pub struct OrderDeleteNet {
    pub tag: u8,
    pub cancel_reason: u8,
    pub index: u16,
    pub tracking: u16,
    pub timestamp: u32,
    pub ref_no: u64,
}

impl OrderDeleteNet {
    /// Bytes the record takes on the wire.
    pub const SIZE: usize = 18;
}

impl DeepView for OrderDeleteNet {
    type V = OrderDeleteNet;

    open spec fn deep_view(&self) -> OrderDeleteNet {
        *self
    }
}

impl Decode for OrderDeleteNet {
    /// `Eof` on fewer than 18 bytes, else the fields at their offsets.
    open spec fn parse(input: Seq<u8>) -> Result<(OrderDeleteNet, nat)> {
        if input.len() < 18 {
            Err(Error::Eof)
        } else {
            Ok(
                (
                    OrderDeleteNet {
                        tag: input[0],
                        cancel_reason: input[1],
                        index: spec_u16_from_le_bytes(input.subrange(2, 4)),
                        tracking: spec_u16_from_le_bytes(input.subrange(4, 6)),
                        timestamp: spec_u32_from_le_bytes(input.subrange(6, 10)),
                        ref_no: spec_u64_from_le_bytes(input.subrange(10, 18)),
                    },
                    18,
                ),
            )
        }
    }

    proof fn lemma_parse_len(input: Seq<u8>) {
    }

    fn decode<'de>(de: &mut Deserializer<'de>) -> (r: Result<OrderDeleteNet>) {
        let ghost input = de@;
        let b = de.next_bytes(18)?;
        proof {
            assert(b@.subrange(2, 4) =~= input.subrange(2, 4));
            assert(b@.subrange(4, 6) =~= input.subrange(4, 6));
            assert(b@.subrange(6, 10) =~= input.subrange(6, 10));
            assert(b@.subrange(10, 18) =~= input.subrange(10, 18));
        }
        Ok(
            OrderDeleteNet {
                tag: b[0],
                cancel_reason: b[1],
                index: le_u16_at(b, 2),
                tracking: le_u16_at(b, 4),
                timestamp: le_u32_at(b, 6),
                ref_no: le_u64_at(b, 10),
            },
        )
    }
}

impl Encode for OrderDeleteNet {
    open spec fn fits(v: OrderDeleteNet) -> bool {
        true
    }

    open spec fn wire(v: OrderDeleteNet) -> Seq<u8> {
        seq![v.tag]
            + seq![v.cancel_reason]
            + spec_u16_to_le_bytes(v.index)
            + spec_u16_to_le_bytes(v.tracking)
            + spec_u32_to_le_bytes(v.timestamp)
            + spec_u64_to_le_bytes(v.ref_no)
    }

    proof fn lemma_round_trip(v: OrderDeleteNet, rest: Seq<u8>) {
        lemma_auto_spec_u16_to_from_le_bytes();
        lemma_auto_spec_u32_to_from_le_bytes();
        lemma_auto_spec_u64_to_from_le_bytes();
        let input = Self::wire(v) + rest;
        assert(Self::wire(v).len() == 18);
        assert(input[0] == seq![v.tag][0]);
        assert(input[1] == seq![v.cancel_reason][0]);
        assert(input.subrange(2, 4) =~= spec_u16_to_le_bytes(v.index));
        assert(input.subrange(4, 6) =~= spec_u16_to_le_bytes(v.tracking));
        assert(input.subrange(6, 10) =~= spec_u32_to_le_bytes(v.timestamp));
        assert(input.subrange(10, 18) =~= spec_u64_to_le_bytes(v.ref_no));
    }

    fn encode(&self, ser: &mut Serializer) -> (r: Result<()>) {
        ser.put_u8(self.tag);
        ser.put_u8(self.cancel_reason);
        ser.put_u16(self.index);
        ser.put_u16(self.tracking);
        ser.put_u32(self.timestamp);
        ser.put_u64(self.ref_no);
        assert(ser@ =~= old(ser)@ + Self::wire(*self));
        Ok(())
    }
}

/// The wire layout of an order replacement.
/// Its 33 bytes hold the fields in order, with no padding.
#[derive(Debug, Clone, Copy, Default, PartialEq, Eq)]
pub struct OrderReplaceNet {
    pub tag: u8,
    pub index: u16,
    pub tracking: u16,
    pub timestamp: u32,
    pub ref_no: u64,
    pub new_ref_no: u64,
    pub qty: u32,
    pub price: i32,
}

impl OrderReplaceNet {
    /// Bytes the record takes on the wire.
    pub const SIZE: usize = 33;
}

impl DeepView for OrderReplaceNet {
    type V = OrderReplaceNet;

    open spec fn deep_view(&self) -> OrderReplaceNet {
        *self
    }
}

impl Decode for OrderReplaceNet {
    /// `Eof` on fewer than 33 bytes, else the fields at their offsets.
    open spec fn parse(input: Seq<u8>) -> Result<(OrderReplaceNet, nat)> {
        if input.len() < 33 {
            Err(Error::Eof)
        } else {
            Ok(
                (
                    OrderReplaceNet {
                        tag: input[0],
                        index: spec_u16_from_le_bytes(input.subrange(1, 3)),
                        tracking: spec_u16_from_le_bytes(input.subrange(3, 5)),
                        timestamp: spec_u32_from_le_bytes(input.subrange(5, 9)),
                        ref_no: spec_u64_from_le_bytes(input.subrange(9, 17)),
                        new_ref_no: spec_u64_from_le_bytes(input.subrange(17, 25)),
                        qty: spec_u32_from_le_bytes(input.subrange(25, 29)),
                        price: spec_u32_from_le_bytes(input.subrange(29, 33)) as i32,
                    },
                    33,
                ),
            )
        }
    }

    proof fn lemma_parse_len(input: Seq<u8>) {
    }

    fn decode<'de>(de: &mut Deserializer<'de>) -> (r: Result<OrderReplaceNet>) {
        let ghost input = de@;
        let b = de.next_bytes(33)?;
        proof {
            assert(b@.subrange(1, 3) =~= input.subrange(1, 3));
            assert(b@.subrange(3, 5) =~= input.subrange(3, 5));
            assert(b@.subrange(5, 9) =~= input.subrange(5, 9));
            assert(b@.subrange(9, 17) =~= input.subrange(9, 17));
            assert(b@.subrange(17, 25) =~= input.subrange(17, 25));
            assert(b@.subrange(25, 29) =~= input.subrange(25, 29));
            assert(b@.subrange(29, 33) =~= input.subrange(29, 33));
        }
        Ok(
            OrderReplaceNet {
                tag: b[0],
                index: le_u16_at(b, 1),
                tracking: le_u16_at(b, 3),
                timestamp: le_u32_at(b, 5),
                ref_no: le_u64_at(b, 9),
                new_ref_no: le_u64_at(b, 17),
                qty: le_u32_at(b, 25),
                price: le_u32_at(b, 29) as i32,
            },
        )
    }
}

impl Encode for OrderReplaceNet {
    open spec fn fits(v: OrderReplaceNet) -> bool {
        true
    }

    open spec fn wire(v: OrderReplaceNet) -> Seq<u8> {
        seq![v.tag]
            + spec_u16_to_le_bytes(v.index)
            + spec_u16_to_le_bytes(v.tracking)
            + spec_u32_to_le_bytes(v.timestamp)
            + spec_u64_to_le_bytes(v.ref_no)
            + spec_u64_to_le_bytes(v.new_ref_no)
            + spec_u32_to_le_bytes(v.qty)
            + spec_u32_to_le_bytes(v.price as u32)
    }

    proof fn lemma_round_trip(v: OrderReplaceNet, rest: Seq<u8>) {
        lemma_auto_spec_u16_to_from_le_bytes();
        lemma_auto_spec_u32_to_from_le_bytes();
        lemma_auto_spec_u64_to_from_le_bytes();
        lemma_i32_bits(v.price);
        let input = Self::wire(v) + rest;
        assert(Self::wire(v).len() == 33);
        assert(input[0] == seq![v.tag][0]);
        assert(input.subrange(1, 3) =~= spec_u16_to_le_bytes(v.index));
        assert(input.subrange(3, 5) =~= spec_u16_to_le_bytes(v.tracking));
        assert(input.subrange(5, 9) =~= spec_u32_to_le_bytes(v.timestamp));
        assert(input.subrange(9, 17) =~= spec_u64_to_le_bytes(v.ref_no));
        assert(input.subrange(17, 25) =~= spec_u64_to_le_bytes(v.new_ref_no));
        assert(input.subrange(25, 29) =~= spec_u32_to_le_bytes(v.qty));
        assert(input.subrange(29, 33) =~= spec_u32_to_le_bytes(v.price as u32));
    }

    fn encode(&self, ser: &mut Serializer) -> (r: Result<()>) {
        ser.put_u8(self.tag);
        ser.put_u16(self.index);
        ser.put_u16(self.tracking);
        ser.put_u32(self.timestamp);
        ser.put_u64(self.ref_no);
        ser.put_u64(self.new_ref_no);
        ser.put_u32(self.qty);
        ser.put_u32(self.price as u32);
        assert(ser@ =~= old(ser)@ + Self::wire(*self));
        Ok(())
    }
}

/// The wire layout of a trade.
/// Its 34 bytes hold the fields in order, with no padding.
#[derive(Debug, Clone, Copy, Default, PartialEq, Eq)]
pub struct TradeNet {
    pub tag: u8,
    pub buy_sell: u8,
    pub index: u16,
    pub tracking: u16,
    pub timestamp: u32,
    pub ref_no: u64,
    pub qty: u32,
    pub price: i32,
    pub match_no: u64,
}

impl TradeNet {
    /// Bytes the record takes on the wire.
    pub const SIZE: usize = 34;
}

impl DeepView for TradeNet {
    type V = TradeNet;

    open spec fn deep_view(&self) -> TradeNet {
        *self
    }
}

impl Decode for TradeNet {
    /// `Eof` on fewer than 34 bytes, else the fields at their offsets.
    open spec fn parse(input: Seq<u8>) -> Result<(TradeNet, nat)> {
        if input.len() < 34 {
            Err(Error::Eof)
        } else {
            Ok(
                (
                    TradeNet {
                        tag: input[0],
                        buy_sell: input[1],
                        index: spec_u16_from_le_bytes(input.subrange(2, 4)),
                        tracking: spec_u16_from_le_bytes(input.subrange(4, 6)),
                        timestamp: spec_u32_from_le_bytes(input.subrange(6, 10)),
                        ref_no: spec_u64_from_le_bytes(input.subrange(10, 18)),
                        qty: spec_u32_from_le_bytes(input.subrange(18, 22)),
                        price: spec_u32_from_le_bytes(input.subrange(22, 26)) as i32,
                        match_no: spec_u64_from_le_bytes(input.subrange(26, 34)),
                    },
                    34,
                ),
            )
        }
    }

    proof fn lemma_parse_len(input: Seq<u8>) {
    }

    fn decode<'de>(de: &mut Deserializer<'de>) -> (r: Result<TradeNet>) {
        let ghost input = de@;
        let b = de.next_bytes(34)?;
        proof {
            assert(b@.subrange(2, 4) =~= input.subrange(2, 4));
            assert(b@.subrange(4, 6) =~= input.subrange(4, 6));
            assert(b@.subrange(6, 10) =~= input.subrange(6, 10));
            assert(b@.subrange(10, 18) =~= input.subrange(10, 18));
            assert(b@.subrange(18, 22) =~= input.subrange(18, 22));
            assert(b@.subrange(22, 26) =~= input.subrange(22, 26));
            assert(b@.subrange(26, 34) =~= input.subrange(26, 34));
        }
        Ok(
            TradeNet {
                tag: b[0],
                buy_sell: b[1],
                index: le_u16_at(b, 2),
                tracking: le_u16_at(b, 4),
                timestamp: le_u32_at(b, 6),
                ref_no: le_u64_at(b, 10),
                qty: le_u32_at(b, 18),
                price: le_u32_at(b, 22) as i32,
                match_no: le_u64_at(b, 26),
            },
        )
    }
}

impl Encode for TradeNet {
    open spec fn fits(v: TradeNet) -> bool {
        true
    }

    open spec fn wire(v: TradeNet) -> Seq<u8> {
        seq![v.tag]
            + seq![v.buy_sell]
            + spec_u16_to_le_bytes(v.index)
            + spec_u16_to_le_bytes(v.tracking)
            + spec_u32_to_le_bytes(v.timestamp)
            + spec_u64_to_le_bytes(v.ref_no)
            + spec_u32_to_le_bytes(v.qty)
            + spec_u32_to_le_bytes(v.price as u32)
            + spec_u64_to_le_bytes(v.match_no)
    }

    proof fn lemma_round_trip(v: TradeNet, rest: Seq<u8>) {
        lemma_auto_spec_u16_to_from_le_bytes();
        lemma_auto_spec_u32_to_from_le_bytes();
        lemma_auto_spec_u64_to_from_le_bytes();
        lemma_i32_bits(v.price);
        let input = Self::wire(v) + rest;
        assert(Self::wire(v).len() == 34);
        assert(input[0] == seq![v.tag][0]);
        assert(input[1] == seq![v.buy_sell][0]);
        assert(input.subrange(2, 4) =~= spec_u16_to_le_bytes(v.index));
        assert(input.subrange(4, 6) =~= spec_u16_to_le_bytes(v.tracking));
        assert(input.subrange(6, 10) =~= spec_u32_to_le_bytes(v.timestamp));
        assert(input.subrange(10, 18) =~= spec_u64_to_le_bytes(v.ref_no));
        assert(input.subrange(18, 22) =~= spec_u32_to_le_bytes(v.qty));
        assert(input.subrange(22, 26) =~= spec_u32_to_le_bytes(v.price as u32));
        assert(input.subrange(26, 34) =~= spec_u64_to_le_bytes(v.match_no));
    }

    fn encode(&self, ser: &mut Serializer) -> (r: Result<()>) {
        ser.put_u8(self.tag);
        ser.put_u8(self.buy_sell);
        ser.put_u16(self.index);
        ser.put_u16(self.tracking);
        ser.put_u32(self.timestamp);
        ser.put_u64(self.ref_no);
        ser.put_u32(self.qty);
        ser.put_u32(self.price as u32);
        ser.put_u64(self.match_no);
        assert(ser@ =~= old(ser)@ + Self::wire(*self));
        Ok(())
    }
}

/// The wire layout of a cross trade.
/// Its 34 bytes hold the fields in order, with no padding.
#[derive(Debug, Clone, Copy, Default, PartialEq, Eq)]
pub struct CrossTradeNet {
    pub tag: u8,
    pub type_: u8,
    pub index: u16,
    pub tracking: u16,
    pub timestamp: u32,
    pub qty: u32,
    pub price: i32,
    pub pclose: i32,
    pub open_interest: u32,
    pub match_no: u64,
}

impl CrossTradeNet {
    /// Bytes the record takes on the wire.
    pub const SIZE: usize = 34;
}

impl DeepView for CrossTradeNet {
    type V = CrossTradeNet;

    open spec fn deep_view(&self) -> CrossTradeNet {
        *self
    }
}

impl Decode for CrossTradeNet {
    /// `Eof` on fewer than 34 bytes, else the fields at their offsets.
    open spec fn parse(input: Seq<u8>) -> Result<(CrossTradeNet, nat)> {
        if input.len() < 34 {
            Err(Error::Eof)
        } else {
            Ok(
                (
                    CrossTradeNet {
                        tag: input[0],
                        type_: input[1],
                        index: spec_u16_from_le_bytes(input.subrange(2, 4)),
                        tracking: spec_u16_from_le_bytes(input.subrange(4, 6)),
                        timestamp: spec_u32_from_le_bytes(input.subrange(6, 10)),
                        qty: spec_u32_from_le_bytes(input.subrange(10, 14)),
                        price: spec_u32_from_le_bytes(input.subrange(14, 18)) as i32,
                        pclose: spec_u32_from_le_bytes(input.subrange(18, 22)) as i32,
                        open_interest: spec_u32_from_le_bytes(input.subrange(22, 26)),
                        match_no: spec_u64_from_le_bytes(input.subrange(26, 34)),
                    },
                    34,
                ),
            )
        }
    }

    proof fn lemma_parse_len(input: Seq<u8>) {
    }

    fn decode<'de>(de: &mut Deserializer<'de>) -> (r: Result<CrossTradeNet>) {
        let ghost input = de@;
        let b = de.next_bytes(34)?;
        proof {
            assert(b@.subrange(2, 4) =~= input.subrange(2, 4));
            assert(b@.subrange(4, 6) =~= input.subrange(4, 6));
            assert(b@.subrange(6, 10) =~= input.subrange(6, 10));
            assert(b@.subrange(10, 14) =~= input.subrange(10, 14));
            assert(b@.subrange(14, 18) =~= input.subrange(14, 18));
            assert(b@.subrange(18, 22) =~= input.subrange(18, 22));
            assert(b@.subrange(22, 26) =~= input.subrange(22, 26));
            assert(b@.subrange(26, 34) =~= input.subrange(26, 34));
        }
        Ok(
            CrossTradeNet {
                tag: b[0],
                type_: b[1],
                index: le_u16_at(b, 2),
                tracking: le_u16_at(b, 4),
                timestamp: le_u32_at(b, 6),
                qty: le_u32_at(b, 10),
                price: le_u32_at(b, 14) as i32,
                pclose: le_u32_at(b, 18) as i32,
                open_interest: le_u32_at(b, 22),
                match_no: le_u64_at(b, 26),
            },
        )
    }
}

impl Encode for CrossTradeNet {
    open spec fn fits(v: CrossTradeNet) -> bool {
        true
    }

    open spec fn wire(v: CrossTradeNet) -> Seq<u8> {
        seq![v.tag]
            + seq![v.type_]
            + spec_u16_to_le_bytes(v.index)
            + spec_u16_to_le_bytes(v.tracking)
            + spec_u32_to_le_bytes(v.timestamp)
            + spec_u32_to_le_bytes(v.qty)
            + spec_u32_to_le_bytes(v.price as u32)
            + spec_u32_to_le_bytes(v.pclose as u32)
            + spec_u32_to_le_bytes(v.open_interest)
            + spec_u64_to_le_bytes(v.match_no)
    }

    proof fn lemma_round_trip(v: CrossTradeNet, rest: Seq<u8>) {
        lemma_auto_spec_u16_to_from_le_bytes();
        lemma_auto_spec_u32_to_from_le_bytes();
        lemma_auto_spec_u64_to_from_le_bytes();
        lemma_i32_bits(v.price);
        lemma_i32_bits(v.pclose);
        let input = Self::wire(v) + rest;
        assert(Self::wire(v).len() == 34);
        assert(input[0] == seq![v.tag][0]);
        assert(input[1] == seq![v.type_][0]);
        assert(input.subrange(2, 4) =~= spec_u16_to_le_bytes(v.index));
        assert(input.subrange(4, 6) =~= spec_u16_to_le_bytes(v.tracking));
        assert(input.subrange(6, 10) =~= spec_u32_to_le_bytes(v.timestamp));
        assert(input.subrange(10, 14) =~= spec_u32_to_le_bytes(v.qty));
        assert(input.subrange(14, 18) =~= spec_u32_to_le_bytes(v.price as u32));
        assert(input.subrange(18, 22) =~= spec_u32_to_le_bytes(v.pclose as u32));
        assert(input.subrange(22, 26) =~= spec_u32_to_le_bytes(v.open_interest));
        assert(input.subrange(26, 34) =~= spec_u64_to_le_bytes(v.match_no));
    }

    fn encode(&self, ser: &mut Serializer) -> (r: Result<()>) {
        ser.put_u8(self.tag);
        ser.put_u8(self.type_);
        ser.put_u16(self.index);
        ser.put_u16(self.tracking);
        ser.put_u32(self.timestamp);
        ser.put_u32(self.qty);
        ser.put_u32(self.price as u32);
        ser.put_u32(self.pclose as u32);
        ser.put_u32(self.open_interest);
        ser.put_u64(self.match_no);
        assert(ser@ =~= old(ser)@ + Self::wire(*self));
        Ok(())
    }
}

/// The side a wire byte stands for.
pub fn bs_side(bs: u8) -> (r: Side)
    requires
        Side::spec_from_code(bs) is Some,
    ensures
        Side::spec_from_code(bs) == Some(r),
{
    match Side::from_code(bs) {
        Some(s) => s,
        None => Side::Buy,
    }
}

/// The cancel reason a wire byte stands for.
pub fn cancel_reason(r: u8) -> (c: CancelReason)
    requires
        CancelReason::spec_from_code(r) is Some,
    ensures
        CancelReason::spec_from_code(r) == Some(c),
{
    match CancelReason::from_code(r) {
        Some(c) => c,
        None => CancelReason::ByUser,
    }
}

impl SystemEventNet {
    /// The event its code stands for.
    pub fn event(&self) -> (r: EventCode)
        requires
            EventCode::spec_from_code(self.event_code) is Some,
        ensures
            EventCode::spec_from_code(self.event_code) == Some(r),
    {
        match EventCode::from_code(self.event_code) {
            Some(e) => e,
            None => EventCode::StartOfMessages,
        }
    }
}

impl SymbolTradingActionNet {
    /// The trading state its code stands for.
    pub fn state(&self) -> (r: TradingState)
        requires
            TradingState::spec_from_code(self.trading_state) is Some,
        ensures
            TradingState::spec_from_code(self.trading_state) == Some(r),
    {
        match TradingState::from_code(self.trading_state) {
            Some(s) => s,
            None => TradingState::Halted,
        }
    }
}

impl AddOrderNet {
    /// The side its code stands for.
    pub fn side(&self) -> (r: Side)
        requires
            Side::spec_from_code(self.buy_sell) is Some,
        ensures
            Side::spec_from_code(self.buy_sell) == Some(r),
    {
        bs_side(self.buy_sell)
    }
}

impl OrderCancelNet {
    /// The cancel reason its code stands for.
    pub fn reason(&self) -> (r: CancelReason)
        requires
            CancelReason::spec_from_code(self.cancel_reason) is Some,
        ensures
            CancelReason::spec_from_code(self.cancel_reason) == Some(r),
    {
        cancel_reason(self.cancel_reason)
    }
}

impl OrderDeleteNet {
    /// The cancel reason its code stands for.
    pub fn reason(&self) -> (r: CancelReason)
        requires
            CancelReason::spec_from_code(self.cancel_reason) is Some,
        ensures
            CancelReason::spec_from_code(self.cancel_reason) == Some(r),
    {
        cancel_reason(self.cancel_reason)
    }
}

impl TradeNet {
    /// The side its code stands for.
    pub fn side(&self) -> (r: Side)
        requires
            Side::spec_from_code(self.buy_sell) is Some,
        ensures
            Side::spec_from_code(self.buy_sell) == Some(r),
    {
        bs_side(self.buy_sell)
    }
}

impl CrossTradeNet {
    /// The cross type its code stands for.
    pub fn cross_type(&self) -> (r: CrossType)
        requires
            CrossType::spec_from_code(self.type_) is Some,
        ensures
            CrossType::spec_from_code(self.type_) == Some(r),
    {
        match CrossType::from_code(self.type_) {
            Some(c) => c,
            None => CrossType::Opening,
        }
    }
}

} // verus!
