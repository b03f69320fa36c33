//! The enumerated fields of the protocol and the bytes that stand for them.
use vstd::prelude::*;

verus! {

/// A system event: a stage of the trading day.
#[derive(Debug, Clone, Copy, PartialEq, Eq, Structural)]
pub enum EventCode {
    StartOfMessages,
    StartOfSystemHours,
    StartOfMarketHours,
    EndOfMarketHours,
    EndOfSystemHours,
    EndOfMessages,
    EmergencyHalt,
    EmergencyQuoteOnly,
    EmergencyResumption,
}

impl EventCode {
    /// The byte that stands for the value on the wire.
    pub open spec fn spec_code(self) -> u8 {
        match self {
            EventCode::StartOfMessages => 79u8, // 'O'
            EventCode::StartOfSystemHours => 83u8, // 'S'
            EventCode::StartOfMarketHours => 81u8, // 'Q'
            EventCode::EndOfMarketHours => 77u8, // 'M'
            EventCode::EndOfSystemHours => 69u8, // 'E'
            EventCode::EndOfMessages => 67u8, // 'C'
            EventCode::EmergencyHalt => 65u8, // 'A'
            EventCode::EmergencyQuoteOnly => 82u8, // 'R'
            EventCode::EmergencyResumption => 66u8, // 'B'
        }
    }

    /// The value a wire byte stands for, if any.
    pub open spec fn spec_from_code(b: u8) -> Option<EventCode> {
        if b == 79u8 { // 'O'
            Some(EventCode::StartOfMessages)
        } else if b == 83u8 { // 'S'
            Some(EventCode::StartOfSystemHours)
        } else if b == 81u8 { // 'Q'
            Some(EventCode::StartOfMarketHours)
        } else if b == 77u8 { // 'M'
            Some(EventCode::EndOfMarketHours)
        } else if b == 69u8 { // 'E'
            Some(EventCode::EndOfSystemHours)
        } else if b == 67u8 { // 'C'
            Some(EventCode::EndOfMessages)
        } else if b == 65u8 { // 'A'
            Some(EventCode::EmergencyHalt)
        } else if b == 82u8 { // 'R'
            Some(EventCode::EmergencyQuoteOnly)
        } else if b == 66u8 { // 'B'
            Some(EventCode::EmergencyResumption)
        } else {
            None
        }
    }

    /// The byte that stands for the value on the wire.
    pub fn code(self) -> (r: u8)
        ensures
            r == self.spec_code(),
    {
        match self {
            EventCode::StartOfMessages => 79u8, // 'O'
            EventCode::StartOfSystemHours => 83u8, // 'S'
            EventCode::StartOfMarketHours => 81u8, // 'Q'
            EventCode::EndOfMarketHours => 77u8, // 'M'
            EventCode::EndOfSystemHours => 69u8, // 'E'
            EventCode::EndOfMessages => 67u8, // 'C'
            EventCode::EmergencyHalt => 65u8, // 'A'
            EventCode::EmergencyQuoteOnly => 82u8, // 'R'
            EventCode::EmergencyResumption => 66u8, // 'B'
        }
    }

    /// The value a wire byte stands for, or `None` for a byte outside the set.
    pub fn from_code(b: u8) -> (r: Option<EventCode>)
        ensures
            r == Self::spec_from_code(b),
    {
        match b {
            79 => Some(EventCode::StartOfMessages), // 'O'
            83 => Some(EventCode::StartOfSystemHours), // 'S'
            81 => Some(EventCode::StartOfMarketHours), // 'Q'
            77 => Some(EventCode::EndOfMarketHours), // 'M'
            69 => Some(EventCode::EndOfSystemHours), // 'E'
            67 => Some(EventCode::EndOfMessages), // 'C'
            65 => Some(EventCode::EmergencyHalt), // 'A'
            82 => Some(EventCode::EmergencyQuoteOnly), // 'R'
            66 => Some(EventCode::EmergencyResumption), // 'B'
            _ => None,
        }
    }

    /// The value's name for people to read.
    pub open spec fn spec_name(self) -> &'static str {
        match self {
            EventCode::StartOfMessages => "Start Of Messages",
            EventCode::StartOfSystemHours => "Start Of SystemHours",
            EventCode::StartOfMarketHours => "Start Of MarketHours",
            EventCode::EndOfMarketHours => "End Of MarketHours",
            EventCode::EndOfSystemHours => "End Of SystemHours",
            EventCode::EndOfMessages => "End Of Messages",
            EventCode::EmergencyHalt => "Emergency Halt",
            EventCode::EmergencyQuoteOnly => "Emergency QuoteOnly",
            EventCode::EmergencyResumption => "Emergency Resumption",
        }
    }

    /// The value's name for people to read.
    #[verifier::when_used_as_spec(spec_name)]
    pub fn name(self) -> (r: &'static str)
        ensures
            r == self.spec_name(),
    {
        match self {
            EventCode::StartOfMessages => "Start Of Messages",
            EventCode::StartOfSystemHours => "Start Of SystemHours",
            EventCode::StartOfMarketHours => "Start Of MarketHours",
            EventCode::EndOfMarketHours => "End Of MarketHours",
            EventCode::EndOfSystemHours => "End Of SystemHours",
            EventCode::EndOfMessages => "End Of Messages",
            EventCode::EmergencyHalt => "Emergency Halt",
            EventCode::EmergencyQuoteOnly => "Emergency QuoteOnly",
            EventCode::EmergencyResumption => "Emergency Resumption",
        }
    }

    /// Each value's byte reads back as that value.
    pub proof fn lemma_code_round_trip(self)
        ensures
            Self::spec_from_code(self.spec_code()) == Some(self),
    {
    }
}

/// The market an instrument is listed on.
#[derive(Debug, Clone, Copy, PartialEq, Eq, Structural)]
pub enum MarketCategory {
    Shfe,
    Dce,
    Czce,
    Cffex,
    Gce,
    Sse,
    Szse,
    Unavailable,
}

impl MarketCategory {
    /// The byte that stands for the value on the wire.
    pub open spec fn spec_code(self) -> u8 {
        match self {
            MarketCategory::Shfe => 72u8, // 'H'
            MarketCategory::Dce => 68u8, // 'D'
            MarketCategory::Czce => 67u8, // 'C'
            MarketCategory::Cffex => 70u8, // 'F'
            MarketCategory::Gce => 71u8, // 'G'
            MarketCategory::Sse => 83u8, // 'S'
            MarketCategory::Szse => 90u8, // 'Z'
            MarketCategory::Unavailable => 0u8,
        }
    }

    /// The value a wire byte stands for, if any.
    pub open spec fn spec_from_code(b: u8) -> Option<MarketCategory> {
        if b == 72u8 { // 'H'
            Some(MarketCategory::Shfe)
        } else if b == 68u8 { // 'D'
            Some(MarketCategory::Dce)
        } else if b == 67u8 { // 'C'
            Some(MarketCategory::Czce)
        } else if b == 70u8 { // 'F'
            Some(MarketCategory::Cffex)
        } else if b == 71u8 { // 'G'
            Some(MarketCategory::Gce)
        } else if b == 83u8 { // 'S'
            Some(MarketCategory::Sse)
        } else if b == 90u8 { // 'Z'
            Some(MarketCategory::Szse)
        } else if b == 0u8 {
            Some(MarketCategory::Unavailable)
        } else {
            None
        }
    }

    /// The byte that stands for the value on the wire.
    pub fn code(self) -> (r: u8)
        ensures
            r == self.spec_code(),
    {
        match self {
            MarketCategory::Shfe => 72u8, // 'H'
            MarketCategory::Dce => 68u8, // 'D'
            MarketCategory::Czce => 67u8, // 'C'
            MarketCategory::Cffex => 70u8, // 'F'
            MarketCategory::Gce => 71u8, // 'G'
            MarketCategory::Sse => 83u8, // 'S'
            MarketCategory::Szse => 90u8, // 'Z'
            MarketCategory::Unavailable => 0u8,
        }
    }

    /// The value a wire byte stands for, or `None` for a byte outside the set.
    pub fn from_code(b: u8) -> (r: Option<MarketCategory>)
        ensures
            r == Self::spec_from_code(b),
    {
        match b {
            72 => Some(MarketCategory::Shfe), // 'H'
            68 => Some(MarketCategory::Dce), // 'D'
            67 => Some(MarketCategory::Czce), // 'C'
            70 => Some(MarketCategory::Cffex), // 'F'
            71 => Some(MarketCategory::Gce), // 'G'
            83 => Some(MarketCategory::Sse), // 'S'
            90 => Some(MarketCategory::Szse), // 'Z'
            0 => Some(MarketCategory::Unavailable),
            _ => None,
        }
    }

    /// Each value's byte reads back as that value.
    pub proof fn lemma_code_round_trip(self)
        ensures
            Self::spec_from_code(self.spec_code()) == Some(self),
    {
    }
}

/// The trading state of an instrument.
#[derive(Debug, Clone, Copy, PartialEq, Eq, Structural)]
pub enum TradingState {
    Halted,
    PreAuction,
    Auction,
    Paused,
    Trading,
    Break,
}

impl TradingState {
    /// The byte that stands for the value on the wire.
    pub open spec fn spec_code(self) -> u8 {
        match self {
            TradingState::Halted => 72u8, // 'H'
            TradingState::PreAuction => 80u8, // 'P'
            TradingState::Auction => 65u8, // 'A'
            TradingState::Paused => 85u8, // 'U'
            TradingState::Trading => 67u8, // 'C'
            TradingState::Break => 66u8, // 'B'
        }
    }

    /// The value a wire byte stands for, if any.
    pub open spec fn spec_from_code(b: u8) -> Option<TradingState> {
        if b == 72u8 { // 'H'
            Some(TradingState::Halted)
        } else if b == 80u8 { // 'P'
            Some(TradingState::PreAuction)
        } else if b == 65u8 { // 'A'
            Some(TradingState::Auction)
        } else if b == 85u8 { // 'U'
            Some(TradingState::Paused)
        } else if b == 67u8 { // 'C'
            Some(TradingState::Trading)
        } else if b == 66u8 { // 'B'
            Some(TradingState::Break)
        } else {
            None
        }
    }

    /// The byte that stands for the value on the wire.
    pub fn code(self) -> (r: u8)
        ensures
            r == self.spec_code(),
    {
        match self {
            TradingState::Halted => 72u8, // 'H'
            TradingState::PreAuction => 80u8, // 'P'
            TradingState::Auction => 65u8, // 'A'
            TradingState::Paused => 85u8, // 'U'
            TradingState::Trading => 67u8, // 'C'
            TradingState::Break => 66u8, // 'B'
        }
    }

    /// The value a wire byte stands for, or `None` for a byte outside the set.
    pub fn from_code(b: u8) -> (r: Option<TradingState>)
        ensures
            r == Self::spec_from_code(b),
    {
        match b {
            72 => Some(TradingState::Halted), // 'H'
            80 => Some(TradingState::PreAuction), // 'P'
            65 => Some(TradingState::Auction), // 'A'
            85 => Some(TradingState::Paused), // 'U'
            67 => Some(TradingState::Trading), // 'C'
            66 => Some(TradingState::Break), // 'B'
            _ => None,
        }
    }

    /// The value's name for people to read.
    pub open spec fn spec_name(self) -> &'static str {
        match self {
            TradingState::Halted => "Halted",
            TradingState::PreAuction => "PreAuction",
            TradingState::Auction => "Auction",
            TradingState::Paused => "Paused",
            TradingState::Trading => "Trading",
            TradingState::Break => "Break",
        }
    }

    /// The value's name for people to read.
    #[verifier::when_used_as_spec(spec_name)]
    pub fn name(self) -> (r: &'static str)
        ensures
            r == self.spec_name(),
    {
        match self {
            TradingState::Halted => "Halted",
            TradingState::PreAuction => "PreAuction",
            TradingState::Auction => "Auction",
            TradingState::Paused => "Paused",
            TradingState::Trading => "Trading",
            TradingState::Break => "Break",
        }
    }

    /// Each value's byte reads back as that value.
    pub proof fn lemma_code_round_trip(self)
        ensures
            Self::spec_from_code(self.spec_code()) == Some(self),
    {
    }
}

/// The side of an order.
#[derive(Debug, Clone, Copy, PartialEq, Eq, Structural)]
pub enum Side {
    Buy,
    Sell,
    BuyCover,
    SellClose,
}

impl Side {
    /// The byte that stands for the value on the wire.
    pub open spec fn spec_code(self) -> u8 {
        match self {
            Side::Buy => 66u8, // 'B'
            Side::Sell => 83u8, // 'S'
            Side::BuyCover => 67u8, // 'C'
            Side::SellClose => 79u8, // 'O'
        }
    }

    /// The value a wire byte stands for, if any.
    pub open spec fn spec_from_code(b: u8) -> Option<Side> {
        if b == 66u8 { // 'B'
            Some(Side::Buy)
        } else if b == 83u8 { // 'S'
            Some(Side::Sell)
        } else if b == 67u8 { // 'C'
            Some(Side::BuyCover)
        } else if b == 79u8 { // 'O'
            Some(Side::SellClose)
        } else {
            None
        }
    }

    /// The byte that stands for the value on the wire.
    pub fn code(self) -> (r: u8)
        ensures
            r == self.spec_code(),
    {
        match self {
            Side::Buy => 66u8, // 'B'
            Side::Sell => 83u8, // 'S'
            Side::BuyCover => 67u8, // 'C'
            Side::SellClose => 79u8, // 'O'
        }
    }

    /// The value a wire byte stands for, or `None` for a byte outside the set.
    pub fn from_code(b: u8) -> (r: Option<Side>)
        ensures
            r == Self::spec_from_code(b),
    {
        match b {
            66 => Some(Side::Buy), // 'B'
            83 => Some(Side::Sell), // 'S'
            67 => Some(Side::BuyCover), // 'C'
            79 => Some(Side::SellClose), // 'O'
            _ => None,
        }
    }

    /// The value's name for people to read.
    pub open spec fn spec_name(self) -> &'static str {
        match self {
            Side::Buy => "Buy",
            Side::Sell => "Sell",
            Side::BuyCover => "BuyCover",
            Side::SellClose => "SellClose",
        }
    }

    /// The value's name for people to read.
    #[verifier::when_used_as_spec(spec_name)]
    pub fn name(self) -> (r: &'static str)
        ensures
            r == self.spec_name(),
    {
        match self {
            Side::Buy => "Buy",
            Side::Sell => "Sell",
            Side::BuyCover => "BuyCover",
            Side::SellClose => "SellClose",
        }
    }

    /// Each value's byte reads back as that value.
    pub proof fn lemma_code_round_trip(self)
        ensures
            Self::spec_from_code(self.spec_code()) == Some(self),
    {
    }
}

/// Why an order was cancelled.
#[derive(Debug, Clone, Copy, PartialEq, Eq, Structural)]
pub enum CancelReason {
    ByUser,
    Arb,
    ByModifyOrder,
    OddLot,
    OutOfPriceBand,
    BrokenSession,
    OutOfNormalTrading,
}

impl CancelReason {
    /// The byte that stands for the value on the wire.
    pub open spec fn spec_code(self) -> u8 {
        match self {
            CancelReason::ByUser => 85u8, // 'U'
            CancelReason::Arb => 65u8, // 'A'
            CancelReason::ByModifyOrder => 77u8, // 'M'
            CancelReason::OddLot => 79u8, // 'O'
            CancelReason::OutOfPriceBand => 66u8, // 'B'
            CancelReason::BrokenSession => 83u8, // 'S'
            CancelReason::OutOfNormalTrading => 78u8, // 'N'
        }
    }

    /// The value a wire byte stands for, if any.
    pub open spec fn spec_from_code(b: u8) -> Option<CancelReason> {
        if b == 85u8 { // 'U'
            Some(CancelReason::ByUser)
        } else if b == 65u8 { // 'A'
            Some(CancelReason::Arb)
        } else if b == 77u8 { // 'M'
            Some(CancelReason::ByModifyOrder)
        } else if b == 79u8 { // 'O'
            Some(CancelReason::OddLot)
        } else if b == 66u8 { // 'B'
            Some(CancelReason::OutOfPriceBand)
        } else if b == 83u8 { // 'S'
            Some(CancelReason::BrokenSession)
        } else if b == 78u8 { // 'N'
            Some(CancelReason::OutOfNormalTrading)
        } else {
            None
        }
    }

    /// The byte that stands for the value on the wire.
    pub fn code(self) -> (r: u8)
        ensures
            r == self.spec_code(),
    {
        match self {
            CancelReason::ByUser => 85u8, // 'U'
            CancelReason::Arb => 65u8, // 'A'
            CancelReason::ByModifyOrder => 77u8, // 'M'
            CancelReason::OddLot => 79u8, // 'O'
            CancelReason::OutOfPriceBand => 66u8, // 'B'
            CancelReason::BrokenSession => 83u8, // 'S'
            CancelReason::OutOfNormalTrading => 78u8, // 'N'
        }
    }

    /// The value a wire byte stands for, or `None` for a byte outside the set.
    pub fn from_code(b: u8) -> (r: Option<CancelReason>)
        ensures
            r == Self::spec_from_code(b),
    {
        match b {
            85 => Some(CancelReason::ByUser), // 'U'
            65 => Some(CancelReason::Arb), // 'A'
            77 => Some(CancelReason::ByModifyOrder), // 'M'
            79 => Some(CancelReason::OddLot), // 'O'
            66 => Some(CancelReason::OutOfPriceBand), // 'B'
            83 => Some(CancelReason::BrokenSession), // 'S'
            78 => Some(CancelReason::OutOfNormalTrading), // 'N'
            _ => None,
        }
    }

    /// The value's name for people to read.
    pub open spec fn spec_name(self) -> &'static str {
        match self {
            CancelReason::ByUser => "ByUser",
            CancelReason::Arb => "By ARB",
            CancelReason::ByModifyOrder => "By ModifyOrder",
            CancelReason::OddLot => "not normalization lots",
            CancelReason::OutOfPriceBand => "Out Of PriceBand",
            CancelReason::BrokenSession => "Broken Session",
            CancelReason::OutOfNormalTrading => "Out Of NormalTrading",
        }
    }

    /// The value's name for people to read.
    #[verifier::when_used_as_spec(spec_name)]
    pub fn name(self) -> (r: &'static str)
        ensures
            r == self.spec_name(),
    {
        match self {
            CancelReason::ByUser => "ByUser",
            CancelReason::Arb => "By ARB",
            CancelReason::ByModifyOrder => "By ModifyOrder",
            CancelReason::OddLot => "not normalization lots",
            CancelReason::OutOfPriceBand => "Out Of PriceBand",
            CancelReason::BrokenSession => "Broken Session",
            CancelReason::OutOfNormalTrading => "Out Of NormalTrading",
        }
    }

    /// Each value's byte reads back as that value.
    pub proof fn lemma_code_round_trip(self)
        ensures
            Self::spec_from_code(self.spec_code()) == Some(self),
    {
    }
}

/// The kind of an uncross.
#[derive(Debug, Clone, Copy, PartialEq, Eq, Structural)]
pub enum CrossType {
    Opening,
    Closing,
    Halted,
    Intraday,
}

impl CrossType {
    /// The byte that stands for the value on the wire.
    pub open spec fn spec_code(self) -> u8 {
        match self {
            CrossType::Opening => 79u8, // 'O'
            CrossType::Closing => 67u8, // 'C'
            CrossType::Halted => 72u8, // 'H'
            CrossType::Intraday => 73u8, // 'I'
        }
    }

    /// The value a wire byte stands for, if any.
    pub open spec fn spec_from_code(b: u8) -> Option<CrossType> {
        if b == 79u8 { // 'O'
            Some(CrossType::Opening)
        } else if b == 67u8 { // 'C'
            Some(CrossType::Closing)
        } else if b == 72u8 { // 'H'
            Some(CrossType::Halted)
        } else if b == 73u8 { // 'I'
            Some(CrossType::Intraday)
        } else {
            None
        }
    }

    /// The byte that stands for the value on the wire.
    pub fn code(self) -> (r: u8)
        ensures
            r == self.spec_code(),
    {
        match self {
            CrossType::Opening => 79u8, // 'O'
            CrossType::Closing => 67u8, // 'C'
            CrossType::Halted => 72u8, // 'H'
            CrossType::Intraday => 73u8, // 'I'
        }
    }

    /// The value a wire byte stands for, or `None` for a byte outside the set.
    pub fn from_code(b: u8) -> (r: Option<CrossType>)
        ensures
            r == Self::spec_from_code(b),
    {
        match b {
            79 => Some(CrossType::Opening), // 'O'
            67 => Some(CrossType::Closing), // 'C'
            72 => Some(CrossType::Halted), // 'H'
            73 => Some(CrossType::Intraday), // 'I'
            _ => None,
        }
    }

    /// The value's name for people to read.
    pub open spec fn spec_name(self) -> &'static str {
        match self {
            CrossType::Opening => "Opening UnCross",
            CrossType::Closing => "Closing UnCross",
            CrossType::Halted => "UnCross after Halted",
            CrossType::Intraday => "Intraday UnCross",
        }
    }

    /// The value's name for people to read.
    #[verifier::when_used_as_spec(spec_name)]
    pub fn name(self) -> (r: &'static str)
        ensures
            r == self.spec_name(),
    {
        match self {
            CrossType::Opening => "Opening UnCross",
            CrossType::Closing => "Closing UnCross",
            CrossType::Halted => "UnCross after Halted",
            CrossType::Intraday => "Intraday UnCross",
        }
    }

    /// Each value's byte reads back as that value.
    pub proof fn lemma_code_round_trip(self)
        ensures
            Self::spec_from_code(self.spec_code()) == Some(self),
    {
    }
}

/// The kind of security an instrument is.
#[derive(Debug, Clone, Copy, PartialEq, Eq, Structural)]
pub enum IssueClassification {
    AmericanDepositaryShare,
    Bond,
    CommonStock,
    Futures,
    Options,
    DepositoryReceipt,
    OrdinaryShare,
    PreferredStock,
    OtherSecurities,
    Right,
    ConvertibleDebenture,
    Unit,
    UnitsPerBenifInt,
    Warrant,
}

/// The state of a market participant.
#[derive(Debug, Clone, Copy, PartialEq, Eq, Structural)]
pub enum MarketParticipantState {
    Active,
    Excused,
    Withdrawn,
    Suspended,
    Deleted,
}

/// The direction of an order imbalance.
#[derive(Debug, Clone, Copy, PartialEq, Eq, Structural)]
pub enum ImbalanceDirection {
    Buy,
    Sell,
    NoImbalance,
    InsufficientOrders,
}

} // verus!
