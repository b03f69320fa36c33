//! The message catalogue of the protocol: wire layouts, tags and semantic messages.
mod enums;
mod message;
mod proto;

pub use enums::{
    CancelReason, CrossType, EventCode, ImbalanceDirection, IssueClassification, MarketCategory,
    MarketParticipantState, Side, TradingState,
};
pub use message::{
    decodes, from_bytes, lemma_exact_length, lemma_pitch_round_trip, lemma_short_input,
    lemma_symbol_text, lemma_unknown_tag, message_wire, pad16, symbol_field, tag_size, to_bytes,
    trim_nul, wire_compatible, AddOrder, Body, CrossTrade, Message, OrderCancelled, OrderDelete,
    OrderExecuted, OrderExecutedWithPrice, ReplaceOrder, SymbolDirectory, SystemEvent, Trade,
    TradingAction,
};
pub use proto::{
    bs_side, cancel_reason, AddOrderNet, CrossTradeNet, OrderCancelNet, OrderDeleteNet,
    OrderExecutedNet, OrderExecutedWithPriceNet, OrderReplaceNet, SymbolDirectoryNet,
    SymbolTradingActionNet, SystemEventNet, TradeNet, TAG_ADD_ORDER, TAG_CROSS_TRADE,
    TAG_ORDER_CANCELLED, TAG_ORDER_DELETE, TAG_ORDER_EXECUTED, TAG_ORDER_EXECUTED_WITH_PRICE,
    TAG_REPLACE_ORDER, TAG_SYMBOL_DIRECTORY, TAG_SYSTEM_EVENT, TAG_TRADE, TAG_TRADING_ACTION,
};
