//! Trading-calendar engine: supported markets, a registry of per-market
//! closures and half days, and the decision whether an instant falls on a
//! trading day in a market's own local calendar.

pub mod market;
pub mod date;
pub mod registry;
pub mod calendar;

pub use calendar::{Calender, TradeDay};
pub use date::{CalendarDate, TimeOfDay, UtcDateTime};
pub use market::{CNMarket, HKMarket, Market, SGMarket, USMarket, UnknownMarket};
pub use registry::{LoadError, NonTradeCal, NonTradeRecord, RecordFault, TradeDayStatus};
