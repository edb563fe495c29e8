use crate::date::{is_weekend, CalendarDate, TimeOfDay, UtcDateTime, EARLIEST_YEAR, LATEST_YEAR};
use crate::market::{zone_of, CNMarket, HKMarket, Market, SGMarket, USMarket};
use crate::registry::{
    arranged, csv_records_of, dataset_outcome, header_columns, load_outcome, lookup_in, row_fault, status_text, LoadError, NonTradeCal,
    NonTradeRecord, TradeDayStatus,
};
use chrono::{Datelike, TimeZone, Timelike};
use vstd::prelude::*;

verus! {

/// The verdict on a market's local calendar day.
#[derive(Debug, Clone, Copy, PartialEq, Eq, Structural)]
pub enum TradeDay {
    FullTradingDay,
    Closed,
    HalfDay(TimeOfDay),
}

/// The verdict for market `m` on local date `d`, given the registry's
/// records: a weekend is closed whatever the records say; otherwise the
/// record for the day decides, and a day without one is a full trading day.
pub open spec fn verdict(recs: Seq<NonTradeRecord>, m: Market, d: CalendarDate) -> TradeDay {
    if is_weekend(d) {
        TradeDay::Closed
    } else {
        match lookup_in(recs, m, d) {
            None => TradeDay::FullTradingDay,
            Some(TradeDayStatus::Close) => TradeDay::Closed,
            Some(TradeDayStatus::Half(t)) => TradeDay::HalfDay(t),
        }
    }
}

/// A day with any session, full or half, is a trading day.
pub open spec fn is_trading(v: TradeDay) -> bool {
    v != TradeDay::Closed
}

/// The local calendar date, in time zone `zone`, of the UTC date and time
/// given, as chrono-tz computes it.
pub uninterp spec fn local_date_of(
    zone: Seq<char>,
    year: int,
    month: int,
    day: int,
    hour: int,
    minute: int,
    second: int,
) -> (int, int, int);

/// The local calendar date of the instant `at` in market `m`'s time zone.
pub open spec fn local_date(m: Market, at: UtcDateTime) -> CalendarDate {
    let t = local_date_of(
        zone_of(m),
        at.date.year as int,
        at.date.month as int,
        at.date.day as int,
        at.time.hour as int,
        at.time.minute as int,
        at.time.second as int,
    );
    CalendarDate { year: t.0 as i32, month: t.1 as u32, day: t.2 as u32 }
}

pub open spec fn is_market_zone(zone: Seq<char>) -> bool {
    zone == zone_of(Market::US(USMarket)) || zone == zone_of(Market::HK(HKMarket)) || zone
        == zone_of(Market::CN(CNMarket)) || zone == zone_of(Market::SG(SGMarket))
}

/// Relies on chrono-tz's `Tz::from_str`, which knows the four zones of the
/// supported markets, and on chrono's `TimeZone::from_utc_datetime` and
/// `DateTime::date_naive`: the calendar date in `zone` of the UTC date and
/// time `at`. chrono's dates are valid calendar dates.
#[verifier::external_body]
fn local_date_in(zone: &str, at: &UtcDateTime) -> (r: CalendarDate)
    requires
        is_market_zone(zone@),
        at.wf(),
    ensures
        (r.year as int, r.month as int, r.day as int) == local_date_of(
            zone@,
            at.date.year as int,
            at.date.month as int,
            at.date.day as int,
            at.time.hour as int,
            at.time.minute as int,
            at.time.second as int,
        ),
        r.wf(),
{
    let tz: chrono_tz::Tz = zone.parse().unwrap();
    let day = chrono::NaiveDate::from_ymd_opt(at.date.year, at.date.month, at.date.day).unwrap();
    let utc = day.and_hms_opt(at.time.hour, at.time.minute, at.time.second).unwrap();
    let local = tz.from_utc_datetime(&utc).date_naive();
    CalendarDate { year: local.year(), month: local.month(), day: local.day() }
}

#[verifier::external_type_specification]
#[verifier::external_body]
pub struct ExSystemTime(std::time::SystemTime);

/// Relies on std's `SystemTime::now`: a reading of the system clock. Nothing
/// is promised of its value.
#[verifier::external_body]
fn system_now() -> (r: std::time::SystemTime) {
    std::time::SystemTime::now()
}

/// Relies on std's `SystemTime::duration_since` with `UNIX_EPOCH`: the
/// distance of `t` from the Unix epoch as whole seconds and nanoseconds,
/// `Ok` at or after the epoch and `Err` before it. A `Duration`'s
/// nanoseconds lie below one second.
#[verifier::external_body]
fn since_epoch(t: &std::time::SystemTime) -> (r: Result<(u64, u32), (u64, u32)>)
    ensures
        r matches Ok(d) ==> d.1 < 1_000_000_000,
        r matches Err(d) ==> d.1 < 1_000_000_000,
{
    match t.duration_since(std::time::UNIX_EPOCH) {
        Ok(d) => Ok((d.as_secs(), d.subsec_nanos())),
        Err(e) => Err((e.duration().as_secs(), e.duration().subsec_nanos())),
    }
}

/// Relies on chrono's `DateTime::from_timestamp`: the UTC date and time
/// `secs` seconds after the Unix epoch, or `None` where that lies outside
/// chrono's range. chrono's dates are valid calendar dates and its seconds
/// lie below 60.
#[verifier::external_body]
fn utc_at_timestamp(secs: i64) -> (r: Option<UtcDateTime>)
    ensures
        r matches Some(t) ==> t.date.wf() && t.time.wf(),
{
    match chrono::DateTime::from_timestamp(secs, 0) {
        Some(d) => {
            let n = d.naive_utc();
            let date = CalendarDate { year: n.year(), month: n.month(), day: n.day() };
            let time = TimeOfDay { hour: n.hour(), minute: n.minute(), second: n.second() };
            Some(UtcDateTime { date, time })
        },
        None => None,
    }
}

/// The whole seconds since the Unix epoch of a clock reading, rounded down,
/// from its distance to the epoch; `None` where they do not fit in `i64`.
pub fn timestamp_of(since: Result<(u64, u32), (u64, u32)>) -> (r: Option<i64>)
    ensures
        since matches Ok(d) ==> (d.0 <= i64::MAX ==> r == Some(d.0 as i64)) && (d.0 > i64::MAX
            ==> r is None),
        since matches Err(d) ==> (d.1 == 0 && d.0 <= i64::MAX ==> r == Some(-(d.0 as int) as i64)),
        since matches Err(d) ==> (d.1 > 0 && d.0 < i64::MAX ==> r == Some((-(d.0 as int) - 1) as i64)),
        since matches Err(d) ==> (d.0 > i64::MAX || (d.1 > 0 && d.0 == i64::MAX) ==> r is None),
{
    match since {
        Ok((s, _)) => {
            if s <= i64::MAX as u64 {
                Some(s as i64)
            } else {
                None
            }
        },
        Err((s, n)) => {
            if n == 0 && s <= i64::MAX as u64 {
                Some(-(s as i64))
            } else if n > 0 && s < i64::MAX as u64 {
                Some(-(s as i64) - 1)
            } else {
                None
            }
        },
    }
}

/// The current UTC date and time, or `None` where the clock reads outside
/// what chrono represents.
fn utc_now() -> (r: Option<UtcDateTime>)
    ensures
        r matches Some(t) ==> t.date.wf() && t.time.wf(),
{
    let now = system_now();
    match timestamp_of(since_epoch(&now)) {
        Some(secs) => utc_at_timestamp(secs),
        None => None,
    }
}

/// The verdict at instant `t`, when `t` lies in the range of instants.
pub open spec fn verdict_at(recs: Seq<NonTradeRecord>, m: Market, t: UtcDateTime) -> Option<
    TradeDay,
> {
    if t.wf() {
        Some(verdict(recs, m, local_date(m, t)))
    } else {
        None
    }
}

/// The trading-day evaluator over one registry.
pub struct Calender {
    non_trade_cal: NonTradeCal,
}

pub open spec fn registry_of(r: Result<Calender, LoadError>) -> Result<NonTradeCal, LoadError> {
    match r {
        Ok(c) => Ok(c.registry()),
        Err(e) => Err(e),
    }
}

impl Calender {
    /// The registry that the evaluator consults.
    pub closed spec fn registry(&self) -> NonTradeCal {
        self.non_trade_cal
    }

    /// The records of that registry, in dataset order.
    pub open spec fn entries(&self) -> Seq<NonTradeRecord> {
        self.registry().entries()
    }

    /// An evaluator over a registry that was already built.
    pub fn from_registry(non_trade_cal: NonTradeCal) -> (r: Calender)
        ensures
            r.registry() == non_trade_cal,
    {
        Calender { non_trade_cal }
    }

    /// Loads the registry from a comma-separated dataset (see
    /// `NonTradeCal::new`) and builds an evaluator over it.
    pub fn new(non_trade_data: &str) -> (r: Result<Calender, LoadError>)
        ensures
            csv_records_of(non_trade_data@) is None ==> r matches Err(LoadError::Unreadable),
            csv_records_of(non_trade_data@) matches Some(all) ==> dataset_outcome(
                all,
                registry_of(r),
            ),
    {
        match NonTradeCal::new(non_trade_data) {
            Ok(c) => Ok(Calender { non_trade_cal: c }),
            Err(e) => Err(e),
        }
    }

    /// The verdict for market `m` on its local calendar date `d`.
    pub fn classify_date(&self, m: Market, d: CalendarDate) -> (r: TradeDay)
        requires
            d.wf(),
        ensures
            r == verdict(self.entries(), m, d),
    {
        if d.is_weekend() {
            return TradeDay::Closed;
        }
        match self.non_trade_cal.lookup(m, d) {
            None => TradeDay::FullTradingDay,
            Some(TradeDayStatus::Close) => TradeDay::Closed,
            Some(TradeDayStatus::Half(t)) => TradeDay::HalfDay(t),
        }
    }

    /// The verdict for market `m` at a reading `now` of the clock: the
    /// verdict at that instant, or `None` where its year lies outside
    /// `EARLIEST_YEAR` through `LATEST_YEAR`.
    pub fn classify_at(&self, m: Market, now: UtcDateTime) -> (r: Option<TradeDay>)
        requires
            now.date.wf(),
            now.time.wf(),
        ensures
            r == verdict_at(self.entries(), m, now),
    {
        if now.date.year < EARLIEST_YEAR || now.date.year > LATEST_YEAR {
            return None;
        }
        let d = local_date_in(m.time_zone(), &now);
        Some(self.classify_date(m, d))
    }

    /// The verdict for market `m` at instant `at`, taken on the market's
    /// local date. Without an instant, it is `classify_at` on a reading of
    /// the clock, and `None` where the clock reads outside chrono's range.
    pub fn classify(&self, m: Market, at: Option<UtcDateTime>) -> (r: Option<TradeDay>)
        requires
            at matches Some(t) ==> t.wf(),
        ensures
            at matches Some(t) ==> r == Some(verdict(self.entries(), m, local_date(m, t))),
            at is None ==> (r is None || exists|t: UtcDateTime|
                t.date.wf() && t.time.wf() && r == verdict_at(self.entries(), m, t)),
    {
        match at {
            Some(t) => self.classify_at(m, t),
            None => match utc_now() {
                Some(now) => self.classify_at(m, now),
                None => None,
            },
        }
    }

    /// Whether market `m` trades at all on its local date at instant
    /// `cur_time` (now, without one): false on weekends and registered
    /// closures, true on half days and full days. `None` only where no
    /// instant is given and `classify` gives no verdict for the clock.
    pub fn is_trade_day(&self, m: Market, cur_time: Option<UtcDateTime>) -> (r: Option<bool>)
        requires
            cur_time matches Some(t) ==> t.wf(),
        ensures
            cur_time matches Some(t) ==> r == Some(
                is_trading(verdict(self.entries(), m, local_date(m, t))),
            ),
            cur_time is None ==> (r is None || exists|t: UtcDateTime|
                t.date.wf() && t.time.wf() && r == Some(
                    is_trading(verdict(self.entries(), m, local_date(m, t))),
                ) && t.wf()),
    {
        match self.classify(m, cur_time) {
            Some(TradeDay::Closed) => Some(false),
            Some(_) => Some(true),
            None => None,
        }
    }
}

/// A weekday without a record for the market is a full trading day.
pub proof fn law_unrecorded_weekday_is_full(recs: Seq<NonTradeRecord>, m: Market, d: CalendarDate)
    requires
        lookup_in(recs, m, d) is None,
        !is_weekend(d),
    ensures
        verdict(recs, m, d) == TradeDay::FullTradingDay,
        is_trading(verdict(recs, m, d)),
{
}

/// A local Saturday or Sunday is closed, whatever record the registry holds
/// for it, a half day included.
pub proof fn law_weekend_is_closed(recs: Seq<NonTradeRecord>, m: Market, d: CalendarDate)
    requires
        is_weekend(d),
    ensures
        verdict(recs, m, d) == TradeDay::Closed,
        !is_trading(verdict(recs, m, d)),
{
}

/// A half day is a trading day; a recorded closure on a weekday is not.
pub proof fn law_half_day_trades(recs: Seq<NonTradeRecord>, m: Market, d: CalendarDate)
    requires
        !is_weekend(d),
    ensures
        lookup_in(recs, m, d) matches Some(TradeDayStatus::Half(t)) ==> verdict(recs, m, d)
            == TradeDay::HalfDay(t) && is_trading(verdict(recs, m, d)),
        lookup_in(recs, m, d) == Some(TradeDayStatus::Close) ==> !is_trading(verdict(recs, m, d)),
{
}

/// Loading a dataset without records (nothing at all, or only a header row
/// that names the four columns) gives a registry under which every verdict
/// is the weekend rule alone.
pub proof fn law_empty_dataset(all: Seq<Seq<Seq<char>>>, r: Result<NonTradeCal, LoadError>)
    requires
        all.len() == 0 || (all.len() == 1 && header_columns(all[0]) is Some),
        dataset_outcome(all, r),
    ensures
        r is Ok,
        forall|m: Market, d: CalendarDate|
            #![trigger verdict(r->Ok_0.entries(), m, d)]
            verdict(r->Ok_0.entries(), m, d) == if is_weekend(d) {
                TradeDay::Closed
            } else {
                TradeDay::FullTradingDay
            },
{
    if all.len() == 1 {
        let c = header_columns(all[0])->0;
        assert(all.drop_first().map_values(|row: Seq<Seq<char>>| arranged(row, c)).len() == 0);
    }
    let recs = r->Ok_0.entries();
    assert(recs.len() == 0);
    assert forall|m: Market, d: CalendarDate| lookup_in(recs, m, d) is None by {}
}

/// A row whose status is neither `Close` nor a valid `Half(HH:MM:SS)` makes
/// the whole load fail: no registry comes out.
pub proof fn law_malformed_status_fails(
    rows: Seq<Seq<Seq<char>>>,
    i: int,
    r: Result<NonTradeCal, LoadError>,
)
    requires
        0 <= i < rows.len(),
        rows[i].len() == 4,
        status_text(rows[i][3]) is None,
        load_outcome(rows, r),
    ensures
        r is Err,
{
    assert(row_fault(rows[i]) is Some);
}

} // verus!
