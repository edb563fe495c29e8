use crate::date::{date_text, digits_at, two_digits, parse_date, parse_time_at, time_text_at, CalendarDate, TimeOfDay};
use crate::market::{market_of_code, Market};
use std::collections::HashMap;
use vstd::prelude::*;
use vstd::string::{StrSliceExecFns, StringExecFns};

verus! {

/// What an exception record says of a day: closed all day, or a half day
/// whose session ends at the given local time.
#[derive(Debug, Clone, Copy, PartialEq, Eq, Structural)]
pub enum TradeDayStatus {
    Close,
    Half(TimeOfDay),
}

/// One exception entry of the registry. `timezone` is the label given in
/// the dataset, kept for provenance only.
#[derive(Debug, Clone)]
pub struct NonTradeRecord {
    pub market: Market,
    pub timezone: String,
    pub date: CalendarDate,
    pub status: TradeDayStatus,
}

/// Why a dataset row was refused.
#[derive(Debug, Clone, Copy, PartialEq, Eq, Structural)]
pub enum RecordFault {
    /// The row does not hold exactly the four fields market, timezone, date
    /// and status.
    FieldCount,
    UnknownMarket,
    BadDate,
    BadStatus,
}

/// Why a dataset could not be loaded. Nothing is loaded in either case.
#[derive(Debug, Clone)]
pub enum LoadError {
    /// The tabular reader could not split the data into records.
    Unreadable,
    /// The header row lacks one of the columns market, timezone, date and
    /// status.
    MissingColumn,
    /// The first row that does not parse: its index among the data rows
    /// (the header row not counted), its fields in the order market,
    /// timezone, date, status, and the fault.
    MalformedRecord { row: usize, raw: Vec<String>, fault: RecordFault },
}

/// The status written `Close` or `Half(HH:MM:SS)`.
pub open spec fn status_text(s: Seq<char>) -> Option<TradeDayStatus> {
    if s == seq!['C', 'l', 'o', 's', 'e'] {
        Some(TradeDayStatus::Close)
    } else if s.len() == 14 && s[0] == 'H' && s[1] == 'a' && s[2] == 'l' && s[3] == 'f' && s[4]
        == '(' && s[13] == ')' && time_text_at(s, 5) is Some {
        Some(TradeDayStatus::Half(time_text_at(s, 5)->0))
    } else {
        None
    }
}

/// The fault of a row of fields, or `None` for a row that parses.
pub open spec fn row_fault(row: Seq<Seq<char>>) -> Option<RecordFault> {
    if row.len() != 4 {
        Some(RecordFault::FieldCount)
    } else if market_of_code(row[0]) is None {
        Some(RecordFault::UnknownMarket)
    } else if date_text(row[2]) is None {
        Some(RecordFault::BadDate)
    } else if status_text(row[3]) is None {
        Some(RecordFault::BadStatus)
    } else {
        None
    }
}

/// `rec` is what the parsing row `row` says.
pub open spec fn record_of_row(rec: NonTradeRecord, row: Seq<Seq<char>>) -> bool {
    &&& market_of_code(row[0]) == Some(rec.market)
    &&& rec.timezone@ == row[1]
    &&& date_text(row[2]) == Some(rec.date)
    &&& status_text(row[3]) == Some(rec.status)
}

pub open spec fn fields_view(row: Seq<String>) -> Seq<Seq<char>> {
    row.map_values(|f: String| f@)
}

pub open spec fn rows_view(rows: Seq<Vec<String>>) -> Seq<Seq<Seq<char>>> {
    rows.map_values(|r: Vec<String>| fields_view(r@))
}

/// The status of the last record for `(m, d)` in `recs`: a later record for
/// the same market and date replaces an earlier one.
pub open spec fn lookup_in(recs: Seq<NonTradeRecord>, m: Market, d: CalendarDate) -> Option<
    TradeDayStatus,
>
    decreases recs.len(),
{
    if recs.len() == 0 {
        None
    } else if recs.last().market == m && recs.last().date == d {
        Some(recs.last().status)
    } else {
        lookup_in(recs.drop_last(), m, d)
    }
}

/// The registry of per-market exception days, built once from a dataset and
/// read-only afterwards. Where the dataset holds two records for the same
/// market and date, the later one is the one that counts. The records are
/// kept in dataset order, and a hash map keyed by market and date holds the
/// status that counts for each.
pub struct NonTradeCal {
    records: Vec<NonTradeRecord>,
    index: HashMap<u64, TradeDayStatus>,
}

/// The position of a market in the key of the registry's index.
pub open spec fn market_index(m: Market) -> int {
    match m {
        Market::US(_) => 0,
        Market::HK(_) => 1,
        Market::CN(_) => 2,
        Market::SG(_) => 3,
    }
}

/// A date that a dataset can write: a four-digit year, a month and a day.
pub open spec fn in_dataset_range(d: CalendarDate) -> bool {
    0 <= d.year <= 9999 && 1 <= d.month <= 12 && 1 <= d.day <= 31
}

/// The key under which the index holds market `m` on date `d`: the market,
/// the year, the month and the day as decimal places.
pub open spec fn day_key(m: Market, d: CalendarDate) -> int {
    market_index(m) * 100_000_000 + d.year as int * 10_000 + d.month as int * 100 + d.day as int
}

proof fn lemma_day_key_injective(m1: Market, d1: CalendarDate, m2: Market, d2: CalendarDate)
    requires
        in_dataset_range(d1),
        in_dataset_range(d2),
        day_key(m1, d1) == day_key(m2, d2),
    ensures
        m1 == m2,
        d1 == d2,
{
}

/// No record of `recs` lies on a date outside what a dataset can write.
proof fn lemma_lookup_outside_range(recs: Seq<NonTradeRecord>, m: Market, d: CalendarDate)
    requires
        forall|i: int| 0 <= i < recs.len() ==> in_dataset_range(#[trigger] recs[i].date),
        !in_dataset_range(d),
    ensures
        lookup_in(recs, m, d) is None,
    decreases recs.len(),
{
    if recs.len() > 0 {
        assert(in_dataset_range(recs[recs.len() - 1].date));
        let rest = recs.drop_last();
        assert forall|i: int| 0 <= i < rest.len() implies in_dataset_range(#[trigger] rest[i].date) by {
            assert(rest[i] == recs[i]);
        }
        lemma_lookup_outside_range(rest, m, d);
    }
}

/// `index` holds, under each market and date's key, the status that the
/// last record of `recs` for them gives.
pub open spec fn indexes(index: Map<u64, TradeDayStatus>, recs: Seq<NonTradeRecord>) -> bool {
    &&& forall|i: int| 0 <= i < recs.len() ==> in_dataset_range(#[trigger] recs[i].date)
    &&& forall|m: Market, d: CalendarDate|
        #![trigger lookup_in(recs, m, d)]
        in_dataset_range(d) ==> (index.contains_key(day_key(m, d) as u64) <==> lookup_in(
            recs,
            m,
            d,
        ) is Some) && (index.contains_key(day_key(m, d) as u64) ==> lookup_in(recs, m, d)
            == Some(index[day_key(m, d) as u64]))
}

impl NonTradeCal {
    #[verifier::type_invariant]
    spec fn index_matches_records(&self) -> bool {
        indexes(self.index@, self.records@)
    }
}

fn market_key(m: Market) -> (r: u64)
    ensures
        r as int == market_index(m),
{
    match m {
        Market::US(_) => 0,
        Market::HK(_) => 1,
        Market::CN(_) => 2,
        Market::SG(_) => 3,
    }
}

fn day_key_of(m: Market, d: CalendarDate) -> (r: u64)
    requires
        in_dataset_range(d),
    ensures
        r as int == day_key(m, d),
{
    market_key(m) * 100_000_000 + (d.year as u64) * 10_000 + (d.month as u64) * 100 + d.day as u64
}

/// `r` is the outcome of loading the rows `rows`: every row parses and the
/// registry holds their records in order, or the load fails at the first
/// row that does not parse.
pub open spec fn load_outcome(rows: Seq<Seq<Seq<char>>>, r: Result<NonTradeCal, LoadError>) -> bool {
    match r {
        Ok(cal) => {
            &&& forall|i: int| 0 <= i < rows.len() ==> (#[trigger] row_fault(rows[i])) is None
            &&& cal.entries().len() == rows.len()
            &&& forall|i: int|
                0 <= i < rows.len() ==> record_of_row(#[trigger] cal.entries()[i], rows[i])
        },
        Err(LoadError::MalformedRecord { row, raw, fault }) => {
            &&& row < rows.len()
            &&& row_fault(rows[row as int]) == Some(fault)
            &&& forall|j: int| 0 <= j < row ==> (#[trigger] row_fault(rows[j])) is None
            &&& fields_view(raw@) == rows[row as int]
        },
        Err(LoadError::Unreadable) => false,
        Err(LoadError::MissingColumn) => false,
    }
}

fn parse_status(s: &str) -> (r: Option<TradeDayStatus>)
    ensures
        r == status_text(s@),
{
    let n = s.unicode_len();
    if n == 5 {
        let ok = s.get_char(0) == 'C' && s.get_char(1) == 'l' && s.get_char(2) == 'o'
            && s.get_char(3) == 's' && s.get_char(4) == 'e';
        proof {
            if ok {
                assert(s@ =~= seq!['C', 'l', 'o', 's', 'e']);
            }
        }
        if ok {
            Some(TradeDayStatus::Close)
        } else {
            None
        }
    } else if n == 14 {
        proof {
            assert(s@ != seq!['C', 'l', 'o', 's', 'e']);
        }
        if s.get_char(0) == 'H' && s.get_char(1) == 'a' && s.get_char(2) == 'l' && s.get_char(3)
            == 'f' && s.get_char(4) == '(' && s.get_char(13) == ')' {
            match parse_time_at(s, 5) {
                Some(t) => Some(TradeDayStatus::Half(t)),
                None => None,
            }
        } else {
            None
        }
    } else {
        proof {
            assert(s@.len() != seq!['C', 'l', 'o', 's', 'e'].len());
        }
        None
    }
}

fn digit_text(d: u32) -> (r: &'static str)
    requires
        d < 10,
    ensures
        r@.len() == 1,
        r@[0] as u32 == d + 48,
{
    proof {
        reveal_strlit("0");
        reveal_strlit("1");
        reveal_strlit("2");
        reveal_strlit("3");
        reveal_strlit("4");
        reveal_strlit("5");
        reveal_strlit("6");
        reveal_strlit("7");
        reveal_strlit("8");
        reveal_strlit("9");
    }
    if d == 0 {
        "0"
    } else if d == 1 {
        "1"
    } else if d == 2 {
        "2"
    } else if d == 3 {
        "3"
    } else if d == 4 {
        "4"
    } else if d == 5 {
        "5"
    } else if d == 6 {
        "6"
    } else if d == 7 {
        "7"
    } else if d == 8 {
        "8"
    } else {
        "9"
    }
}

/// Writes a status in the form the dataset uses: `Close`, or
/// `Half(HH:MM:SS)` with two digits for each part.
pub fn format_status(s: TradeDayStatus) -> (r: String)
    requires
        s matches TradeDayStatus::Half(t) ==> t.wf(),
    ensures
        status_text(r@) == Some(s),
{
    match s {
        TradeDayStatus::Close => {
            let r = String::from_str("Close");
            proof {
                reveal_strlit("Close");
                assert(r@ =~= seq!['C', 'l', 'o', 's', 'e']);
            }
            r
        },
        TradeDayStatus::Half(t) => {
            let h1 = digit_text(t.hour / 10);
            let h0 = digit_text(t.hour % 10);
            let m1 = digit_text(t.minute / 10);
            let m0 = digit_text(t.minute % 10);
            let s1 = digit_text(t.second / 10);
            let s0 = digit_text(t.second % 10);
            let mut r = String::from_str("Half(");
            r.append(h1);
            r.append(h0);
            r.append(":");
            r.append(m1);
            r.append(m0);
            r.append(":");
            r.append(s1);
            r.append(s0);
            r.append(")");
            proof {
                reveal_strlit("Half(");
                reveal_strlit(":");
                reveal_strlit(")");
                let w = seq![
                    'H',
                    'a',
                    'l',
                    'f',
                    '(',
                    h1@[0],
                    h0@[0],
                    ':',
                    m1@[0],
                    m0@[0],
                    ':',
                    s1@[0],
                    s0@[0],
                    ')',
                ];
                assert(r@ =~= w);
                assert(r@.len() != 5);
                assert(digits_at(r@, 5, 2) && digits_at(r@, 8, 2) && digits_at(r@, 11, 2));
                assert(two_digits(r@, 5) == t.hour);
                assert(two_digits(r@, 8) == t.minute);
                assert(two_digits(r@, 11) == t.second);
            }
            r
        },
    }
}

/// Parses one row of fields into a record, or names its fault.
pub fn parse_row(row: &Vec<String>) -> (r: Result<NonTradeRecord, RecordFault>)
    ensures
        row_fault(fields_view(row@)) is None ==> (r matches Ok(rec) && record_of_row(
            rec,
            fields_view(row@),
        )),
        row_fault(fields_view(row@)) matches Some(f) ==> r == Err::<NonTradeRecord, RecordFault>(
            f,
        ),
        r matches Ok(rec) ==> in_dataset_range(rec.date),
{
    let ghost fv = fields_view(row@);
    if row.len() != 4 {
        return Err(RecordFault::FieldCount);
    }
    assert(fv[0] == row@[0]@ && fv[1] == row@[1]@ && fv[2] == row@[2]@ && fv[3] == row@[3]@);
    let market = match Market::from_str(row[0].as_str()) {
        Some(m) => m,
        None => return Err(RecordFault::UnknownMarket),
    };
    let date = match parse_date(row[2].as_str()) {
        Some(d) => d,
        None => return Err(RecordFault::BadDate),
    };
    let status = match parse_status(row[3].as_str()) {
        Some(s) => s,
        None => return Err(RecordFault::BadStatus),
    };
    Ok(NonTradeRecord { market, timezone: row[1].clone(), date, status })
}

/// Relies on csv's `ReaderBuilder::has_headers(false)`, `from_reader` and
/// `Reader::records`: all records of `data`, the header row included, each
/// as its fields, or `None` where the reader reports an error.
#[verifier::external_body]
fn csv_records(data: &str) -> (r: Option<Vec<Vec<String>>>)
    ensures
        r is None <==> csv_records_of(data@) is None,
        r matches Some(v) ==> csv_records_of(data@) == Some(rows_view(v@)),
{
    let mut rdr = csv::ReaderBuilder::new().has_headers(false).from_reader(data.as_bytes());
    let rows: Result<Vec<Vec<String>>, csv::Error> = rdr.records().map(
        |rec| rec.map(|r| r.iter().map(|f| f.to_string()).collect()),
    ).collect();
    rows.ok()
}

/// The records, header row included, that csv's reader gives for a text,
/// each as its fields.
pub uninterp spec fn csv_records_of(data: Seq<char>) -> Option<Seq<Seq<Seq<char>>>>;

/// The first index from `i` on at which `header` holds `name`.
pub open spec fn column_from(header: Seq<Seq<char>>, name: Seq<char>, i: int) -> Option<int>
    decreases header.len() - i,
{
    if i < 0 || i >= header.len() {
        None
    } else if header[i] == name {
        Some(i)
    } else {
        column_from(header, name, i + 1)
    }
}

/// The positions of the columns market, timezone, date and status in a
/// header row, if it names all four.
pub open spec fn header_columns(header: Seq<Seq<char>>) -> Option<(int, int, int, int)> {
    let m = column_from(header, "market"@, 0);
    let z = column_from(header, "timezone"@, 0);
    let d = column_from(header, "date"@, 0);
    let s = column_from(header, "status"@, 0);
    if m is Some && z is Some && d is Some && s is Some {
        Some((m->0, z->0, d->0, s->0))
    } else {
        None
    }
}

/// The fields of `row` at the positions `c`, in the order market, timezone,
/// date, status; no fields where a position lies outside the row.
pub open spec fn arranged(row: Seq<Seq<char>>, c: (int, int, int, int)) -> Seq<Seq<char>> {
    if c.0 < row.len() && c.1 < row.len() && c.2 < row.len() && c.3 < row.len() {
        seq![row[c.0], row[c.1], row[c.2], row[c.3]]
    } else {
        Seq::empty()
    }
}

/// `r` is the outcome of loading the records `all` of a dataset, header row
/// first: an empty dataset gives an empty registry; a header without the
/// four columns is refused; otherwise the data rows, arranged by the
/// header, are loaded.
pub open spec fn dataset_outcome(all: Seq<Seq<Seq<char>>>, r: Result<NonTradeCal, LoadError>) -> bool {
    if all.len() == 0 {
        load_outcome(Seq::empty(), r)
    } else {
        match header_columns(all[0]) {
            None => r matches Err(LoadError::MissingColumn),
            Some(c) => load_outcome(
                all.drop_first().map_values(|row: Seq<Seq<char>>| arranged(row, c)),
                r,
            ),
        }
    }
}

fn field_is(f: &str, name: &str) -> (r: bool)
    ensures
        r == (f@ == name@),
{
    let n = f.unicode_len();
    if n != name.unicode_len() {
        return false;
    }
    let mut i: usize = 0;
    while i < n
        invariant
            n == f@.len(),
            n == name@.len(),
            i <= n,
            forall|k: int| 0 <= k < i ==> f@[k] == name@[k],
        decreases n - i,
    {
        if f.get_char(i) != name.get_char(i) {
            return false;
        }
        i = i + 1;
    }
    assert(f@ =~= name@);
    true
}

fn find_column(header: &Vec<String>, name: &str) -> (r: Option<usize>)
    ensures
        r matches Some(k) ==> column_from(fields_view(header@), name@, 0) == Some(k as int),
        r is None ==> column_from(fields_view(header@), name@, 0) is None,
{
    let ghost hv = fields_view(header@);
    let mut i: usize = 0;
    while i < header.len()
        invariant
            i <= header@.len(),
            hv == fields_view(header@),
            column_from(hv, name@, 0) == column_from(hv, name@, i as int),
        decreases header@.len() - i,
    {
        assert(hv[i as int] == header@[i as int]@);
        if field_is(header[i].as_str(), name) {
            return Some(i);
        }
        i = i + 1;
    }
    None
}

fn arrange(row: &Vec<String>, c: (usize, usize, usize, usize)) -> (r: Vec<String>)
    ensures
        fields_view(r@) == arranged(fields_view(row@), (c.0 as int, c.1 as int, c.2 as int, c.3 as int)),
{
    let ghost rv = fields_view(row@);
    let n = row.len();
    if c.0 < n && c.1 < n && c.2 < n && c.3 < n {
        let r = vec![row[c.0].clone(), row[c.1].clone(), row[c.2].clone(), row[c.3].clone()];
        assert(fields_view(r@) =~= arranged(rv, (c.0 as int, c.1 as int, c.2 as int, c.3 as int)));
        r
    } else {
        let r: Vec<String> = Vec::new();
        assert(fields_view(r@) =~= Seq::<Seq<char>>::empty());
        r
    }
}

impl NonTradeCal {
    /// The records held, in dataset order.
    pub closed spec fn entries(&self) -> Seq<NonTradeRecord> {
        self.records@
    }

    /// Builds the registry from rows of fields (market, timezone, date,
    /// status). Fails at the first row that does not parse.
    pub fn from_rows(rows: &Vec<Vec<String>>) -> (r: Result<NonTradeCal, LoadError>)
        ensures
            load_outcome(rows_view(rows@), r),
    {
        broadcast use vstd::std_specs::hash::group_hash_axioms;

        let ghost rv = rows_view(rows@);
        let mut records: Vec<NonTradeRecord> = Vec::new();
        let mut index: HashMap<u64, TradeDayStatus> = HashMap::new();
        let mut i: usize = 0;
        while i < rows.len()
            invariant
                i <= rows@.len(),
                rv == rows_view(rows@),
                records@.len() == i,
                indexes(index@, records@),
                forall|k: int| 0 <= k < i ==> (#[trigger] row_fault(rv[k])) is None,
                forall|k: int| 0 <= k < i ==> record_of_row(#[trigger] records@[k], rv[k]),
            decreases rows@.len() - i,
        {
            assert(rv[i as int] == fields_view(rows@[i as int]@));
            match parse_row(&rows[i]) {
                Ok(rec) => {
                    let key = day_key_of(rec.market, rec.date);
                    let status = rec.status;
                    let ghost before = records@;
                    let ghost old_index = index@;
                    let ghost rm = rec.market;
                    let ghost rd = rec.date;
                    records.push(rec);
                    index.insert(key, status);
                    proof {
                        assert(records@.drop_last() =~= before);
                        assert forall|k: int| 0 <= k < records@.len() implies in_dataset_range(
                            #[trigger] records@[k].date,
                        ) by {
                            if k < before.len() {
                                assert(records@[k] == before[k]);
                            }
                        }
                        assert forall|m: Market, d: CalendarDate|
                            #![trigger lookup_in(records@, m, d)]
                            in_dataset_range(d) implies (index@.contains_key(day_key(m, d) as u64)
                            <==> lookup_in(records@, m, d) is Some) && (index@.contains_key(
                            day_key(m, d) as u64) ==> lookup_in(records@, m, d) == Some(
                            index@[day_key(m, d) as u64])) by {
                            if m == rm && d == rd {
                            } else {
                                if day_key(m, d) == day_key(rm, rd) {
                                    lemma_day_key_injective(m, d, rm, rd);
                                }
                                assert(lookup_in(records@, m, d) == lookup_in(before, m, d));
                            }
                        }
                    }
                },
                Err(fault) => {
                    return Err(LoadError::MalformedRecord { row: i, raw: rows[i].clone(), fault });
                },
            }
            i = i + 1;
        }
        Ok(NonTradeCal { records, index })
    }

    /// Reads a comma-separated dataset whose header row names the columns
    /// market, timezone and date and status, in any order.
    pub fn new(data: &str) -> (r: Result<NonTradeCal, LoadError>)
        ensures
            csv_records_of(data@) is None ==> r matches Err(LoadError::Unreadable),
            csv_records_of(data@) matches Some(all) ==> dataset_outcome(all, r),
    {
        let all = match csv_records(data) {
            Some(all) => all,
            None => return Err(LoadError::Unreadable),
        };
        let ghost av = rows_view(all@);
        if all.len() == 0 {
            let none: Vec<Vec<String>> = Vec::new();
            assert(rows_view(none@) =~= Seq::<Seq<Seq<char>>>::empty());
            return NonTradeCal::from_rows(&none);
        }
        assert(av[0] == fields_view(all@[0]@));
        let m = find_column(&all[0], "market");
        let z = find_column(&all[0], "timezone");
        let d = find_column(&all[0], "date");
        let s = find_column(&all[0], "status");
        if m.is_none() || z.is_none() || d.is_none() || s.is_none() {
            return Err(LoadError::MissingColumn);
        }
        let c = (m.unwrap(), z.unwrap(), d.unwrap(), s.unwrap());
        let ghost ci = (c.0 as int, c.1 as int, c.2 as int, c.3 as int);
        let ghost want = av.drop_first().map_values(|row: Seq<Seq<char>>| arranged(row, ci));
        assert(header_columns(av[0]) == Some(ci));
        let mut rows: Vec<Vec<String>> = Vec::new();
        let mut i: usize = 1;
        while i < all.len()
            invariant
                1 <= i <= all@.len(),
                av == rows_view(all@),
                ci == (c.0 as int, c.1 as int, c.2 as int, c.3 as int),
                header_columns(av[0]) == Some(ci),
                want == av.drop_first().map_values(|row: Seq<Seq<char>>| arranged(row, ci)),
                rows@.len() == i - 1,
                forall|k: int| 0 <= k < i - 1 ==> #[trigger] fields_view(rows@[k]@) == want[k],
            decreases all@.len() - i,
        {
            assert(av[i as int] == fields_view(all@[i as int]@));
            let row = arrange(&all[i], c);
            assert(want[i - 1] == arranged(av[i as int], ci));
            assert(fields_view(row@) == want[i - 1]);
            let ghost before = rows@;
            rows.push(row);
            assert forall|k: int| 0 <= k < i implies #[trigger] fields_view(rows@[k]@) == want[k] by {
                if k < i - 1 {
                    assert(rows@[k] == before[k]);
                }
            }
            i = i + 1;
        }
        assert(rows_view(rows@) =~= want);
        NonTradeCal::from_rows(&rows)
    }

    /// The exception status recorded for market `m` on local date `d`, if any.
    pub fn lookup(&self, m: Market, d: CalendarDate) -> (r: Option<TradeDayStatus>)
        ensures
            r == lookup_in(self.entries(), m, d),
    {
        broadcast use vstd::std_specs::hash::group_hash_axioms;

        proof {
            use_type_invariant(self);
        }
        if d.year < 0 || d.year > 9999 || d.month < 1 || d.month > 12 || d.day < 1 || d.day > 31 {
            proof {
                lemma_lookup_outside_range(self.records@, m, d);
            }
            return None;
        }
        let key = day_key_of(m, d);
        match self.index.get(&key) {
            Some(s) => Some(*s),
            None => None,
        }
    }
}

} // verus!
