//! Dates as the sources write them, brought to one timestamp: the day that the
//! text names, at noon, in the time zone of Madrid, in the form of RFC 2822.
//!
//! The calendar, the words and the numbers are this library's own. Four
//! things are chrono's and chrono-tz's: reading a date in figures, the time
//! zone of a name, the offset of a time zone at a wall-clock time, and the
//! text of a timestamp. Each of the four answers has a name here, and
//! [`normalized`] says over those names what [`normalize_date`] returns.

use crate::calendar::{is_wire_date, wire_date};
use crate::text::{
    parse_signed, parse_unsigned, same_text, signed_number, split_words, unsigned_number, words,
};
use chrono::{
    Datelike, FixedOffset, LocalResult, NaiveDate, NaiveDateTime, NaiveTime, Offset, TimeZone,
};
use chrono_tz::Tz;
use vstd::prelude::*;

verus! {

/// The hour of the nominal time of day of every timestamp. The sources give
/// a day and no time; noon keeps the day clear of a change of day in any zone
/// that a reader may convert to.
pub const NOON_HOUR: u32 = 12;

/// The minute of the nominal time of day.
pub const NOON_MINUTE: u32 = 0;

/// The second of the nominal time of day.
pub const NOON_SECOND: u32 = 0;

/// The name of the time zone of every timestamp.
pub const REFERENCE_ZONE: &'static str = "Europe/Madrid";

/// The names of the months as a date in words has them.
pub const WORDED_MONTHS: [&'static str; 12] = [
    "enero",
    "febrero",
    "marzo",
    "abril",
    "mayo",
    "junio",
    "julio",
    "agosto",
    "septiembre",
    "octubre",
    "noviembre",
    "diciembre",
];

/// The names of the months as a short date has them, each with its full stop.
pub const ABBREVIATED_MONTHS: [&'static str; 12] = [
    "Ene.",
    "Feb.",
    "Mar.",
    "Abr.",
    "Mayo.",
    "Jun.",
    "Jul.",
    "Ago.",
    "Sep.",
    "Oct.",
    "Nov.",
    "Dic.",
];

/// The ways in which a source writes a date.
#[derive(Clone, Copy, Debug, PartialEq, Eq)]
pub enum Dialect {
    /// `jueves, 3 de enero de 2024`: the day is the second word, the month's
    /// full name the fourth, the year the sixth.
    Worded,
    /// `2024-01-03`: year, month and day in figures, read as a whole.
    Iso,
    /// `15 Ago. 2023`: the day, the month's short name, the year.
    Abbreviated,
}

/// A part of a date.
#[derive(Clone, Copy, Debug, PartialEq, Eq)]
pub enum DateField {
    Day,
    Month,
    Year,
}

/// Why a text is no date.
#[derive(Debug, PartialEq, Eq)]
pub enum DateParseError {
    /// The text has too few words to hold this part.
    MissingToken { field: DateField },
    /// The word that should be this part is no number, or one too large.
    InvalidNumber { field: DateField, token: String },
    /// The word that should be the month is none of the table.
    UnknownMonth { token: String },
    /// The text is no date in figures.
    Malformed,
    /// The parts were read, and name no day that a timestamp can hold.
    ImpossibleDate { year: i32, month: u32, day: u32 },
    /// Noon of the day is no single instant in the zone.
    UnresolvedLocalTime,
}

/// What a [`DateParseError`] says, over sequences of characters.
pub enum DateFault {
    MissingToken { field: DateField },
    InvalidNumber { field: DateField, token: Seq<char> },
    UnknownMonth { token: Seq<char> },
    Malformed,
    ImpossibleDate { year: int, month: int, day: int },
    UnresolvedLocalTime,
}

impl View for DateParseError {
    type V = DateFault;

    open spec fn view(&self) -> DateFault {
        match *self {
            DateParseError::MissingToken { field } => DateFault::MissingToken { field },
            DateParseError::InvalidNumber { field, token } => DateFault::InvalidNumber {
                field,
                token: token@,
            },
            DateParseError::UnknownMonth { token } => DateFault::UnknownMonth { token: token@ },
            DateParseError::Malformed => DateFault::Malformed,
            DateParseError::ImpossibleDate { year, month, day } => DateFault::ImpossibleDate {
                year: year as int,
                month: month as int,
                day: day as int,
            },
            DateParseError::UnresolvedLocalTime => DateFault::UnresolvedLocalTime,
        }
    }
}

/// What a wall-clock time is in a time zone: nothing, where the clocks skip
/// it; one offset from UTC, in seconds to the east; or two, where the clocks
/// show it twice.
#[derive(Clone, Copy, Debug, PartialEq, Eq)]
pub enum LocalOffset {
    Gap,
    Unique(i32),
    Fold(i32, i32),
}

/// Where the parts of a date in words stand among its words, counted from 0,
/// and the table that names its months.
#[derive(Clone, Copy, Debug, PartialEq, Eq)]
pub struct WordOrder {
    pub day_at: usize,
    pub month_at: usize,
    pub year_at: usize,
    pub months: [&'static str; 12],
}

/// The order of the words in a dialect that writes its dates in words.
pub open spec fn word_order(dialect: Dialect) -> Option<WordOrder> {
    match dialect {
        Dialect::Worded => Some(WordOrder { day_at: 1, month_at: 3, year_at: 5, months: WORDED_MONTHS }),
        Dialect::Abbreviated => Some(
            WordOrder { day_at: 0, month_at: 1, year_at: 2, months: ABBREVIATED_MONTHS },
        ),
        Dialect::Iso => None,
    }
}

/// A table of month names as sequences of characters.
pub open spec fn names_of(table: [&'static str; 12]) -> Seq<Seq<char>> {
    Seq::new(12, |i: int| table[i]@)
}

/// The number, from 1, of the first entry of `names` that is `token`.
pub open spec fn month_number(names: Seq<Seq<char>>, token: Seq<char>) -> Option<u32> {
    match names.index_of_first(token) {
        Some(index) => Some((index + 1) as u32),
        None => None,
    }
}

/// Year, month and day of a date written in words. The day is looked at
/// first, then the year, then the month; the first of them that is not there
/// or cannot be read is the error.
pub open spec fn written_parts(
    words: Seq<Seq<char>>,
    order: WordOrder,
) -> Result<(i32, u32, u32), DateFault> {
    if words.len() <= order.day_at {
        Err(DateFault::MissingToken { field: DateField::Day })
    } else if unsigned_number(words[order.day_at as int]) is None {
        Err(DateFault::InvalidNumber { field: DateField::Day, token: words[order.day_at as int] })
    } else if words.len() <= order.year_at {
        Err(DateFault::MissingToken { field: DateField::Year })
    } else if signed_number(words[order.year_at as int]) is None {
        Err(DateFault::InvalidNumber { field: DateField::Year, token: words[order.year_at as int] })
    } else if words.len() <= order.month_at {
        Err(DateFault::MissingToken { field: DateField::Month })
    } else {
        match month_number(names_of(order.months), words[order.month_at as int]) {
            None => Err(DateFault::UnknownMonth { token: words[order.month_at as int] }),
            Some(month) => Ok(
                (
                    signed_number(words[order.year_at as int]).unwrap(),
                    month,
                    unsigned_number(words[order.day_at as int]).unwrap(),
                ),
            ),
        }
    }
}

/// What chrono reads as year, month and day from a date in figures, such as
/// `2024-01-03`, and `None` where it reads none.
pub uninterp spec fn iso_date(text: Seq<char>) -> Option<(i32, u32, u32)>;

/// `Tz` of chrono-tz: a time zone. It is handed on and never looked into.
#[verifier::external_type_specification]
#[verifier::external_body]
pub struct ExTz(chrono_tz::Tz);

/// The time zone that chrono-tz has under a name, and `None` where it has
/// none.
pub uninterp spec fn named_zone(name: Seq<char>) -> Option<Tz>;

/// The offsets from UTC that the time zone database of chrono-tz gives for a
/// wall-clock time in a zone.
pub uninterp spec fn zone_offset(
    zone: Tz,
    year: int,
    month: int,
    day: int,
    hour: int,
    minute: int,
    second: int,
) -> LocalOffset;

/// The text of RFC 2822 that chrono writes for a wall-clock time at an offset
/// from UTC of `offset` seconds to the east.
pub uninterp spec fn rfc2822_text(
    year: int,
    month: int,
    day: int,
    hour: int,
    minute: int,
    second: int,
    offset: int,
) -> Seq<char>;

/// Year, month and day as `raw` gives them in `dialect`.
pub open spec fn date_parts(raw: Seq<char>, dialect: Dialect) -> Result<(i32, u32, u32), DateFault> {
    match word_order(dialect) {
        Some(order) => written_parts(words(raw), order),
        None => match iso_date(raw) {
            Some(parts) => Ok(parts),
            None => Err(DateFault::Malformed),
        },
    }
}

/// The timestamp on the wire of a wall-clock time that the zone gives
/// `offset`: the text for the one offset, where there is one and it is less
/// than a day; no timestamp else.
pub open spec fn stamp_at(
    year: int,
    month: int,
    day: int,
    hour: int,
    minute: int,
    second: int,
    offset: LocalOffset,
) -> Result<Seq<char>, DateFault> {
    match offset {
        LocalOffset::Unique(seconds) if -86_400 < seconds < 86_400 => Ok(
            rfc2822_text(year, month, day, hour, minute, second, seconds as int),
        ),
        _ => Err(DateFault::UnresolvedLocalTime),
    }
}

/// The timestamp on the wire of noon of a day in the reference zone.
pub open spec fn wire_timestamp(year: int, month: int, day: int) -> Result<Seq<char>, DateFault> {
    match named_zone(REFERENCE_ZONE@) {
        Some(zone) => stamp_at(
            year,
            month,
            day,
            NOON_HOUR as int,
            NOON_MINUTE as int,
            NOON_SECOND as int,
            zone_offset(
                zone,
                year,
                month,
                day,
                NOON_HOUR as int,
                NOON_MINUTE as int,
                NOON_SECOND as int,
            ),
        ),
        None => Err(DateFault::UnresolvedLocalTime),
    }
}

/// The timestamp that `raw` stands for in `dialect`, or why it stands for
/// none.
pub open spec fn normalized(raw: Seq<char>, dialect: Dialect) -> Result<Seq<char>, DateFault> {
    match date_parts(raw, dialect) {
        Err(fault) => Err(fault),
        Ok((year, month, day)) => if is_wire_date(year as int, month as int, day as int) {
            wire_timestamp(year as int, month as int, day as int)
        } else {
            Err(DateFault::ImpossibleDate { year: year as int, month: month as int, day: day as int })
        },
    }
}

/// A timestamp, or the error in its place, over sequences of characters.
pub open spec fn stamp_view(stamp: Result<String, DateParseError>) -> Result<Seq<char>, DateFault> {
    match stamp {
        Ok(text) => Ok(text@),
        Err(error) => Err(error@),
    }
}

/// Calls `NaiveDate`'s `FromStr` of chrono, which reads a year, `-`, a month,
/// `-` and a day, and hands out the three numbers of the date it made. All
/// that is claimed is that the answer depends on the text alone.
#[verifier::external_body]
fn read_iso_date(text: &str) -> (parts: Option<(i32, u32, u32)>)
    ensures
        parts == iso_date(text@),
{
    text.parse::<NaiveDate>().ok().map(|date| (date.year(), date.month(), date.day()))
}

/// Calls `Tz`'s `FromStr` of chrono-tz and drops what its error says.
/// Claimed: the zone depends on the name alone.
#[verifier::external_body]
fn zone_named(name: &str) -> (zone: Option<Tz>)
    ensures
        zone == named_zone(name@),
{
    name.parse::<Tz>().ok()
}

/// Calls `NaiveDateTime::and_local_timezone` of chrono with a zone of
/// chrono-tz, and hands out the offsets of what came back. Claimed: the
/// answer depends on the zone and the wall-clock time alone, the zones' rules
/// being part of chrono-tz.
#[verifier::external_body]
fn local_offset(
    zone: Tz,
    year: i32,
    month: u32,
    day: u32,
    hour: u32,
    minute: u32,
    second: u32,
) -> (offset: LocalOffset)
    requires
        is_wire_date(year as int, month as int, day as int),
        hour < 24,
        minute < 60,
        second < 60,
    ensures
        offset == zone_offset(
            zone,
            year as int,
            month as int,
            day as int,
            hour as int,
            minute as int,
            second as int,
        ),
{
    let date = NaiveDate::from_ymd_opt(year, month, day).unwrap();
    let time = NaiveTime::from_hms_opt(hour, minute, second).unwrap();
    match NaiveDateTime::new(date, time).and_local_timezone(zone) {
        LocalResult::None => LocalOffset::Gap,
        LocalResult::Single(at) => LocalOffset::Unique(at.offset().fix().local_minus_utc()),
        LocalResult::Ambiguous(first, last) => LocalOffset::Fold(
            first.offset().fix().local_minus_utc(),
            last.offset().fix().local_minus_utc(),
        ),
    }
}

/// Calls `DateTime::to_rfc2822` of chrono on the wall-clock time at the
/// offset. Claimed: the text depends on these numbers alone. The call panics
/// on a year of more than four digits; `requires` keeps those out.
#[verifier::external_body]
fn write_rfc2822(
    year: i32,
    month: u32,
    day: u32,
    hour: u32,
    minute: u32,
    second: u32,
    offset: i32,
) -> (text: String)
    requires
        is_wire_date(year as int, month as int, day as int),
        hour < 24,
        minute < 60,
        second < 60,
        -86_400 < offset < 86_400,
    ensures
        text@ == rfc2822_text(
            year as int,
            month as int,
            day as int,
            hour as int,
            minute as int,
            second as int,
            offset as int,
        ),
{
    let date = NaiveDate::from_ymd_opt(year, month, day).unwrap();
    let time = NaiveTime::from_hms_opt(hour, minute, second).unwrap();
    let zone = FixedOffset::east_opt(offset).unwrap();
    zone.from_local_datetime(&NaiveDateTime::new(date, time)).unwrap().to_rfc2822()
}

/// The number of the month that `token` names in `table`, from 1.
pub fn find_month(table: &[&'static str; 12], token: &str) -> (month: Option<u32>)
    ensures
        month == month_number(names_of(*table), token@),
        month matches Some(number) ==> 1 <= number <= 12,
{
    let ghost names = names_of(*table);
    let mut index: usize = 0;
    while index < 12
        invariant
            index <= 12,
            names == names_of(*table),
            forall|k: int| 0 <= k < index ==> names[k] != token@,
        decreases 12 - index,
    {
        if same_text(table[index], token) {
            proof {
                assert(names[index as int] == token@);
                names.index_of_first_ensures(token@);
            }
            return Some((index + 1) as u32);
        }
        index += 1;
    }
    proof {
        names.index_of_first_ensures(token@);
    }
    None
}

/// The order of the words in `dialect`, where it writes its dates in words.
pub fn order_of(dialect: Dialect) -> (order: Option<WordOrder>)
    ensures
        order == word_order(dialect),
{
    match dialect {
        Dialect::Worded => Some(WordOrder { day_at: 1, month_at: 3, year_at: 5, months: WORDED_MONTHS }),
        Dialect::Abbreviated => Some(
            WordOrder { day_at: 0, month_at: 1, year_at: 2, months: ABBREVIATED_MONTHS },
        ),
        Dialect::Iso => None,
    }
}

/// The text of a part, or of an error, over sequences of characters.
pub open spec fn parts_view(
    parts: Result<(i32, u32, u32), DateParseError>,
) -> Result<(i32, u32, u32), DateFault> {
    match parts {
        Ok(triple) => Ok(triple),
        Err(error) => Err(error@),
    }
}

/// Reads year, month and day from the words of a date.
pub fn read_written_parts(
    list: &Vec<String>,
    order: &WordOrder,
) -> (parts: Result<(i32, u32, u32), DateParseError>)
    ensures
        parts_view(parts) == written_parts(list.deep_view(), *order),
{
    let ghost words = list.deep_view();
    if list.len() <= order.day_at {
        return Err(DateParseError::MissingToken { field: DateField::Day });
    }
    assert(words[order.day_at as int] == list[order.day_at as int]@);
    let day = match parse_unsigned(list[order.day_at].as_str()) {
        Some(day) => day,
        None => {
            return Err(
                DateParseError::InvalidNumber {
                    field: DateField::Day,
                    token: list[order.day_at].clone(),
                },
            );
        },
    };
    if list.len() <= order.year_at {
        return Err(DateParseError::MissingToken { field: DateField::Year });
    }
    assert(words[order.year_at as int] == list[order.year_at as int]@);
    let year = match parse_signed(list[order.year_at].as_str()) {
        Some(year) => year,
        None => {
            return Err(
                DateParseError::InvalidNumber {
                    field: DateField::Year,
                    token: list[order.year_at].clone(),
                },
            );
        },
    };
    if list.len() <= order.month_at {
        return Err(DateParseError::MissingToken { field: DateField::Month });
    }
    assert(words[order.month_at as int] == list[order.month_at as int]@);
    match find_month(&order.months, list[order.month_at].as_str()) {
        Some(month) => Ok((year, month, day)),
        None => Err(DateParseError::UnknownMonth { token: list[order.month_at].clone() }),
    }
}

/// Reads year, month and day from `raw` as `dialect` writes them.
pub fn read_date_parts(raw: &str, dialect: Dialect) -> (parts: Result<(i32, u32, u32), DateParseError>)
    ensures
        parts_view(parts) == date_parts(raw@, dialect),
{
    match order_of(dialect) {
        Some(order) => {
            let list = split_words(raw);
            read_written_parts(&list, &order)
        },
        None => match read_iso_date(raw) {
            Some(parts) => Ok(parts),
            None => Err(DateParseError::Malformed),
        },
    }
}

/// A day of the calendar that a timestamp on the wire can hold. Its time of
/// day is noon and its zone is the reference zone, always.
#[derive(Clone, Copy, Debug, PartialEq, Eq)]
pub struct CanonicalTimestamp {
    year: i32,
    month: u32,
    day: u32,
}

/// Year, month and day of a [`CanonicalTimestamp`].
pub struct CalendarDay {
    pub year: int,
    pub month: int,
    pub day: int,
}

impl View for CanonicalTimestamp {
    type V = CalendarDay;

    closed spec fn view(&self) -> CalendarDay {
        CalendarDay { year: self.year as int, month: self.month as int, day: self.day as int }
    }
}

impl CanonicalTimestamp {
    #[verifier::type_invariant]
    spec fn names_a_day(self) -> bool {
        is_wire_date(self.year as int, self.month as int, self.day as int)
    }

    /// The timestamp of a day, where the three numbers name one in a year
    /// from 0 to 9999; the error that holds the numbers, where they do not.
    pub fn new(year: i32, month: u32, day: u32) -> (made: Result<CanonicalTimestamp, DateParseError>)
        ensures
            match made {
                Ok(stamp) => is_wire_date(year as int, month as int, day as int) && stamp@
                    == (CalendarDay { year: year as int, month: month as int, day: day as int }),
                Err(error) => !is_wire_date(year as int, month as int, day as int) && error
                    == (DateParseError::ImpossibleDate { year, month, day }),
            },
    {
        if wire_date(year, month, day) {
            Ok(CanonicalTimestamp { year, month, day })
        } else {
            Err(DateParseError::ImpossibleDate { year, month, day })
        }
    }

    /// The year, from 0 to 9999.
    pub fn year(&self) -> (year: i32)
        ensures
            year == self@.year,
            is_wire_date(self@.year, self@.month, self@.day),
    {
        proof {
            use_type_invariant(self);
        }
        self.year
    }

    /// The month, from 1 to 12.
    pub fn month(&self) -> (month: u32)
        ensures
            month == self@.month,
            is_wire_date(self@.year, self@.month, self@.day),
    {
        proof {
            use_type_invariant(self);
        }
        self.month
    }

    /// The day of the month, from 1.
    pub fn day(&self) -> (day: u32)
        ensures
            day == self@.day,
            is_wire_date(self@.year, self@.month, self@.day),
    {
        proof {
            use_type_invariant(self);
        }
        self.day
    }

    /// The timestamp on the wire of this day at the given time of day,
    /// where the zone gives that time `offset`.
    pub fn at_offset(
        &self,
        hour: u32,
        minute: u32,
        second: u32,
        offset: LocalOffset,
    ) -> (text: Result<String, DateParseError>)
        requires
            hour < 24,
            minute < 60,
            second < 60,
        ensures
            stamp_view(text) == stamp_at(
                self@.year,
                self@.month,
                self@.day,
                hour as int,
                minute as int,
                second as int,
                offset,
            ),
    {
        proof {
            use_type_invariant(self);
        }
        match offset {
            LocalOffset::Unique(seconds) => {
                if -86_400 < seconds && seconds < 86_400 {
                    Ok(write_rfc2822(self.year, self.month, self.day, hour, minute, second, seconds))
                } else {
                    Err(DateParseError::UnresolvedLocalTime)
                }
            },
            _ => Err(DateParseError::UnresolvedLocalTime),
        }
    }

    /// The timestamp as the feed carries it: noon of the day in the
    /// reference zone, in the form of RFC 2822. It fails only where the zone
    /// is not known or gives noon of that day no single instant.
    pub fn to_rfc2822(&self) -> (text: Result<String, DateParseError>)
        ensures
            stamp_view(text) == wire_timestamp(self@.year, self@.month, self@.day),
    {
        proof {
            use_type_invariant(self);
        }
        match zone_named(REFERENCE_ZONE) {
            Some(zone) => {
                let offset = local_offset(
                    zone,
                    self.year,
                    self.month,
                    self.day,
                    NOON_HOUR,
                    NOON_MINUTE,
                    NOON_SECOND,
                );
                self.at_offset(NOON_HOUR, NOON_MINUTE, NOON_SECOND, offset)
            },
            None => Err(DateParseError::UnresolvedLocalTime),
        }
    }
}

/// Brings a date as a source writes it to the timestamp that the feed
/// carries. The answer is a function of the text and the dialect: the same
/// text in the same dialect gives the same timestamp, or the same error.
pub fn normalize_date(raw: &str, dialect: Dialect) -> (stamp: Result<String, DateParseError>)
    ensures
        stamp_view(stamp) == normalized(raw@, dialect),
{
    let (year, month, day) = match read_date_parts(raw, dialect) {
        Ok(parts) => parts,
        Err(error) => {
            return Err(error);
        },
    };
    match CanonicalTimestamp::new(year, month, day) {
        Ok(day) => day.to_rfc2822(),
        Err(error) => Err(error),
    }
}

/// However often a text is read in a dialect, the answer is the same.
pub proof fn same_text_same_timestamp(
    raw: Seq<char>,
    dialect: Dialect,
    first: Result<String, DateParseError>,
    second: Result<String, DateParseError>,
)
    requires
        stamp_view(first) == normalized(raw, dialect),
        stamp_view(second) == normalized(raw, dialect),
    ensures
        stamp_view(first) == stamp_view(second),
{
}

/// A date in words whose month is none of the table is no date: the answer
/// is an error, and where day and year were read it is the error that holds
/// the word.
pub proof fn unknown_month_is_rejected(raw: Seq<char>, dialect: Dialect)
    requires
        word_order(dialect) is Some,
        word_order(dialect).unwrap().month_at < words(raw).len(),
        month_number(
            names_of(word_order(dialect).unwrap().months),
            words(raw)[word_order(dialect).unwrap().month_at as int],
        ) is None,
    ensures
        normalized(raw, dialect) is Err,
        date_parts(raw, dialect) is Err,
        ({
            let order = word_order(dialect).unwrap();
            let list = words(raw);
            order.day_at < list.len() && order.year_at < list.len() && unsigned_number(
                list[order.day_at as int],
            ) is Some && signed_number(list[order.year_at as int]) is Some
        }) ==> normalized(raw, dialect) == Err::<Seq<char>, DateFault>(
            DateFault::UnknownMonth { token: words(raw)[word_order(dialect).unwrap().month_at as int] },
        ),
{
}

} // verus!
