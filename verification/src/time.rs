//! Instants, calendar dates and local times, and the calls into `chrono` and
//! `chrono_tz` that convert between them and their text forms.
use vstd::prelude::*;
use chrono::{DateTime, Datelike, SecondsFormat, TimeZone, Timelike, Utc};

verus! {

/// Whether `DateTime::<Utc>::from_timestamp(seconds, nanos)` yields an instant: the day of
/// the seconds (day 719,163 is 1 January 1970) is a supported date, the nanoseconds are under
/// two seconds, and a second or more of them (a leap second) only at the 59th second of a minute.
pub open spec fn instant_in_range(seconds: int, nanos: int) -> bool {
    &&& date_in_range(seconds / 86_400 + 719_163)
    &&& 0 <= nanos < 2_000_000_000
    &&& (nanos >= 1_000_000_000 ==> seconds % 60 == 59)
}

/// The text `DateTime::<Utc>::to_rfc3339` gives for the instant.
pub uninterp spec fn rfc3339_text(seconds: int, nanos: int) -> Seq<char>;

/// The text `DateTime::<Utc>::to_rfc3339_opts` gives for the instant, with `Z` for UTC
/// and `fraction_digits` (0 or 3) digits of fractional seconds.
pub uninterp spec fn rfc3339_fixed_text(seconds: int, nanos: int, fraction_digits: int) -> Seq<char>;

/// The instant (seconds since the Unix epoch, nanoseconds) that `DateTime::parse_from_rfc3339`
/// reads from the text, if it reads one.
pub uninterp spec fn parsed_rfc3339(text: Seq<char>) -> Option<(int, int)>;

/// A point on the UTC time line: whole seconds since the Unix epoch and the nanoseconds
/// within that second, always one that `chrono` can represent.
#[derive(Clone, Copy, Debug, PartialEq, Eq)]
pub struct UtcInstant {
    seconds: i64,
    nanos: u32,
}

impl UtcInstant {
    #[verifier::type_invariant]
    closed spec fn well_formed(self) -> bool {
        instant_in_range(self.seconds as int, self.nanos as int)
    }

    pub closed spec fn secs(self) -> int {
        self.seconds as int
    }

    pub closed spec fn nano(self) -> int {
        self.nanos as int
    }

    /// `DateTime::from_timestamp`: whether `chrono` can represent the instant.
    #[verifier::external_body]
    pub(crate) fn from_timestamp(seconds: i64, nanos: u32) -> (r: Option<UtcInstant>)
        ensures
            r is Some <==> instant_in_range(seconds as int, nanos as int),
            r matches Some(t) ==> t.secs() == seconds && t.nano() == nanos,
    {
        DateTime::<Utc>::from_timestamp(seconds, nanos).map(|_| UtcInstant { seconds, nanos })
    }

    /// The instant given by its parts, if it can be represented.
    pub fn from_parts(seconds: i64, nanos: u32) -> (r: Option<UtcInstant>)
        ensures
            r is Some <==> instant_in_range(seconds as int, nanos as int),
            r matches Some(t) ==> t.secs() == seconds && t.nano() == nanos,
    {
        UtcInstant::from_timestamp(seconds, nanos)
    }

    pub fn seconds(&self) -> (r: i64)
        ensures
            r == self.secs(),
    {
        self.seconds
    }

    pub fn nanos(&self) -> (r: u32)
        ensures
            r == self.nano(),
    {
        self.nanos
    }
}

/// Strict order of instants on the time line.
pub open spec fn instant_before(a: UtcInstant, b: UtcInstant) -> bool {
    a.secs() < b.secs() || (a.secs() == b.secs() && a.nano() < b.nano())
}

pub fn is_before(a: &UtcInstant, b: &UtcInstant) -> (r: bool)
    ensures
        r == instant_before(*a, *b),
{
    a.seconds() < b.seconds() || (a.seconds() == b.seconds() && a.nanos() < b.nanos())
}

/// `DateTime::<Utc>::to_rfc3339`.
#[verifier::external_body]
fn rfc3339_of(seconds: i64, nanos: u32) -> (s: String)
    requires
        instant_in_range(seconds as int, nanos as int),
    ensures
        s@ == rfc3339_text(seconds as int, nanos as int),
{
    DateTime::<Utc>::from_timestamp(seconds, nanos).unwrap_or_default().to_rfc3339()
}

/// The instant as RFC 3339 text with a `+00:00` offset and as many fraction digits as needed.
pub fn to_rfc3339(t: &UtcInstant) -> (s: String)
    ensures
        s@ == rfc3339_text(t.secs(), t.nano()),
{
    proof { use_type_invariant(t); }
    rfc3339_of(t.seconds(), t.nanos())
}

/// How many digits of fractional seconds a fixed-format timestamp carries.
#[derive(Clone, Copy, Debug, PartialEq, Eq, Structural)]
pub enum FractionDigits {
    Zero,
    Three,
}

pub open spec fn digits_count(d: FractionDigits) -> int {
    match d {
        FractionDigits::Zero => 0,
        FractionDigits::Three => 3,
    }
}

/// `DateTime::<Utc>::to_rfc3339_opts` with a `Z` suffix.
#[verifier::external_body]
fn rfc3339_fixed_of(seconds: i64, nanos: u32, digits: FractionDigits) -> (s: String)
    requires
        instant_in_range(seconds as int, nanos as int),
    ensures
        s@ == rfc3339_fixed_text(seconds as int, nanos as int, digits_count(digits)),
{
    let format = match digits {
        FractionDigits::Zero => SecondsFormat::Secs,
        FractionDigits::Three => SecondsFormat::Millis,
    };
    DateTime::<Utc>::from_timestamp(seconds, nanos).unwrap_or_default().to_rfc3339_opts(format, true)
}

/// The instant as RFC 3339 text ending in `Z`, with the given fraction digits.
pub fn to_rfc3339_fixed(t: &UtcInstant, digits: FractionDigits) -> (s: String)
    ensures
        s@ == rfc3339_fixed_text(t.secs(), t.nano(), digits_count(digits)),
{
    proof { use_type_invariant(t); }
    rfc3339_fixed_of(t.seconds(), t.nanos(), digits)
}

/// `DateTime::parse_from_rfc3339`, taken to the UTC time line.
#[verifier::external_body]
fn read_rfc3339(text: &str) -> (r: Option<UtcInstant>)
    ensures
        r is Some <==> parsed_rfc3339(text@) is Some,
        r matches Some(t) ==> parsed_rfc3339(text@) == Some((t.secs(), t.nano())),
{
    DateTime::parse_from_rfc3339(text).ok().map(|value| UtcInstant {
        seconds: value.timestamp(),
        nanos: value.timestamp_subsec_nanos(),
    })
}

/// The instant an RFC 3339 text denotes, if it is one.
pub fn parse_rfc3339(text: &str) -> (r: Option<UtcInstant>)
    ensures
        r is Some <==> parsed_rfc3339(text@) is Some,
        r matches Some(t) ==> parsed_rfc3339(text@) == Some((t.secs(), t.nano())),
{
    read_rfc3339(text)
}

} // verus!

verus! {

/// Whether `NaiveDate::from_num_days_from_ce_opt(days)` yields a date (day 1 is
/// 1 January of year 1 in the proleptic Gregorian calendar): the day numbers of
/// `NaiveDate::MIN` (-262143-01-01) to `NaiveDate::MAX` (+262142-12-31).
pub open spec fn date_in_range(days: int) -> bool {
    -95_746_129 <= days <= 95_745_399
}

/// The day number of `NaiveDate::from_ymd_opt(year, month, day)`, when that is a date.
pub uninterp spec fn calendar_date(year: int, month: int, day: int) -> Option<int>;

/// `Datelike::year` of the date with the given day number.
pub uninterp spec fn date_year(days: int) -> int;

/// `Datelike::month` (1 to 12) of the date with the given day number.
pub uninterp spec fn date_month(days: int) -> int;

/// `Datelike::day` (1 to 31) of the date with the given day number.
pub uninterp spec fn date_day(days: int) -> int;

/// The text `NaiveDate::format("%Y-%m-%d")` gives for the date.
pub uninterp spec fn date_text(days: int) -> Seq<char>;

/// The day number `NaiveDate::parse_from_str(text, "%Y-%m-%d")` reads, if it reads one.
pub uninterp spec fn parsed_date(text: Seq<char>) -> Option<int>;

/// Day of the week, 0 for Monday to 6 for Sunday. Day 1 (1 January of year 1) is a Monday
/// and the week repeats every 7 days.
pub open spec fn weekday_of(days: int) -> int {
    (days - 1) % 7
}

/// A calendar date, held as its day number; always one that `chrono` can represent.
#[derive(Clone, Copy, Debug, PartialEq, Eq)]
pub struct LocalDate {
    days: i32,
}

impl LocalDate {
    #[verifier::type_invariant]
    closed spec fn well_formed(self) -> bool {
        date_in_range(self.days as int)
    }

    pub closed spec fn day_number(self) -> int {
        self.days as int
    }

    /// The date with the given day number (`NaiveDate::from_num_days_from_ce_opt`).
    #[verifier::external_body]
    pub(crate) fn from_day_number(days: i32) -> (r: Option<LocalDate>)
        ensures
            r is Some <==> date_in_range(days as int),
            r matches Some(d) ==> d.day_number() == days,
    {
        chrono::NaiveDate::from_num_days_from_ce_opt(days).map(|_| LocalDate { days })
    }

    /// `NaiveDate::from_ymd_opt`.
    #[verifier::external_body]
    fn ymd(year: i32, month: u32, day: u32) -> (r: Option<LocalDate>)
        ensures
            r is Some <==> calendar_date(year as int, month as int, day as int) is Some,
            r matches Some(d) ==> calendar_date(year as int, month as int, day as int) == Some(d.day_number()),
    {
        chrono::NaiveDate::from_ymd_opt(year, month, day).map(|d| LocalDate { days: d.num_days_from_ce() })
    }

    /// The date `year-month-day`, if there is one.
    pub fn from_ymd(year: i32, month: u32, day: u32) -> (r: Option<LocalDate>)
        ensures
            r is Some <==> calendar_date(year as int, month as int, day as int) is Some,
            r matches Some(d) ==> calendar_date(year as int, month as int, day as int) == Some(d.day_number()),
    {
        LocalDate::ymd(year, month, day)
    }

    pub fn day_num(&self) -> (r: i32)
        ensures
            r == self.day_number(),
            date_in_range(r as int),
    {
        proof { use_type_invariant(self); }
        self.days
    }

    /// `Datelike::year`.
    #[verifier::external_body]
    pub(crate) fn year(&self) -> (r: i32)
        ensures
            r == date_year(self.day_number()),
            -262_143 <= r <= 262_142,
    {
        chrono::NaiveDate::from_num_days_from_ce_opt(self.days).unwrap_or_default().year()
    }

    /// `Datelike::month`.
    #[verifier::external_body]
    pub(crate) fn month(&self) -> (r: u32)
        ensures
            r == date_month(self.day_number()),
            1 <= r <= 12,
    {
        chrono::NaiveDate::from_num_days_from_ce_opt(self.days).unwrap_or_default().month()
    }

    /// `Datelike::day`.
    #[verifier::external_body]
    pub(crate) fn day(&self) -> (r: u32)
        ensures
            r == date_day(self.day_number()),
            1 <= r <= 31,
    {
        chrono::NaiveDate::from_num_days_from_ce_opt(self.days).unwrap_or_default().day()
    }

    /// `NaiveDate::format("%Y-%m-%d")`.
    #[verifier::external_body]
    fn chrono_text(&self) -> (r: String)
        ensures
            r@ == date_text(self.day_number()),
    {
        chrono::NaiveDate::from_num_days_from_ce_opt(self.days)
            .unwrap_or_default()
            .format("%Y-%m-%d")
            .to_string()
    }

    /// `NaiveDate::parse_from_str` with `%Y-%m-%d`.
    #[verifier::external_body]
    fn read_text(text: &str) -> (r: Option<LocalDate>)
        ensures
            r is Some <==> parsed_date(text@) is Some,
            r matches Some(d) ==> parsed_date(text@) == Some(d.day_number()),
    {
        chrono::NaiveDate::parse_from_str(text, "%Y-%m-%d")
            .ok()
            .map(|d| LocalDate { days: d.num_days_from_ce() })
    }

    /// The date as `YYYY-MM-DD`.
    pub fn format(&self) -> (r: String)
        ensures
            r@ == date_text(self.day_number()),
    {
        self.chrono_text()
    }

    /// The date written as `YYYY-MM-DD`, if the text is one.
    pub fn parse(text: &str) -> (r: Option<LocalDate>)
        ensures
            r is Some <==> parsed_date(text@) is Some,
            r matches Some(d) ==> parsed_date(text@) == Some(d.day_number()),
    {
        LocalDate::read_text(text)
    }

    /// The date `n` days later (earlier for negative `n`), if there is one.
    pub fn add_days(&self, n: i64) -> (r: Option<LocalDate>)
        ensures
            r is Some <==> date_in_range(self.day_number() + n),
            r matches Some(d) ==> d.day_number() == self.day_number() + n,
    {
        let target = match (self.days as i64).checked_add(n) {
            Some(t) => t,
            None => return None,
        };
        if target < i32::MIN as i64 || target > i32::MAX as i64 {
            return None;
        }
        LocalDate::from_day_number(target as i32)
    }

    /// Day of the week, 0 for Monday to 6 for Sunday.
    pub fn weekday(&self) -> (r: u32)
        ensures
            r == weekday_of(self.day_number()),
            r < 7,
    {
        let shifted: i64 = self.days as i64 - 1 + 2_800_000_000;
        let w: i64 = shifted % 7;
        assert(w == (self.day_number() - 1) % 7) by (nonlinear_arith)
            requires
                shifted == self.day_number() - 1 + 7 * 400_000_000,
                shifted >= 0,
                w == shifted % 7;
        w as u32
    }
}

} // verus!

verus! {

/// Whether the text names an IANA time zone that `chrono_tz::Tz` parses.
pub uninterp spec fn zone_known(zone: Seq<char>) -> bool;

/// The instants (seconds, nanoseconds), in the order `chrono_tz` gives them, that the local
/// date-time `days` at `second` of the day maps to in the zone (`TimeZone::from_local_datetime`):
/// none in a gap, one, or two when the local time is ambiguous.
pub uninterp spec fn zone_candidates(zone: Seq<char>, days: int, second: int) -> Seq<(int, int)>;

/// The local (day number, second of the day) of the instant in the zone: its UTC date-time
/// plus the zone's offset at that instant (`DateTime::with_timezone`).
pub uninterp spec fn zone_local(zone: Seq<char>, seconds: int, nanos: int) -> (int, int);

/// The seconds after midnight that `NaiveTime::parse_from_str(text, "%H:%M")` reads, if any.
pub uninterp spec fn parsed_clock(text: Seq<char>) -> Option<int>;

pub open spec fn instant_parts(v: Seq<UtcInstant>) -> Seq<(int, int)> {
    v.map_values(|t: UtcInstant| (t.secs(), t.nano()))
}

/// Whether the zone name parses (`str::parse::<chrono_tz::Tz>`).
#[verifier::external_body]
pub(crate) fn is_known_zone(zone: &str) -> (r: bool)
    ensures
        r == zone_known(zone@),
{
    zone.parse::<chrono_tz::Tz>().is_ok()
}

/// `TimeZone::from_local_datetime` in the named zone: the instants a local date-time maps to,
/// or `None` when the zone is not known.
#[verifier::external_body]
pub(crate) fn local_candidates(zone: &str, date: LocalDate, second: u32) -> (r: Option<Vec<UtcInstant>>)
    requires
        second < 86400,
    ensures
        r is Some <==> zone_known(zone@),
        r matches Some(v) ==> instant_parts(v@) == zone_candidates(zone@, date.day_number(), second as int),
{
    let Ok(tz) = zone.parse::<chrono_tz::Tz>() else { return None };
    let local = chrono::NaiveDate::from_num_days_from_ce_opt(date.days)
        .unwrap_or_default()
        .and_time(chrono::NaiveTime::from_num_seconds_from_midnight_opt(second, 0).unwrap_or_default());
    let convert = |value: chrono::DateTime<chrono_tz::Tz>| UtcInstant {
        seconds: value.timestamp(),
        nanos: value.timestamp_subsec_nanos(),
    };
    Some(match tz.from_local_datetime(&local) {
        chrono::LocalResult::None => Vec::new(),
        chrono::LocalResult::Single(value) => vec![convert(value)],
        chrono::LocalResult::Ambiguous(first, second) => vec![convert(first), convert(second)],
    })
}

/// The day number (as `LocalDate` counts days) of the UTC date of an instant `seconds`
/// after the Unix epoch, as `DateTime::from_timestamp` splits it (1970-01-01 is day 719163).
pub open spec fn utc_day(seconds: int) -> int {
    seconds / 86400 + 719163
}

/// The local date of the instant is a supported date in every zone: a zone's offset moves the
/// UTC date by at most one day, and both neighbouring days are supported.
pub open spec fn local_day_supported(seconds: int) -> bool {
    date_in_range(utc_day(seconds) - 1) && date_in_range(utc_day(seconds) + 1)
}

/// Whether the instant's local date is a supported date in every zone (`local_day_supported`).
pub fn local_day_is_supported(t: &UtcInstant) -> (r: bool)
    ensures
        r == local_day_supported(t.secs()),
{
    let s = t.seconds();
    proof {
        let x = s as int;
        assert((x / 86400 >= -96_465_291) <==> (x >= -8_334_601_142_400int)) by (nonlinear_arith);
        assert((x / 86400 <= 95_026_235) <==> (x < 8_210_266_790_400int)) by (nonlinear_arith);
    }
    -8_334_601_142_400i64 <= s && s < 8_210_266_790_400i64
}

/// The local date and second of the day of the instant in the named zone: the zone's UTC
/// offset at that instant (`TimeZone::offset_from_utc_datetime`) added to the UTC date-time
/// by `NaiveDateTime::checked_add_offset`. `None` when the zone is not known or the local
/// date-time leaves the dates `chrono` can represent; offsets stay within a day
/// (`FixedOffset::east_opt`), so that cannot happen when `local_day_supported` holds.
#[verifier::external_body]
pub(crate) fn local_time_of(zone: &str, t: UtcInstant) -> (r: Option<(LocalDate, u32)>)
    ensures
        !zone_known(zone@) ==> r is None,
        zone_known(zone@) && local_day_supported(t.secs()) ==> r is Some,
        r matches Some((d, s)) ==> zone_known(zone@)
            && (d.day_number(), s as int) == zone_local(zone@, t.secs(), t.nano())
            && s < 86400,
{
    let Ok(tz) = zone.parse::<chrono_tz::Tz>() else { return None };
    let utc = DateTime::<Utc>::from_timestamp(t.seconds, t.nanos).unwrap_or_default().naive_utc();
    let offset = chrono::Offset::fix(&tz.offset_from_utc_datetime(&utc));
    let local = utc.checked_add_offset(offset)?;
    Some((LocalDate { days: local.date().num_days_from_ce() }, local.time().num_seconds_from_midnight()))
}

/// The time of day `HH:MM` as seconds after midnight (`NaiveTime::parse_from_str`).
#[verifier::external_body]
pub(crate) fn parse_clock(text: &str) -> (r: Option<u32>)
    ensures
        r is Some <==> parsed_clock(text@) is Some,
        r matches Some(s) ==> parsed_clock(text@) == Some(s as int) && s < 86400,
{
    chrono::NaiveTime::parse_from_str(text, "%H:%M").ok().map(|t| t.num_seconds_from_midnight())
}

/// Two decimal digits of `n` (0 to 99).
pub open spec fn two_digits(n: int) -> Seq<char> {
    seq![(('0' as int) + n / 10) as char, (('0' as int) + n % 10) as char]
}

/// `HH:MM` for a second of the day, as `format("%H:%M")` writes it.
pub open spec fn clock_text(second: int) -> Seq<char> {
    two_digits(second / 3600) + seq![':'] + two_digits((second % 3600) / 60)
}

fn digit_char(d: u32) -> (c: char)
    requires
        d < 10,
    ensures
        c == (('0' as int) + d) as char,
{
    let b: u8 = 48 + d as u8;
    b as char
}

/// `HH:MM` for a second of the day.
pub fn format_clock(second: u32) -> (s: String)
    requires
        second < 86400,
    ensures
        s@ == clock_text(second as int),
{
    let h = second / 3600;
    let m = (second % 3600) / 60;
    let v = vec![digit_char(h / 10), digit_char(h % 10), ':', digit_char(m / 10), digit_char(m % 10)];
    let s = crate::text::string_of(&v, 0, 5);
    assert(v@.subrange(0, 5) =~= clock_text(second as int));
    s
}

} // verus!

verus! {

/// The local date-time `k` minutes after `second` of day `days`: (day number, second of the day).
pub open spec fn shift_minutes(days: int, second: int, k: int) -> (int, int) {
    let total = second + 60 * k;
    (days + total / 86400, total % 86400)
}

/// Lexicographic order of (seconds, nanoseconds) pairs.
pub open spec fn parts_le(a: (int, int), b: (int, int)) -> bool {
    a.0 < b.0 || (a.0 == b.0 && a.1 <= b.1)
}

/// The instant chosen among those a local time maps to: the first one `chrono_tz` lists, or
/// the earlier of the two when `use_min` holds.
pub open spec fn choose_candidate(c: Seq<(int, int)>, use_min: bool) -> (int, int) {
    if use_min && c.len() >= 2 && parts_le(c[1], c[0]) {
        c[1]
    } else {
        c[0]
    }
}

/// The instant of the first local minute, `k` to `limit` minutes after `second` of day `days`,
/// that exists in the zone; `None` when none does (or the minutes leave the supported dates).
pub open spec fn first_existing(zone: Seq<char>, days: int, second: int, k: int, limit: int, use_min: bool) -> Option<(int, int)>
    decreases limit + 1 - k,
{
    if k > limit || k < 0 {
        None
    } else {
        let (d, s) = shift_minutes(days, second, k);
        if !date_in_range(d) {
            None
        } else if zone_candidates(zone, d, s).len() > 0 {
            Some(choose_candidate(zone_candidates(zone, d, s), use_min))
        } else {
            first_existing(zone, days, second, k + 1, limit, use_min)
        }
    }
}

/// The UTC instant of the first local minute, from `second` of `date` up to `limit` minutes
/// later, that exists in the zone (skipping a daylight-saving gap); an ambiguous minute gives
/// the first instant `chrono_tz` lists, or the earlier one when `use_min` holds.
/// `None` when the zone is unknown or no such minute exists.
pub fn resolve_local(zone: &str, date: LocalDate, second: u32, limit: u32, use_min: bool) -> (r: Option<UtcInstant>)
    requires
        second < 86400,
        limit <= 1440,
    ensures
        !zone_known(zone@) ==> r is None,
        zone_known(zone@) ==> match r {
            Some(t) => first_existing(zone@, date.day_number(), second as int, 0, limit as int, use_min) == Some((t.secs(), t.nano())),
            None => first_existing(zone@, date.day_number(), second as int, 0, limit as int, use_min) is None,
        },
{
    let mut k: u32 = 0;
    while k <= limit
        invariant
            second < 86400,
            limit <= 1440,
            k <= limit + 1,
            zone_known(zone@) ==> first_existing(zone@, date.day_number(), second as int, 0, limit as int, use_min)
                == first_existing(zone@, date.day_number(), second as int, k as int, limit as int, use_min),
        decreases limit + 1 - k,
    {
        let total: u32 = second + 60 * k;
        let extra_days = total / 86400;
        let at = total % 86400;
        let day = match date.add_days(extra_days as i64) {
            Some(d) => d,
            None => return None,
        };
        let candidates = match local_candidates(zone, day, at) {
            Some(c) => c,
            None => return None,
        };
        if candidates.len() > 0 {
            let mut chosen = candidates[0];
            if use_min && candidates.len() >= 2 {
                let second_choice = candidates[1];
                if second_choice.seconds() < chosen.seconds()
                    || (second_choice.seconds() == chosen.seconds() && second_choice.nanos() <= chosen.nanos()) {
                    chosen = second_choice;
                }
            }
            assert(instant_parts(candidates@)[0] == (candidates@[0].secs(), candidates@[0].nano()));
            assert(candidates@.len() >= 2 ==> instant_parts(candidates@)[1] == (candidates@[1].secs(), candidates@[1].nano()));
            return Some(chosen);
        }
        k += 1;
    }
    None
}

/// The current instant (`Utc::now`).
#[verifier::external_body]
pub(crate) fn utc_now() -> (r: UtcInstant) {
    let now = Utc::now();
    UtcInstant { seconds: now.timestamp(), nanos: now.timestamp_subsec_nanos() }
}

} // verus!

verus! {

/// The local (day number, second of the day) that `NaiveDateTime::parse_from_str` reads from
/// the text with the format `%Y-%m-%dT%H:%M`, if it reads one.
pub uninterp spec fn parsed_local_minutes(text: Seq<char>) -> Option<(int, int)>;

/// The local (day number, second of the day) that `NaiveDateTime::parse_from_str` reads from
/// the text with the format `%Y-%m-%dT%H:%M:%S`, if it reads one.
pub uninterp spec fn parsed_local_seconds(text: Seq<char>) -> Option<(int, int)>;

/// A local date-time written `YYYY-MM-DDTHH:MM`, or failing that `YYYY-MM-DDTHH:MM:SS`.
pub open spec fn parsed_local_datetime(text: Seq<char>) -> Option<(int, int)> {
    match parsed_local_minutes(text) {
        Some(v) => Some(v),
        None => parsed_local_seconds(text),
    }
}

/// `NaiveDateTime::parse_from_str(text, "%Y-%m-%dT%H:%M")`, as a date and second of the day.
#[verifier::external_body]
fn read_local_minutes(text: &str) -> (r: Option<(LocalDate, u32)>)
    ensures
        match r {
            Some((d, s)) => parsed_local_minutes(text@) == Some((d.day_number(), s as int)) && s < 86400,
            None => parsed_local_minutes(text@) is None,
        },
{
    let parsed = chrono::NaiveDateTime::parse_from_str(text, "%Y-%m-%dT%H:%M").ok()?;
    Some((LocalDate { days: parsed.date().num_days_from_ce() }, parsed.time().num_seconds_from_midnight()))
}

/// `NaiveDateTime::parse_from_str(text, "%Y-%m-%dT%H:%M:%S")`, as a date and second of the day.
#[verifier::external_body]
fn read_local_seconds(text: &str) -> (r: Option<(LocalDate, u32)>)
    ensures
        match r {
            Some((d, s)) => parsed_local_seconds(text@) == Some((d.day_number(), s as int)) && s < 86400,
            None => parsed_local_seconds(text@) is None,
        },
{
    let parsed = chrono::NaiveDateTime::parse_from_str(text, "%Y-%m-%dT%H:%M:%S").ok()?;
    Some((LocalDate { days: parsed.date().num_days_from_ce() }, parsed.time().num_seconds_from_midnight()))
}

/// A local date-time written `YYYY-MM-DDTHH:MM`, or failing that `YYYY-MM-DDTHH:MM:SS`.
pub(crate) fn parse_local_datetime(text: &str) -> (r: Option<(LocalDate, u32)>)
    ensures
        r is Some <==> parsed_local_datetime(text@) is Some,
        r matches Some((d, s)) ==> parsed_local_datetime(text@) == Some((d.day_number(), s as int)) && s < 86400,
{
    match read_local_minutes(text) {
        Some(v) => Some(v),
        None => read_local_seconds(text),
    }
}

} // verus!
