//! Calendar dates typed into the bodyweight dialog: shortcuts for today and
//! yesterday, or a strict `YYYY-MM-DD`.
use vstd::prelude::*;
use chrono::Datelike;
use crate::errors::AppInputError;
use crate::text_util::{trim_of, lower_of, trim_chars, lowercase_chars, copy_chars};

verus! {

/// A calendar date.
#[derive(Clone, Copy, Debug, PartialEq, Eq, Structural)]
pub struct Date {
    pub year: i32,
    pub month: u32,
    pub day: u32,
}

/// The date `%Y-%m-%d` reads from a text, as chrono parses it.
pub uninterp spec fn ymd_parse_of(s: Seq<char>) -> Option<Date>;

/// The calendar day before a date, as chrono counts it.
pub uninterp spec fn previous_day_of(d: Date) -> Option<Date>;

/// Relies on `chrono::NaiveDate::parse_from_str` with the pattern
/// `%Y-%m-%d`: the date the text spells, if it spells one.
#[verifier::external_body]
fn parse_ymd(s: &Vec<char>) -> (r: Option<Date>)
    ensures
        r == ymd_parse_of(s@),
{
    let text: String = s.iter().collect();
    match chrono::NaiveDate::parse_from_str(&text, "%Y-%m-%d") {
        Ok(d) => Some(Date { year: d.year(), month: d.month(), day: d.day() }),
        Err(_) => None,
    }
}

/// Relies on `chrono::NaiveDate::from_ymd_opt` and `NaiveDate::pred_opt`:
/// the day before a valid date.
#[verifier::external_body]
fn previous_day(d: Date) -> (r: Option<Date>)
    ensures
        r == previous_day_of(d),
{
    let date = chrono::NaiveDate::from_ymd_opt(d.year, d.month, d.day)?;
    let p = date.pred_opt()?;
    Some(Date { year: p.year(), month: p.month(), day: p.day() })
}

/// The date a folded (trimmed, lowercased) date text names: today for
/// `today` or nothing, yesterday for `yesterday` or `y`, else the date the
/// text spells. A text that names no date is refused with the raw text.
pub open spec fn date_choice(
    folded: Seq<char>,
    today: Date,
    yesterday: Option<Date>,
    parsed: Option<Date>,
) -> Option<Date> {
    if folded == "today"@ || folded.len() == 0 {
        Some(today)
    } else if folded == "yesterday"@ || folded == "y"@ {
        yesterday
    } else {
        parsed
    }
}

/// Settles a date text once it has been folded and its candidates worked
/// out: the shortcut or parsed date, or an invalid-date error that quotes
/// the raw text.
pub fn date_from_parts(
    folded: &Vec<char>,
    raw: &Vec<char>,
    today: Date,
    yesterday: Option<Date>,
    parsed: Option<Date>,
) -> (r: Result<Date, AppInputError>)
    ensures
        match date_choice(folded@, today, yesterday, parsed) {
            Some(d) => r == Ok::<Date, AppInputError>(d),
            None => r matches Err(AppInputError::InvalidDate(t)) && t@ == raw@,
        },
{
    let today_word = crate::text_util::chars_of("today");
    let yesterday_word = crate::text_util::chars_of("yesterday");
    let y_word = crate::text_util::chars_of("y");
    let chosen = if crate::text_util::same_chars(folded, &today_word) || folded.len() == 0 {
        Some(today)
    } else if crate::text_util::same_chars(folded, &yesterday_word) || crate::text_util::same_chars(
        folded,
        &y_word,
    ) {
        yesterday
    } else {
        parsed
    };
    match chosen {
        Some(d) => Ok(d),
        None => Err(AppInputError::InvalidDate(copy_chars(raw))),
    }
}

/// Reads the date field of the bodyweight dialog relative to `today`.
pub fn parse_modal_date(input: &Vec<char>, today: Date) -> (r: Result<Date, AppInputError>)
    ensures
        match date_choice(
            lower_of(trim_of(input@)),
            today,
            previous_day_of(today),
            ymd_parse_of(lower_of(trim_of(input@))),
        ) {
            Some(d) => r == Ok::<Date, AppInputError>(d),
            None => r matches Err(AppInputError::InvalidDate(t)) && t@ == input@,
        },
{
    let trimmed = trim_chars(input);
    let folded = lowercase_chars(&trimmed);
    let yesterday = previous_day(today);
    let parsed = parse_ymd(&folded);
    date_from_parts(&folded, input, today, yesterday, parsed)
}


/// The date a number of days after another, as chrono counts it.
pub uninterp spec fn shifted_date_of(d: Date, days: int) -> Option<Date>;

/// Relies on `chrono::NaiveDate::checked_add_signed` with
/// `TimeDelta::try_days`: the date `days` days later (earlier for a
/// negative count), where both it and `d` are valid.
#[verifier::external_body]
pub(crate) fn shift_date(d: Date, days: i64) -> (r: Option<Date>)
    ensures
        r == shifted_date_of(d, days as int),
{
    let start = chrono::NaiveDate::from_ymd_opt(d.year, d.month, d.day)?;
    let shifted = start.checked_add_signed(chrono::TimeDelta::try_days(days)?)?;
    Some(Date { year: shifted.year(), month: shifted.month(), day: shifted.day() })
}

/// Calendar order of dates.
pub open spec fn date_before(a: Date, b: Date) -> bool {
    a.year < b.year || (a.year == b.year && (a.month < b.month || (a.month == b.month && a.day
        < b.day)))
}

/// Whether `a` falls before `b`.
pub fn is_before(a: Date, b: Date) -> (r: bool)
    ensures
        r == date_before(a, b),
{
    a.year < b.year || (a.year == b.year && (a.month < b.month || (a.month == b.month && a.day
        < b.day)))
}


/// The weekday name, month name and four-digit year chrono writes for a
/// date (`%A`, `%B`, `%Y`), where the date is valid.
pub uninterp spec fn date_words_of(d: Date) -> Option<(Seq<char>, Seq<char>, Seq<char>)>;

/// Relies on `chrono::NaiveDate::format` with `%A`, `%B` and `%Y`: the
/// words for a valid date.
#[verifier::external_body]
fn date_words(d: Date) -> (r: Option<(Vec<char>, Vec<char>, Vec<char>)>)
    ensures
        match r {
            Some((w, m, y)) => date_words_of(d) == Some((w@, m@, y@)),
            None => date_words_of(d) is None,
        },
{
    let date = chrono::NaiveDate::from_ymd_opt(d.year, d.month, d.day)?;
    let weekday = date.format("%A").to_string().chars().collect();
    let month = date.format("%B").to_string().chars().collect();
    let year = date.format("%Y").to_string().chars().collect();
    Some((weekday, month, year))
}

/// The English ordinal suffix of a day of the month.
pub open spec fn ordinal_suffix(day: u32) -> Seq<char> {
    if day == 1 || day == 21 || day == 31 {
        "st"@
    } else if day == 2 || day == 22 {
        "nd"@
    } else if day == 3 || day == 23 {
        "rd"@
    } else {
        "th"@
    }
}

/// A date written out as "Saturday 12th April 2025"; none for a date that
/// does not exist.
pub fn format_date_with_ordinal(d: Date) -> (r: Option<Vec<char>>)
    ensures
        match date_words_of(d) {
            Some((w, m, y)) => r matches Some(t) && t@ == w + " "@ + crate::numeric::nat_text(
                d.day as nat,
            ) + ordinal_suffix(d.day) + " "@ + m + " "@ + y,
            None => r is None,
        },
{
    let (weekday, month, year) = match date_words(d) {
        Some(words) => words,
        None => return None,
    };
    let mut t = copy_chars(&weekday);
    let space = crate::text_util::chars_of(" ");
    crate::text_util::append_chars(&mut t, &space);
    crate::numeric::push_nat_text(&mut t, d.day as u64);
    let suffix = if d.day == 1 || d.day == 21 || d.day == 31 {
        crate::text_util::chars_of("st")
    } else if d.day == 2 || d.day == 22 {
        crate::text_util::chars_of("nd")
    } else if d.day == 3 || d.day == 23 {
        crate::text_util::chars_of("rd")
    } else {
        crate::text_util::chars_of("th")
    };
    crate::text_util::append_chars(&mut t, &suffix);
    crate::text_util::append_chars(&mut t, &space);
    crate::text_util::append_chars(&mut t, &month);
    crate::text_util::append_chars(&mut t, &space);
    crate::text_util::append_chars(&mut t, &year);
    Some(t)
}

} // verus!
