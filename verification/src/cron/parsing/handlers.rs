//! The handlers that each recognise one syntax of a field value.
use vstd::prelude::*;
use crate::cron::datepart::{CronDatePart, spec_max, spec_min, spec_translate};
use crate::cron::text::{
    all_digits, all_digits_in, chars_of, decimal_value, digit_value, digits_value, is_ascii_digit,
    parse_u32, parse_u32_spec, lemma_two_digits_small, decimal_digits, lemma_decimal_digits_value,
};
use crate::cron::value::CronValue;
use super::error::{CronParsingError, ParsingFailure, handled_view};

verus! {

pub open spec fn is_ascii_letter(c: char) -> bool {
    ('a' <= c <= 'z') || ('A' <= c <= 'Z')
}

/// `[0-9a-zA-Z]`
pub open spec fn is_ascii_alnum(c: char) -> bool {
    is_ascii_digit(c) || is_ascii_letter(c)
}

/// `[a-zA-Z0-6]`: a letter of a day name or a day number.
pub open spec fn is_day_char(c: char) -> bool {
    is_ascii_letter(c) || ('0' <= c <= '6')
}

pub open spec fn all_alnum(s: Seq<char>) -> bool {
    forall|i: int| 0 <= i < s.len() ==> #[trigger] is_ascii_alnum(s[i])
}

pub open spec fn all_day_chars(s: Seq<char>) -> bool {
    forall|i: int| 0 <= i < s.len() ==> #[trigger] is_day_char(s[i])
}

pub open spec fn is_l(c: char) -> bool {
    c == 'L' || c == 'l'
}

fn is_alnum_exec(c: char) -> (r: bool)
    ensures
        r == is_ascii_alnum(c),
{
    ('0' <= c && c <= '9') || ('a' <= c && c <= 'z') || ('A' <= c && c <= 'Z')
}

fn is_day_char_exec(c: char) -> (r: bool)
    ensures
        r == is_day_char(c),
{
    ('a' <= c && c <= 'z') || ('A' <= c && c <= 'Z') || ('0' <= c && c <= '6')
}

fn all_alnum_in(s: &Vec<char>, from: usize, to: usize) -> (r: bool)
    requires
        from <= to <= s@.len(),
    ensures
        r == all_alnum(s@.subrange(from as int, to as int)),
{
    let mut i: usize = from;
    while i < to
        invariant
            from <= i <= to,
            to <= s@.len(),
            forall|j: int| from <= j < i ==> #[trigger] is_ascii_alnum(s@[j]),
        decreases to - i,
    {
        if !is_alnum_exec(s[i]) {
            assert(!is_ascii_alnum(s@.subrange(from as int, to as int)[i - from]));
            return false;
        }
        i = i + 1;
    }
    assert forall|j: int| 0 <= j < to - from implies #[trigger] is_ascii_alnum(
        s@.subrange(from as int, to as int)[j],
    ) by {
        assert(s@.subrange(from as int, to as int)[j] == s@[from + j]);
    }
    true
}

fn all_day_chars_in(s: &Vec<char>, from: usize, to: usize) -> (r: bool)
    requires
        from <= to <= s@.len(),
    ensures
        r == all_day_chars(s@.subrange(from as int, to as int)),
{
    let mut i: usize = from;
    while i < to
        invariant
            from <= i <= to,
            to <= s@.len(),
            forall|j: int| from <= j < i ==> #[trigger] is_day_char(s@[j]),
        decreases to - i,
    {
        if !is_day_char_exec(s[i]) {
            assert(!is_day_char(s@.subrange(from as int, to as int)[i - from]));
            return false;
        }
        i = i + 1;
    }
    assert forall|j: int| 0 <= j < to - from implies #[trigger] is_day_char(
        s@.subrange(from as int, to as int)[j],
    ) by {
        assert(s@.subrange(from as int, to as int)[j] == s@[from + j]);
    }
    true
}

/// Parses `value[from..to]` after translating month or day names.
fn translated_number(date_part: &CronDatePart, value: &str, from: usize, to: usize) -> (r: (
    Option<u32>,
    String,
))
    requires
        from <= to <= value@.len(),
    ensures
        r.0 == parse_u32_spec(spec_translate(*date_part, value@.subrange(from as int, to as int))),
        r.1@ == spec_translate(*date_part, value@.subrange(from as int, to as int)),
{
    let piece = value.substring_char(from, to);
    let translated = date_part.translate(piece);
    let chars = chars_of(translated);
    (parse_u32(&chars), translated.to_owned())
}

/// What the single-value handler makes of a value: a number, or a month or
/// day name, within the bounds of the date part. It takes every value.
pub open spec fn spec_single(date_part: CronDatePart, value: Seq<char>) -> Option<
    Result<CronValue, ParsingFailure>,
> {
    match parse_u32_spec(spec_translate(date_part, value)) {
        Some(n) => if n < spec_min(date_part) {
            Some(
                Err(
                    ParsingFailure::ValueOutOfBounds {
                        raw_value: value,
                        allowed: spec_min(date_part),
                        supplied: n,
                        date_part,
                    },
                ),
            )
        } else if n > spec_max(date_part) {
            Some(
                Err(
                    ParsingFailure::ValueOutOfBounds {
                        raw_value: value,
                        allowed: spec_max(date_part),
                        supplied: n,
                        date_part,
                    },
                ),
            )
        } else {
            Some(Ok(CronValue::Single(n)))
        },
        None => Some(Err(ParsingFailure::ParsedValue { value, date_part })),
    }
}

/// What the wildcard handler makes of `*` and `*/step`.
pub open spec fn spec_wildcard(date_part: CronDatePart, value: Seq<char>) -> Option<
    Result<CronValue, ParsingFailure>,
> {
    if value == seq!['*'] {
        Some(Ok(CronValue::Any))
    } else if value.len() >= 3 && value[0] == '*' && value[1] == '/' && all_digits(value.skip(2)) {
        let step = decimal_value(value.skip(2));
        if step > u32::MAX {
            Some(Err(ParsingFailure::ParsedValue { value, date_part }))
        } else if step <= 1 {
            Some(
                Err(
                    ParsingFailure::ValueOutOfBounds {
                        raw_value: value,
                        allowed: 2,
                        supplied: step as u32,
                        date_part,
                    },
                ),
            )
        } else if spec_min(date_part) + step > spec_max(date_part) {
            Some(
                Err(
                    ParsingFailure::ValueOutOfBounds {
                        raw_value: value,
                        allowed: (spec_max(date_part) - spec_min(date_part)) as u32,
                        supplied: step as u32,
                        date_part,
                    },
                ),
            )
        } else {
            Some(Ok(CronValue::Step(step as u32)))
        }
    } else {
        None
    }
}

/// The position of the `-` that splits a range `a-b`, where `a` and `b` are
/// one to three ASCII letters or digits.
pub open spec fn range_split_at(value: Seq<char>, k: int) -> bool {
    &&& 1 <= k <= 3
    &&& k + 2 <= value.len() <= k + 4
    &&& value[k] == '-'
    &&& all_alnum(value.take(k))
    &&& all_alnum(value.skip(k + 1))
}

pub open spec fn range_split(value: Seq<char>) -> Option<int> {
    if range_split_at(value, 1) {
        Some(1)
    } else if range_split_at(value, 2) {
        Some(2)
    } else if range_split_at(value, 3) {
        Some(3)
    } else {
        None
    }
}

/// What the range handler makes of `a-b`.
pub open spec fn spec_range(date_part: CronDatePart, value: Seq<char>) -> Option<
    Result<CronValue, ParsingFailure>,
> {
    match range_split(value) {
        None => None,
        Some(k) => {
            let low = spec_translate(date_part, value.take(k));
            let high = spec_translate(date_part, value.skip(k + 1));
            match parse_u32_spec(low) {
                None => Some(Err(ParsingFailure::ParsedValue { value: low, date_part })),
                Some(min) => if min < spec_min(date_part) {
                    Some(
                        Err(
                            ParsingFailure::ValueOutOfBounds {
                                raw_value: value,
                                allowed: spec_min(date_part),
                                supplied: min,
                                date_part,
                            },
                        ),
                    )
                } else {
                    match parse_u32_spec(high) {
                        None => Some(Err(ParsingFailure::ParsedValue { value: high, date_part })),
                        Some(max) => if max > spec_max(date_part) {
                            Some(
                                Err(
                                    ParsingFailure::ValueOutOfBounds {
                                        raw_value: value,
                                        allowed: spec_max(date_part),
                                        supplied: max,
                                        date_part,
                                    },
                                ),
                            )
                        } else if min > max {
                            Some(Err(ParsingFailure::InvertedRange { min, max }))
                        } else {
                            Some(Ok(CronValue::Range { min, max }))
                        },
                    }
                },
            }
        },
    }
}

/// What the nearest-weekday handler makes of `dW`: one or two digits and a
/// `W` in either case.
pub open spec fn spec_nearest_weekday(date_part: CronDatePart, value: Seq<char>) -> Option<
    Result<CronValue, ParsingFailure>,
> {
    if 2 <= value.len() <= 3 && (value.last() == 'W' || value.last() == 'w') && all_digits(
        value.drop_last(),
    ) {
        let n = decimal_value(value.drop_last()) as u32;
        if n < spec_min(date_part) {
            Some(
                Err(
                    ParsingFailure::ValueOutOfBounds {
                        raw_value: value,
                        allowed: spec_min(date_part),
                        supplied: n,
                        date_part,
                    },
                ),
            )
        } else if n > spec_max(date_part) {
            Some(
                Err(
                    ParsingFailure::ValueOutOfBounds {
                        raw_value: value,
                        allowed: spec_max(date_part),
                        supplied: n,
                        date_part,
                    },
                ),
            )
        } else {
            Some(Ok(CronValue::NearestWeekday { day_of_month: n }))
        }
    } else {
        None
    }
}

/// What the last-day-of-month handler makes of `L` and `L-offset`.
pub open spec fn spec_last_day_of_month(date_part: CronDatePart, value: Seq<char>) -> Option<
    Result<CronValue, ParsingFailure>,
> {
    if value.len() == 1 && is_l(value[0]) {
        Some(Ok(CronValue::LastDayOfMonth { offset: 0 }))
    } else if value.len() >= 3 && is_l(value[0]) && value[1] == '-' && all_digits(value.skip(2)) {
        let offset = decimal_value(value.skip(2));
        if offset > u32::MAX {
            Some(Err(ParsingFailure::ParsedValue { value, date_part }))
        } else if offset > spec_max(date_part) - 1 {
            Some(
                Err(
                    ParsingFailure::ValueOutOfBounds {
                        raw_value: value,
                        allowed: (spec_max(date_part) - 1) as u32,
                        supplied: offset as u32,
                        date_part,
                    },
                ),
            )
        } else {
            Some(Ok(CronValue::LastDayOfMonth { offset: offset as u32 }))
        }
    } else {
        None
    }
}

/// What the last-day-of-week handler makes of `dL`.
pub open spec fn spec_last_day_of_week(date_part: CronDatePart, value: Seq<char>) -> Option<
    Result<CronValue, ParsingFailure>,
> {
    if 2 <= value.len() <= 4 && is_l(value.last()) && all_day_chars(value.drop_last()) {
        match parse_u32_spec(spec_translate(date_part, value.drop_last())) {
            Some(n) => if n > spec_max(date_part) {
                Some(
                    Err(
                        ParsingFailure::ValueOutOfBounds {
                            raw_value: value,
                            allowed: spec_max(date_part),
                            supplied: n,
                            date_part,
                        },
                    ),
                )
            } else {
                Some(Ok(CronValue::LastDayOfWeek { day_of_week: n }))
            },
            None => Some(Err(ParsingFailure::ParsedValue { value, date_part })),
        }
    } else {
        None
    }
}

/// What the nth-day-of-week handler makes of `d#n`, with `n` from 1 to 5.
pub open spec fn spec_nth_day_of_week(date_part: CronDatePart, value: Seq<char>) -> Option<
    Result<CronValue, ParsingFailure>,
> {
    if 3 <= value.len() <= 5 && value[value.len() - 2] == '#' && '1' <= value.last() <= '5'
        && all_day_chars(value.take(value.len() - 2)) {
        match parse_u32_spec(spec_translate(date_part, value.take(value.len() - 2))) {
            Some(d) => if d > spec_max(date_part) {
                Some(
                    Err(
                        ParsingFailure::ValueOutOfBounds {
                            raw_value: value,
                            allowed: spec_max(date_part),
                            supplied: d,
                            date_part,
                        },
                    ),
                )
            } else {
                Some(
                    Ok(
                        CronValue::NthDayOfWeek {
                            day_of_week: d,
                            n: digit_value(value.last()) as u32,
                        },
                    ),
                )
            },
            None => Some(Err(ParsingFailure::ParsedValue { value, date_part })),
        }
    } else {
        None
    }
}

/// A handler of one syntax of field values. It answers `None` for a value
/// written in another syntax.
pub trait CronValueParsingHandler {
    /// What the handler answers for a value: `None` where it does not take
    /// the value. A handler that does not say leaves it unknown to its
    /// callers.
    closed spec fn spec_handle(&self, date_part: CronDatePart, value: Seq<char>) -> Option<
        Result<CronValue, ParsingFailure>,
    > {
        arbitrary()
    }

    /// Answers for a value; a value it takes can be matched.
    fn parse(&self, date_part: &CronDatePart, value: &str) -> (r: Option<
        Result<CronValue, CronParsingError>,
    >)
        ensures
            handled_view(r) == self.spec_handle(*date_part, value@),
            r matches Some(Ok(v)) ==> v.wf(),
    ;
}

/// Handles single values: numbers, month names and day names.
pub struct SingleValueHandler;

impl CronValueParsingHandler for SingleValueHandler {
    open spec fn spec_handle(&self, date_part: CronDatePart, value: Seq<char>) -> Option<
        Result<CronValue, ParsingFailure>,
    > {
        spec_single(date_part, value)
    }

    fn parse(&self, date_part: &CronDatePart, value: &str) -> (r: Option<
        Result<CronValue, CronParsingError>,
    >) {
        let translated = date_part.translate(value);
        let chars = chars_of(translated);
        match parse_u32(&chars) {
            Some(single_value) => {
                if single_value < date_part.min() {
                    return Some(
                        Err(
                            CronParsingError::ValueOutOfBounds {
                                raw_value: value.to_owned(),
                                supplied: single_value,
                                allowed: date_part.min(),
                                date_part: *date_part,
                            },
                        ),
                    );
                }
                if single_value > date_part.max() {
                    return Some(
                        Err(
                            CronParsingError::ValueOutOfBounds {
                                raw_value: value.to_owned(),
                                supplied: single_value,
                                allowed: date_part.max(),
                                date_part: *date_part,
                            },
                        ),
                    );
                }
                Some(Ok(CronValue::Single(single_value)))
            },
            None => Some(
                Err(CronParsingError::ParsedValue { value: value.to_owned(), date_part: *date_part }),
            ),
        }
    }
}

/// Handles `*` and steps `*/n`.
pub struct WildcardValueHandler;

impl CronValueParsingHandler for WildcardValueHandler {
    open spec fn spec_handle(&self, date_part: CronDatePart, value: Seq<char>) -> Option<
        Result<CronValue, ParsingFailure>,
    > {
        spec_wildcard(date_part, value)
    }

    fn parse(&self, date_part: &CronDatePart, value: &str) -> (r: Option<
        Result<CronValue, CronParsingError>,
    >) {
        let chars = chars_of(value);
        let n = chars.len();
        if n == 1 && chars[0] == '*' {
            assert(value@ =~= seq!['*']);
            return Some(Ok(CronValue::Any));
        }
        if n >= 3 && chars[0] == '*' && chars[1] == '/' && all_digits_in(&chars, 2, n) {
            assert(value@.skip(2) =~= chars@.subrange(2, n as int));
            match digits_value(&chars, 2, n) {
                None => {
                    return Some(
                        Err(
                            CronParsingError::ParsedValue {
                                value: value.to_owned(),
                                date_part: *date_part,
                            },
                        ),
                    );
                },
                Some(step_value) => {
                    if step_value <= 1 {
                        return Some(
                            Err(
                                CronParsingError::ValueOutOfBounds {
                                    raw_value: value.to_owned(),
                                    supplied: step_value,
                                    allowed: 2,
                                    date_part: *date_part,
                                },
                            ),
                        );
                    }
                    if step_value > date_part.max() - date_part.min() {
                        return Some(
                            Err(
                                CronParsingError::ValueOutOfBounds {
                                    raw_value: value.to_owned(),
                                    supplied: step_value,
                                    allowed: date_part.max() - date_part.min(),
                                    date_part: *date_part,
                                },
                            ),
                        );
                    }
                    return Some(Ok(CronValue::Step(step_value)));
                },
            }
        }
        proof {
            if value@ == seq!['*'] {
                assert(chars@.len() == 1 && chars@[0] == '*');
            }
            if value@.len() >= 3 && value@[0] == '*' && value@[1] == '/' && all_digits(
                value@.skip(2),
            ) {
                assert(value@.skip(2) =~= chars@.subrange(2, n as int));
            }
        }
        None
    }
}

/// Handles ranges `a-b`.
pub struct RangeValueHandler;

impl RangeValueHandler {
    fn split(chars: &Vec<char>) -> (r: Option<usize>)
        ensures
            r matches Some(k) ==> range_split(chars@) == Some(k as int),
            r is None ==> range_split(chars@) is None,
    {
        let n = chars.len();
        let mut k: usize = 1;
        while k <= 3
            invariant
                1 <= k <= 4,
                n == chars@.len(),
                forall|j: int| 1 <= j < k ==> !#[trigger] range_split_at(chars@, j),
            decreases 4 - k,
        {
            if k + 2 <= n && n <= k + 4 && chars[k] == '-' && all_alnum_in(chars, 0, k)
                && all_alnum_in(chars, k + 1, n) {
                assert(chars@.take(k as int) =~= chars@.subrange(0, k as int));
                assert(chars@.skip(k + 1) =~= chars@.subrange(k + 1, n as int));
                assert(range_split_at(chars@, k as int));
                return Some(k);
            }
            proof {
                if k + 2 <= n && n <= k + 4 && chars@[k as int] == '-' {
                    assert(chars@.take(k as int) =~= chars@.subrange(0, k as int));
                    assert(chars@.skip(k + 1) =~= chars@.subrange(k + 1, n as int));
                }
            }
            k = k + 1;
        }
        None
    }
}

impl CronValueParsingHandler for RangeValueHandler {
    open spec fn spec_handle(&self, date_part: CronDatePart, value: Seq<char>) -> Option<
        Result<CronValue, ParsingFailure>,
    > {
        spec_range(date_part, value)
    }

    fn parse(&self, date_part: &CronDatePart, value: &str) -> (r: Option<
        Result<CronValue, CronParsingError>,
    >) {
        let chars = chars_of(value);
        let n = chars.len();
        match RangeValueHandler::split(&chars) {
            None => None,
            Some(k) => {
                assert(value@.take(k as int) =~= value@.subrange(0, k as int));
                assert(value@.skip(k + 1) =~= value@.subrange(k + 1, n as int));
                let (low, low_text) = translated_number(date_part, value, 0, k);
                match low {
                    None => Some(
                        Err(CronParsingError::ParsedValue { value: low_text, date_part: *date_part }),
                    ),
                    Some(min_value) => {
                        let min_bound = date_part.min();
                        if min_value < min_bound {
                            return Some(
                                Err(
                                    CronParsingError::ValueOutOfBounds {
                                        raw_value: value.to_owned(),
                                        supplied: min_value,
                                        allowed: min_bound,
                                        date_part: *date_part,
                                    },
                                ),
                            );
                        }
                        let (high, high_text) = translated_number(date_part, value, k + 1, n);
                        match high {
                            None => Some(
                                Err(
                                    CronParsingError::ParsedValue {
                                        value: high_text,
                                        date_part: *date_part,
                                    },
                                ),
                            ),
                            Some(max_value) => {
                                let max_bound = date_part.max();
                                if max_value > max_bound {
                                    return Some(
                                        Err(
                                            CronParsingError::ValueOutOfBounds {
                                                raw_value: value.to_owned(),
                                                supplied: max_value,
                                                allowed: max_bound,
                                                date_part: *date_part,
                                            },
                                        ),
                                    );
                                }
                                if min_value > max_value {
                                    return Some(
                                        Err(
                                            CronParsingError::InvertedRange {
                                                min: min_value,
                                                max: max_value,
                                            },
                                        ),
                                    );
                                }
                                Some(Ok(CronValue::Range { min: min_value, max: max_value }))
                            },
                        }
                    },
                }
            },
        }
    }
}

/// Handles the weekday nearest to a day of the month, `dW`.
pub struct NearestWeekdayValueHandler;

impl CronValueParsingHandler for NearestWeekdayValueHandler {
    open spec fn spec_handle(&self, date_part: CronDatePart, value: Seq<char>) -> Option<
        Result<CronValue, ParsingFailure>,
    > {
        spec_nearest_weekday(date_part, value)
    }

    fn parse(&self, date_part: &CronDatePart, value: &str) -> (r: Option<
        Result<CronValue, CronParsingError>,
    >) {
        let chars = chars_of(value);
        let n = chars.len();
        if 2 <= n && n <= 3 && (chars[n - 1] == 'W' || chars[n - 1] == 'w') && all_digits_in(
            &chars,
            0,
            n - 1,
        ) {
            assert(value@.drop_last() =~= chars@.subrange(0, n - 1));
            proof {
                lemma_two_digits_small(value@.drop_last());
            }
            match digits_value(&chars, 0, n - 1) {
                Some(parsed_value) => {
                    if parsed_value < date_part.min() {
                        return Some(
                            Err(
                                CronParsingError::ValueOutOfBounds {
                                    raw_value: value.to_owned(),
                                    allowed: date_part.min(),
                                    supplied: parsed_value,
                                    date_part: *date_part,
                                },
                            ),
                        );
                    }
                    if parsed_value > date_part.max() {
                        return Some(
                            Err(
                                CronParsingError::ValueOutOfBounds {
                                    raw_value: value.to_owned(),
                                    allowed: date_part.max(),
                                    supplied: parsed_value,
                                    date_part: *date_part,
                                },
                            ),
                        );
                    }
                    return Some(Ok(CronValue::NearestWeekday { day_of_month: parsed_value }));
                },
                None => {
                    return None;
                },
            }
        }
        proof {
            if 2 <= n <= 3 {
                assert(value@.drop_last() =~= chars@.subrange(0, n - 1));
            }
        }
        None
    }
}

/// Handles the last day of the month, `L` or `L-offset`.
pub struct LastDayOfMonthValueHandler;

impl CronValueParsingHandler for LastDayOfMonthValueHandler {
    open spec fn spec_handle(&self, date_part: CronDatePart, value: Seq<char>) -> Option<
        Result<CronValue, ParsingFailure>,
    > {
        spec_last_day_of_month(date_part, value)
    }

    fn parse(&self, date_part: &CronDatePart, value: &str) -> (r: Option<
        Result<CronValue, CronParsingError>,
    >) {
        let chars = chars_of(value);
        let n = chars.len();
        if n == 1 && (chars[0] == 'L' || chars[0] == 'l') {
            return Some(Ok(CronValue::LastDayOfMonth { offset: 0 }));
        }
        if n >= 3 && (chars[0] == 'L' || chars[0] == 'l') && chars[1] == '-' && all_digits_in(
            &chars,
            2,
            n,
        ) {
            assert(value@.skip(2) =~= chars@.subrange(2, n as int));
            match digits_value(&chars, 2, n) {
                None => {
                    return Some(
                        Err(
                            CronParsingError::ParsedValue {
                                value: value.to_owned(),
                                date_part: *date_part,
                            },
                        ),
                    );
                },
                Some(offset_value) => {
                    let max_offset = date_part.max() - 1;
                    if offset_value > max_offset {
                        return Some(
                            Err(
                                CronParsingError::ValueOutOfBounds {
                                    raw_value: value.to_owned(),
                                    allowed: max_offset,
                                    supplied: offset_value,
                                    date_part: *date_part,
                                },
                            ),
                        );
                    }
                    return Some(Ok(CronValue::LastDayOfMonth { offset: offset_value }));
                },
            }
        }
        proof {
            if n >= 3 {
                assert(value@.skip(2) =~= chars@.subrange(2, n as int));
            }
        }
        None
    }
}

/// Handles the last such weekday of the month, `dL`.
pub struct LastDayOfWeekValueHandler;

impl CronValueParsingHandler for LastDayOfWeekValueHandler {
    open spec fn spec_handle(&self, date_part: CronDatePart, value: Seq<char>) -> Option<
        Result<CronValue, ParsingFailure>,
    > {
        spec_last_day_of_week(date_part, value)
    }

    fn parse(&self, date_part: &CronDatePart, value: &str) -> (r: Option<
        Result<CronValue, CronParsingError>,
    >) {
        let chars = chars_of(value);
        let n = chars.len();
        if 2 <= n && n <= 4 && (chars[n - 1] == 'L' || chars[n - 1] == 'l') && all_day_chars_in(
            &chars,
            0,
            n - 1,
        ) {
            assert(value@.drop_last() =~= value@.subrange(0, n - 1));
            let (parsed, _text) = translated_number(date_part, value, 0, n - 1);
            match parsed {
                Some(parsed_value) => {
                    if parsed_value > date_part.max() {
                        return Some(
                            Err(
                                CronParsingError::ValueOutOfBounds {
                                    raw_value: value.to_owned(),
                                    allowed: date_part.max(),
                                    supplied: parsed_value,
                                    date_part: *date_part,
                                },
                            ),
                        );
                    }
                    return Some(Ok(CronValue::LastDayOfWeek { day_of_week: parsed_value }));
                },
                None => {
                    return Some(
                        Err(
                            CronParsingError::ParsedValue {
                                value: value.to_owned(),
                                date_part: *date_part,
                            },
                        ),
                    );
                },
            }
        }
        proof {
            if 2 <= n <= 4 {
                assert(value@.drop_last() =~= chars@.subrange(0, n - 1));
            }
        }
        None
    }
}

/// Handles the nth such weekday of the month, `d#n`.
pub struct NthDayOfWeekValueHandler;

impl CronValueParsingHandler for NthDayOfWeekValueHandler {
    open spec fn spec_handle(&self, date_part: CronDatePart, value: Seq<char>) -> Option<
        Result<CronValue, ParsingFailure>,
    > {
        spec_nth_day_of_week(date_part, value)
    }

    fn parse(&self, date_part: &CronDatePart, value: &str) -> (r: Option<
        Result<CronValue, CronParsingError>,
    >) {
        let chars = chars_of(value);
        let n = chars.len();
        if 3 <= n && n <= 5 && chars[n - 2] == '#' && '1' <= chars[n - 1] && chars[n - 1] <= '5'
            && all_day_chars_in(&chars, 0, n - 2) {
            assert(value@.take(n - 2) =~= value@.subrange(0, n - 2));
            let (parsed, _text) = translated_number(date_part, value, 0, n - 2);
            match parsed {
                Some(parsed_value) => {
                    if parsed_value > date_part.max() {
                        return Some(
                            Err(
                                CronParsingError::ValueOutOfBounds {
                                    raw_value: value.to_owned(),
                                    allowed: date_part.max(),
                                    supplied: parsed_value,
                                    date_part: *date_part,
                                },
                            ),
                        );
                    }
                    let occurrence = (chars[n - 1] as u32) - ('0' as u32);
                    return Some(
                        Ok(CronValue::NthDayOfWeek { day_of_week: parsed_value, n: occurrence }),
                    );
                },
                None => {
                    return Some(
                        Err(
                            CronParsingError::ParsedValue {
                                value: value.to_owned(),
                                date_part: *date_part,
                            },
                        ),
                    );
                },
            }
        }
        proof {
            if 3 <= n <= 5 {
                assert(value@.take(n - 2) =~= chars@.subrange(0, n - 2));
            }
        }
        None
    }
}

/// A step is accepted exactly when it spans at most the date part's range:
/// `*/s` for every `s` of at least two with `min + s <= max` is `Step(s)`
/// (so `*/30` in the minutes and `*/12` in the hours are steps), and a
/// step that is accepted is such an `s`. A step below two is out of bounds
/// with two allowed, one beyond the range is out of bounds with the span
/// `max - min` allowed, and `*` alone is every value.
pub proof fn law_wildcard_accepts_every_step_within_the_range(
    date_part: CronDatePart,
    step: u32,
    value: Seq<char>,
)
    ensures
        2 <= step && spec_min(date_part) + step <= spec_max(date_part) ==> spec_wildcard(
            date_part,
            seq!['*', '/'] + decimal_digits(step as nat),
        ) == Some(Ok::<CronValue, ParsingFailure>(CronValue::Step(step))),
        spec_wildcard(date_part, value) == Some(Ok::<CronValue, ParsingFailure>(CronValue::Step(step)))
            ==> 2 <= step && spec_min(date_part) + step <= spec_max(date_part),
        step <= 1 ==> spec_wildcard(date_part, seq!['*', '/'] + decimal_digits(step as nat)) == Some(
            Err::<CronValue, ParsingFailure>(
                ParsingFailure::ValueOutOfBounds {
                    raw_value: seq!['*', '/'] + decimal_digits(step as nat),
                    allowed: 2,
                    supplied: step,
                    date_part,
                },
            ),
        ),
        2 <= step && spec_min(date_part) + step > spec_max(date_part) ==> spec_wildcard(
            date_part,
            seq!['*', '/'] + decimal_digits(step as nat),
        ) == Some(
            Err::<CronValue, ParsingFailure>(
                ParsingFailure::ValueOutOfBounds {
                    raw_value: seq!['*', '/'] + decimal_digits(step as nat),
                    allowed: (spec_max(date_part) - spec_min(date_part)) as u32,
                    supplied: step,
                    date_part,
                },
            ),
        ),
        spec_wildcard(date_part, seq!['*']) == Some(Ok::<CronValue, ParsingFailure>(CronValue::Any)),
{
    lemma_decimal_digits_value(step as nat);
    let text = seq!['*', '/'] + decimal_digits(step as nat);
    assert(text.skip(2) =~= decimal_digits(step as nat));
}

} // verus!
