//! What holds of every expression the library parses and every moment it
//! matches.
use vstd::prelude::*;
use super::datepart::{CronDatePart, month_number, spec_max, spec_min, spec_translate, weekday_number};
use super::datetime::CronDateTime;
use super::expression::{
    CronExpression, expression_words, spec_parse_expression, spec_parse_fields,
};
use super::field::CronField;
use super::parsing::error::ParsingFailure;
use super::parsing::handlers::spec_single;
use super::parsing::link::{ValueHandler, all_builtin, is_builtin, spec_chain_parse, spec_handle};
use super::parsing::parser::{
    CurdsCronParser, lemma_chain_for_builtin, spec_chain_for, spec_parse_field, spec_parse_values,
};
use super::text::{decimal_value, digit_value, nonempty_pieces, spells, split_spec};
use super::value::CronValue;

verus! {

/// A value that respects the bounds of its date part.
pub open spec fn within_bounds(value: CronValue, date_part: CronDatePart) -> bool {
    let min = spec_min(date_part);
    let max = spec_max(date_part);
    match value {
        CronValue::Any => true,
        CronValue::Single(n) => min <= n <= max,
        CronValue::Step(step) => 2 <= step && min + step <= max,
        CronValue::Range { min: low, max: high } => min <= low <= high <= max,
        CronValue::LastDayOfMonth { offset } => offset + 1 <= max,
        CronValue::LastDayOfWeek { day_of_week } => day_of_week <= max,
        CronValue::NthDayOfWeek { day_of_week, n } => day_of_week <= max && 1 <= n <= 5,
        CronValue::NearestWeekday { day_of_month } => min <= day_of_month <= max,
    }
}

proof fn lemma_handled_within_bounds(handler: ValueHandler, date_part: CronDatePart, value: Seq<char>)
    requires
        is_builtin(handler),
    ensures
        spec_handle(handler, date_part, value) matches Some(Ok(v)) ==> within_bounds(v, date_part),
{
}

proof fn lemma_chain_within_bounds(chain: Seq<ValueHandler>, date_part: CronDatePart, value: Seq<char>)
    requires
        all_builtin(chain),
    ensures
        spec_chain_parse(chain, date_part, value) matches Ok(v) ==> within_bounds(v, date_part),
    decreases chain.len(),
{
    if chain.len() > 0 {
        assert(is_builtin(chain[0]));
        assert(all_builtin(chain.drop_first())) by {
            assert forall|i: int| 0 <= i < chain.drop_first().len() implies is_builtin(
                #[trigger] chain.drop_first()[i],
            ) by {
                assert(chain.drop_first()[i] == chain[i + 1]);
            }
        }
        lemma_handled_within_bounds(chain[0], date_part, value);
        lemma_chain_within_bounds(chain.drop_first(), date_part, value);
    }
}

proof fn lemma_values_within_bounds(
    chain: Seq<ValueHandler>,
    date_part: CronDatePart,
    pieces: Seq<Seq<char>>,
)
    requires
        all_builtin(chain),
    ensures
        spec_parse_values(chain, date_part, pieces) matches Ok(values) ==> forall|i: int|
            0 <= i < values.len() ==> within_bounds(#[trigger] values[i], date_part),
    decreases pieces.len(),
{
    if pieces.len() > 0 {
        lemma_values_within_bounds(chain, date_part, pieces.drop_last());
        lemma_chain_within_bounds(chain, date_part, pieces.last());
        if let Ok(values) = spec_parse_values(chain, date_part, pieces) {
            let before = spec_parse_values(chain, date_part, pieces.drop_last())->Ok_0;
            assert forall|i: int| 0 <= i < values.len() implies within_bounds(
                #[trigger] values[i],
                date_part,
            ) by {
                if i < before.len() {
                    assert(values[i] == before[i]);
                }
            }
        }
    }
}

/// Every value of a field that parses lies within the bounds of its date
/// part: out-of-bounds numbers are refused.
pub proof fn law_parsed_values_within_bounds(date_part: CronDatePart, field: Seq<char>)
    ensures
        spec_parse_field(date_part, field) matches Ok(values) ==> forall|i: int|
            0 <= i < values.len() ==> within_bounds(#[trigger] values[i], date_part),
{
    lemma_chain_for_builtin(date_part);
    lemma_values_within_bounds(spec_chain_for(date_part), date_part, split_spec(field, ','));
}

proof fn lemma_chain_never_field_count(chain: Seq<ValueHandler>, date_part: CronDatePart, value: Seq<char>)
    requires
        all_builtin(chain),
    ensures
        !(spec_chain_parse(chain, date_part, value) matches Err(ParsingFailure::FieldCount { .. })),
    decreases chain.len(),
{
    if chain.len() > 0 {
        assert(is_builtin(chain[0]));
        assert(all_builtin(chain.drop_first())) by {
            assert forall|i: int| 0 <= i < chain.drop_first().len() implies is_builtin(
                #[trigger] chain.drop_first()[i],
            ) by {
                assert(chain.drop_first()[i] == chain[i + 1]);
            }
        }
        lemma_chain_never_field_count(chain.drop_first(), date_part, value);
    }
}

proof fn lemma_values_never_field_count(
    chain: Seq<ValueHandler>,
    date_part: CronDatePart,
    pieces: Seq<Seq<char>>,
)
    requires
        all_builtin(chain),
    ensures
        !(spec_parse_values(chain, date_part, pieces) matches Err(ParsingFailure::FieldCount { .. })),
    decreases pieces.len(),
{
    if pieces.len() > 0 {
        lemma_values_never_field_count(chain, date_part, pieces.drop_last());
        lemma_chain_never_field_count(chain, date_part, pieces.last());
    }
}

proof fn lemma_fields_never_field_count(words: Seq<Seq<char>>, k: nat)
    ensures
        !(spec_parse_fields::<CurdsCronParser>(words, k) matches Err(
            ParsingFailure::FieldCount { .. },
        )),
    decreases k,
{
    if k > 0 {
        lemma_fields_never_field_count(words, (k - 1) as nat);
        let date_part = super::expression::field_order()[k - 1];
        lemma_chain_for_builtin(date_part);
        lemma_values_never_field_count(
            spec_chain_for(date_part),
            date_part,
            split_spec(words[k - 1], ','),
        );
    }
}

/// An expression is refused for its number of fields exactly when it does
/// not have five space-separated fields; the error holds the expression and
/// the number of fields found.
pub proof fn law_field_count(expression: Seq<char>)
    ensures
        (spec_parse_expression::<CurdsCronParser>(expression) matches Err(
            ParsingFailure::FieldCount { .. },
        )) <==> expression_words(expression).len() != 5,
        expression_words(expression).len() != 5 ==> spec_parse_expression::<CurdsCronParser>(
            expression,
        ) == Err::<Seq<Seq<CronValue>>, ParsingFailure>(
            ParsingFailure::FieldCount { expression, parts: expression_words(expression).len() },
        ),
{
    lemma_fields_never_field_count(expression_words(expression), 5);
}

/// Translating is idempotent: a translated value translates to itself.
pub proof fn law_translate_idempotent(date_part: CronDatePart, value: Seq<char>)
    ensures
        spec_translate(date_part, spec_translate(date_part, value)) == spec_translate(date_part, value),
{
    let t = spec_translate(date_part, value);
    if t != value {
        assert(t.len() <= 2);
        assert(!spells(t, 'j', 'a', 'n'));
        assert(month_number(t) is None);
        assert(weekday_number(t) is None);
    }
}

/// A wildcard value matches every moment.
pub proof fn law_wildcard_matches_everything(date_part: CronDatePart, datetime: CronDateTime)
    ensures
        CronValue::Any.spec_is_match(date_part, datetime),
{
}

/// An expression in which every field holds a wildcard matches every moment.
pub proof fn law_wildcard_expression_matches_everything(expression: CronExpression, datetime: CronDateTime)
    requires
        expression.can_match(),
        forall|i: int|
            0 <= i < 5 ==> (#[trigger] expression.spec_fields()[i]).values@.contains(CronValue::Any),
    ensures
        expression.spec_is_match(datetime),
{
    assert forall|i: int| 0 <= i < expression.spec_fields().len() implies (#[trigger] expression.spec_fields()[i]).spec_is_match(datetime) by {
        let f = expression.spec_fields()[i];
        let k = choose|k: int| 0 <= k < f.values@.len() && f.values@[k] == CronValue::Any;
        assert(f.values@[k].spec_is_match(f.date_part, datetime));
    }
}

/// A range matches exactly the moments that one of the single values it
/// spans matches.
pub proof fn law_range_is_union_of_singles(
    min: u32,
    max: u32,
    date_part: CronDatePart,
    datetime: CronDateTime,
)
    ensures
        (CronValue::Range { min, max }).spec_is_match(date_part, datetime) <==> exists|x: u32|
            min <= x <= max && #[trigger] CronValue::Single(x).spec_is_match(date_part, datetime),
{
    let part = super::datepart::spec_fetch(date_part, datetime);
    if (CronValue::Range { min, max }).spec_is_match(date_part, datetime) {
        assert(CronValue::Single(part).spec_is_match(date_part, datetime));
    }
}

/// The nearest weekday never falls on a Saturday or a Sunday.
pub proof fn law_nearest_weekday_is_weekday(day_of_month: u32, date_part: CronDatePart, datetime: CronDateTime)
    requires
        datetime.wf(),
    ensures
        (CronValue::NearestWeekday { day_of_month }).spec_is_match(date_part, datetime) ==> 1
            <= datetime.weekday <= 5,
{
}

/// The nth weekday of a month lies in the nth seven days of the month.
pub proof fn law_nth_day_of_week_in_nth_week(
    day_of_week: u32,
    n: u32,
    date_part: CronDatePart,
    datetime: CronDateTime,
)
    requires
        datetime.wf(),
    ensures
        (CronValue::NthDayOfWeek { day_of_week, n }).spec_is_match(date_part, datetime) ==> 7 * (n - 1)
            < datetime.day <= 7 * n,
{
}

/// The last such weekday of a month lies in the month's last seven days.
pub proof fn law_last_day_of_week_in_last_week(
    day_of_week: u32,
    date_part: CronDatePart,
    datetime: CronDateTime,
)
    requires
        datetime.wf(),
    ensures
        (CronValue::LastDayOfWeek { day_of_week }).spec_is_match(date_part, datetime) ==> datetime.day
            + 7 > super::datetime::gregorian_days_in_month(
            datetime.year as int,
            datetime.month as int,
        ),
{
}

/// A field matches a moment exactly when one of its values does, so adding
/// values to a field never loses a moment it matched.
pub proof fn law_field_match_monotone(field: CronField, more: CronField, datetime: CronDateTime)
    requires
        more.date_part == field.date_part,
        forall|i: int| 0 <= i < field.values@.len() ==> more.values@.contains(#[trigger] field.values@[i]),
    ensures
        field.spec_is_match(datetime) ==> more.spec_is_match(datetime),
{
    if field.spec_is_match(datetime) {
        let i = choose|i: int| 0 <= i < field.values@.len() && #[trigger] field.values@[i].spec_is_match(
            field.date_part,
            datetime,
        );
        assert(more.values@.contains(field.values@[i]));
        let j = choose|j: int| 0 <= j < more.values@.len() && more.values@[j] == field.values@[i];
        assert(more.values@[j].spec_is_match(more.date_part, datetime));
    }
}

} // verus!

verus! {

proof fn lemma_parse_one_digit(c: char)
    requires
        super::text::is_ascii_digit(c),
    ensures
        super::text::parse_u32_spec(seq![c]) == Some(digit_value(c) as u32),
{
    let s = seq![c];
    let e: Seq<char> = seq![];
    assert(s.drop_last() =~= e);
    assert(decimal_value(s) == decimal_value(e) * 10 + digit_value(c));
    super::text::lemma_digit_small(c);
}

proof fn lemma_parse_two_digits(a: char, b: char)
    requires
        super::text::is_ascii_digit(a),
        super::text::is_ascii_digit(b),
    ensures
        super::text::parse_u32_spec(seq![a, b]) == Some((digit_value(a) * 10 + digit_value(b)) as u32),
{
    let s = seq![a, b];
    let e: Seq<char> = seq![];
    assert(s.drop_last() =~= seq![a]);
    assert(seq![a].drop_last() =~= e);
    assert(decimal_value(seq![a]) == decimal_value(e) * 10 + digit_value(a));
    assert(decimal_value(s) == decimal_value(seq![a]) * 10 + digit_value(b));
    super::text::lemma_digit_small(a);
    super::text::lemma_digit_small(b);
    assert(super::text::all_digits(s));
}

/// A month name parses as the number of its month: `JAN` is `1`, `dec` is
/// `12`, in any ASCII case.
pub proof fn law_month_names_parse_as_numbers(value: Seq<char>)
    requires
        month_number(value) is Some,
    ensures
        spec_single(CronDatePart::Month, value) == spec_single(
            CronDatePart::Month,
            month_number(value)->Some_0,
        ),
        spec_single(CronDatePart::Month, value) matches Some(Ok(CronValue::Single(k))) && 1 <= k
            <= 12,
{
    let d = month_number(value)->Some_0;
    law_translate_idempotent(CronDatePart::Month, value);
    assert(spec_translate(CronDatePart::Month, value) == d);
    if d.len() == 1 {
        lemma_parse_one_digit(d[0]);
        assert(d =~= seq![d[0]]);
    } else {
        lemma_parse_two_digits(d[0], d[1]);
        assert(d =~= seq![d[0], d[1]]);
    }
}

/// A day name parses as the number of its day: `SUN` is `0`, `sat` is `6`,
/// in any ASCII case.
pub proof fn law_weekday_names_parse_as_numbers(value: Seq<char>)
    requires
        weekday_number(value) is Some,
    ensures
        spec_single(CronDatePart::DayOfWeek, value) == spec_single(
            CronDatePart::DayOfWeek,
            weekday_number(value)->Some_0,
        ),
        spec_single(CronDatePart::DayOfWeek, value) matches Some(Ok(CronValue::Single(k))) && k <= 6,
{
    let d = weekday_number(value)->Some_0;
    law_translate_idempotent(CronDatePart::DayOfWeek, value);
    assert(spec_translate(CronDatePart::DayOfWeek, value) == d);
    lemma_parse_one_digit(d[0]);
    assert(d =~= seq![d[0]]);
}

} // verus!
verus! {

/// A field written `*` parses into the wildcard alone, whatever its date part.
pub proof fn lemma_star_field_parses_to_any(date_part: CronDatePart)
    ensures
        spec_parse_field(date_part, seq!['*']) == Ok::<Seq<CronValue>, ParsingFailure>(
            seq![CronValue::Any],
        ),
{
    let star = seq!['*'];
    assert(star.drop_last() =~= Seq::<char>::empty());
    assert(split_spec(Seq::<char>::empty(), ',') == seq![Seq::<char>::empty()]);
    assert(Seq::<char>::empty().push('*') =~= star);
    assert(split_spec(star, ',') =~= seq![star]);
    assert(seq![star].drop_last() =~= Seq::<Seq<char>>::empty());
    reveal_with_fuel(spec_chain_parse, 6);
    let chain = spec_chain_for(date_part);
    assert(spec_chain_parse(chain, date_part, star) == Ok::<CronValue, ParsingFailure>(CronValue::Any));
    assert(spec_parse_values(chain, date_part, Seq::<Seq<char>>::empty()) == Ok::<
        Seq<CronValue>,
        ParsingFailure,
    >(seq![]));
    assert(seq![star].last() == star);
    assert(Seq::<CronValue>::empty().push(CronValue::Any) =~= seq![CronValue::Any]);
    assert(spec_parse_values(chain, date_part, seq![star]) == Ok::<Seq<CronValue>, ParsingFailure>(
        seq![CronValue::Any],
    ));
}


/// The fields of `* * * * *` are five stars.
proof fn lemma_all_wildcard_words()
    ensures
        expression_words("* * * * *"@) == seq![seq!['*'], seq!['*'], seq!['*'], seq!['*'], seq!['*']],
{
    reveal_strlit("* * * * *");
    let s = "* * * * *"@;
    let star = seq!['*'];
    assert(s =~= seq!['*', ' ', '*', ' ', '*', ' ', '*', ' ', '*']);
    assert(s.take(0) =~= Seq::<char>::empty());
    assert(split_spec(s.take(0), ' ') == seq![Seq::<char>::empty()]);
    assert(s.take(1).drop_last() =~= s.take(0));
    assert(s.take(1).last() == s[0]);
    assert(Seq::<char>::empty().push('*') =~= star);
    assert(split_spec(s.take(1), ' ') =~= seq![star]);
    assert(s.take(2).drop_last() =~= s.take(1));
    assert(s.take(2).last() == s[1]);
    assert(split_spec(s.take(2), ' ') =~= seq![star, Seq::<char>::empty()]);
    assert(s.take(3).drop_last() =~= s.take(2));
    assert(s.take(3).last() == s[2]);
    assert(Seq::<char>::empty().push('*') =~= star);
    assert(split_spec(s.take(3), ' ') =~= seq![star, star]);
    assert(s.take(4).drop_last() =~= s.take(3));
    assert(s.take(4).last() == s[3]);
    assert(split_spec(s.take(4), ' ') =~= seq![star, star, Seq::<char>::empty()]);
    assert(s.take(5).drop_last() =~= s.take(4));
    assert(s.take(5).last() == s[4]);
    assert(Seq::<char>::empty().push('*') =~= star);
    assert(split_spec(s.take(5), ' ') =~= seq![star, star, star]);
    assert(s.take(6).drop_last() =~= s.take(5));
    assert(s.take(6).last() == s[5]);
    assert(split_spec(s.take(6), ' ') =~= seq![star, star, star, Seq::<char>::empty()]);
    assert(s.take(7).drop_last() =~= s.take(6));
    assert(s.take(7).last() == s[6]);
    assert(Seq::<char>::empty().push('*') =~= star);
    assert(split_spec(s.take(7), ' ') =~= seq![star, star, star, star]);
    assert(s.take(8).drop_last() =~= s.take(7));
    assert(s.take(8).last() == s[7]);
    assert(split_spec(s.take(8), ' ') =~= seq![star, star, star, star, Seq::<char>::empty()]);
    assert(s.take(9).drop_last() =~= s.take(8));
    assert(s.take(9).last() == s[8]);
    assert(Seq::<char>::empty().push('*') =~= star);
    assert(split_spec(s.take(9), ' ') =~= seq![star, star, star, star, star]);
    assert(s.take(9) =~= s);
    let pieces = seq![star, star, star, star, star];
    assert(split_spec(s, ' ') =~= pieces);
    assert(nonempty_pieces(pieces.take(0)) == Seq::<Seq<char>>::empty());
    assert(pieces.take(1).drop_last() =~= pieces.take(0));
    assert(pieces.take(1).last() == star);
    assert(nonempty_pieces(pieces.take(1)) =~= pieces.take(1));
    assert(pieces.take(2).drop_last() =~= pieces.take(1));
    assert(pieces.take(2).last() == star);
    assert(nonempty_pieces(pieces.take(2)) =~= pieces.take(2));
    assert(pieces.take(3).drop_last() =~= pieces.take(2));
    assert(pieces.take(3).last() == star);
    assert(nonempty_pieces(pieces.take(3)) =~= pieces.take(3));
    assert(pieces.take(4).drop_last() =~= pieces.take(3));
    assert(pieces.take(4).last() == star);
    assert(nonempty_pieces(pieces.take(4)) =~= pieces.take(4));
    assert(pieces.take(5).drop_last() =~= pieces.take(4));
    assert(pieces.take(5).last() == star);
    assert(nonempty_pieces(pieces.take(5)) =~= pieces.take(5));
    assert(pieces.take(5) =~= pieces);
}

/// `* * * * *` parses into five fields that each hold the wildcard alone.
pub proof fn lemma_all_wildcard_expression_parses()
    ensures
        spec_parse_expression::<CurdsCronParser>("* * * * *"@) == Ok::<
            Seq<Seq<CronValue>>,
            ParsingFailure,
        >(seq![seq![CronValue::Any], seq![CronValue::Any], seq![CronValue::Any], seq![CronValue::Any], seq![CronValue::Any]]),
{
    lemma_all_wildcard_words();
    let words = expression_words("* * * * *"@);
    let any = seq![CronValue::Any];
    lemma_star_field_parses_to_any(CronDatePart::Minutes);
    lemma_star_field_parses_to_any(CronDatePart::Hours);
    lemma_star_field_parses_to_any(CronDatePart::DayOfMonth);
    lemma_star_field_parses_to_any(CronDatePart::Month);
    lemma_star_field_parses_to_any(CronDatePart::DayOfWeek);
    assert(spec_parse_fields::<CurdsCronParser>(words, 0) == Ok::<Seq<Seq<CronValue>>, ParsingFailure>(seq![]));
    assert(words[0] == seq!['*']);
    assert(Seq::<Seq<CronValue>>::empty().push(any) =~= seq![any]);
    assert(spec_parse_fields::<CurdsCronParser>(words, 1) == Ok::<Seq<Seq<CronValue>>, ParsingFailure>(seq![any]));
    assert(words[1] == seq!['*']);
    assert(seq![any].push(any) =~= seq![any, any]);
    assert(spec_parse_fields::<CurdsCronParser>(words, 2) == Ok::<Seq<Seq<CronValue>>, ParsingFailure>(seq![any, any]));
    assert(words[2] == seq!['*']);
    assert(seq![any, any].push(any) =~= seq![any, any, any]);
    assert(spec_parse_fields::<CurdsCronParser>(words, 3) == Ok::<Seq<Seq<CronValue>>, ParsingFailure>(seq![any, any, any]));
    assert(words[3] == seq!['*']);
    assert(seq![any, any, any].push(any) =~= seq![any, any, any, any]);
    assert(spec_parse_fields::<CurdsCronParser>(words, 4) == Ok::<Seq<Seq<CronValue>>, ParsingFailure>(seq![any, any, any, any]));
    assert(words[4] == seq!['*']);
    assert(seq![any, any, any, any].push(any) =~= seq![any, any, any, any, any]);
    assert(spec_parse_fields::<CurdsCronParser>(words, 5) == Ok::<Seq<Seq<CronValue>>, ParsingFailure>(seq![any, any, any, any, any]));
}

/// The expression `* * * * *` matches every moment.
pub proof fn law_all_wildcard_expression_always_matches(
    expression: CronExpression,
    datetime: CronDateTime,
)
    requires
        expression.can_match(),
        spec_parse_expression::<CurdsCronParser>("* * * * *"@) == Ok::<
            Seq<Seq<CronValue>>,
            ParsingFailure,
        >(expression.spec_values()),
    ensures
        expression.spec_is_match(datetime),
{
    lemma_all_wildcard_expression_parses();
    assert forall|i: int| 0 <= i < 5 implies (#[trigger] expression.spec_fields()[i]).values@.contains(
        CronValue::Any,
    ) by {
        assert(expression.spec_values()[i] == expression.spec_fields()[i].values@);
        assert(expression.spec_fields()[i].values@[0] == CronValue::Any);
    }
    law_wildcard_expression_matches_everything(expression, datetime);
}
} // verus!
