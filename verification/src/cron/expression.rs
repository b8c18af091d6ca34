//! A cron expression: five fields, all of which must match.
use vstd::prelude::*;
use super::datepart::CronDatePart;
use super::datetime::CronDateTime;
use super::field::{CronField, joined_text};
use super::parsing::error::{CronParsingError, ParsingFailure};
use super::parsing::parser::{CronFieldParser, CurdsCronParser};
use super::text::{drop_empty, nonempty_pieces, split_at_char, split_spec, views_of};
use super::value::CronValue;

verus! {

/// The date parts of the five fields, in the order they are written.
pub open spec fn field_order() -> Seq<CronDatePart> {
    seq![
        CronDatePart::Minutes,
        CronDatePart::Hours,
        CronDatePart::DayOfMonth,
        CronDatePart::Month,
        CronDatePart::DayOfWeek,
    ]
}

/// The fields of an expression: the pieces between spaces that are not empty.
pub open spec fn expression_words(expression: Seq<char>) -> Seq<Seq<char>> {
    nonempty_pieces(split_spec(expression, ' '))
}

/// The first `k` fields parsed one after the other; the first failure ends
/// the parse.
pub open spec fn spec_parse_fields<T: CronFieldParser>(words: Seq<Seq<char>>, k: nat) -> Result<
    Seq<Seq<CronValue>>,
    ParsingFailure,
>
    decreases k,
{
    if k == 0 {
        Ok(seq![])
    } else {
        match spec_parse_fields::<T>(words, (k - 1) as nat) {
            Err(e) => Err(e),
            Ok(fields) => match T::spec_parse(field_order()[k - 1], words[k - 1]) {
                Ok(values) => Ok(fields.push(values)),
                Err(e) => Err(e),
            },
        }
    }
}

/// What an expression parses into with a field parser: the values of its
/// five fields, or why it fails.
pub open spec fn spec_parse_expression<T: CronFieldParser>(expression: Seq<char>) -> Result<
    Seq<Seq<CronValue>>,
    ParsingFailure,
> {
    let words = expression_words(expression);
    if words.len() != 5 {
        Err(ParsingFailure::FieldCount { expression, parts: words.len() })
    } else {
        spec_parse_fields::<T>(words, 5)
    }
}

/// Fields written out, separated by spaces.
pub open spec fn fields_text(fields: Seq<CronField>) -> Seq<char>
    decreases fields.len(),
{
    if fields.len() == 0 {
        seq![]
    } else if fields.len() == 1 {
        joined_text(fields[0].values@)
    } else {
        fields_text(fields.drop_last()) + seq![' '] + joined_text(fields.last().values@)
    }
}

/// A cron expression.
#[derive(Debug)]
pub struct CronExpression {
    fields: Vec<CronField>,
}

impl CronExpression {
    /// Five fields whose values can all be matched.
    pub open spec fn can_match(&self) -> bool {
        &&& self.spec_fields().len() == 5
        &&& forall|i: int| 0 <= i < 5 ==> (#[trigger] self.spec_fields()[i]).wf()
    }

    /// Five fields, for the five date parts in order, whose values can all
    /// be matched: what parsing gives.
    pub open spec fn wf(&self) -> bool {
        &&& self.can_match()
        &&& forall|i: int| 0 <= i < 5 ==> (#[trigger] self.spec_fields()[i]).date_part
            == field_order()[i]
    }

    pub closed spec fn spec_fields(&self) -> Seq<CronField> {
        self.fields@
    }

    /// The values of the five fields.
    pub open spec fn spec_values(&self) -> Seq<Seq<CronValue>> {
        Seq::new(self.spec_fields().len(), |i: int| self.spec_fields()[i].values@)
    }

    /// An expression matches a moment when every field does.
    pub open spec fn spec_is_match(&self, datetime: CronDateTime) -> bool {
        forall|i: int|
            0 <= i < self.spec_fields().len() ==> (#[trigger] self.spec_fields()[i]).spec_is_match(
                datetime,
            )
    }

    /// An expression made of five fields, given in the order minutes, hours,
    /// day of month, month, day of week.
    pub fn from_fields(
        minutes: CronField,
        hours: CronField,
        day_of_month: CronField,
        month: CronField,
        day_of_week: CronField,
    ) -> (r: CronExpression)
        ensures
            r.spec_fields() == seq![minutes, hours, day_of_month, month, day_of_week],
    {
        let mut fields: Vec<CronField> = Vec::new();
        fields.push(minutes);
        fields.push(hours);
        fields.push(day_of_month);
        fields.push(month);
        fields.push(day_of_week);
        let r = CronExpression { fields };
        assert(r.spec_fields() =~= seq![minutes, hours, day_of_month, month, day_of_week]);
        r
    }

    /// Parses an expression: five fields separated by spaces, each parsed by
    /// the field parser `TFieldParser`.
    pub fn parse<TFieldParser: CronFieldParser>(expression: &str) -> (r: Result<
        CronExpression,
        CronParsingError,
    >)
        ensures
            r matches Ok(e) ==> e.wf() && spec_parse_expression::<TFieldParser>(expression@)
                == Ok::<Seq<Seq<CronValue>>, ParsingFailure>(e.spec_values()),
            r matches Err(err) ==> spec_parse_expression::<TFieldParser>(expression@) == Err::<
                Seq<Seq<CronValue>>,
                ParsingFailure,
            >(err@),
    {
        let parts = drop_empty(split_at_char(expression, ' '));
        let ghost words = expression_words(expression@);
        assert(views_of(parts@) == words);
        if parts.len() != 5 {
            return Err(
                CronParsingError::FieldCount { expression: expression.to_owned(), parts: parts.len() },
            );
        }
        let mut order: Vec<CronDatePart> = Vec::new();
        order.push(CronDatePart::Minutes);
        order.push(CronDatePart::Hours);
        order.push(CronDatePart::DayOfMonth);
        order.push(CronDatePart::Month);
        order.push(CronDatePart::DayOfWeek);
        assert(order@ =~= field_order());
        let mut fields: Vec<CronField> = Vec::new();
        let mut i: usize = 0;
        assert(Seq::new(0, |j: int| fields@[j].values@) =~= Seq::<Seq<CronValue>>::empty());
        while i < 5
            invariant
                i <= 5,
                parts@.len() == 5,
                views_of(parts@) == words,
                words == expression_words(expression@),
                words.len() == 5,
                order@ == field_order(),
                fields@.len() == i,
                spec_parse_fields::<TFieldParser>(words, i as nat) == Ok::<
                    Seq<Seq<CronValue>>,
                    ParsingFailure,
                >(Seq::new(i as nat, |j: int| fields@[j].values@)),
                forall|j: int| 0 <= j < i ==> (#[trigger] fields@[j]).wf(),
                forall|j: int| 0 <= j < i ==> (#[trigger] fields@[j]).date_part == field_order()[j],
            decreases 5 - i,
        {
            assert(words[i as int] == parts@[i as int]@);
            let parsed = TFieldParser::parse(order[i], parts[i]);
            match parsed {
                Ok(field) => {
                    let ghost before = fields@;
                    fields.push(field);
                    assert(Seq::new((i + 1) as nat, |j: int| fields@[j].values@) =~= Seq::new(
                        i as nat,
                        |j: int| before[j].values@,
                    ).push(field.values@));
                },
                Err(e) => {
                    assert(order@[i as int] == field_order()[i as int]);
                    assert(spec_parse_fields::<TFieldParser>(words, (i + 1) as nat) == Err::<
                        Seq<Seq<CronValue>>,
                        ParsingFailure,
                    >(e@));
                    proof {
                        lemma_parse_fields_error_extends::<TFieldParser>(words, (i + 1) as nat);
                    }
                    return Err(e);
                },
            }
            i = i + 1;
        }
        let r = CronExpression { fields };
        assert(r.spec_values() =~= Seq::new(5, |j: int| fields@[j].values@));
        proof {
            r.lemma_wf_from_parts();
        }
        Ok(r)
    }

    proof fn lemma_wf_from_parts(&self)
        requires
            self.fields@.len() == 5,
            forall|j: int| 0 <= j < 5 ==> (#[trigger] self.fields@[j]).wf(),
            forall|j: int| 0 <= j < 5 ==> (#[trigger] self.fields@[j]).date_part == field_order()[j],
        ensures
            self.wf(),
    {
    }

    /// Whether every field matches `datetime`.
    pub fn is_match(&self, datetime: &CronDateTime) -> (r: bool)
        requires
            self.can_match(),
            datetime.wf(),
        ensures
            r == self.spec_is_match(*datetime),
    {
        let mut i: usize = 0;
        while i < 5
            invariant
                i <= 5,
                self.can_match(),
                datetime.wf(),
                forall|j: int| 0 <= j < i ==> (#[trigger] self.spec_fields()[j]).spec_is_match(
                    *datetime,
                ),
            decreases 5 - i,
        {
            if !self.fields[i].is_match(datetime) {
                return false;
            }
            i = i + 1;
        }
        true
    }

    /// The expression written out: its fields joined by spaces.
    pub fn to_string(&self) -> (r: String)
        requires
            self.can_match(),
        ensures
            r@ == fields_text(self.spec_fields()),
    {
        let mut r = self.fields[0].to_string();
        let mut i: usize = 1;
        proof {
            assert(self.spec_fields().take(1) =~= seq![self.spec_fields()[0]]);
        }
        while i < 5
            invariant
                1 <= i <= 5,
                self.can_match(),
                r@ == fields_text(self.spec_fields().take(i as int)),
            decreases 5 - i,
        {
            proof {
                reveal_strlit(" ");
            }
            let ghost after = self.spec_fields().take(i + 1);
            assert(after.drop_last() =~= self.spec_fields().take(i as int));
            assert(after.last() == self.spec_fields()[i as int]);
            r.append(" ");
            r.append(self.fields[i].to_string().as_str());
            i = i + 1;
        }
        assert(self.spec_fields().take(5) =~= self.spec_fields());
        r
    }
}

/// Once a field fails, the whole expression fails the same way.
proof fn lemma_parse_fields_error_extends<T: CronFieldParser>(words: Seq<Seq<char>>, k: nat)
    requires
        k <= 5,
        spec_parse_fields::<T>(words, k) is Err,
    ensures
        spec_parse_fields::<T>(words, 5) == spec_parse_fields::<T>(words, k),
    decreases 5 - k,
{
    if k < 5 {
        lemma_parse_fields_error_extends::<T>(words, k + 1);
    }
}

impl std::str::FromStr for CronExpression {
    type Err = CronParsingError;

    fn from_str(string: &str) -> (r: Result<Self, Self::Err>)
        ensures
            r matches Ok(e) ==> e.wf() && spec_parse_expression::<CurdsCronParser>(string@)
                == Ok::<Seq<Seq<CronValue>>, ParsingFailure>(e.spec_values()),
            r matches Err(err) ==> spec_parse_expression::<CurdsCronParser>(string@) == Err::<
                Seq<Seq<CronValue>>,
                ParsingFailure,
            >(err@),
    {
        CronExpression::parse::<CurdsCronParser>(string)
    }
}

} // verus!
