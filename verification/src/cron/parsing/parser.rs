//! Parsing a field: its comma-separated values, each through the chain of
//! handlers for the field's date part.
use vstd::prelude::*;
use crate::cron::datepart::CronDatePart;
use crate::cron::field::CronField;
use crate::cron::text::{split_at_char, split_spec, views_of};
use crate::cron::value::CronValue;
use super::error::{CronParsingError, ParsingFailure};
use super::link::{
    CronValueParserLink, ValueHandler, all_builtin, is_builtin, spec_chain_parse, spec_handle,
};

verus! {

/// The values of a field, parsed one after the other; the first failure
/// ends the parse.
pub open spec fn spec_parse_values(
    chain: Seq<ValueHandler>,
    date_part: CronDatePart,
    pieces: Seq<Seq<char>>,
) -> Result<Seq<CronValue>, ParsingFailure>
    decreases pieces.len(),
{
    if pieces.len() == 0 {
        Ok(seq![])
    } else {
        match spec_parse_values(chain, date_part, pieces.drop_last()) {
            Err(e) => Err(e),
            Ok(values) => match spec_chain_parse(chain, date_part, pieces.last()) {
                Ok(v) => Ok(values.push(v)),
                Err(e) => Err(e),
            },
        }
    }
}

/// A field parsed with a chain of handlers: its comma-separated values.
pub open spec fn spec_parse_field_with(
    chain: Seq<ValueHandler>,
    date_part: CronDatePart,
    field: Seq<char>,
) -> Result<Seq<CronValue>, ParsingFailure> {
    spec_parse_values(chain, date_part, split_spec(field, ','))
}

/// The handlers that every field uses: ranges, then wildcards, then single
/// values.
pub open spec fn spec_default_chain() -> Seq<ValueHandler> {
    seq![ValueHandler::Range, ValueHandler::Wildcard, ValueHandler::Single]
}

/// The handlers for a date part: day-of-month fields first try the last
/// day of the month and the nearest weekday, day-of-week fields the last
/// and the nth weekday of the month.
pub open spec fn spec_chain_for(date_part: CronDatePart) -> Seq<ValueHandler> {
    match date_part {
        CronDatePart::DayOfMonth => seq![ValueHandler::LastDayOfMonth, ValueHandler::NearestWeekday]
            + spec_default_chain(),
        CronDatePart::DayOfWeek => seq![ValueHandler::LastDayOfWeek, ValueHandler::NthDayOfWeek]
            + spec_default_chain(),
        _ => spec_default_chain(),
    }
}

/// What a field of an expression parses into.
pub open spec fn spec_parse_field(date_part: CronDatePart, field: Seq<char>) -> Result<
    Seq<CronValue>,
    ParsingFailure,
> {
    spec_parse_field_with(spec_chain_for(date_part), date_part, field)
}

/// The chains of the library hold only its own handlers.
pub proof fn lemma_chain_for_builtin(date_part: CronDatePart)
    ensures
        all_builtin(spec_chain_for(date_part)),
{
    let chain = spec_chain_for(date_part);
    assert forall|i: int| 0 <= i < chain.len() implies is_builtin(#[trigger] chain[i]) by {
        match date_part {
            CronDatePart::DayOfMonth => {
                assert(chain =~= seq![
                    ValueHandler::LastDayOfMonth,
                    ValueHandler::NearestWeekday,
                    ValueHandler::Range,
                    ValueHandler::Wildcard,
                    ValueHandler::Single,
                ]);
            },
            CronDatePart::DayOfWeek => {
                assert(chain =~= seq![
                    ValueHandler::LastDayOfWeek,
                    ValueHandler::NthDayOfWeek,
                    ValueHandler::Range,
                    ValueHandler::Wildcard,
                    ValueHandler::Single,
                ]);
            },
            _ => {},
        }
    }
}

/// Makes the chain of handlers for a date part.
pub trait CronValueParserFactory {
    /// The chain made for a date part; a factory that does not say makes a
    /// chain unknown to its callers.
    closed spec fn spec_create(date_part: CronDatePart) -> Seq<ValueHandler> {
        arbitrary()
    }

    fn create(date_part: &CronDatePart) -> (r: CronValueParserLink)
        ensures
            r.chain() == Self::spec_create(*date_part),
    ;
}

/// The chains this library parses with.
pub struct CurdsCronValueParserFactory;

impl CurdsCronValueParserFactory {
    fn default_links() -> (r: CronValueParserLink)
        ensures
            r.chain() == spec_default_chain(),
    {
        let r = CronValueParserLink::tail(ValueHandler::Single).prepend(ValueHandler::Wildcard).prepend(
            ValueHandler::Range,
        );
        assert(r.chain() =~= spec_default_chain());
        r
    }
}

impl CronValueParserFactory for CurdsCronValueParserFactory {
    open spec fn spec_create(date_part: CronDatePart) -> Seq<ValueHandler> {
        spec_chain_for(date_part)
    }

    fn create(date_part: &CronDatePart) -> (r: CronValueParserLink) {
        let link = Self::default_links();
        match date_part {
            CronDatePart::DayOfMonth => {
                let r = link.prepend(ValueHandler::NearestWeekday).prepend(
                    ValueHandler::LastDayOfMonth,
                );
                assert(r.chain() =~= spec_chain_for(*date_part));
                r
            },
            CronDatePart::DayOfWeek => {
                let r = link.prepend(ValueHandler::NthDayOfWeek).prepend(
                    ValueHandler::LastDayOfWeek,
                );
                assert(r.chain() =~= spec_chain_for(*date_part));
                r
            },
            _ => link,
        }
    }
}

/// Parses one field of an expression.
pub trait CronFieldParser {
    /// What a field parses into; a parser that does not say leaves it
    /// unknown to its callers.
    closed spec fn spec_parse(date_part: CronDatePart, field: Seq<char>) -> Result<
        Seq<CronValue>,
        ParsingFailure,
    > {
        arbitrary()
    }

    fn parse(date_part: CronDatePart, field: &str) -> (r: Result<CronField, CronParsingError>)
        ensures
            r matches Ok(f) ==> {
                &&& f.date_part == date_part
                &&& f.wf()
                &&& Self::spec_parse(date_part, field@) == Ok::<Seq<CronValue>, ParsingFailure>(
                    f.values@,
                )
            },
            r matches Err(e) ==> Self::spec_parse(date_part, field@) == Err::<
                Seq<CronValue>,
                ParsingFailure,
            >(e@),
    ;
}

/// The field parser of this library.
pub struct CurdsCronParser;

impl CronFieldParser for CurdsCronParser {
    open spec fn spec_parse(date_part: CronDatePart, field: Seq<char>) -> Result<
        Seq<CronValue>,
        ParsingFailure,
    > {
        spec_parse_field(date_part, field)
    }

    fn parse(date_part: CronDatePart, field: &str) -> (r: Result<CronField, CronParsingError>) {
        CurdsCronParser::parse_field::<CurdsCronValueParserFactory>(date_part, field)
    }
}

impl CurdsCronParser {
    /// Parses the comma-separated values of a field with the chain that the
    /// factory makes for the date part.
    pub fn parse_field<TValueParserFactory: CronValueParserFactory>(
        date_part: CronDatePart,
        field: &str,
    ) -> (r: Result<CronField, CronParsingError>)
        ensures
            r matches Ok(f) ==> {
                &&& f.date_part == date_part
                &&& f.wf()
                &&& spec_parse_field_with(TValueParserFactory::spec_create(date_part), date_part, field@)
                    == Ok::<Seq<CronValue>, ParsingFailure>(f.values@)
            },
            r matches Err(e) ==> spec_parse_field_with(
                TValueParserFactory::spec_create(date_part),
                date_part,
                field@,
            ) == Err::<Seq<CronValue>, ParsingFailure>(e@),
    {
        let parser = TValueParserFactory::create(&date_part);
        let ghost chain = parser.chain();
        let pieces = split_at_char(field, ',');
        let ghost all = views_of(pieces@);
        let mut values: Vec<CronValue> = Vec::new();
        let n = pieces.len();
        let mut i: usize = 0;
        while i < n
            invariant
                n == pieces@.len(),
                i <= n,
                chain == parser.chain(),
                chain == TValueParserFactory::spec_create(date_part),
                all == views_of(pieces@),
                all == split_spec(field@, ','),
                spec_parse_values(chain, date_part, all.take(i as int)) == Ok::<
                    Seq<CronValue>,
                    ParsingFailure,
                >(values@),
                forall|j: int| 0 <= j < values@.len() ==> #[trigger] values@[j].wf(),
            decreases n - i,
        {
            let ghost prefix = all.take(i + 1);
            assert(prefix.drop_last() =~= all.take(i as int));
            assert(prefix.last() == pieces@[i as int]@);
            let parsed = parser.parse(&date_part, pieces[i]);
            match parsed {
                Ok(value) => {
                    values.push(value);
                },
                Err(e) => {
                    assert(spec_chain_parse(chain, date_part, prefix.last()) == Err::<
                        CronValue,
                        ParsingFailure,
                    >(e@));
                    assert(spec_parse_values(chain, date_part, prefix) == Err::<
                        Seq<CronValue>,
                        ParsingFailure,
                    >(e@));
                    proof {
                        lemma_parse_values_error_extends(chain, date_part, all, i as int + 1);
                    }
                    assert(all.take(n as int) =~= all);
                    return Err(e);
                },
            }
            i = i + 1;
        }
        assert(all.take(n as int) =~= all);
        Ok(CronField::new(date_part, values))
    }
}

/// Once a prefix of the values fails, the whole field fails the same way.
proof fn lemma_parse_values_error_extends(
    chain: Seq<ValueHandler>,
    date_part: CronDatePart,
    pieces: Seq<Seq<char>>,
    k: int,
)
    requires
        0 <= k <= pieces.len(),
        spec_parse_values(chain, date_part, pieces.take(k)) is Err,
    ensures
        spec_parse_values(chain, date_part, pieces) == spec_parse_values(
            chain,
            date_part,
            pieces.take(k),
        ),
    decreases pieces.len() - k,
{
    if k < pieces.len() {
        let longer = pieces.take(k + 1);
        assert(longer.drop_last() =~= pieces.take(k));
        lemma_parse_values_error_extends(chain, date_part, pieces, k + 1);
    } else {
        assert(pieces.take(k) =~= pieces);
    }
}

} // verus!
