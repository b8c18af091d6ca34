//! A chain of handlers: each value goes to the first handler that takes it.
use vstd::prelude::*;
use crate::cron::datepart::CronDatePart;
use crate::cron::value::CronValue;
use super::error::{CronParsingError, ParsingFailure, value_result_view};
use super::handlers::{
    CronValueParsingHandler, LastDayOfMonthValueHandler, LastDayOfWeekValueHandler,
    NearestWeekdayValueHandler, NthDayOfWeekValueHandler, RangeValueHandler, SingleValueHandler,
    WildcardValueHandler, spec_last_day_of_month, spec_last_day_of_week, spec_nearest_weekday,
    spec_nth_day_of_week, spec_range, spec_single, spec_wildcard,
};

verus! {

/// The handlers a chain can hold: the library's own, or one of a user's.
pub enum ValueHandler {
    Single,
    Wildcard,
    Range,
    NearestWeekday,
    LastDayOfMonth,
    NthDayOfWeek,
    LastDayOfWeek,
    /// A handler of a user's.
    Custom(Box<dyn CronValueParsingHandler>),
}

/// Whether a handler is one of the library's own.
pub open spec fn is_builtin(handler: ValueHandler) -> bool {
    !(handler is Custom)
}

/// Whether a chain holds only the library's own handlers.
pub open spec fn all_builtin(chain: Seq<ValueHandler>) -> bool {
    forall|i: int| 0 <= i < chain.len() ==> is_builtin(#[trigger] chain[i])
}

/// What a handler answers for a value.
pub open spec fn spec_handle(
    handler: ValueHandler,
    date_part: CronDatePart,
    value: Seq<char>,
) -> Option<Result<CronValue, ParsingFailure>> {
    match handler {
        ValueHandler::Single => spec_single(date_part, value),
        ValueHandler::Wildcard => spec_wildcard(date_part, value),
        ValueHandler::Range => spec_range(date_part, value),
        ValueHandler::NearestWeekday => spec_nearest_weekday(date_part, value),
        ValueHandler::LastDayOfMonth => spec_last_day_of_month(date_part, value),
        ValueHandler::NthDayOfWeek => spec_nth_day_of_week(date_part, value),
        ValueHandler::LastDayOfWeek => spec_last_day_of_week(date_part, value),
        ValueHandler::Custom(handler) => handler.spec_handle(date_part, value),
    }
}

/// What a chain of handlers makes of a value: the answer of the first
/// handler that takes it, or `InvalidValue` when none does.
pub open spec fn spec_chain_parse(
    chain: Seq<ValueHandler>,
    date_part: CronDatePart,
    value: Seq<char>,
) -> Result<CronValue, ParsingFailure>
    decreases chain.len(),
{
    if chain.len() == 0 {
        Err(ParsingFailure::InvalidValue { date_part, value })
    } else {
        match spec_handle(chain[0], date_part, value) {
            Some(answer) => answer,
            None => spec_chain_parse(chain.drop_first(), date_part, value),
        }
    }
}

impl ValueHandler {
    /// Asks the handler about `value`.
    pub fn handle(&self, date_part: &CronDatePart, value: &str) -> (r: Option<
        Result<CronValue, CronParsingError>,
    >)
        ensures
            super::error::handled_view(r) == spec_handle(*self, *date_part, value@),
            r matches Some(Ok(v)) ==> v.wf(),
    {
        match self {
            ValueHandler::Single => SingleValueHandler.parse(date_part, value),
            ValueHandler::Wildcard => WildcardValueHandler.parse(date_part, value),
            ValueHandler::Range => RangeValueHandler.parse(date_part, value),
            ValueHandler::NearestWeekday => NearestWeekdayValueHandler.parse(date_part, value),
            ValueHandler::LastDayOfMonth => LastDayOfMonthValueHandler.parse(date_part, value),
            ValueHandler::NthDayOfWeek => NthDayOfWeekValueHandler.parse(date_part, value),
            ValueHandler::LastDayOfWeek => LastDayOfWeekValueHandler.parse(date_part, value),
            ValueHandler::Custom(handler) => handler.parse(date_part, value),
        }
    }
}

/// One link of a chain: a handler and the links after it.
pub struct CronValueParserLink {
    pub current: ValueHandler,
    pub successor: Option<Box<CronValueParserLink>>,
}

impl CronValueParserLink {
    /// The handlers of the chain from this link on, in order.
    pub open spec fn chain(&self) -> Seq<ValueHandler>
        decreases self,
    {
        match self.successor {
            None => seq![self.current],
            Some(next) => seq![self.current] + next.chain(),
        }
    }

    /// A chain of one handler.
    pub fn tail(handler: ValueHandler) -> (r: CronValueParserLink)
        ensures
            r.current == handler,
            r.successor is None,
            r.chain() == seq![handler],
    {
        CronValueParserLink { current: handler, successor: None }
    }

    /// This chain with `handler` put in front.
    pub fn prepend(self, handler: ValueHandler) -> (r: CronValueParserLink)
        ensures
            r.current == handler,
            r.successor == Some(Box::new(self)),
            r.chain() == seq![handler] + self.chain(),
    {
        CronValueParserLink { current: handler, successor: Some(Box::new(self)) }
    }

    /// Parses a value with the first handler of the chain that takes it.
    pub fn parse(&self, date_part: &CronDatePart, value: &str) -> (r: Result<
        CronValue,
        CronParsingError,
    >)
        ensures
            value_result_view(r) == spec_chain_parse(self.chain(), *date_part, value@),
            r matches Ok(v) ==> v.wf(),
        decreases self,
    {
        let ghost chain = self.chain();
        assert(chain.len() > 0 && chain[0] == self.current);
        let handled = self.current.handle(date_part, value);
        match handled {
            Some(answer) => {
                assert(spec_handle(chain[0], *date_part, value@) == Some(value_result_view(answer)));
                assert(spec_chain_parse(chain, *date_part, value@) == value_result_view(answer));
                answer
            },
            None => {
                assert(spec_handle(chain[0], *date_part, value@) is None);
                match &self.successor {
                    None => {
                        assert(chain.drop_first() =~= seq![]);
                        assert(spec_chain_parse(chain, *date_part, value@) == spec_chain_parse(
                            chain.drop_first(),
                            *date_part,
                            value@,
                        ));
                        Err(
                            CronParsingError::InvalidValue {
                                date_part: *date_part,
                                value: value.to_owned(),
                            },
                        )
                    },
                    Some(link) => {
                        assert(chain.drop_first() =~= link.chain());
                        link.parse(date_part, value)
                    },
                }
            },
        }
    }
}

} // verus!
