//! A field: the comma-separated values that constrain one date part.
use vstd::prelude::*;
use super::datepart::CronDatePart;
use super::datetime::CronDateTime;
use super::value::CronValue;

verus! {

/// The values written for one date part of an expression.
#[derive(Debug)]
pub struct CronField {
    pub date_part: CronDatePart,
    pub values: Vec<CronValue>,
}

/// The values joined by commas.
pub open spec fn joined_text(values: Seq<CronValue>) -> Seq<char>
    decreases values.len(),
{
    if values.len() == 0 {
        seq![]
    } else if values.len() == 1 {
        values[0].spec_text()
    } else {
        joined_text(values.drop_last()) + seq![','] + values.last().spec_text()
    }
}

impl CronField {
    /// Every value can be matched.
    pub open spec fn wf(&self) -> bool {
        forall|i: int| 0 <= i < self.values@.len() ==> #[trigger] self.values@[i].wf()
    }

    /// A field matches a moment when any of its values does.
    pub open spec fn spec_is_match(&self, datetime: CronDateTime) -> bool {
        exists|i: int|
            0 <= i < self.values@.len() && #[trigger] self.values@[i].spec_is_match(
                self.date_part,
                datetime,
            )
    }

    pub fn new(date_part: CronDatePart, values: Vec<CronValue>) -> (r: CronField)
        ensures
            r.date_part == date_part,
            r.values@ == values@,
    {
        CronField { date_part: date_part, values: values }
    }

    /// Whether any value of the field matches `datetime`.
    pub fn is_match(&self, datetime: &CronDateTime) -> (r: bool)
        requires
            self.wf(),
            datetime.wf(),
        ensures
            r == self.spec_is_match(*datetime),
    {
        let n = self.values.len();
        let mut i: usize = 0;
        while i < n
            invariant
                n == self.values@.len(),
                i <= n,
                self.wf(),
                datetime.wf(),
                forall|j: int|
                    0 <= j < i ==> !#[trigger] self.values@[j].spec_is_match(
                        self.date_part,
                        *datetime,
                    ),
            decreases n - i,
        {
            if self.values[i].is_match(&self.date_part, datetime) {
                return true;
            }
            i = i + 1;
        }
        false
    }

    /// The field written the way an expression writes it, such as `1,5-9,*/2`.
    pub fn to_string(&self) -> (r: String)
        ensures
            r@ == joined_text(self.values@),
    {
        let mut r = String::new();
        let n = self.values.len();
        let mut i: usize = 0;
        proof {
            reveal_strlit(",");
        }
        while i < n
            invariant
                n == self.values@.len(),
                i <= n,
                r@ == joined_text(self.values@.take(i as int)),
            decreases n - i,
        {
            proof {
                reveal_strlit(",");
            }
            let text = self.values[i].to_string();
            let ghost before = self.values@.take(i as int);
            let ghost after = self.values@.take(i + 1);
            assert(after.drop_last() =~= before);
            assert(after.last() == self.values@[i as int]);
            if i > 0 {
                r.append(",");
            } else {
                assert(r@ =~= seq![]);
                assert(after[0] == self.values@[0]);
            }
            r.append(text.as_str());
            i = i + 1;
            assert(r@ =~= joined_text(after));
        }
        assert(self.values@.take(n as int) =~= self.values@);
        r
    }
}

} // verus!
