//! Uniqueness checks: which of a set of unique columns already hold the
//! proposed values. The database is asked one column at a time; the scan
//! decides what to ask next and what the answer is.
use vstd::prelude::*;
use vstd::string::*;

use crate::error::{AppError, DbError};

verus! {

/// The query that asks whether `table` has a row whose `column` equals the
/// bound parameter `$1`.
pub open spec fn exists_query(table: Seq<char>, column: Seq<char>) -> Seq<char> {
    "SELECT EXISTS(SELECT 1 FROM "@ + table + " WHERE "@ + column + " = $1) AS exists"@
}

/// The uniqueness query names the table and the column and binds the value
/// as the parameter `$1`.
pub proof fn exists_query_text(table: Seq<char>, column: Seq<char>)
    ensures
        exists_query(table, column) == "SELECT EXISTS(SELECT 1 FROM "@ + table + " WHERE "@ + column
            + " = $1) AS exists"@,
{
}

/// The columns, among the first `answers.len()` of `fields`, for which the
/// database answered that the value is taken, in the order asked.
pub open spec fn taken_columns(fields: Seq<(String, String)>, answers: Seq<bool>) -> Seq<String>
    decreases answers.len(),
{
    if answers.len() == 0 {
        seq![]
    } else {
        let earlier = taken_columns(fields, answers.drop_last());
        if answers.last() {
            earlier.push(fields[answers.len() - 1].0)
        } else {
            earlier
        }
    }
}

/// No column is reported taken exactly when every answer so far was "free".
pub proof fn lemma_none_taken(fields: Seq<(String, String)>, answers: Seq<bool>)
    ensures
        taken_columns(fields, answers).len() == 0 <==> forall|i: int|
            0 <= i < answers.len() ==> !#[trigger] answers[i],
    decreases answers.len(),
{
    if answers.len() > 0 {
        lemma_none_taken(fields, answers.drop_last());
        if !answers.last() {
            assert forall|i: int| 0 <= i < answers.drop_last().len() implies answers.drop_last()[i]
                == answers[i] by {}
        }
    }
}

/// The column names of `fields` are pairwise distinct (as the keys of a map).
pub open spec fn distinct_columns(fields: Seq<(String, String)>) -> bool {
    forall|i: int, j: int| 0 <= i < j < fields.len() ==> fields[i].0 != fields[j].0
}

proof fn lemma_taken_were_asked(fields: Seq<(String, String)>, answers: Seq<bool>, x: String)
    requires
        answers.len() <= fields.len(),
        taken_columns(fields, answers).contains(x),
    ensures
        exists|i: int| 0 <= i < answers.len() && #[trigger] fields[i].0 == x,
    decreases answers.len(),
{
    let earlier = taken_columns(fields, answers.drop_last());
    if earlier.contains(x) {
        lemma_taken_were_asked(fields, answers.drop_last(), x);
        let i = choose|i: int| 0 <= i < answers.drop_last().len() && #[trigger] fields[i].0 == x;
        assert(fields[i].0 == x);
    } else {
        assert(fields[answers.len() - 1].0 == x);
    }
}

/// When the column names are distinct, no column is reported taken twice.
pub proof fn lemma_taken_distinct(fields: Seq<(String, String)>, answers: Seq<bool>)
    requires
        distinct_columns(fields),
        answers.len() <= fields.len(),
    ensures
        taken_columns(fields, answers).no_duplicates(),
    decreases answers.len(),
{
    if answers.len() > 0 {
        lemma_taken_distinct(fields, answers.drop_last());
        let earlier = taken_columns(fields, answers.drop_last());
        if answers.last() {
            let x = fields[answers.len() - 1].0;
            if earlier.contains(x) {
                lemma_taken_were_asked(fields, answers.drop_last(), x);
            }
            let now = earlier.push(x);
            assert forall|i: int, j: int| 0 <= i < now.len() && 0 <= j < now.len() && i != j implies now[i]
                != now[j] by {
                if i < earlier.len() && j < earlier.len() {
                } else if i == earlier.len() {
                    assert(earlier.contains(now[j]));
                } else {
                    assert(earlier.contains(now[i]));
                }
            }
        }
    }
}

/// The database answered, among the first `answers.len()` columns of
/// `fields`, that the value of column `c` is taken.
pub open spec fn answered_taken(fields: Seq<(String, String)>, answers: Seq<bool>, c: String) -> bool {
    exists|i: int| 0 <= i < answers.len() && fields[i].0 == c && #[trigger] answers[i]
}

/// A column is reported taken exactly when the database answered, when asked
/// about it, that its value is taken.
pub proof fn taken_columns_are_answered_taken(
    fields: Seq<(String, String)>,
    answers: Seq<bool>,
    c: String,
)
    requires
        answers.len() <= fields.len(),
    ensures
        taken_columns(fields, answers).contains(c) <==> answered_taken(fields, answers, c),
    decreases answers.len(),
{
    if answers.len() > 0 {
        let prev = answers.drop_last();
        taken_columns_are_answered_taken(fields, prev, c);
        let n = answers.len() - 1;
        let earlier = taken_columns(fields, prev);
        if answered_taken(fields, prev, c) {
            let i = choose|i: int| 0 <= i < prev.len() && fields[i].0 == c && #[trigger] prev[i];
            assert(answers[i]);
        }
        if answered_taken(fields, answers, c) {
            let i = choose|i: int| 0 <= i < answers.len() && fields[i].0 == c && #[trigger] answers[i];
            if i < n {
                assert(prev[i]);
            }
        }
        if answers.last() {
            assert(earlier.push(fields[n].0).contains(c) <==> earlier.contains(c) || fields[n].0 == c) by {
                let now = earlier.push(fields[n].0);
                if now.contains(c) {
                    let k = choose|k: int| 0 <= k < now.len() && now[k] == c;
                    if k < earlier.len() {
                        assert(earlier[k] == c);
                    }
                }
                if earlier.contains(c) {
                    let k = choose|k: int| 0 <= k < earlier.len() && earlier[k] == c;
                    assert(now[k] == c);
                }
                if fields[n].0 == c {
                    assert(now[earlier.len() as int] == c);
                }
            }
            if fields[n].0 == c {
                assert(answers[n]);
            }
        }
    }
}

/// Once every column was asked about, the scan ends; it succeeds exactly when
/// every answer was that the value is free, and otherwise reports as taken
/// exactly the columns the database answered were taken, each once.
pub proof fn scan_reports_exactly_the_taken_columns(
    table: Seq<char>,
    fields: Seq<(String, String)>,
    answers: Seq<bool>,
    step: ScanStep,
)
    requires
        is_scan_step(table, fields, answers, step),
        answers.len() == fields.len(),
    ensures
        step is Done,
        step matches ScanStep::Done(Ok(())) <==> forall|i: int| 0 <= i < answers.len() ==> !#[trigger] answers[i],
        step matches ScanStep::Done(Err(e)) ==> e matches AppError::Conflict(c) && c@.no_duplicates()
            && forall|x: String| c@.contains(x) <==> answered_taken(fields, answers, x),
{
    lemma_none_taken(fields, answers);
    assert forall|x: String| taken_columns(fields, answers).contains(x) <==> answered_taken(fields, answers, x) by {
        taken_columns_are_answered_taken(fields, answers, x);
    }
}

/// What the scan does next.
pub enum ScanStep {
    /// Run `sql` with `value` bound to `$1`, then hand the scan the answer.
    Query { scan: ConflictScan, sql: String, value: String },
    /// The scan is over: `Ok` when no value is taken.
    Done(Result<(), AppError>),
}

/// A uniqueness check in progress over a list of (column, value) pairs.
pub struct ConflictScan {
    table: String,
    fields: Vec<(String, String)>,
    asked: usize,
    conflicts: Vec<String>,
    answers: Ghost<Seq<bool>>,
}

impl ConflictScan {
    #[verifier::type_invariant]
    spec fn inv(self) -> bool {
        &&& self.asked == self.answers@.len()
        &&& self.asked <= self.fields@.len()
        &&& self.conflicts@ == taken_columns(self.fields@, self.answers@)
        &&& distinct_columns(self.fields@)
    }

    /// The table searched.
    pub closed spec fn table(&self) -> Seq<char> {
        self.table@
    }

    /// The (column, value) pairs to check.
    pub closed spec fn fields(&self) -> Seq<(String, String)> {
        self.fields@
    }

    /// The database's answers so far, one per column asked, in order.
    pub closed spec fn answers(&self) -> Seq<bool> {
        self.answers@
    }

    /// Whether a column is still to be asked about.
    pub open spec fn pending(&self) -> bool {
        self.answers().len() < self.fields().len()
    }
}

/// `step` is what follows once `answers` were given for the first columns
/// of `fields`: ask about the next column with a scan that remembers all
/// this, or, once every column was asked, report the taken ones.
pub open spec fn is_scan_step(
    table: Seq<char>,
    fields: Seq<(String, String)>,
    answers: Seq<bool>,
    step: ScanStep,
) -> bool {
    if answers.len() < fields.len() {
        let (column, value) = fields[answers.len() as int];
        &&& step matches ScanStep::Query { scan, sql, value: v }
        &&& scan.table() == table
        &&& scan.fields() == fields
        &&& scan.answers() == answers
        &&& sql@ == exists_query(table, column@)
        &&& v == value
    } else {
        let taken = taken_columns(fields, answers);
        if taken.len() == 0 {
            step matches ScanStep::Done(Ok(()))
        } else {
            step matches ScanStep::Done(Err(AppError::Conflict(c))) && c@ == taken
                && c@.no_duplicates()
        }
    }
}

impl ConflictScan {
    /// The next step of the scan.
    fn next_step(self) -> (r: ScanStep)
        ensures
            is_scan_step(self.table(), self.fields(), self.answers(), r),
    {
        proof {
            use_type_invariant(&self);
        }
        if self.asked < self.fields.len() {
            let n = self.asked;
            let sql = String::from_str("SELECT EXISTS(SELECT 1 FROM ").concat(
                self.table.as_str(),
            ).concat(" WHERE ").concat(self.fields[n].0.as_str()).concat(" = $1) AS exists");
            let value = self.fields[n].1.clone();
            ScanStep::Query { scan: self, sql, value }
        } else {
            let ConflictScan { table, fields, asked, conflicts, answers } = self;
            proof {
                lemma_taken_distinct(fields@, answers@);
            }
            if conflicts.len() == 0 {
                ScanStep::Done(Ok(()))
            } else {
                ScanStep::Done(Err(AppError::Conflict(conflicts)))
            }
        }
    }

    /// Takes the database's answer about the column last asked: an error
    /// ends the scan with that database error; otherwise the answer is
    /// recorded and the scan goes on.
    pub fn on_answer(self, answer: Result<bool, DbError>) -> (r: ScanStep)
        requires
            self.pending(),
        ensures
            answer matches Err(e) ==> r matches ScanStep::Done(Err(AppError::Database(d))) && d
                == e,
            answer matches Ok(taken) ==> is_scan_step(
                self.table(),
                self.fields(),
                self.answers().push(taken),
                r,
            ),
    {
        proof {
            use_type_invariant(&self);
        }
        match answer {
            Err(e) => ScanStep::Done(Err(AppError::Database(e))),
            Ok(taken) => {
                let ConflictScan { table, fields, asked, mut conflicts, answers } = self;
                let ghost new_answers = answers@.push(taken);
                assert(new_answers.drop_last() =~= answers@);
                let total = fields.len();
                assert(asked < total);
                if taken {
                    let column = fields[asked].0.clone();
                    conflicts.push(column);
                }
                let scan = ConflictScan {
                    table,
                    fields,
                    asked: asked + 1,
                    conflicts,
                    answers: Ghost(new_answers),
                };
                scan.next_step()
            },
        }
    }
}

/// Starts checking which of `fields` (column, proposed value) already occur
/// in `table`. The columns are distinct, as the keys of a map; they are
/// asked about in the order given, and each taken one is reported once.
pub fn check_conflicts(table: &str, fields: Vec<(String, String)>) -> (r: ScanStep)
    requires
        distinct_columns(fields@),
    ensures
        is_scan_step(table@, fields@, seq![], r),
{
    let scan = ConflictScan {
        table: String::from_str(table),
        fields,
        asked: 0,
        conflicts: Vec::new(),
        answers: Ghost(Seq::empty()),
    };
    scan.next_step()
}

} // verus!
