//! The executor boundary's response side: untyped result rows handed back by
//! the execution engine, the response shapes it must distinguish, and the
//! mapping of rows back into typed values, applying the absent-value
//! sentinel rules for optional fields in reverse.

use vstd::prelude::*;
use vstd::string::StrSliceExecFns;
use crate::filters::{Value, ValueModel};
use crate::text::str_eq;

verus! {

/// One field of an untyped result row, or of an outgoing value list: the
/// field's name and its value. An optional field that was not set carries
/// the `Null` sentinel.
#[derive(Debug, PartialEq)]
pub struct RowEntry {
    pub field: String,
    pub value: Value,
}

/// Mathematical model of a row entry.
pub struct REntry {
    pub field: Seq<char>,
    pub value: ValueModel,
}

impl View for RowEntry {
    type V = REntry;

    open spec fn view(&self) -> REntry {
        REntry { field: self.field@, value: self.value@ }
    }
}

/// One untyped row returned by the execution engine.
#[derive(Debug, PartialEq)]
pub struct ResultRow {
    pub entries: Vec<RowEntry>,
}

/// Models of a row's entries, in order.
pub open spec fn row_model(r: &ResultRow) -> Seq<REntry> {
    Seq::new(r.entries@.len(), |i: int| r.entries@[i]@)
}

impl View for ResultRow {
    type V = Seq<REntry>;

    open spec fn view(&self) -> Seq<REntry> {
        row_model(self)
    }
}

/// Whether a row carries the given field at all.
pub open spec fn row_has(row: Seq<REntry>, f: Seq<char>) -> bool {
    exists|i: int| 0 <= i < row.len() && row[i].field == f
}

/// The first value stored under the given field, if any.
pub open spec fn spec_lookup(row: Seq<REntry>, f: Seq<char>) -> Option<ValueModel>
    decreases row.len(),
{
    if row.len() == 0 {
        None
    } else if row[0].field == f {
        Some(row[0].value)
    } else {
        spec_lookup(row.drop_first(), f)
    }
}

/// What the result mapper yields for an optional field: the stored value if
/// one is present, and the absent sentinel (`None`) where the row carries no
/// such field or carries the `Null` sentinel — never a default value of the
/// field's type.
pub open spec fn spec_read_optional(row: Seq<REntry>, f: Seq<char>) -> Option<ValueModel> {
    match spec_lookup(row, f) {
        None => None,
        Some(v) => if v == ValueModel::MNull {
            None
        } else {
            Some(v)
        },
    }
}

/// A field missing from a row is looked up as nothing.
proof fn lemma_lookup_absent(row: Seq<REntry>, f: Seq<char>)
    requires
        !row_has(row, f),
    ensures
        spec_lookup(row, f) is None,
    decreases row.len(),
{
    if row.len() > 0 {
        assert(row[0].field != f);
        assert forall|i: int| 0 <= i < row.drop_first().len() implies row.drop_first()[i].field
            != f by {
            assert(row.drop_first()[i] == row[i + 1]);
        }
        lemma_lookup_absent(row.drop_first(), f);
    }
}

/// Appending a fresh field to a row stores exactly its value under that
/// field.
proof fn lemma_lookup_push(row: Seq<REntry>, f: Seq<char>, e: REntry)
    requires
        !row_has(row, f),
    ensures
        spec_lookup(row.push(e), f) == if e.field == f {
            Some(e.value)
        } else {
            Option::<ValueModel>::None
        },
    decreases row.len(),
{
    if row.len() == 0 {
        assert(row.push(e)[0] == e);
        if e.field != f {
            assert(row.push(e).drop_first() =~= Seq::<REntry>::empty());
        }
    } else {
        assert(row.push(e)[0] == row[0]);
        assert(row[0].field != f);
        assert forall|i: int| 0 <= i < row.drop_first().len() implies row.drop_first()[i].field
            != f by {
            assert(row.drop_first()[i] == row[i + 1]);
        }
        assert(row.push(e).drop_first() =~= row.drop_first().push(e));
        lemma_lookup_push(row.drop_first(), f, e);
    }
}

/// Round trip of an optional field through the result mapper: setting a
/// value on a row that does not yet carry the field and reading it back
/// yields that same value; setting the absent sentinel, or not setting the
/// field at all, reads back as absent — never as a default of the field's
/// type.
pub proof fn lemma_optional_round_trip(row: Seq<REntry>, f: Seq<char>, v: ValueModel)
    requires
        !row_has(row, f),
        v != ValueModel::MNull,
    ensures
        spec_read_optional(row.push(REntry { field: f, value: v }), f) == Some(v),
        spec_read_optional(row.push(REntry { field: f, value: ValueModel::MNull }), f) is None,
        spec_read_optional(row, f) is None,
{
    lemma_lookup_push(row, f, REntry { field: f, value: v });
    lemma_lookup_push(row, f, REntry { field: f, value: ValueModel::MNull });
    lemma_lookup_absent(row, f);
}

/// Appends one optional field to an outgoing value list: a set value is
/// stored as given, an omitted one as the `Null` sentinel.
pub fn push_optional(entries: &mut Vec<RowEntry>, field: &str, v: Option<Value>)
    ensures
        final(entries)@.len() == old(entries)@.len() + 1,
        forall|j: int| 0 <= j < old(entries)@.len() ==> final(entries)@[j] == old(entries)@[j],
        final(entries)@.last()@ == (match v {
            Some(vv) => (REntry { field: field@, value: vv@ }),
            None => (REntry { field: field@, value: ValueModel::MNull }),
        }),
{
    match v {
        Some(vv) => entries.push(RowEntry { field: field.to_owned(), value: vv }),
        None => entries.push(RowEntry { field: field.to_owned(), value: Value::Null }),
    }
}

/// Reads one optional field from a row through the result mapper.
pub fn read_optional<'a>(row: &'a ResultRow, field: &str) -> (r: Option<&'a Value>)
    ensures
        match r {
            Some(v) => spec_read_optional(row@, field@) == Some(v@),
            None => spec_read_optional(row@, field@) is None,
        },
{
    let mut i: usize = 0;
    proof {
        assert(row@.subrange(0, row@.len() as int) =~= row@);
    }
    while i < row.entries.len()
        invariant
            0 <= i <= row.entries@.len(),
            spec_lookup(row@, field@) == spec_lookup(row@.subrange(i as int, row@.len() as int), field@),
            forall|j: int| 0 <= j < i ==> row@[j].field != field@,
        decreases row.entries@.len() - i,
    {
        let e = &row.entries[i];
        if str_eq(e.field.as_str(), field) {
            proof {
                assert(row@.subrange(i as int, row@.len() as int)[0] == row@[i as int]);
            }
            if matches!(e.value, Value::Null) {
                return None;
            }
            return Some(&e.value);
        }
        proof {
            assert(row@.subrange(i as int, row@.len() as int)[0] == row@[i as int]);
            assert(row@.subrange(i as int, row@.len() as int).drop_first() =~= row@.subrange(
                i + 1,
                row@.len() as int,
            ));
        }
        i += 1;
    }
    proof {
        assert(row@.subrange(row@.len() as int, row@.len() as int).len() == 0);
    }
    None
}

/// A failure reported by the execution engine through the boundary; its
/// cause is opaque to this core and is propagated unmodified.
#[derive(Debug, PartialEq)]
pub enum ExecError {
    /// A constraint (such as a unique key) was violated by the engine's
    /// attempt to apply the query.
    UniqueConstraintViolation,
    /// A unique lookup matched no record.
    RecordNotFound,
    /// A connectivity or backend failure, with the engine's own message.
    Backend(String),
}

/// Mathematical model of an execution failure.
pub enum ExecErrorModel {
    MUniqueConstraintViolation,
    MRecordNotFound,
    MBackend(Seq<char>),
}

impl View for ExecError {
    type V = ExecErrorModel;

    open spec fn view(&self) -> ExecErrorModel {
        match self {
            ExecError::UniqueConstraintViolation => ExecErrorModel::MUniqueConstraintViolation,
            ExecError::RecordNotFound => ExecErrorModel::MRecordNotFound,
            ExecError::Backend(s) => ExecErrorModel::MBackend(s@),
        }
    }
}

/// One response from the execution engine: no rows, one row, many rows, a
/// count, or a failure.
#[derive(Debug, PartialEq)]
pub enum QueryResponse {
    NoRows,
    OneRow(ResultRow),
    ManyRows(Vec<ResultRow>),
    CountResult(isize),
    Failure(ExecError),
}

/// Models of a list of rows, in order.
pub open spec fn rows_model(rs: Seq<ResultRow>) -> Seq<Seq<REntry>> {
    Seq::new(rs.len(), |i: int| rs[i]@)
}

/// Mathematical model of a response.
pub enum ResponseModel {
    RNoRows,
    ROneRow(Seq<REntry>),
    RManyRows(Seq<Seq<REntry>>),
    RCount(int),
    RFailure(ExecErrorModel),
}

impl View for QueryResponse {
    type V = ResponseModel;

    open spec fn view(&self) -> ResponseModel {
        match self {
            QueryResponse::NoRows => ResponseModel::RNoRows,
            QueryResponse::OneRow(r) => ResponseModel::ROneRow(r@),
            QueryResponse::ManyRows(rs) => ResponseModel::RManyRows(rows_model(rs@)),
            QueryResponse::CountResult(n) => ResponseModel::RCount(*n as int),
            QueryResponse::Failure(e) => ResponseModel::RFailure(e@),
        }
    }
}

/// A successful query outcome, by shape.
#[derive(Debug, PartialEq)]
pub enum QueryResult {
    Empty,
    Single(ResultRow),
    Many(Vec<ResultRow>),
    Counted(isize),
}

/// Mathematical model of a successful outcome.
pub enum ResultModel {
    MEmpty,
    MSingle(Seq<REntry>),
    MMany(Seq<Seq<REntry>>),
    MCounted(int),
}

impl View for QueryResult {
    type V = ResultModel;

    open spec fn view(&self) -> ResultModel {
        match self {
            QueryResult::Empty => ResultModel::MEmpty,
            QueryResult::Single(r) => ResultModel::MSingle(r@),
            QueryResult::Many(rs) => ResultModel::MMany(rows_model(rs@)),
            QueryResult::Counted(n) => ResultModel::MCounted(*n as int),
        }
    }
}

/// Splits an engine response into the successful outcome or the failure it
/// reports. A failure is propagated typed and unmodified; every
/// non-failure response maps to the outcome of the same shape.
pub fn interpret_response(resp: QueryResponse) -> (r: Result<QueryResult, ExecError>)
    ensures
        resp@ matches ResponseModel::RFailure(e) ==> (r matches Err(e2) && e2@ == e),
        r matches Err(e2) ==> resp@ == ResponseModel::RFailure(e2@),
        resp@ matches ResponseModel::RNoRows ==> r == Ok::<QueryResult, ExecError>(
            QueryResult::Empty,
        ),
        resp@ matches ResponseModel::ROneRow(row) ==> (r matches Ok(q) && q@
            == ResultModel::MSingle(row)),
        resp@ matches ResponseModel::RManyRows(rows) ==> (r matches Ok(q) && q@
            == ResultModel::MMany(rows)),
        resp@ matches ResponseModel::RCount(n) ==> (r matches Ok(q) && q@
            == ResultModel::MCounted(n)),
{
    match resp {
        QueryResponse::NoRows => Ok(QueryResult::Empty),
        QueryResponse::OneRow(row) => Ok(QueryResult::Single(row)),
        QueryResponse::ManyRows(rows) => Ok(QueryResult::Many(rows)),
        QueryResponse::CountResult(n) => Ok(QueryResult::Counted(n)),
        QueryResponse::Failure(e) => Err(e),
    }
}

/// The number of removed rows that a count response reports for a delete
/// action, as the executor boundary hands it to callers.
pub fn delete_result(resp: QueryResponse) -> (r: Result<crate::DeleteResult, ExecError>)
    ensures
        resp@ matches ResponseModel::RFailure(e) ==> (r matches Err(e2) && e2@ == e),
        r matches Err(e2) ==> resp@ == ResponseModel::RFailure(e2@),
        resp@ matches ResponseModel::RCount(n) ==> (r matches Ok(d) && d.count as int == n),
        (!(resp@ is RFailure) && !(resp@ is RCount)) ==> r == Ok::<crate::DeleteResult, ExecError>(
            (crate::DeleteResult { count: 0 }),
        ),
{
    match resp {
        QueryResponse::CountResult(n) => Ok(crate::DeleteResult { count: n }),
        QueryResponse::Failure(e) => Err(e),
        QueryResponse::NoRows => Ok(crate::DeleteResult { count: 0 }),
        QueryResponse::OneRow(_) => Ok(crate::DeleteResult { count: 0 }),
        QueryResponse::ManyRows(_) => Ok(crate::DeleteResult { count: 0 }),
    }
}

} // verus!
