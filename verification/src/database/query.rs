//! The SQL of the results database: the `WHERE` clause selecting results,
//! the expected table layout, and which stored result a lookup yields.

use vstd::prelude::*;

use crate::command::strings_view;
use crate::database::utilities::{BenchmarkFilters, BenchmarkRecord};
use crate::text::{owned, push_str};

verus! {

/// A value bound to a `?` placeholder.
#[derive(Debug, PartialEq, Eq)]
pub enum SqlValue {
    Integer(i64),
    Text(String),
}

impl Clone for SqlValue {
    fn clone(&self) -> (r: Self)
        ensures
            r@ == self@,
    {
        match self {
            SqlValue::Integer(i) => SqlValue::Integer(*i),
            SqlValue::Text(t) => SqlValue::Text(t.clone()),
        }
    }
}

/// The abstract value of a bound value.
pub enum SqlValueView {
    Integer(i64),
    Text(Seq<char>),
}

impl View for SqlValue {
    type V = SqlValueView;

    open spec fn view(&self) -> SqlValueView {
        match self {
            SqlValue::Integer(i) => SqlValueView::Integer(*i),
            SqlValue::Text(s) => SqlValueView::Text(s@),
        }
    }
}

/// `n` placeholders separated by commas: `?, ?, ?`.
pub open spec fn placeholders(n: nat) -> Seq<char>
    decreases n,
{
    if n == 0 {
        Seq::empty()
    } else if n == 1 {
        "?"@
    } else {
        placeholders((n - 1) as nat) + ", ?"@
    }
}

/// `column IN (?, ..., ?)` with `n` placeholders.
pub open spec fn in_clause(column: Seq<char>, n: nat) -> Seq<char> {
    column + " IN ("@ + placeholders(n) + ")"@
}

/// The texts as bound values.
pub open spec fn text_values(v: Seq<Seq<char>>) -> Seq<SqlValueView> {
    v.map_values(|s: Seq<char>| SqlValueView::Text(s))
}

/// The points as bound values (as signed 64-bit integers).
pub open spec fn point_values(v: Seq<u64>) -> Seq<SqlValueView> {
    v.map_values(|p: u64| SqlValueView::Integer(p as i64))
}

/// The filtered columns, in order, each with the values it may take.
pub open spec fn filter_columns(f: &BenchmarkFilters) -> Seq<(Seq<char>, Seq<SqlValueView>)> {
    seq![
        ("commit_hash"@, text_values(strings_view(f.commit_hashes@))),
        ("benchmark_name"@, text_values(strings_view(f.benchmark_names@))),
        ("driver_name"@, text_values(strings_view(f.driver_names@))),
        ("benchmark_point"@, point_values(f.benchmark_points@)),
        ("measurement_method"@, text_values(strings_view(f.measurement_methods@))),
    ]
}

/// One `IN` clause per column that has values.
pub open spec fn clauses_of(cols: Seq<(Seq<char>, Seq<SqlValueView>)>) -> Seq<Seq<char>>
    decreases cols.len(),
{
    if cols.len() == 0 {
        Seq::empty()
    } else {
        let rest = clauses_of(cols.drop_last());
        let (column, values) = cols.last();
        if values.len() == 0 {
            rest
        } else {
            rest.push(in_clause(column, values.len()))
        }
    }
}

/// The values of all columns, in order.
pub open spec fn values_of(cols: Seq<(Seq<char>, Seq<SqlValueView>)>) -> Seq<SqlValueView>
    decreases cols.len(),
{
    if cols.len() == 0 {
        Seq::empty()
    } else {
        values_of(cols.drop_last()) + cols.last().1
    }
}

/// The parts joined by a separator.
pub open spec fn join(parts: Seq<Seq<char>>, sep: Seq<char>) -> Seq<char>
    decreases parts.len(),
{
    if parts.len() == 0 {
        Seq::empty()
    } else if parts.len() == 1 {
        parts[0]
    } else {
        join(parts.drop_last(), sep) + sep + parts.last()
    }
}

/// The `WHERE` clause of a selection: empty when no column is filtered.
pub open spec fn where_clause(f: &BenchmarkFilters) -> Seq<char> {
    let clauses = clauses_of(filter_columns(f));
    if clauses.len() == 0 {
        Seq::empty()
    } else {
        "WHERE "@ + join(clauses, " AND "@)
    }
}

/// The characters of each clause.
pub open spec fn clause_views(v: Seq<String>) -> Seq<Seq<char>> {
    strings_view(v)
}

/// The abstract values of bound values.
pub open spec fn sql_values_view(v: Seq<SqlValue>) -> Seq<SqlValueView> {
    v.map_values(|x: SqlValue| x@)
}

/// The placeholders `?, ..., ?` for `n` values.
fn make_placeholders(n: usize) -> (r: String)
    ensures
        r@ == placeholders(n as nat),
{
    let mut r = String::new();
    let mut i: usize = 0;
    while i < n
        invariant
            i <= n,
            r@ == placeholders(i as nat),
        decreases n - i,
    {
        if i == 0 {
            push_str(&mut r, "?");
        } else {
            push_str(&mut r, ", ?");
        }
        i = i + 1;
    }
    r
}

/// Adds the clause of one column, and its values, when it has any.
fn add_in_clause(clauses: &mut Vec<String>, values: &mut Vec<SqlValue>, column: &str, filter_values: Vec<SqlValue>)
    ensures
        filter_values@.len() == 0 ==> clause_views(final(clauses)@) == clause_views(old(clauses)@),
        filter_values@.len() > 0 ==> clause_views(final(clauses)@) == clause_views(old(clauses)@).push(
            in_clause(column@, filter_values@.len()),
        ),
        sql_values_view(final(values)@) == sql_values_view(old(values)@) + sql_values_view(filter_values@),
{
    if filter_values.len() == 0 {
        assert(sql_values_view(values@) =~= sql_values_view(old(values)@) + sql_values_view(filter_values@));
        return;
    }
    let mut clause = owned(column);
    push_str(&mut clause, " IN (");
    let p = make_placeholders(filter_values.len());
    push_str(&mut clause, p.as_str());
    push_str(&mut clause, ")");
    clauses.push(clause);
    assert(clause_views(clauses@) =~= clause_views(old(clauses)@).push(in_clause(column@, filter_values@.len())));
    let ghost before = values@;
    let mut i: usize = 0;
    while i < filter_values.len()
        invariant
            i <= filter_values.len(),
            sql_values_view(values@) == sql_values_view(before) + sql_values_view(filter_values@.subrange(0, i as int)),
        decreases filter_values.len() - i,
    {
        let ghost prev = values@;
        let x = filter_values[i].clone();
        values.push(x);
        assert(sql_values_view(values@) =~= sql_values_view(prev).push(filter_values@[i as int]@));
        assert(sql_values_view(filter_values@.subrange(0, i + 1)) =~= sql_values_view(filter_values@.subrange(0, i as int)).push(filter_values@[i as int]@));
        assert(sql_values_view(values@) =~= sql_values_view(before) + sql_values_view(filter_values@.subrange(0, i + 1)));
        i = i + 1;
    }
    assert(filter_values@.subrange(0, filter_values@.len() as int) =~= filter_values@);
}

/// The texts as bound values.
fn texts(v: &Vec<String>) -> (r: Vec<SqlValue>)
    ensures
        sql_values_view(r@) == text_values(strings_view(v@)),
{
    let mut r: Vec<SqlValue> = Vec::new();
    let mut i: usize = 0;
    while i < v.len()
        invariant
            i <= v.len(),
            r@.len() == i,
            forall|j: int| 0 <= j < i ==> #[trigger] r@[j]@ == SqlValueView::Text(v@[j]@),
        decreases v.len() - i,
    {
        r.push(SqlValue::Text(v[i].clone()));
        i = i + 1;
    }
    assert(sql_values_view(r@) =~= text_values(strings_view(v@)));
    r
}

/// The points as bound values.
fn points(v: &Vec<u64>) -> (r: Vec<SqlValue>)
    ensures
        sql_values_view(r@) == point_values(v@),
{
    let mut r: Vec<SqlValue> = Vec::new();
    let mut i: usize = 0;
    while i < v.len()
        invariant
            i <= v.len(),
            r@.len() == i,
            forall|j: int| 0 <= j < i ==> #[trigger] r@[j]@ == SqlValueView::Integer(v@[j] as i64),
        decreases v.len() - i,
    {
        r.push(SqlValue::Integer(v[i] as i64));
        i = i + 1;
    }
    assert(sql_values_view(r@) =~= point_values(v@));
    r
}

/// The parts joined by a separator.
pub fn join_strings(parts: &Vec<String>, sep: &str) -> (r: String)
    ensures
        r@ == join(clause_views(parts@), sep@),
{
    let mut r = String::new();
    let mut i: usize = 0;
    while i < parts.len()
        invariant
            i <= parts.len(),
            r@ == join(clause_views(parts@).subrange(0, i as int), sep@),
        decreases parts.len() - i,
    {
        let ghost next = clause_views(parts@).subrange(0, i + 1);
        assert(next.drop_last() =~= clause_views(parts@).subrange(0, i as int));
        if i > 0 {
            push_str(&mut r, sep);
        } else {
            assert(next.len() == 1);
        }
        push_str(&mut r, parts[i].as_str());
        i = i + 1;
    }
    assert(clause_views(parts@).subrange(0, parts@.len() as int) =~= clause_views(parts@));
    r
}

/// The `WHERE` clause selecting what `filters` allow, with `?` placeholders,
/// and the values to bind to them in order; an empty clause and no values
/// when nothing is filtered.
pub fn data_filtration(filters: &BenchmarkFilters) -> (r: (String, Vec<SqlValue>))
    ensures
        r.0@ == where_clause(filters),
        sql_values_view(r.1@) == values_of(filter_columns(filters)),
{
    let mut clauses: Vec<String> = Vec::new();
    let mut values: Vec<SqlValue> = Vec::new();
    let ghost cols = filter_columns(filters);
    assert(cols.subrange(0, 0) =~= Seq::<(Seq<char>, Seq<SqlValueView>)>::empty());
    assert(clause_views(clauses@) =~= clauses_of(cols.subrange(0, 0)));
    assert(sql_values_view(values@) =~= values_of(cols.subrange(0, 0)));
    add_in_clause(&mut clauses, &mut values, "commit_hash", texts(&filters.commit_hashes));
    proof { lemma_column_step(cols, 1); }
    add_in_clause(&mut clauses, &mut values, "benchmark_name", texts(&filters.benchmark_names));
    proof { lemma_column_step(cols, 2); }
    add_in_clause(&mut clauses, &mut values, "driver_name", texts(&filters.driver_names));
    proof { lemma_column_step(cols, 3); }
    add_in_clause(&mut clauses, &mut values, "benchmark_point", points(&filters.benchmark_points));
    proof { lemma_column_step(cols, 4); }
    add_in_clause(&mut clauses, &mut values, "measurement_method", texts(&filters.measurement_methods));
    proof { lemma_column_step(cols, 5); }
    assert(cols.subrange(0, 5) =~= cols);
    if clauses.len() == 0 {
        (String::new(), values)
    } else {
        let mut r = owned("WHERE ");
        let j = join_strings(&clauses, " AND ");
        push_str(&mut r, j.as_str());
        (r, values)
    }
}

/// The clauses and values of the first `k` columns extend those of the first
/// `k - 1` by the `k`-th column.
proof fn lemma_column_step(cols: Seq<(Seq<char>, Seq<SqlValueView>)>, k: int)
    requires
        0 < k <= cols.len(),
    ensures
        clauses_of(cols.subrange(0, k)) == (if cols[k - 1].1.len() == 0 {
            clauses_of(cols.subrange(0, k - 1))
        } else {
            clauses_of(cols.subrange(0, k - 1)).push(in_clause(cols[k - 1].0, cols[k - 1].1.len()))
        }),
        values_of(cols.subrange(0, k)) == values_of(cols.subrange(0, k - 1)) + cols[k - 1].1,
{
    assert(cols.subrange(0, k).drop_last() =~= cols.subrange(0, k - 1));
}

/// The `IN` clause of a column, when it has values to match.
pub open spec fn column_clause(c: (Seq<char>, Seq<SqlValueView>)) -> Option<Seq<char>> {
    if c.1.len() == 0 {
        None
    } else {
        Some(in_clause(c.0, c.1.len()))
    }
}

/// The `IN` clause of a column, as a function.
pub open spec fn column_clauses() -> spec_fn((Seq<char>, Seq<SqlValueView>)) -> Option<Seq<char>> {
    |c: (Seq<char>, Seq<SqlValueView>)| column_clause(c)
}

/// The clauses of the columns are those of the columns with values, in order.
proof fn lemma_clauses_filter(cols: Seq<(Seq<char>, Seq<SqlValueView>)>)
    ensures
        clauses_of(cols) == cols.filter_map(column_clauses()),
    decreases cols.len(),
{
    if cols.len() > 0 {
        lemma_clauses_filter(cols.drop_last());
        let rest = clauses_of(cols.drop_last());
        if cols.last().1.len() != 0 {
            assert(rest.push(in_clause(cols.last().0, cols.last().1.len())) =~= rest + seq![
                in_clause(cols.last().0, cols.last().1.len()),
            ]);
        }
    }
}

/// A selection keeps a result only when it matches every filtered column:
/// the `WHERE` text is `WHERE ` followed by the `IN` clause of each column
/// that has values, in column order, every two of them joined by ` AND `;
/// with no column filtered there is no `WHERE` text and everything is
/// selected. The values bound are those of the columns, in the same order.
pub proof fn lemma_where_clause_conjunction(f: &BenchmarkFilters)
    ensures
        ({
            let cols = filter_columns(f);
            let present = cols.filter_map(column_clauses());
            &&& present.len() == 0 ==> where_clause(f) == Seq::<char>::empty()
            &&& present.len() > 0 ==> where_clause(f) == "WHERE "@ + join(present, " AND "@)
            &&& values_of(cols) == cols[0].1 + cols[1].1 + cols[2].1 + cols[3].1 + cols[4].1
        }),
{
    let cols = filter_columns(f);
    lemma_clauses_filter(cols);
    reveal_with_fuel(values_of, 6);
    assert(cols.drop_last().drop_last().drop_last().drop_last().drop_last() =~= Seq::<(Seq<char>, Seq<SqlValueView>)>::empty());
    assert(cols.drop_last().drop_last().drop_last().drop_last() =~= seq![cols[0]]);
    assert(cols.drop_last().drop_last().drop_last() =~= seq![cols[0], cols[1]]);
    assert(cols.drop_last().drop_last() =~= seq![cols[0], cols[1], cols[2]]);
    assert(cols.drop_last() =~= seq![cols[0], cols[1], cols[2], cols[3]]);
}

/// Filtering on commits and scenarios alone selects the results of those
/// scenarios at those commits: both conditions must hold.
pub proof fn lemma_commit_and_scenario_filter(f: &BenchmarkFilters)
    requires
        f.commit_hashes@.len() > 0,
        f.benchmark_names@.len() > 0,
        f.driver_names@.len() == 0,
        f.benchmark_points@.len() == 0,
        f.measurement_methods@.len() == 0,
    ensures
        where_clause(f) == "WHERE "@ + in_clause("commit_hash"@, f.commit_hashes@.len()) + " AND "@ + in_clause(
            "benchmark_name"@,
            f.benchmark_names@.len(),
        ),
        values_of(filter_columns(f)) == text_values(strings_view(f.commit_hashes@)) + text_values(
            strings_view(f.benchmark_names@),
        ),
{
    let cols = filter_columns(f);
    lemma_where_clause_conjunction(f);
    let present = cols.filter_map(column_clauses());
    reveal_with_fuel(Seq::filter_map, 6);
    assert(present =~= seq![
        in_clause("commit_hash"@, f.commit_hashes@.len()),
        in_clause("benchmark_name"@, f.benchmark_names@.len()),
    ]);
    assert(join(present, " AND "@) == join(present.drop_last(), " AND "@) + " AND "@ + present.last());
    assert(present.drop_last() =~= seq![in_clause("commit_hash"@, f.commit_hashes@.len())]);
    assert(values_of(cols) =~= text_values(strings_view(f.commit_hashes@)) + text_values(
        strings_view(f.benchmark_names@),
    ));
}

/// Why a lookup of one result failed.
#[derive(Debug, Clone, PartialEq, Eq)]
pub struct MultipleResults;

/// The single result of an exact lookup: none, the only one, or an error when
/// the database holds several for one key.
pub fn single_result(results: Vec<BenchmarkRecord>) -> (r: Result<Option<BenchmarkRecord>, MultipleResults>)
    ensures
        results@.len() == 0 ==> r == Ok::<Option<BenchmarkRecord>, MultipleResults>(None),
        results@.len() == 1 ==> r == Ok::<Option<BenchmarkRecord>, MultipleResults>(Some(results@[0])),
        results@.len() > 1 ==> r == Err::<Option<BenchmarkRecord>, MultipleResults>(MultipleResults),
{
    if results.len() == 0 {
        Ok(None)
    } else if results.len() == 1 {
        let mut results = results;
        let only = results.remove(0);
        Ok(Some(only))
    } else {
        Err(MultipleResults)
    }
}

/// The files that stored results point to, in order: what dropping those
/// results removes from disk.
pub fn files_to_remove(records: &Vec<BenchmarkRecord>) -> (r: Vec<String>)
    ensures
        strings_view(r@) == file_paths(records@),
{
    let mut r: Vec<String> = Vec::new();
    let mut i: usize = 0;
    while i < records.len()
        invariant
            i <= records.len(),
            strings_view(r@) == file_paths(records@.subrange(0, i as int)),
        decreases records.len() - i,
    {
        let ghost next = records@.subrange(0, i + 1);
        assert(next.drop_last() =~= records@.subrange(0, i as int));
        if let BenchmarkRecord::FilePath(p) = &records[i] {
            r.push(p.clone());
            assert(strings_view(r@) =~= file_paths(next));
        }
        i = i + 1;
    }
    assert(records@.subrange(0, records@.len() as int) =~= records@);
    r
}

/// The paths of the file records among `records`, in order.
pub open spec fn file_paths(records: Seq<BenchmarkRecord>) -> Seq<Seq<char>>
    decreases records.len(),
{
    if records.len() == 0 {
        Seq::empty()
    } else {
        let rest = file_paths(records.drop_last());
        match records.last() {
            BenchmarkRecord::FilePath(p) => rest.push(p@),
            _ => rest,
        }
    }
}

/// The columns of the results table: name, type, and whether it is NOT NULL.
pub open spec fn expected_schema() -> Seq<(Seq<char>, Seq<char>, bool)> {
    seq![
        ("commit_hash"@, "TEXT"@, true),
        ("benchmark_name"@, "TEXT"@, true),
        ("driver_name"@, "TEXT"@, true),
        ("benchmark_point"@, "INTEGER"@, true),
        ("measurement_method"@, "TEXT"@, true),
        ("api"@, "TEXT"@, true),
        ("benchmarks_commit"@, "TEXT"@, true),
        ("timestamp"@, "TEXT"@, true),
        ("data_json"@, "TEXT"@, true),
    ]
}

/// The columns of the results table, as created.
pub fn schema() -> (r: Vec<(String, String, bool)>)
    ensures
        r@.map_values(|c: (String, String, bool)| (c.0@, c.1@, c.2)) == expected_schema(),
{
    let mut r: Vec<(String, String, bool)> = Vec::new();
    r.push((owned("commit_hash"), owned("TEXT"), true));
    r.push((owned("benchmark_name"), owned("TEXT"), true));
    r.push((owned("driver_name"), owned("TEXT"), true));
    r.push((owned("benchmark_point"), owned("INTEGER"), true));
    r.push((owned("measurement_method"), owned("TEXT"), true));
    r.push((owned("api"), owned("TEXT"), true));
    r.push((owned("benchmarks_commit"), owned("TEXT"), true));
    r.push((owned("timestamp"), owned("TEXT"), true));
    r.push((owned("data_json"), owned("TEXT"), true));
    assert(r@.map_values(|c: (String, String, bool)| (c.0@, c.1@, c.2)) =~= expected_schema());
    r
}

/// Whether a table found in the database has the expected columns, in order
/// (column types as found, upper-cased by the caller).
pub fn schema_matches(found: &Vec<(String, String, bool)>) -> (r: bool)
    ensures
        r == (found@.map_values(|c: (String, String, bool)| (c.0@, c.1@, c.2)) == expected_schema()),
{
    let expected = schema();
    let ghost fv = found@.map_values(|c: (String, String, bool)| (c.0@, c.1@, c.2));
    let ghost ev = expected@.map_values(|c: (String, String, bool)| (c.0@, c.1@, c.2));
    if found.len() != expected.len() {
        assert(fv.len() != ev.len());
        return false;
    }
    let mut i: usize = 0;
    while i < found.len()
        invariant
            found.len() == expected.len(),
            fv == found@.map_values(|c: (String, String, bool)| (c.0@, c.1@, c.2)),
            ev == expected@.map_values(|c: (String, String, bool)| (c.0@, c.1@, c.2)),
            ev == expected_schema(),
            i <= found.len(),
            forall|j: int| 0 <= j < i ==> fv[j] == ev[j],
        decreases found.len() - i,
    {
        let (a, b, c) = &found[i];
        let (x, y, z) = &expected[i];
        if !(*a == *x && *b == *y && *c == *z) {
            assert(fv[i as int] != ev[i as int]);
            return false;
        }
        i = i + 1;
    }
    assert(fv =~= ev);
    true
}

/// The definition of one column in a `CREATE TABLE` statement: its name, its
/// type, and `NOT NULL` where it may not be null.
pub open spec fn column_definition(c: (Seq<char>, Seq<char>, bool)) -> Seq<char> {
    c.0 + " "@ + c.1 + if c.2 { " NOT NULL"@ } else { Seq::empty() }
}

/// The columns that identify a result: the first five of the table, which
/// together may hold each combination of values only once.
pub open spec fn key_columns() -> Seq<Seq<char>> {
    expected_schema().take(5).map_values(|c: (Seq<char>, Seq<char>, bool)| c.0)
}

/// The statement creating the results table when it is missing: the columns
/// of `expected_schema` in order, then a `UNIQUE` constraint over the key
/// columns.
pub open spec fn create_table_text() -> Seq<char> {
    "CREATE TABLE IF NOT EXISTS Benchmarks ("@ + join(
        expected_schema().map_values(|c: (Seq<char>, Seq<char>, bool)| column_definition(c)).push(
            "UNIQUE("@ + join(key_columns(), ", "@) + ")"@,
        ),
        ", "@,
    ) + ");"@
}

/// The statement creating the results table when it is missing.
pub fn create_table_sql() -> (r: &'static str)
    ensures
        r@ == create_table_text(),
{
    let r = "CREATE TABLE IF NOT EXISTS Benchmarks (commit_hash TEXT NOT NULL, benchmark_name TEXT NOT NULL, driver_name TEXT NOT NULL, benchmark_point INTEGER NOT NULL, measurement_method TEXT NOT NULL, api TEXT NOT NULL, benchmarks_commit TEXT NOT NULL, timestamp TEXT NOT NULL, data_json TEXT NOT NULL, UNIQUE(commit_hash, benchmark_name, driver_name, benchmark_point, measurement_method));";
    proof {
        reveal_strlit("CREATE TABLE IF NOT EXISTS Benchmarks (commit_hash TEXT NOT NULL, benchmark_name TEXT NOT NULL, driver_name TEXT NOT NULL, benchmark_point INTEGER NOT NULL, measurement_method TEXT NOT NULL, api TEXT NOT NULL, benchmarks_commit TEXT NOT NULL, timestamp TEXT NOT NULL, data_json TEXT NOT NULL, UNIQUE(commit_hash, benchmark_name, driver_name, benchmark_point, measurement_method));");
        reveal_strlit("CREATE TABLE IF NOT EXISTS Benchmarks (");
        reveal_strlit(" ");
        reveal_strlit(" NOT NULL");
        reveal_strlit(", ");
        reveal_strlit("UNIQUE(");
        reveal_strlit(")");
        reveal_strlit(");");
        reveal_strlit("commit_hash");
        reveal_strlit("benchmark_name");
        reveal_strlit("driver_name");
        reveal_strlit("benchmark_point");
        reveal_strlit("measurement_method");
        reveal_strlit("api");
        reveal_strlit("benchmarks_commit");
        reveal_strlit("timestamp");
        reveal_strlit("data_json");
        reveal_strlit("TEXT");
        reveal_strlit("INTEGER");
        let cols = expected_schema().map_values(|c: (Seq<char>, Seq<char>, bool)| column_definition(c));
        let keys = key_columns();
        assert(keys =~= seq!["commit_hash"@, "benchmark_name"@, "driver_name"@, "benchmark_point"@, "measurement_method"@]);
        reveal_with_fuel(join, 11);
        assert(r@ =~= create_table_text());
    }
    r
}

} // verus!
