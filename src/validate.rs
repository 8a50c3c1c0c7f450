//! Comparison of query results, as text, against expected tables.
use vstd::prelude::*;

verus! {

/// The text with leading and trailing white space removed.
pub uninterp spec fn trim_of(s: Seq<char>) -> Seq<char>;

/// Relies on `str::trim`: the text without leading and trailing Unicode
/// white space. The result depends on the text alone.
#[verifier::external_body]
fn trim(s: &str) -> (r: &str)
    ensures
        r@ == trim_of(s@),
{
    s.trim()
}

/// A query result that differs from the expected text.
pub struct Mismatch {
    pub found: String,
    pub expected: String,
}

/// Accepts `found` when it equals `expected` once both are trimmed; otherwise
/// reports both texts.
pub fn assert_eq(found: String, expected: &str) -> (r: Result<(), Mismatch>)
    ensures
        r is Ok <==> trim_of(expected@) == trim_of(found@),
        r matches Err(m) ==> m.found@ == found@ && m.expected@ == expected@,
{
    let e = String::from_str(trim(expected));
    let f = String::from_str(trim(found.as_str()));
    if e == f {
        Ok(())
    } else {
        Err(Mismatch { found, expected: String::from_str(expected) })
    }
}

/// The cells joined by `", "`.
pub open spec fn joined(cells: Seq<Seq<char>>) -> Seq<char>
    decreases cells.len(),
{
    if cells.len() == 0 {
        seq![]
    } else if cells.len() == 1 {
        cells[0]
    } else {
        joined(cells.drop_last()) + ", "@ + cells.last()
    }
}

/// How a cell is shown: its text, or `NULL`.
pub open spec fn cell_text(c: Option<String>) -> Seq<char> {
    match c {
        Some(s) => s@,
        None => "NULL"@,
    }
}

/// One row as a line.
pub open spec fn row_line(row: Seq<Option<String>>) -> Seq<char> {
    joined(Seq::new(row.len(), |k: int| cell_text(row[k]))) + "\n"@
}

/// The rows as lines, one after the other.
pub open spec fn rows_text(rows: Seq<Vec<Option<String>>>) -> Seq<char>
    decreases rows.len(),
{
    if rows.len() == 0 {
        seq![]
    } else {
        rows_text(rows.drop_last()) + row_line(rows.last()@)
    }
}

/// A query result as text: a header line of column names, or `<empty>` when
/// there is no row, then one line per row.
pub open spec fn result_text(columns: Seq<String>, rows: Seq<Vec<Option<String>>>) -> Seq<char> {
    let header = if rows.len() == 0 {
        "<empty>"@
    } else {
        joined(Seq::new(columns.len(), |k: int| columns[k]@)) + "\n"@
    };
    header + rows_text(rows)
}

proof fn lemma_joined_step(cells: Seq<Seq<char>>, i: int)
    requires
        0 <= i < cells.len(),
    ensures
        joined(cells.subrange(0, i + 1)) == if i == 0 {
            cells[0]
        } else {
            joined(cells.subrange(0, i)) + ", "@ + cells[i]
        },
{
    assert(cells.subrange(0, i + 1).drop_last() =~= cells.subrange(0, i));
}

/// Appends `cells` joined by `", "` to `out`.
fn push_joined(out: &mut String, cells: &Vec<&str>)
    ensures
        final(out)@ == old(out)@ + joined(Seq::new(cells@.len(), |k: int| cells@[k]@)),
{
    let ghost v = Seq::new(cells@.len(), |k: int| cells@[k]@);
    let ghost start = out@;
    let mut i: usize = 0;
    assert(v.subrange(0, 0) =~= seq![]);
    while i < cells.len()
        invariant
            i <= cells@.len(),
            v == Seq::new(cells@.len(), |k: int| cells@[k]@),
            out@ == start + joined(v.subrange(0, i as int)),
        decreases cells@.len() - i,
    {
        proof {
            lemma_joined_step(v, i as int);
        }
        if i > 0 {
            out.append(", ");
        }
        out.append(cells[i]);
        assert(out@ =~= start + joined(v.subrange(0, i + 1)));
        i += 1;
    }
    assert(v.subrange(0, cells@.len() as int) =~= v);
}

/// Formats a query result: `columns` are the column names, `rows` the cells
/// of each row, `None` for SQL NULL.
pub fn result_to_text(columns: &Vec<String>, rows: &Vec<Vec<Option<String>>>) -> (r: String)
    ensures
        r@ == result_text(columns@, rows@),
{
    let mut r = String::new();
    if rows.len() > 0 {
        let mut names: Vec<&str> = Vec::new();
        let mut k: usize = 0;
        while k < columns.len()
            invariant
                k <= columns@.len(),
                names@.len() == k,
                forall|m: int| 0 <= m < k ==> (#[trigger] names@[m])@ == columns@[m]@,
            decreases columns@.len() - k,
        {
            names.push(columns[k].as_str());
            k += 1;
        }
        assert(Seq::new(names@.len(), |m: int| names@[m]@) =~= Seq::new(
            columns@.len(),
            |m: int| columns@[m]@,
        ));
        push_joined(&mut r, &names);
        r.append("\n");
    } else {
        r.append("<empty>");
    }
    let ghost header = r@;
    let mut i: usize = 0;
    assert(rows@.subrange(0, 0) =~= seq![]);
    while i < rows.len()
        invariant
            i <= rows@.len(),
            r@ == header + rows_text(rows@.subrange(0, i as int)),
            header + rows_text(rows@) == result_text(columns@, rows@),
        decreases rows@.len() - i,
    {
        let row = &rows[i];
        let mut cells: Vec<&str> = Vec::new();
        let mut k: usize = 0;
        while k < row.len()
            invariant
                k <= row@.len(),
                cells@.len() == k,
                forall|m: int| 0 <= m < k ==> (#[trigger] cells@[m])@ == cell_text(row@[m]),
            decreases row@.len() - k,
        {
            match &row[k] {
                Some(s) => cells.push(s.as_str()),
                None => cells.push("NULL"),
            }
            k += 1;
        }
        assert(Seq::new(cells@.len(), |m: int| cells@[m]@) =~= Seq::new(
            row@.len(),
            |m: int| cell_text(row@[m]),
        ));
        push_joined(&mut r, &cells);
        r.append("\n");
        assert(rows@.subrange(0, i + 1).drop_last() =~= rows@.subrange(0, i as int));
        assert(r@ =~= header + rows_text(rows@.subrange(0, i + 1)));
        i += 1;
    }
    assert(rows@.subrange(0, rows@.len() as int) =~= rows@);
    r
}

} // verus!
