//! Construction of the exact SQL texts the harness issues, with contracts
//! that pin each produced statement down character for character.

use vstd::prelude::*;
use vstd::string::*;

verus! {

/// A character as it appears inside a SQL single-quoted string literal:
/// a quote is doubled, every other character stands as itself.
pub open spec fn escaped_char(c: char) -> Seq<char> {
    if c == '\'' {
        seq!['\'', '\'']
    } else {
        seq![c]
    }
}

/// The body of a SQL string literal for `s`: each character escaped.
pub open spec fn escaped(s: Seq<char>) -> Seq<char>
    decreases s.len(),
{
    if s.len() == 0 {
        Seq::empty()
    } else {
        escaped(s.drop_last()) + escaped_char(s.last())
    }
}

/// The SQL single-quoted string literal denoting `s`.
pub open spec fn quoted(s: Seq<char>) -> Seq<char> {
    seq!['\''] + escaped(s) + seq!['\'']
}

/// Relies on String::push: appends exactly the one given character.
#[verifier::external_body]
fn push_char(s: &mut String, c: char)
    ensures
        final(s)@ == old(s)@ + seq![c],
{
    s.push(c);
}

/// Renders `s` as a SQL single-quoted string literal, doubling every
/// embedded quote, so that the literal denotes exactly `s`.
pub fn sql_quote(s: &str) -> (r: String)
    ensures
        r@ == quoted(s@),
{
    let mut out = String::new();
    push_char(&mut out, '\'');
    let n: usize = s.unicode_len();
    let mut i: usize = 0;
    while i < n
        invariant
            n == s@.len(),
            i <= n,
            out@ == seq!['\''] + escaped(s@.take(i as int)),
        decreases n - i,
    {
        let c = s.get_char(i);
        if c == '\'' {
            out.append("''");
            proof {
                reveal_strlit("''");
                assert("''"@ =~= seq!['\'', '\'']);
            }
        } else {
            push_char(&mut out, c);
        }
        proof {
            let t = s@.take(i + 1);
            assert(t.drop_last() =~= s@.take(i as int));
            assert(out@ =~= seq!['\''] + escaped(s@.take(i + 1)));
        }
        i = i + 1;
    }
    proof {
        assert(s@.take(n as int) =~= s@);
    }
    push_char(&mut out, '\'');
    proof {
        assert(out@ =~= quoted(s@));
    }
    out
}

/// Text of the statement that registers `name` as a CSV-backed virtual
/// table reading from the file named by `path`, header row expected.
pub open spec fn create_virtual_table_text(name: Seq<char>, path: Seq<char>) -> Seq<char> {
    "CREATE VIRTUAL TABLE "@ + name + " USING csv(filename="@ + quoted(path) + ", header=YES)"@
}

/// Builds the CREATE VIRTUAL TABLE statement for a streaming relation.
pub fn create_virtual_table_sql(name: &str, path: &str) -> (r: String)
    ensures
        r@ == create_virtual_table_text(name@, path@),
{
    let mut out = "CREATE VIRTUAL TABLE ".to_owned();
    out.append(name);
    out.append(" USING csv(filename=");
    let q = sql_quote(path);
    out.append(q.as_str());
    out.append(", header=YES)");
    proof {
        assert(out@ =~= create_virtual_table_text(name@, path@));
    }
    out
}

/// Text of the statement that copies the full row set of `src` into a new
/// session-local table `name` (the materialization step).
pub open spec fn create_table_as_text(name: Seq<char>, src: Seq<char>) -> Seq<char> {
    "CREATE TABLE "@ + name + " AS SELECT * FROM "@ + src + ";"@
}

/// Builds the CREATE TABLE ... AS SELECT statement that materializes `src`
/// under the new name `name`.
pub fn create_table_as_sql(name: &str, src: &str) -> (r: String)
    ensures
        r@ == create_table_as_text(name@, src@),
{
    let mut out = "CREATE TABLE ".to_owned();
    out.append(name);
    out.append(" AS SELECT * FROM ");
    out.append(src);
    out.append(";");
    proof {
        assert(out@ =~= create_table_as_text(name@, src@));
    }
    out
}

/// Text of the statement that defines `view` as the inner equi-join of
/// `left` and `right` on `trip_id`, projecting the fixed attribute set.
pub open spec fn create_join_view_text(view: Seq<char>, left: Seq<char>, right: Seq<char>) -> Seq<
    char,
> {
    "CREATE VIEW "@ + view + " AS\nSELECT "@ + left + ".stop_id, "@ + left + ".stop_sequence, "@
        + right + ".direction_id, "@ + right + ".route_id\nFROM "@ + left + "\nINNER JOIN "@
        + right + " on "@ + left + ".trip_id = "@ + right + ".trip_id;"@
}

/// Builds the CREATE VIEW statement for the join view over two sources.
pub fn create_join_view_sql(view: &str, left: &str, right: &str) -> (r: String)
    ensures
        r@ == create_join_view_text(view@, left@, right@),
{
    let mut out = "CREATE VIEW ".to_owned();
    out.append(view);
    out.append(" AS\nSELECT ");
    out.append(left);
    out.append(".stop_id, ");
    out.append(left);
    out.append(".stop_sequence, ");
    out.append(right);
    out.append(".direction_id, ");
    out.append(right);
    out.append(".route_id\nFROM ");
    out.append(left);
    out.append("\nINNER JOIN ");
    out.append(right);
    out.append(" on ");
    out.append(left);
    out.append(".trip_id = ");
    out.append(right);
    out.append(".trip_id;");
    proof {
        assert(out@ =~= create_join_view_text(view@, left@, right@));
    }
    out
}

/// Text of the count query over `rel` filtered by equality of `stop_id`
/// with the literal `lit` (rendered as a quoted SQL string literal).
pub open spec fn count_where_text(rel: Seq<char>, lit: Seq<char>) -> Seq<char> {
    "SELECT count(*) FROM "@ + rel + " WHERE stop_id IS "@ + quoted(lit) + ";"@
}

/// Builds the filtered count query for a relation and a filter literal.
pub fn count_where_sql(rel: &str, lit: &str) -> (r: String)
    ensures
        r@ == count_where_text(rel@, lit@),
{
    let mut out = "SELECT count(*) FROM ".to_owned();
    out.append(rel);
    out.append(" WHERE stop_id IS ");
    let q = sql_quote(lit);
    out.append(q.as_str());
    out.append(";");
    proof {
        assert(out@ =~= count_where_text(rel@, lit@));
    }
    out
}

/// Text of the unfiltered count query over `rel`.
pub open spec fn count_all_text(rel: Seq<char>) -> Seq<char> {
    "SELECT count(*) FROM "@ + rel + ";"@
}

/// Builds the unfiltered count query for a relation.
pub fn count_all_sql(rel: &str) -> (r: String)
    ensures
        r@ == count_all_text(rel@),
{
    let mut out = "SELECT count(*) FROM ".to_owned();
    out.append(rel);
    out.append(";");
    proof {
        assert(out@ =~= count_all_text(rel@));
    }
    out
}

} // verus!
