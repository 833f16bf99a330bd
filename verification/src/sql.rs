use vstd::prelude::*;

verus! {

/// `field = value`, one clause of an update statement.
pub struct Assignment {
    pub field: String,
    pub value: String,
}

/// An `UPDATE` statement: the table, the equality conditions that pick the
/// row, the columns to set and the column to return.
pub struct UpdateStatement {
    pub table: String,
    pub conditions: Vec<Assignment>,
    pub sets: Vec<Assignment>,
    pub returning: String,
}

/// The text of a value inside single quotes: each `'` doubled.
pub open spec fn sql_escaped(s: Seq<char>) -> Seq<char>
    decreases s.len(),
{
    if s.len() == 0 {
        Seq::empty()
    } else {
        let head: Seq<char> = if s[0] == '\'' { seq!['\'', '\''] } else { seq![s[0]] };
        head + sql_escaped(s.drop_first())
    }
}

/// A value as a quoted SQL string literal.
pub open spec fn sql_quoted(s: Seq<char>) -> Seq<char> {
    seq!['\''] + sql_escaped(s) + seq!['\'']
}

/// The parts joined by `sep`.
pub open spec fn joined(parts: Seq<Seq<char>>, sep: Seq<char>) -> Seq<char>
    decreases parts.len(),
{
    if parts.len() == 0 {
        Seq::empty()
    } else if parts.len() == 1 {
        parts[0]
    } else {
        joined(parts.drop_last(), sep) + sep + parts.last()
    }
}

pub open spec fn set_clauses(sets: Seq<(Seq<char>, Seq<char>)>) -> Seq<Seq<char>> {
    sets.map_values(|a: (Seq<char>, Seq<char>)| a.0 + " = "@ + sql_quoted(a.1))
}

pub open spec fn where_clauses(conds: Seq<(Seq<char>, Seq<char>)>) -> Seq<Seq<char>> {
    conds.map_values(|a: (Seq<char>, Seq<char>)| a.0 + " = "@ + sql_quoted(a.1))
}

/// The `WHERE` part: nothing, the one condition, or each condition in
/// brackets joined by `AND`.
pub open spec fn where_part(conds: Seq<Seq<char>>) -> Seq<char> {
    if conds.len() == 0 {
        Seq::empty()
    } else if conds.len() == 1 {
        " WHERE "@ + conds[0]
    } else {
        " WHERE "@ + joined(conds.map_values(|c: Seq<char>| "("@ + c + ")"@), " AND "@)
    }
}

/// The text of an update of `table` that sets `sets` on the rows meeting
/// `conds` and returns `returning`.
pub open spec fn update_sql(
    table: Seq<char>,
    conds: Seq<(Seq<char>, Seq<char>)>,
    sets: Seq<(Seq<char>, Seq<char>)>,
    returning: Seq<char>,
) -> Seq<char> {
    "UPDATE "@ + table + " SET "@ + joined(set_clauses(sets), ", "@) + where_part(where_clauses(conds))
        + " RETURNING "@ + returning + ";"@
}

impl UpdateStatement {
    pub open spec fn condition_pairs(&self) -> Seq<(Seq<char>, Seq<char>)> {
        self.conditions@.map_values(|a: Assignment| (a.field@, a.value@))
    }

    pub open spec fn set_pairs(&self) -> Seq<(Seq<char>, Seq<char>)> {
        self.sets@.map_values(|a: Assignment| (a.field@, a.value@))
    }

    /// The SQL text of the statement.
    pub open spec fn text(&self) -> Seq<char> {
        update_sql(self.table@, self.condition_pairs(), self.set_pairs(), self.returning@)
    }
}

/// Renders the statement with the `sql-builder` crate: `update_table`, one
/// `and_where_eq` per condition with the value bound through `"?".bind`,
/// one `set_str` per column, `returning`, then `sql`. As that crate's source
/// shows, the text is [`UpdateStatement::text`], and it refuses a statement
/// without a table ("No table name") or without a column to set ("No set
/// fields"), the error's text being what comes back.
#[verifier::external_body]
pub fn render_update(stmt: &UpdateStatement) -> (r: Result<String, String>)
    ensures
        r is Err <==> (stmt.table@.len() == 0 || stmt.sets@.len() == 0),
        r matches Err(e) ==> e@ == (if stmt.table@.len() == 0 { "No table name"@ } else { "No set fields"@ }),
        r matches Ok(t) ==> t@ == stmt.text(),
{
    let mut b = sql_builder::SqlBuilder::update_table(stmt.table.as_str());
    for c in stmt.conditions.iter() {
        b.and_where_eq(c.field.as_str(), sql_builder::prelude::Bind::bind(&"?", &c.value));
    }
    for a in stmt.sets.iter() {
        b.set_str(a.field.as_str(), a.value.as_str());
    }
    b.returning(stmt.returning.as_str());
    b.sql().map_err(|e| e.to_string())
}


/// The text of a quoted literal read back: each doubled `'` taken as one.
pub open spec fn sql_unescaped(s: Seq<char>) -> Seq<char>
    decreases s.len(),
{
    if s.len() == 0 {
        Seq::empty()
    } else if s.len() >= 2 && s[0] == '\'' && s[1] == '\'' {
        seq!['\''] + sql_unescaped(s.skip(2))
    } else {
        seq![s[0]] + sql_unescaped(s.drop_first())
    }
}

/// A value written into an update statement is read back exactly.
pub proof fn law_escaped_value_reads_back(s: Seq<char>)
    ensures
        sql_unescaped(sql_escaped(s)) == s,
    decreases s.len(),
{
    if s.len() > 0 {
        law_escaped_value_reads_back(s.drop_first());
        let e = sql_escaped(s);
        let rest = sql_escaped(s.drop_first());
        if s[0] == '\'' {
            assert(e.skip(2) =~= rest);
        } else {
            assert(e.drop_first() =~= rest);
        }
        assert(s =~= seq![s[0]] + s.drop_first());
    }
}

} // verus!
