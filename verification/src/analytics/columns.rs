//! The columns that a query selects.
use crate::text::contains_text;
use vstd::prelude::*;
use vstd::string::StringExecFns;

verus! {

/// A column of a query.
#[derive(Debug, Clone)]
pub enum Column {
    /// A column of a table, under its own name.
    Own { prefix: String, name: String },
    /// The value of an expression, under a name.
    Computed { expression: String, name: String },
}

/// A column with its texts as characters.
pub enum ColumnView {
    Own { prefix: Seq<char>, name: Seq<char> },
    Computed { expression: Seq<char>, name: Seq<char> },
}

impl View for Column {
    type V = ColumnView;

    open spec fn view(&self) -> ColumnView {
        match self {
            Column::Own { prefix, name } => ColumnView::Own { prefix: prefix@, name: name@ },
            Column::Computed { expression, name } => ColumnView::Computed {
                expression: expression@,
                name: name@,
            },
        }
    }
}

impl ColumnView {
    /// The name under which a column is read from the result.
    pub open spec fn name(self) -> Seq<char> {
        match self {
            ColumnView::Own { name, .. } => name,
            ColumnView::Computed { name, .. } => name,
        }
    }

    /// How a column is written.
    pub open spec fn text(self) -> Seq<char> {
        match self {
            ColumnView::Own { prefix, name } => prefix + name,
            ColumnView::Computed { expression, name } => expression + " as "@ + name,
        }
    }
}

/// The characters of columns.
pub open spec fn columns_view(columns: Seq<Column>) -> Seq<ColumnView> {
    columns.map_values(|c: Column| c@)
}

/// The names of columns.
pub open spec fn column_names(columns: Seq<ColumnView>) -> Seq<Seq<char>> {
    columns.map_values(|c: ColumnView| c.name())
}

/// Columns, with commas between them.
pub open spec fn joined(columns: Seq<ColumnView>) -> Seq<char>
    decreases columns.len(),
{
    if columns.len() == 0 {
        seq![]
    } else if columns.len() == 1 {
        columns[0].text()
    } else {
        joined(columns.drop_last()) + ", "@ + columns.last().text()
    }
}

/// A query: its columns, and where they come from.
pub open spec fn select_text(columns: Seq<ColumnView>, rows: Seq<char>) -> Seq<char> {
    "SELECT "@ + joined(columns) + rows
}

/// Writes a query.
pub fn select(columns: &Vec<Column>, rows: &str) -> (r: String)
    ensures
        r@ == select_text(columns_view(columns@), rows@),
{
    let ghost all = columns_view(columns@);
    let mut sql = "SELECT ".to_owned();
    let mut i: usize = 0;
    assert("SELECT "@ + joined(all.take(0)) =~= "SELECT "@);
    while i < columns.len()
        invariant
            i <= columns@.len(),
            all == columns_view(columns@),
            sql@ == "SELECT "@ + joined(all.take(i as int)),
        decreases columns.len() - i,
    {
        proof {
            let longer = all.take(i + 1);
            assert(longer.drop_last() =~= all.take(i as int));
            assert(longer.last() == columns@[i as int]@);
        }
        let ghost before = sql@;
        if i > 0 {
            sql.append(", ");
        }
        match &columns[i] {
            Column::Own { prefix, name } => {
                sql.append(prefix.as_str());
                sql.append(name.as_str());
            },
            Column::Computed { expression, name } => {
                sql.append(expression.as_str());
                sql.append(" as ");
                sql.append(name.as_str());
            },
        }
        proof {
            let longer = all.take(i + 1);
            assert(sql@ =~= "SELECT "@ + joined(longer));
        }
        i = i + 1;
    }
    sql.append(rows);
    assert(all.take(all.len() as int) =~= all);
    sql
}

/// The sum of a column over all rows; zero where there are none.
pub open spec fn sum_text(prefix: Seq<char>, column: Seq<char>) -> Seq<char> {
    "COALESCE(SUM("@ + prefix + column + "), 0)::bigint"@
}

/// Writes the sum of a column.
pub fn sum(prefix: &str, column: &str) -> (r: String)
    ensures
        r@ == sum_text(prefix@, column@),
{
    let mut text = "COALESCE(SUM(".to_owned();
    text.append(prefix);
    text.append(column);
    text.append("), 0)::bigint");
    text
}

/// The value of an expression, under a name.
pub fn computed(expression: &str, name: &str) -> (r: Column)
    ensures
        r@ == (ColumnView::Computed { expression: expression@, name: name@ }),
{
    Column::Computed { expression: expression.to_owned(), name: name.to_owned() }
}

/// The placeholder of the type of credit.
pub const CREDIT_TYPE_PLACEHOLDER: &'static str = "$4";

/// Whether a text binds a type of credit.
pub open spec fn binds_credit_type(text: Seq<char>) -> bool {
    contains_text(text, CREDIT_TYPE_PLACEHOLDER@)
}

/// Whether a text has no digit four.
pub open spec fn has_no_four(text: Seq<char>) -> bool {
    forall|i: int| 0 <= i < text.len() ==> #[trigger] text[i] != '4'
}

/// A text binds a type of credit where a dollar sign and a four follow each
/// other.
pub proof fn lemma_binds_at(text: Seq<char>, at: int)
    requires
        0 <= at < text.len() - 1,
        text[at] == '$',
        text[at + 1] == '4',
    ensures
        binds_credit_type(text),
{
    reveal_strlit("$4");
    assert(text.subrange(at, at + 2) =~= "$4"@);
    assert(crate::text::occurs_at(text, "$4"@, at));
}

/// A text without a four binds no type of credit.
pub proof fn lemma_no_four(text: Seq<char>)
    requires
        has_no_four(text),
    ensures
        !binds_credit_type(text),
{
    reveal_strlit("$4");
    if binds_credit_type(text) {
        let at = choose|at: int| crate::text::occurs_at(text, "$4"@, at);
        assert(text.subrange(at, at + 2)[1] == '4');
        assert(text[at + 1] == '4');
    }
}

/// A text that binds no type of credit, then one without a four, then another
/// that binds none do so together, where the one in the middle is not empty and
/// does not end in a dollar sign.
pub proof fn lemma_joins(left: Seq<char>, middle: Seq<char>, right: Seq<char>)
    requires
        !binds_credit_type(left),
        has_no_four(middle),
        middle.len() > 0,
        middle.last() != '$',
        !binds_credit_type(right),
    ensures
        !binds_credit_type(left + middle + right),
{
    reveal_strlit("$4");
    let text = left + middle + right;
    if binds_credit_type(text) {
        let at = choose|at: int| crate::text::occurs_at(text, "$4"@, at);
        assert(text.subrange(at, at + 2)[0] == '$');
        assert(text.subrange(at, at + 2)[1] == '4');
        assert(text[at] == '$' && text[at + 1] == '4');
        let start = left.len() + middle.len();
        if at + 1 < left.len() {
            lemma_binds_at(left, at);
        } else if at + 1 < start {
            assert(middle[at + 1 - left.len()] == '4');
        } else if at + 1 == start {
            assert(middle.last() == '$');
        } else {
            lemma_binds_at(right, at - start);
        }
    }
}

/// Whether a column binds no type of credit, beside whatever it is written.
pub open spec fn binds_nothing(column: ColumnView) -> bool {
    match column {
        ColumnView::Own { prefix, name } => has_no_four(prefix) && has_no_four(name),
        ColumnView::Computed { expression, name } => !binds_credit_type(expression)
            && has_no_four(name),
    }
}

proof fn lemma_joined_binds_nothing(columns: Seq<ColumnView>)
    requires
        forall|k: int| 0 <= k < columns.len() ==> binds_nothing(#[trigger] columns[k]),
    ensures
        !binds_credit_type(joined(columns)),
    decreases columns.len(),
{
    if columns.len() == 0 {
        lemma_no_four(seq![]);
    } else {
        let last = columns.last();
        assert(binds_nothing(columns[columns.len() - 1]));
        assert(!binds_credit_type(last.text())) by {
            match last {
                ColumnView::Own { prefix, name } => lemma_no_four(prefix + name),
                ColumnView::Computed { expression, name } => {
                    reveal_strlit(" as ");
                    lemma_no_four(name);
                    lemma_joins(expression, " as "@, name);
                },
            }
        }
        let shorter = columns.drop_last();
        assert forall|k: int| 0 <= k < shorter.len() implies binds_nothing(#[trigger] shorter[k]) by {
            assert(shorter[k] == columns[k]);
        }
        lemma_joined_binds_nothing(shorter);
        reveal_strlit(", ");
        lemma_joins(joined(shorter), ", "@, last.text());
    }
}

/// A query binds no type of credit where neither its columns do nor the part
/// that says where they come from.
pub proof fn lemma_select_binds_nothing(columns: Seq<ColumnView>, rows: Seq<char>)
    requires
        forall|k: int| 0 <= k < columns.len() ==> binds_nothing(#[trigger] columns[k]),
        has_no_four(rows),
        rows.len() > 0,
        rows.last() != '$',
    ensures
        !binds_credit_type(select_text(columns, rows)),
{
    let empty: Seq<char> = seq![];
    let start = "SELECT "@ + joined(columns);
    reveal_strlit("SELECT ");
    lemma_no_four(empty);
    lemma_joined_binds_nothing(columns);
    lemma_joins(empty, "SELECT "@, joined(columns));
    assert(empty + "SELECT "@ + joined(columns) =~= start);
    lemma_joins(start, rows, empty);
    assert(start + rows + empty =~= select_text(columns, rows));
}

/// The sum of a column binds no type of credit.
pub proof fn lemma_sum_binds_nothing(prefix: Seq<char>, column: Seq<char>)
    requires
        has_no_four(prefix),
        has_no_four(column),
    ensures
        !binds_credit_type(sum_text(prefix, column)),
{
    reveal_strlit("COALESCE(SUM(");
    reveal_strlit("), 0)::bigint");
    assert(has_no_four(sum_text(prefix, column)));
    lemma_no_four(sum_text(prefix, column));
}

/// Columns are written in their order, with a comma and a space before each but
/// the first.
pub proof fn law_columns_are_written_in_order(
    columns: Seq<ColumnView>,
    column: ColumnView,
    rows: Seq<char>,
)
    ensures
        joined(seq![]).len() == 0,
        joined(seq![column]) == column.text(),
        columns.len() > 0 ==> joined(columns.push(column)) == joined(columns) + ", "@
            + column.text(),
        select_text(columns, rows) == "SELECT "@ + joined(columns) + rows,
{
    assert(columns.push(column).drop_last() =~= columns);
}

/// A column of its own is written with its prefix and read under its name; an
/// expression is given its name.
pub proof fn law_columns_are_read_under_their_name(
    prefix: Seq<char>,
    name: Seq<char>,
    expression: Seq<char>,
)
    ensures
        (ColumnView::Own { prefix, name }).text() == prefix + name,
        (ColumnView::Own { prefix, name }).name() == name,
        (ColumnView::Computed { expression, name }).text() == expression + " as "@ + name,
        (ColumnView::Computed { expression, name }).name() == name,
        sum_text(prefix, name) == "COALESCE(SUM("@ + prefix + name + "), 0)::bigint"@,
{
}

/// A text binds the type of credit exactly where the fourth placeholder stands in
/// it.
pub proof fn law_the_fourth_placeholder_is_the_type(text: Seq<char>)
    ensures
        binds_credit_type(text) <==> crate::text::contains_text(text, "$4"@),
{
}

} // verus!
