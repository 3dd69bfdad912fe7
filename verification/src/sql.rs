use vstd::prelude::*;

verus! {

/// A value bound to a statement parameter.
#[derive(Clone, Debug, PartialEq, Eq)]
pub enum SqlValue {
    Null,
    /// A signed integer, bound as an SQLite INTEGER.
    Int(i64),
    /// An unsigned 64-bit integer; the driver binds it as an INTEGER and
    /// refuses values above `i64::MAX`.
    UInt(u64),
    Text(String),
    /// A floating-point number, carried by its IEEE-754 bit pattern.
    RealBits(u64),
}

/// The mathematical value of a parameter.
pub enum SqlValueView {
    Null,
    Int(i64),
    UInt(u64),
    Text(Seq<char>),
    RealBits(u64),
}

impl View for SqlValue {
    type V = SqlValueView;

    open spec fn view(&self) -> SqlValueView {
        match self {
            SqlValue::Null => SqlValueView::Null,
            SqlValue::Int(i) => SqlValueView::Int(*i),
            SqlValue::UInt(u) => SqlValueView::UInt(*u),
            SqlValue::Text(s) => SqlValueView::Text(s@),
            SqlValue::RealBits(b) => SqlValueView::RealBits(*b),
        }
    }
}

/// One SQL statement with its positional parameters (`?1` is `params[0]`).
#[derive(Clone, Debug, PartialEq, Eq)]
pub struct Statement {
    pub sql: String,
    pub params: Vec<SqlValue>,
}

pub struct StatementView {
    pub sql: Seq<char>,
    pub params: Seq<SqlValueView>,
}

pub open spec fn values_view(v: Seq<SqlValue>) -> Seq<SqlValueView> {
    v.map_values(|x: SqlValue| x@)
}

impl View for Statement {
    type V = StatementView;

    open spec fn view(&self) -> StatementView {
        StatementView { sql: self.sql@, params: values_view(self.params@) }
    }
}

pub open spec fn statements_view(v: Seq<Statement>) -> Seq<StatementView> {
    v.map_values(|s: Statement| s@)
}

/// The text parameter holding `s`.
pub open spec fn text(s: Seq<char>) -> SqlValueView {
    SqlValueView::Text(s)
}

pub fn text_value(s: &String) -> (v: SqlValue)
    ensures
        v@ == text(s@),
{
    SqlValue::Text(s.clone())
}

/// Builds a statement from its SQL text and parameters.
pub fn statement(sql: &str, params: Vec<SqlValue>) -> (st: Statement)
    ensures
        st@.sql == sql@,
        st@.params == values_view(params@),
{
    Statement { sql: sql.to_owned(), params }
}

/// Pushing a statement onto a plan pushes its view onto the plan's view.
pub proof fn lemma_statements_view_push(plan: Seq<Statement>, st: Statement)
    ensures
        statements_view(plan.push(st)) == statements_view(plan).push(st@),
{
    assert(statements_view(plan.push(st)) =~= statements_view(plan).push(st@));
}

/// The character of a decimal digit.
pub open spec fn digit_char(d: int) -> char {
    if d == 0 {
        '0'
    } else if d == 1 {
        '1'
    } else if d == 2 {
        '2'
    } else if d == 3 {
        '3'
    } else if d == 4 {
        '4'
    } else if d == 5 {
        '5'
    } else if d == 6 {
        '6'
    } else if d == 7 {
        '7'
    } else if d == 8 {
        '8'
    } else {
        '9'
    }
}

/// The decimal notation of `n`, without leading zeros.
pub open spec fn decimal(n: nat) -> Seq<char>
    decreases n,
{
    if n < 10 {
        seq![digit_char(n as int)]
    } else {
        decimal(n / 10).push(digit_char((n % 10) as int))
    }
}

fn digit_str(d: u128) -> (r: &'static str)
    requires
        d < 10,
    ensures
        r@ == seq![digit_char(d as int)],
{
    if d == 0 {
        proof { reveal_strlit("0"); }
        "0"
    } else if d == 1 {
        proof { reveal_strlit("1"); }
        "1"
    } else if d == 2 {
        proof { reveal_strlit("2"); }
        "2"
    } else if d == 3 {
        proof { reveal_strlit("3"); }
        "3"
    } else if d == 4 {
        proof { reveal_strlit("4"); }
        "4"
    } else if d == 5 {
        proof { reveal_strlit("5"); }
        "5"
    } else if d == 6 {
        proof { reveal_strlit("6"); }
        "6"
    } else if d == 7 {
        proof { reveal_strlit("7"); }
        "7"
    } else if d == 8 {
        proof { reveal_strlit("8"); }
        "8"
    } else {
        proof { reveal_strlit("9"); }
        "9"
    }
}

/// Writes `n` in decimal, as `format!("{}", n)` does.
pub fn decimal_string(n: u128) -> (s: String)
    ensures
        s@ == decimal(n as nat),
    decreases n,
{
    if n < 10 {
        String::from_str(digit_str(n))
    } else {
        let mut s = decimal_string(n / 10);
        s.append(digit_str(n % 10));
        s
    }
}

} // verus!
