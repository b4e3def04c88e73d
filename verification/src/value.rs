//! Values bound to statement parameters, and their decimal and display text.

use vstd::prelude::*;
use vstd::string::StringExecFns;

verus! {

/// A value bound to one `?` placeholder of a statement.
#[derive(Debug, PartialEq, Eq)]
pub enum SqlValue {
    Null,
    Int(i64),
    Text(String),
}

/// The mathematical content of a [`SqlValue`].
pub enum Param {
    Null,
    Int(int),
    Text(Seq<char>),
}

impl View for SqlValue {
    type V = Param;

    open spec fn view(&self) -> Param {
        match self {
            SqlValue::Null => Param::Null,
            SqlValue::Int(n) => Param::Int(*n as int),
            SqlValue::Text(s) => Param::Text(s@),
        }
    }
}

impl Clone for SqlValue {
    fn clone(&self) -> (r: Self)
        ensures
            r@ == self@,
    {
        match self {
            SqlValue::Null => SqlValue::Null,
            SqlValue::Int(n) => SqlValue::Int(*n),
            SqlValue::Text(s) => SqlValue::Text(s.clone()),
        }
    }
}

/// The contents of a parameter list, position by position.
pub open spec fn params(values: Seq<SqlValue>) -> Seq<Param> {
    values.map_values(|v: SqlValue| v@)
}

/// The text of an optional string.
pub open spec fn text_of(field: Option<String>) -> Option<Seq<char>> {
    match field {
        Some(s) => Some(s@),
        None => None,
    }
}

/// What an optional text field binds: its text, or NULL when absent.
pub open spec fn opt_text(field: Option<String>) -> Param {
    match field {
        Some(s) => Param::Text(s@),
        None => Param::Null,
    }
}

/// What an optional integer field binds: its number, or NULL when absent.
pub open spec fn opt_int(field: Option<i64>) -> Param {
    match field {
        Some(n) => Param::Int(n as int),
        None => Param::Null,
    }
}

/// The numeral of one decimal digit.
pub open spec fn digit_text(d: int) -> Seq<char> {
    if d == 0 {
        "0"@
    } else if d == 1 {
        "1"@
    } else if d == 2 {
        "2"@
    } else if d == 3 {
        "3"@
    } else if d == 4 {
        "4"@
    } else if d == 5 {
        "5"@
    } else if d == 6 {
        "6"@
    } else if d == 7 {
        "7"@
    } else if d == 8 {
        "8"@
    } else {
        "9"@
    }
}

/// The decimal numeral of a natural number, without leading zeros.
pub open spec fn natural_text(n: nat) -> Seq<char>
    decreases n,
{
    if n < 10 {
        digit_text(n as int)
    } else {
        natural_text(n / 10) + digit_text((n % 10) as int)
    }
}

/// The decimal numeral of an integer, with a leading minus sign when negative.
pub open spec fn decimal_text(n: int) -> Seq<char> {
    if n < 0 {
        "-"@ + natural_text((-n) as nat)
    } else {
        natural_text(n as nat)
    }
}

/// The text shown for a value in messages.
pub open spec fn display_text(p: Param) -> Seq<char> {
    match p {
        Param::Null => "NULL"@,
        Param::Int(n) => decimal_text(n),
        Param::Text(s) => s,
    }
}

fn digit(d: u64) -> (r: &'static str)
    requires
        d < 10,
    ensures
        r@ == digit_text(d as int),
{
    if d == 0 {
        "0"
    } else if d == 1 {
        "1"
    } else if d == 2 {
        "2"
    } else if d == 3 {
        "3"
    } else if d == 4 {
        "4"
    } else if d == 5 {
        "5"
    } else if d == 6 {
        "6"
    } else if d == 7 {
        "7"
    } else if d == 8 {
        "8"
    } else {
        "9"
    }
}

fn natural(n: u64) -> (r: String)
    ensures
        r@ == natural_text(n as nat),
    decreases n,
{
    if n < 10 {
        String::from_str(digit(n))
    } else {
        let mut s = natural(n / 10);
        s.append(digit(n % 10));
        s
    }
}

/// Writes an integer in decimal.
pub fn decimal(n: i64) -> (r: String)
    ensures
        r@ == decimal_text(n as int),
{
    if n < 0 {
        let magnitude: u64 = if n == i64::MIN {
            9223372036854775808u64
        } else {
            (-n) as u64
        };
        let mut s = String::from_str("-");
        let digits = natural(magnitude);
        s.append(digits.as_str());
        s
    } else {
        natural(n as u64)
    }
}

impl SqlValue {
    /// Binds a text.
    pub fn text(s: &str) -> (r: SqlValue)
        ensures
            r@ == Param::Text(s@),
    {
        SqlValue::Text(String::from_str(s))
    }

    /// Binds an optional text field, NULL when absent.
    pub fn from_opt_text(field: &Option<String>) -> (r: SqlValue)
        ensures
            r@ == opt_text(*field),
    {
        match field {
            Some(s) => SqlValue::Text(s.clone()),
            None => SqlValue::Null,
        }
    }

    /// Binds an optional integer field, NULL when absent.
    pub fn from_opt_int(field: &Option<i64>) -> (r: SqlValue)
        ensures
            r@ == opt_int(*field),
    {
        match field {
            Some(n) => SqlValue::Int(*n),
            None => SqlValue::Null,
        }
    }

    /// The text shown for this value in messages.
    pub fn display(&self) -> (r: String)
        ensures
            r@ == display_text(self@),
    {
        match self {
            SqlValue::Null => String::from_str("NULL"),
            SqlValue::Int(n) => decimal(*n),
            SqlValue::Text(s) => s.clone(),
        }
    }
}

/// Whether two texts hold the same characters.
pub fn same_text(a: &str, b: &str) -> (r: bool)
    ensures
        r == (a@ == b@),
{
    let left = String::from_str(a);
    let right = String::from_str(b);
    left == right
}

} // verus!
