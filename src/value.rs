//! The tree of structured values that a data model is serialised into.

use vstd::prelude::*;

verus! {

/// A number as the serialised data holds it.
///
/// Integers are kept as integers; a number with a fractional part is kept as
/// the canonical decimal text that its producer wrote for it.
#[derive(Clone, Debug)]
pub enum Number {
    PosInt(u64),
    NegInt(i64),
    Float(String),
}

/// A structured value: null, a boolean, a number, a string, an ordered list, or
/// an ordered mapping from string keys to values.
///
/// The entries of an `Object` keep their insertion order, which decides the
/// order of the fields in the output.
pub enum Value {
    Null,
    Bool(bool),
    Number(Number),
    Str(String),
    Array(Vec<Value>),
    Object(Vec<(String, Value)>),
}

/// A non-empty run of decimal digits.
pub open spec fn digit_run(t: Seq<char>) -> bool {
    t.len() > 0 && forall|k: int| 0 <= k < t.len() ==> '0' <= #[trigger] t[k] <= '9'
}

/// Digits, or digits, a point and digits.
pub open spec fn unsigned_decimal(t: Seq<char>) -> bool {
    digit_run(t) || exists|p: int|
        0 < p < t.len() - 1 && #[trigger] t[p] == '.' && digit_run(t.take(p)) && digit_run(
            t.skip(p + 1),
        )
}

/// An exponent: `e` or `E`, an optional sign, and digits.
pub open spec fn exponent_part(t: Seq<char>) -> bool {
    t.len() >= 2 && (t[0] == 'e' || t[0] == 'E') && (digit_run(t.skip(1)) || ((t[1] == '+'
        || t[1] == '-') && digit_run(t.skip(2))))
}

/// A decimal numeral: an optional minus sign, digits with an optional point and
/// fraction, and an optional exponent.
pub open spec fn decimal_numeral(t: Seq<char>) -> bool {
    let body = if t.len() > 0 && t[0] == '-' {
        t.skip(1)
    } else {
        t
    };
    unsigned_decimal(body) || exists|e: int|
        0 < e < body.len() && #[trigger] unsigned_decimal(body.take(e)) && exponent_part(
            body.skip(e),
        )
}

impl Number {
    /// The text of a fractional number is a decimal numeral.
    pub open spec fn well_formed(self) -> bool {
        match self {
            Number::Float(t) => decimal_numeral(t@),
            _ => true,
        }
    }
}

/// No two entries of an object share a key.
pub open spec fn keys_unique(entries: Seq<(String, Value)>) -> bool {
    forall|i: int, j: int|
        0 <= i < j < entries.len() ==> #[trigger] entries[i].0@ != #[trigger] entries[j].0@
}

impl Value {
    /// Every object in the tree has unique keys, and every fractional number is
    /// written as a decimal numeral.
    pub open spec fn well_formed(self) -> bool
        decreases self,
    {
        match self {
            Value::Array(items) => forall|i: int|
                0 <= i < items.len() ==> (#[trigger] items@[i]).well_formed(),
            Value::Object(entries) => keys_unique(entries@) && forall|i: int|
                0 <= i < entries.len() ==> (#[trigger] entries@[i]).1.well_formed(),
            Value::Number(n) => n.well_formed(),
            _ => true,
        }
    }
}

/// Whether no two entries share a key: the condition for the entries to form
/// an object.
pub fn keys_are_unique(entries: &Vec<(String, Value)>) -> (r: bool)
    ensures
        r == keys_unique(entries@),
{
    let n = entries.len();
    let mut j: usize = 1;
    while j < n
        invariant
            n == entries.len(),
            1 <= j <= n || n == 0,
            forall|a: int, b: int|
                0 <= a < b < j && b < n ==> #[trigger] entries@[a].0@ != #[trigger] entries@[b].0@,
        decreases n - j,
    {
        let mut i: usize = 0;
        while i < j
            invariant
                n == entries.len(),
                i <= j < n,
                forall|a: int| 0 <= a < i ==> #[trigger] entries@[a].0@ != entries@[j as int].0@,
            decreases j - i,
        {
            if entries[i].0 == entries[j].0 {
                return false;
            }
            i = i + 1;
        }
        j = j + 1;
    }
    true
}

} // verus!
