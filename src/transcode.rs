//! Conversion of a value tree into Typst literal syntax.
//!
//! Nested lists and mappings become parenthesised blocks with one element per
//! line, each indented one level deeper than the block, a comma after every
//! element, and the closing parenthesis at the block's own level. A mapping with
//! a single entry whose payload is a number, a string or a mapping stands for a
//! variant of a tagged union and becomes a one-field record under the lowercased
//! variant name, its payload written one level deeper. Strings stand in double
//! quotes, with a backslash before each quote and backslash inside them, so that
//! free text cannot end a literal early.

use vstd::prelude::*;

use crate::text::{decimal, pad, push_decimal, push_pad, push_quoted, quoted};
use crate::value::{Number, Value};

verus! {

/// What `str::to_lowercase` returns for a string: the lowercase mapping of each
/// character.
pub uninterp spec fn lower_of(s: Seq<char>) -> Seq<char>;

/// Relies on `str::to_lowercase`: its result depends on the characters alone.
#[verifier::external_body]
fn lowercase(s: &str) -> (r: String)
    ensures
        r@ == lower_of(s@),
{
    s.to_lowercase()
}

/// The Typst spelling of a number.
pub open spec fn number_text(n: Number) -> Seq<char> {
    match n {
        Number::PosInt(u) => decimal(u as nat),
        Number::NegInt(i) => if i < 0 {
            seq!['-'] + decimal((-i) as nat)
        } else {
            decimal(i as nat)
        },
        Number::Float(t) => t@,
    }
}

/// Whether a single-entry mapping with this payload is written as a tagged
/// variant: the payload is a number, a string or a mapping.
pub open spec fn is_variant_payload(v: Value) -> bool {
    match v {
        Value::Number(_) | Value::Str(_) | Value::Object(_) => true,
        _ => false,
    }
}

/// Whether the entries form a tagged variant.
pub open spec fn is_variant(entries: Seq<(String, Value)>) -> bool {
    entries.len() == 1 && is_variant_payload(entries[0].1)
}

/// A one-field record `(label: payload)`.
pub open spec fn record(label: Seq<char>, payload: Seq<char>) -> Seq<char> {
    seq!['('] + label + seq![':', ' '] + payload + seq![')']
}

/// A block holding `lines`, closed at nesting level `indent`.
pub open spec fn block(lines: Seq<char>, indent: nat) -> Seq<char> {
    seq!['(', '\n'] + lines + seq![',', '\n'] + pad(indent) + seq![')']
}

/// The Typst literal for `v`, written at nesting level `indent`.
pub open spec fn typst_text(v: Value, indent: nat) -> Seq<char>
    decreases v,
{
    match v {
        Value::Null => seq!['n', 'o', 'n', 'e'],
        Value::Bool(b) => if b {
            seq!['t', 'r', 'u', 'e']
        } else {
            seq!['f', 'a', 'l', 's', 'e']
        },
        Value::Number(n) => number_text(n),
        Value::Str(s) => quoted(s@),
        Value::Array(items) => if items.len() == 0 {
            seq!['(', ')']
        } else {
            block(item_lines(items@, indent + 1), indent)
        },
        Value::Object(entries) => if is_variant(entries@) {
            record(lower_of(entries@[0].0@), typst_text(entries@[0].1, indent + 1))
        } else if entries.len() == 0 {
            seq!['(', ':', ')']
        } else {
            block(field_lines(entries@, indent + 1), indent)
        },
    }
}

/// The lines of a list's elements at level `indent`, separated by `,\n`.
pub open spec fn item_lines(items: Seq<Value>, indent: nat) -> Seq<char>
    decreases items,
{
    if items.len() == 0 {
        Seq::empty()
    } else {
        let line = pad(indent) + typst_text(items.last(), indent);
        if items.len() == 1 {
            line
        } else {
            item_lines(items.drop_last(), indent) + seq![',', '\n'] + line
        }
    }
}

/// The lines `key: value` of a mapping's entries at level `indent`, in the
/// entries' order, separated by `,\n`.
pub open spec fn field_lines(entries: Seq<(String, Value)>, indent: nat) -> Seq<char>
    decreases entries,
{
    if entries.len() == 0 {
        Seq::empty()
    } else {
        let line = field_line(entries.last().0@, typst_text(entries.last().1, indent), indent);
        if entries.len() == 1 {
            line
        } else {
            field_lines(entries.drop_last(), indent) + seq![',', '\n'] + line
        }
    }
}

/// One line `key: value` at level `indent`.
pub open spec fn field_line(key: Seq<char>, value: Seq<char>, indent: nat) -> Seq<char> {
    pad(indent) + key + seq![':', ' '] + value
}

fn is_payload(v: &Value) -> (r: bool)
    ensures
        r == is_variant_payload(*v),
{
    match v {
        Value::Number(_) | Value::Str(_) | Value::Object(_) => true,
        _ => false,
    }
}

fn push_number(out: &mut String, n: &Number)
    ensures
        final(out)@ == old(out)@ + number_text(*n),
{
    match n {
        Number::PosInt(u) => push_decimal(out, *u),
        Number::NegInt(i) => {
            if *i < 0 {
                out.push('-');
                let magnitude: u64 = (-(*i + 1)) as u64 + 1;
                push_decimal(out, magnitude);
                assert(out@ =~= old(out)@ + number_text(*n));
            } else {
                push_decimal(out, *i as u64);
            }
        },
        Number::Float(t) => out.append(t.as_str()),
    }
}

/// A one-field record `(label: payload)` from the already lowercased label and
/// the payload's literal text.
pub fn record_literal(label: &str, payload: &str) -> (r: String)
    ensures
        r@ == record(label@, payload@),
{
    let mut r = String::new();
    r.push('(');
    r.append(label);
    r.push(':');
    r.push(' ');
    r.append(payload);
    r.push(')');
    assert(r@ =~= record(label@, payload@));
    r
}

fn deeper(level: &String, Ghost(indent): Ghost<nat>) -> (r: String)
    requires
        level@ == pad(indent),
    ensures
        r@ == pad(indent + 1),
{
    let mut r = level.clone();
    r.push(' ');
    r.push(' ');
    assert(r@ =~= pad(indent + 1));
    r
}

/// Appends the literal of `v` at the nesting level whose indentation is `level`.
fn write_value(out: &mut String, v: &Value, level: &String, Ghost(indent): Ghost<nat>)
    requires
        level@ == pad(indent),
    ensures
        final(out)@ == old(out)@ + typst_text(*v, indent),
    decreases v,
{
    match v {
        Value::Null => {
            out.push('n');
            out.push('o');
            out.push('n');
            out.push('e');
            assert(out@ =~= old(out)@ + typst_text(*v, indent));
        },
        Value::Bool(b) => {
            if *b {
                out.push('t');
                out.push('r');
                out.push('u');
                out.push('e');
            } else {
                out.push('f');
                out.push('a');
                out.push('l');
                out.push('s');
                out.push('e');
            }
            assert(out@ =~= old(out)@ + typst_text(*v, indent));
        },
        Value::Number(n) => push_number(out, n),
        Value::Str(s) => push_quoted(out, s.as_str()),
        Value::Array(items) => {
            if items.len() == 0 {
                out.push('(');
                out.push(')');
                assert(out@ =~= old(out)@ + typst_text(*v, indent));
            } else {
                out.push('(');
                out.push('\n');
                let ghost start = out@;
                let inner = deeper(level, Ghost(indent));
                let mut i: usize = 0;
                while i < items.len()
                    invariant
                        0 < items.len(),
                        i <= items.len(),
                        inner@ == pad(indent + 1),
                        level@ == pad(indent),
                        out@ == start + item_lines(items@.take(i as int), indent + 1),
                        *v == Value::Array(*items),
                    decreases items.len() - i,
                {
                    let ghost before = out@;
                    if i > 0 {
                        out.push(',');
                        out.push('\n');
                    }
                    out.append(inner.as_str());
                    proof {
                        assert(decreases_to!(*v => (*v)->Array_0));
                        assert((*v)->Array_0 == *items);
                        assert(decreases_to!(*items => items[i as int]));
                    }
                    write_value(out, &items[i], &inner, Ghost(indent + 1));
                    proof {
                        let t = items@.take(i + 1);
                        assert(t.drop_last() =~= items@.take(i as int));
                        assert(t.last() == items@[i as int]);
                        assert(out@ =~= start + item_lines(t, indent + 1));
                    }
                    i = i + 1;
                }
                out.push(',');
                out.push('\n');
                out.append(level.as_str());
                out.push(')');
                assert(items@.take(items.len() as int) =~= items@);
                assert(out@ =~= old(out)@ + typst_text(*v, indent));
            }
        },
        Value::Object(entries) => {
            if entries.len() == 1 && is_payload(&entries[0].1) {
                let label = lowercase(entries[0].0.as_str());
                let mut payload = String::new();
                assert(decreases_to!(*v => entries@[0].1));
                let inner = deeper(level, Ghost(indent));
                write_value(&mut payload, &entries[0].1, &inner, Ghost(indent + 1));
                let r = record_literal(label.as_str(), payload.as_str());
                out.append(r.as_str());
            } else if entries.len() == 0 {
                out.push('(');
                out.push(':');
                out.push(')');
                assert(out@ =~= old(out)@ + typst_text(*v, indent));
            } else {
                out.push('(');
                out.push('\n');
                let ghost start = out@;
                let inner = deeper(level, Ghost(indent));
                let mut i: usize = 0;
                while i < entries.len()
                    invariant
                        0 < entries.len(),
                        i <= entries.len(),
                        inner@ == pad(indent + 1),
                        level@ == pad(indent),
                        out@ == start + field_lines(entries@.take(i as int), indent + 1),
                        *v == Value::Object(*entries),
                    decreases entries.len() - i,
                {
                    if i > 0 {
                        out.push(',');
                        out.push('\n');
                    }
                    out.append(inner.as_str());
                    out.append(entries[i].0.as_str());
                    out.push(':');
                    out.push(' ');
                    proof {
                        assert(decreases_to!(*v => (*v)->Object_0));
                        assert((*v)->Object_0 == *entries);
                        assert(decreases_to!(*entries => entries[i as int]));
                        assert(decreases_to!(entries[i as int] => entries[i as int].1));
                    }
                    write_value(out, &entries[i].1, &inner, Ghost(indent + 1));
                    proof {
                        let t = entries@.take(i + 1);
                        assert(t.drop_last() =~= entries@.take(i as int));
                        assert(t.last() == entries@[i as int]);
                        assert(out@ =~= start + field_lines(t, indent + 1));
                    }
                    i = i + 1;
                }
                out.push(',');
                out.push('\n');
                out.append(level.as_str());
                out.push(')');
                assert(entries@.take(entries.len() as int) =~= entries@);
                assert(out@ =~= old(out)@ + typst_text(*v, indent));
            }
        },
    }
}

/// The Typst literal for `value`, written at nesting level `indent`.
pub fn to_typst_value(value: &Value, indent: usize) -> (r: String)
    ensures
        r@ == typst_text(*value, indent as nat),
{
    let mut level = String::new();
    push_pad(&mut level, indent);
    assert(level@ =~= pad(indent as nat));
    let mut r = String::new();
    write_value(&mut r, value, &level, Ghost(indent as nat));
    assert(r@ =~= typst_text(*value, indent as nat));
    r
}

/// A Typst module that exports `provide()`, whose body is `body`.
pub open spec fn named_export(body: Seq<char>) -> Seq<char> {
    seq!['#', 'l', 'e', 't', ' ', 'p', 'r', 'o', 'v', 'i', 'd', 'e', '(', ')', ' ', '=', ' ', '{', '\n', ' ', ' ']
        + body + seq!['\n', '}', '\n']
}

/// A Typst module that exports `provide()`, returning the literal of `value`.
pub fn to_typst_let(value: &Value) -> (r: String)
    ensures
        r@ == named_export(typst_text(*value, 0)),
{
    let head = "#let provide() = {\n  ";
    let tail = "\n}\n";
    proof {
        reveal_strlit("#let provide() = {\n  ");
        reveal_strlit("\n}\n");
    }
    let mut r = String::new();
    r.append(head);
    let body = to_typst_value(value, 0);
    r.append(body.as_str());
    r.append(tail);
    assert(r@ =~= named_export(typst_text(*value, 0)));
    r
}

/// Transcoding is a function of the tree and the level alone: two results for
/// the same tree at the same level are the same text.
pub proof fn transcoding_is_deterministic(v: Value, indent: nat, first: Seq<char>, second: Seq<char>)
    requires
        first == typst_text(v, indent),
        second == typst_text(v, indent),
    ensures
        first == second,
{
}

/// The lines of a mapping's entries list the first `k` entries, in their order,
/// before the rest.
pub proof fn field_lines_split(entries: Seq<(String, Value)>, k: int, indent: nat)
    requires
        0 < k < entries.len(),
    ensures
        field_lines(entries, indent) == field_lines(entries.take(k), indent) + seq![',', '\n']
            + field_lines(entries.skip(k), indent),
    decreases entries.len(),
{
    let last = entries.last();
    let line = field_line(last.0@, typst_text(last.1, indent), indent);
    if k == entries.len() - 1 {
        assert(entries.take(k) =~= entries.drop_last());
        let rest = entries.skip(k);
        assert(rest.len() == 1 && rest.last() == last);
    } else {
        let front = entries.drop_last();
        field_lines_split(front, k, indent);
        assert(front.take(k) =~= entries.take(k));
        let rest = entries.skip(k);
        assert(rest.drop_last() =~= front.skip(k));
        assert(rest.last() == last);
        assert(field_lines(rest, indent) == field_lines(front.skip(k), indent) + seq![',', '\n'] + line);
        assert(field_lines(entries, indent) =~= field_lines(entries.take(k), indent) + seq![',', '\n']
            + field_lines(entries.skip(k), indent));
    }
}

/// A mapping that is not a tagged variant lists its fields in insertion order:
/// for every split point, the fields before it come first, whatever the keys.
pub proof fn fields_keep_insertion_order(v: Value, indent: nat, k: int)
    requires
        v is Object,
        0 < k < v->Object_0.len(),
    ensures
        typst_text(v, indent) == block(
            field_lines(v->Object_0@.take(k), indent + 1) + seq![',', '\n'] + field_lines(
                v->Object_0@.skip(k),
                indent + 1,
            ),
            indent,
        ),
{
    field_lines_split(v->Object_0@, k, indent + 1);
}

/// A mapping with a single entry is a one-field record under the lowercased key,
/// with its payload one level deeper, exactly when its payload is a number, a string or a mapping; with a boolean,
/// null or list payload it is an ordinary block that keeps the key as written.
pub proof fn single_entry_rule(v: Value, indent: nat)
    requires
        v is Object,
        v->Object_0.len() == 1,
    ensures
        ({
            let key = v->Object_0@[0].0@;
            let payload = v->Object_0@[0].1;
            &&& is_variant_payload(payload) ==> typst_text(v, indent) == record(
                lower_of(key),
                typst_text(payload, indent + 1),
            )
            &&& !is_variant_payload(payload) ==> typst_text(v, indent) == block(
                field_line(key, typst_text(payload, indent + 1), indent + 1),
                indent,
            )
        }),
{
    let entries = v->Object_0@;
    assert(entries.last() == entries[0]);
    assert(field_lines(entries, indent + 1) == field_line(
        entries[0].0@,
        typst_text(entries[0].1, indent + 1),
        indent + 1,
    ));
}

/// A list is always a block, also with a single element: that element stands on
/// a line of its own, followed by a comma.
pub proof fn one_element_list_is_a_block(v: Value, indent: nat)
    requires
        v is Array,
        v->Array_0.len() == 1,
    ensures
        typst_text(v, indent) == block(
            pad(indent + 1) + typst_text(v->Array_0@[0], indent + 1),
            indent,
        ),
{
    let items = v->Array_0@;
    assert(items.last() == items[0]);
    assert(item_lines(items, indent + 1) == pad(indent + 1) + typst_text(items[0], indent + 1));
}

} // verus!
