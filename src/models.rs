//! The small value types of an invoice's data model.

use vstd::prelude::*;

use crate::text::digits;

verus! {

/// A part of the invoice data that an edit can be limited to.
#[derive(Clone, Copy, Debug, PartialEq, Eq, Structural)]
pub enum DataSelector {
    All,
    Vendor,
    Client,
    Information,
    PaymentInfo,
    ServiceFees,
    ExpensedMonths,
}

impl DataSelector {
    /// Whether editing `self` edits `target`: `All` covers every part, any
    /// other selector only itself.
    pub fn includes(&self, target: DataSelector) -> (r: bool)
        ensures
            r == (*self == DataSelector::All || *self == target),
    {
        match self {
            DataSelector::All => true,
            DataSelector::Vendor => matches!(target, DataSelector::Vendor),
            DataSelector::Client => matches!(target, DataSelector::Client),
            DataSelector::Information => matches!(target, DataSelector::Information),
            DataSelector::PaymentInfo => matches!(target, DataSelector::PaymentInfo),
            DataSelector::ServiceFees => matches!(target, DataSelector::ServiceFees),
            DataSelector::ExpensedMonths => matches!(target, DataSelector::ExpensedMonths),
        }
    }
}

/// Localised labels of the invoice's information block.
#[derive(Clone, Debug)]
pub struct L18nInvoiceInfo {
    pub purchase_order: String,
    pub invoice_identifier: String,
    pub invoice_date: String,
    pub due_date: String,
    pub client_contact: String,
    pub vendor_contact: String,
    pub terms: String,
}

impl L18nInvoiceInfo {
    /// The English labels.
    pub fn english() -> (r: Self)
        ensures
            r.purchase_order@ == "Purchase order:"@,
            r.invoice_identifier@ == "Invoice no:"@,
            r.invoice_date@ == "Invoice date:"@,
            r.due_date@ == "Due date:"@,
            r.client_contact@ == "For the attention of:"@,
            r.vendor_contact@ == "Our reference:"@,
            r.terms@ == "Terms"@,
    {
        L18nInvoiceInfo {
            purchase_order: String::from_str("Purchase order:"),
            invoice_identifier: String::from_str("Invoice no:"),
            invoice_date: String::from_str("Invoice date:"),
            due_date: String::from_str("Due date:"),
            client_contact: String::from_str("For the attention of:"),
            vendor_contact: String::from_str("Our reference:"),
            terms: String::from_str("Terms"),
        }
    }
}

/// A day of a month, from 1 to 31.
#[derive(Clone, Copy, Debug, PartialEq, Eq, Structural)]
pub struct Day {
    value: u8,
}

impl Day {
    pub closed spec fn value_spec(self) -> u8 {
        self.value
    }

    pub open spec fn well_formed(self) -> bool {
        1 <= self.value_spec() <= 31
    }

    /// The day `n`, where `n` is from 1 to 31.
    pub fn try_new(n: u8) -> (r: Option<Day>)
        ensures
            r matches Some(d) ==> d.value_spec() == n && d.well_formed(),
            r is None <==> !(1 <= n <= 31),
    {
        if 1 <= n && n <= 31 {
            Some(Day { value: n })
        } else {
            None
        }
    }

    pub fn value(&self) -> (r: u8)
        ensures
            r == self.value_spec(),
    {
        self.value
    }
}

/// Payment due a number of days after the invoice date.
#[derive(Clone, Copy, Debug)]
pub struct NetDays {
    pub due_in: Day,
}

impl NetDays {
    /// Payment due in 30 days.
    pub fn net30() -> (r: Self)
        ensures
            r.due_in.value_spec() == 30,
            r.due_in.well_formed(),
    {
        NetDays { due_in: Day { value: 30 } }
    }
}

/// The payment terms of an invoice.
#[derive(Clone, Copy, Debug)]
pub enum PaymentTerms {
    Net(NetDays),
}

impl PaymentTerms {
    /// Net payment due in 30 days.
    pub fn net30() -> (r: Self)
        ensures
            r is Net && r->Net_0.due_in.value_spec() == 30,
    {
        PaymentTerms::Net(NetDays::net30())
    }
}

impl Default for PaymentTerms {
    /// Net payment due in 30 days.
    fn default() -> (r: Self)
        ensures
            r is Net && r->Net_0.due_in.value_spec() == 30,
    {
        PaymentTerms::net30()
    }
}

/// A purchase order number agreed between vendor and client.
#[derive(Clone, Debug)]
pub struct PurchaseOrder(pub String);

impl PurchaseOrder {
    pub fn sample() -> (r: Self)
        ensures
            r.0@ == "PO-12345"@,
    {
        PurchaseOrder(String::from_str("PO-12345"))
    }
}

/// The street lines of a postal address.
#[derive(Clone, Debug)]
pub struct StreetAddress {
    pub line_1: String,
    pub line_2: String,
    pub line_3: String,
}

/// A colour given by its red, green and blue channels.
#[derive(Clone, Copy, Debug, PartialEq, Eq, Structural)]
pub struct HexColor {
    pub red: u8,
    pub green: u8,
    pub blue: u8,
}

impl Default for HexColor {
    /// The default emphasis colour, `#3ed6c0`.
    fn default() -> (r: HexColor)
        ensures
            r == (HexColor { red: 0x3e, green: 0xd6, blue: 0xc0 }),
    {
        HexColor { red: 0x3e, green: 0xd6, blue: 0xc0 }
    }
}

/// The value of a hexadecimal digit, either case.
pub open spec fn hex_value(c: char) -> Option<nat> {
    if '0' <= c <= '9' {
        Some((c as nat - '0' as nat) as nat)
    } else if 'a' <= c <= 'f' {
        Some((c as nat - 'a' as nat + 10) as nat)
    } else if 'A' <= c <= 'F' {
        Some((c as nat - 'A' as nat + 10) as nat)
    } else {
        None
    }
}

/// The byte written by two hexadecimal digits.
pub open spec fn hex_byte(hi: char, lo: char) -> Option<u8> {
    match (hex_value(hi), hex_value(lo)) {
        (Some(h), Some(l)) => Some((h * 16 + l) as u8),
        _ => None,
    }
}

/// The lowercase hexadecimal digit of `d`.
pub open spec fn hex_digit(d: nat) -> char {
    if d < 10 {
        digits()[d as int]
    } else {
        seq!['a', 'b', 'c', 'd', 'e', 'f'][d - 10]
    }
}

/// `#rrggbb` in lowercase digits.
pub open spec fn hex_text(c: HexColor) -> Seq<char> {
    seq![
        '#',
        hex_digit(c.red as nat / 16),
        hex_digit(c.red as nat % 16),
        hex_digit(c.green as nat / 16),
        hex_digit(c.green as nat % 16),
        hex_digit(c.blue as nat / 16),
        hex_digit(c.blue as nat % 16),
    ]
}

/// The colour that `s` writes as `#` and six hexadecimal digits.
pub open spec fn parse_hex_color(s: Seq<char>) -> Option<HexColor> {
    if s.len() == 7 && s[0] == '#' {
        match (hex_byte(s[1], s[2]), hex_byte(s[3], s[4]), hex_byte(s[5], s[6])) {
            (Some(red), Some(green), Some(blue)) => Some(HexColor { red, green, blue }),
            _ => None,
        }
    } else {
        None
    }
}

fn hex_value_of(c: char) -> (r: Option<u8>)
    ensures
        r matches Some(v) ==> hex_value(c) == Some(v as nat) && v < 16,
        r is None ==> hex_value(c) is None,
{
    if '0' <= c && c <= '9' {
        Some((c as u32 - '0' as u32) as u8)
    } else if 'a' <= c && c <= 'f' {
        Some((c as u32 - 'a' as u32 + 10) as u8)
    } else if 'A' <= c && c <= 'F' {
        Some((c as u32 - 'A' as u32 + 10) as u8)
    } else {
        None
    }
}

fn hex_byte_of(hi: char, lo: char) -> (r: Option<u8>)
    ensures
        r == hex_byte(hi, lo),
{
    match (hex_value_of(hi), hex_value_of(lo)) {
        (Some(h), Some(l)) => Some(h * 16 + l),
        _ => None,
    }
}

fn hex_digit_of(d: u8) -> (c: char)
    requires
        d < 16,
    ensures
        c == hex_digit(d as nat),
{
    match d {
        0 => '0',
        1 => '1',
        2 => '2',
        3 => '3',
        4 => '4',
        5 => '5',
        6 => '6',
        7 => '7',
        8 => '8',
        9 => '9',
        10 => 'a',
        11 => 'b',
        12 => 'c',
        13 => 'd',
        14 => 'e',
        _ => 'f',
    }
}

/// Why a text is not a value of the data model.
#[derive(Clone, Debug)]
pub enum ParseError {
    InvalidHexColor { invalid_string: String },
    FailedToParsePaymentTermsNetDays { invalid_string: String },
}

impl HexColor {
    /// Parses `#RRGGBB`: a `#` and six hexadecimal digits, either case.
    pub fn from_str(s: &str) -> (r: Result<HexColor, ParseError>)
        ensures
            match r {
                Ok(c) => parse_hex_color(s@) == Some(c),
                Err(ParseError::InvalidHexColor { invalid_string }) => parse_hex_color(s@) is None
                    && invalid_string@ == s@,
                Err(_) => false,
            },
    {
        let n = s.unicode_len();
        if n != 7 || s.get_char(0) != '#' {
            return Err(ParseError::InvalidHexColor { invalid_string: s.to_owned() });
        }
        let red = hex_byte_of(s.get_char(1), s.get_char(2));
        let green = hex_byte_of(s.get_char(3), s.get_char(4));
        let blue = hex_byte_of(s.get_char(5), s.get_char(6));
        match (red, green, blue) {
            (Some(red), Some(green), Some(blue)) => Ok(HexColor { red, green, blue }),
            _ => Err(ParseError::InvalidHexColor { invalid_string: s.to_owned() }),
        }
    }

    /// The colour written as `#rrggbb`, in lowercase digits.
    pub fn to_hex_string(&self) -> (r: String)
        ensures
            r@ == hex_text(*self),
    {
        let mut r = String::new();
        r.push('#');
        r.push(hex_digit_of(self.red / 16));
        r.push(hex_digit_of(self.red % 16));
        r.push(hex_digit_of(self.green / 16));
        r.push(hex_digit_of(self.green % 16));
        r.push(hex_digit_of(self.blue / 16));
        r.push(hex_digit_of(self.blue % 16));
        assert(r@ =~= hex_text(*self));
        r
    }

    /// The sample emphasis colour, `#e6007a`.
    pub fn sample() -> (r: HexColor)
        ensures
            r == (HexColor { red: 0xe6, green: 0x00, blue: 0x7a }),
    {
        HexColor { red: 0xe6, green: 0x00, blue: 0x7a }
    }
}

proof fn hex_digit_value(d: nat)
    requires
        d < 16,
    ensures
        hex_value(hex_digit(d)) == Some(d),
{
    if d >= 10 {
        assert(seq!['a', 'b', 'c', 'd', 'e', 'f'][d - 10] as nat == 'a' as nat + (d - 10));
    } else {
        assert(digits()[d as int] as nat == '0' as nat + d);
    }
}

/// Parsing the text that a colour is written as gives that colour back.
pub proof fn hex_text_round_trip(c: HexColor)
    ensures
        parse_hex_color(hex_text(c)) == Some(c),
{
    let t = hex_text(c);
    hex_digit_value(c.red as nat / 16);
    hex_digit_value(c.red as nat % 16);
    hex_digit_value(c.green as nat / 16);
    hex_digit_value(c.green as nat % 16);
    hex_digit_value(c.blue as nat / 16);
    hex_digit_value(c.blue as nat % 16);
    assert(hex_byte(t[1], t[2]) == Some(c.red));
    assert(hex_byte(t[3], t[4]) == Some(c.green));
    assert(hex_byte(t[5], t[6]) == Some(c.blue));
}

/// The marker that precedes the number of days: `Net ` with its space.
pub open spec fn net_marker() -> Seq<char> {
    seq!['N', 'e', 't', ' ']
}

pub open spec fn marker_at(s: Seq<char>, i: int) -> bool {
    0 <= i && i + 4 <= s.len() && s.subrange(i, i + 4) == net_marker()
}

/// The first position at or after `from` where the marker starts.
pub open spec fn find_marker(s: Seq<char>, from: int) -> Option<int>
    decreases s.len() - from,
{
    if from < 0 || from + 4 > s.len() {
        None
    } else if marker_at(s, from) {
        Some(from)
    } else {
        find_marker(s, from + 1)
    }
}

/// The text between the first marker and the next one, or the end: the second
/// piece when `s` is split at every marker.
pub open spec fn net_days_text(s: Seq<char>) -> Option<Seq<char>> {
    match find_marker(s, 0) {
        None => None,
        Some(i) => match find_marker(s, i + 4) {
            Some(j) => Some(s.subrange(i + 4, j)),
            None => Some(s.subrange(i + 4, s.len() as int)),
        },
    }
}

pub open spec fn is_digit(c: char) -> bool {
    '0' <= c <= '9'
}

/// The number that a run of decimal digits writes.
pub open spec fn digits_value(t: Seq<char>) -> nat
    decreases t.len(),
{
    if t.len() == 0 {
        0
    } else {
        digits_value(t.drop_last()) * 10 + (t.last() as nat - '0' as nat) as nat
    }
}

/// The day that `t` writes in decimal digits, from 1 to 31.
pub open spec fn parse_day(t: Seq<char>) -> Option<nat> {
    if t.len() > 0 && (forall|k: int| 0 <= k < t.len() ==> is_digit(#[trigger] t[k]))
        && 1 <= digits_value(t) <= 31 {
        Some(digits_value(t))
    } else {
        None
    }
}

/// The number of days that `s` gives as `Net {days}`.
pub open spec fn parse_net_days(s: Seq<char>) -> Option<nat> {
    match net_days_text(s) {
        Some(t) => parse_day(t),
        None => None,
    }
}

fn chars_of(s: &str) -> (r: Vec<char>)
    ensures
        r@ == s@,
{
    let mut r: Vec<char> = Vec::new();
    for c in it: s.chars()
        invariant
            it.seq() == s@,
            r@ == s@.take(it.index() as int),
    {
        r.push(c);
        proof {
            assert(r@ =~= s@.take(it.index() as int + 1));
        }
    }
    assert(s@.take(s@.len() as int) =~= s@);
    r
}

fn find_marker_from(s: &Vec<char>, from: usize) -> (r: Option<usize>)
    ensures
        match r {
            Some(i) => find_marker(s@, from as int) == Some(i as int),
            None => find_marker(s@, from as int) is None,
        },
        r matches Some(i) ==> from <= i && i + 4 <= s.len(),
{
    let mut i = from;
    while i < s.len() && s.len() - i >= 4
        invariant
            from <= i,
            find_marker(s@, from as int) == find_marker(s@, i as int),
        decreases s.len() - i,
    {
        if s[i] == 'N' && s[i + 1] == 'e' && s[i + 2] == 't' && s[i + 3] == ' ' {
            assert(s@.subrange(i as int, i + 4) =~= net_marker());
            return Some(i);
        }
        assert(!marker_at(s@, i as int)) by {
            if marker_at(s@, i as int) {
                assert(s@.subrange(i as int, i + 4)[0] == s@[i as int]);
                assert(s@.subrange(i as int, i + 4)[1] == s@[i + 1]);
                assert(s@.subrange(i as int, i + 4)[2] == s@[i + 2]);
                assert(s@.subrange(i as int, i + 4)[3] == s@[i + 3]);
            }
        }
        i = i + 1;
    }
    None
}

/// The day written in `t[start..end]`.
fn day_in(t: &Vec<char>, start: usize, end: usize) -> (r: Option<u8>)
    requires
        start <= end <= t.len(),
    ensures
        match r {
            Some(d) => parse_day(t@.subrange(start as int, end as int)) == Some(d as nat),
            None => parse_day(t@.subrange(start as int, end as int)) is None,
        },
{
    let ghost whole = t@.subrange(start as int, end as int);
    if start == end {
        return None;
    }
    let mut value: u64 = 0;
    let mut k = start;
    while k < end
        invariant
            start <= k <= end <= t.len(),
            whole == t@.subrange(start as int, end as int),
            forall|m: int| 0 <= m < k - start ==> is_digit(#[trigger] whole[m]),
            value as nat == if digits_value(whole.take(k - start) ) < 32 {
                digits_value(whole.take(k - start))
            } else {
                32
            },
        decreases end - k,
    {
        let c = t[k];
        if !('0' <= c && c <= '9') {
            assert(!is_digit(whole[k - start]));
            return None;
        }
        let d = (c as u32 - '0' as u32) as u64;
        proof {
            let p = whole.take(k - start + 1);
            assert(p.drop_last() =~= whole.take(k - start));
            assert(p.last() == c);
        }
        if value < 32 {
            value = value * 10 + d;
            if value > 32 {
                value = 32;
            }
        }
        k = k + 1;
    }
    assert(whole.take(end - start) =~= whole);
    if 1 <= value && value <= 31 {
        Some(value as u8)
    } else {
        None
    }
}

impl NetDays {
    /// Parses `Net {days}`: the days are what follows the first `Net ` up to the
    /// next one or the end, written in decimal digits, from 1 to 31.
    pub fn from_str(s: &str) -> (r: Result<NetDays, ParseError>)
        ensures
            match r {
                Ok(n) => parse_net_days(s@) == Some(n.due_in.value_spec() as nat)
                    && n.due_in.well_formed(),
                Err(ParseError::FailedToParsePaymentTermsNetDays { invalid_string }) =>
                    parse_net_days(s@) is None && invalid_string@ == s@,
                Err(_) => false,
            },
    {
        let t = chars_of(s);
        let parsed = match find_marker_from(&t, 0) {
            None => None,
            Some(i) => {
                let start = i + 4;
                let end = match find_marker_from(&t, start) {
                    Some(j) => j,
                    None => t.len(),
                };
                proof {
                    if end < t.len() {
                        assert(find_marker(t@, start as int) == Some(end as int));
                    }
                }
                day_in(&t, start, end)
            },
        };
        match parsed {
            Some(d) => Ok(NetDays { due_in: Day { value: d } }),
            None => Err(ParseError::FailedToParsePaymentTermsNetDays { invalid_string: s.to_owned() }),
        }
    }
}

/// A year and a month of it, from 1 to 12.
#[derive(Clone, Copy, Debug, PartialEq, Eq, Structural)]
pub struct YearAndMonth {
    pub year: u16,
    pub month: u8,
}

/// An invoice number together with the month in which it was used; later
/// invoice numbers count on from it.
#[derive(Clone, Copy, Debug, PartialEq, Eq, Structural)]
pub struct TimestampedInvoiceNumber {
    pub offset: u16,
    pub month: YearAndMonth,
}

impl TimestampedInvoiceNumber {
    /// Invoice number 17, used in October 1905.
    pub fn sample() -> (r: Self)
        ensures
            r == (TimestampedInvoiceNumber { offset: 17, month: YearAndMonth { year: 1905, month: 10 } }),
    {
        TimestampedInvoiceNumber { offset: 17, month: YearAndMonth { year: 1905, month: 10 } }
    }
}

} // verus!
