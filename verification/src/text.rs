//! Text for a reader: numbers, byte strings and records as they are shown
//! when a value is printed for inspection.

use bstr::ByteSlice;
use vstd::prelude::*;
use vstd::string::*;

verus! {

/// The digit for a value below sixteen, in lower case.
pub open spec fn digit_text(value: int) -> Seq<char> {
    if value == 0 {
        "0"@
    } else if value == 1 {
        "1"@
    } else if value == 2 {
        "2"@
    } else if value == 3 {
        "3"@
    } else if value == 4 {
        "4"@
    } else if value == 5 {
        "5"@
    } else if value == 6 {
        "6"@
    } else if value == 7 {
        "7"@
    } else if value == 8 {
        "8"@
    } else if value == 9 {
        "9"@
    } else if value == 10 {
        "a"@
    } else if value == 11 {
        "b"@
    } else if value == 12 {
        "c"@
    } else if value == 13 {
        "d"@
    } else if value == 14 {
        "e"@
    } else {
        "f"@
    }
}

/// A 16-bit number as `0x` and its four hexadecimal digits in lower case,
/// leading zeros included.
pub open spec fn hex4_text(value: u16) -> Seq<char> {
    "0x"@ + digit_text(value as int / 4096) + digit_text((value as int / 256) % 16) + digit_text(
        (value as int / 16) % 16,
    ) + digit_text(value as int % 16)
}

/// A natural number in decimal digits, without leading zeros.
pub open spec fn digits_text(value: nat) -> Seq<char>
    decreases value,
{
    if value < 10 {
        digit_text(value as int)
    } else {
        digits_text(value / 10) + digit_text((value % 10) as int)
    }
}

/// An integer in decimal digits, with a minus sign in front where it is
/// negative.
pub open spec fn decimal_text(value: int) -> Seq<char> {
    if value < 0 {
        "-"@ + digits_text((-value) as nat)
    } else {
        digits_text(value as nat)
    }
}

/// A byte string as `bstr` shows it for inspection: between double quotes,
/// as text where the bytes are UTF-8, with escapes for what cannot be shown
/// as it is.
pub uninterp spec fn bstr_debug_text(bytes: Seq<u8>) -> Seq<char>;

/// Formats a byte string with the `Debug` impl of `bstr::BStr`, reached by
/// `bstr::ByteSlice::as_bstr`. Trusted: that the text depends on the bytes
/// alone. What the text is stays unstated here.
#[verifier::external_body]
pub(crate) fn bstr_debug(bytes: &[u8]) -> (text: String)
    ensures
        text@ == bstr_debug_text(bytes@),
{
    format!("{:?}", bytes.as_bstr())
}

/// A text between double quotes.
pub open spec fn quoted_text(text: Seq<char>) -> Seq<char> {
    "\""@ + text + "\""@
}

/// A flag as the word `true` or `false`.
pub open spec fn flag_text(flag: bool) -> Seq<char> {
    if flag {
        "true"@
    } else {
        "false"@
    }
}

/// A value that may be absent, given the text of the value: `None`, or the
/// text between `Some(` and `)`.
pub open spec fn optional_text(value: Option<Seq<char>>) -> Seq<char> {
    match value {
        Some(text) => "Some("@ + text + ")"@,
        None => "None"@,
    }
}

/// The fields of a record, each as its name, a colon and the text of its
/// value. The first follows ` { `, each other one `, `.
pub open spec fn fields_text(fields: Seq<(Seq<char>, Seq<char>)>) -> Seq<char>
    decreases fields.len(),
{
    if fields.len() == 0 {
        Seq::empty()
    } else {
        let front = fields.drop_last();
        let separator = if front.len() == 0 {
            " { "@
        } else {
            ", "@
        };
        fields_text(front) + separator + fields.last().0 + ": "@ + fields.last().1
    }
}

/// A record on one line: its name, and where it has fields, those between
/// braces.
pub open spec fn record_text(name: Seq<char>, fields: Seq<(Seq<char>, Seq<char>)>) -> Seq<char> {
    if fields.len() == 0 {
        name
    } else {
        name + fields_text(fields) + " }"@
    }
}

/// Names and values of fields as plain values.
pub open spec fn field_views(fields: Seq<(String, String)>) -> Seq<(Seq<char>, Seq<char>)> {
    fields.map_values(|field: (String, String)| (field.0@, field.1@))
}

/// The digit for a value below sixteen, in lower case.
pub fn digit(value: u8) -> (r: &'static str)
    requires
        value < 16,
    ensures
        r@ == digit_text(value as int),
{
    if value == 0 {
        "0"
    } else if value == 1 {
        "1"
    } else if value == 2 {
        "2"
    } else if value == 3 {
        "3"
    } else if value == 4 {
        "4"
    } else if value == 5 {
        "5"
    } else if value == 6 {
        "6"
    } else if value == 7 {
        "7"
    } else if value == 8 {
        "8"
    } else if value == 9 {
        "9"
    } else if value == 10 {
        "a"
    } else if value == 11 {
        "b"
    } else if value == 12 {
        "c"
    } else if value == 13 {
        "d"
    } else if value == 14 {
        "e"
    } else {
        "f"
    }
}

/// A 16-bit number as `0x` and its four hexadecimal digits in lower case,
/// leading zeros included.
pub fn hex4(value: u16) -> (r: String)
    ensures
        r@ == hex4_text(value),
{
    let mut r = String::from_str("0x");
    r.append(digit((value / 4096) as u8));
    r.append(digit(((value / 256) % 16) as u8));
    r.append(digit(((value / 16) % 16) as u8));
    r.append(digit((value % 16) as u8));
    r
}

/// A number in decimal digits, without leading zeros.
pub fn digits(value: u64) -> (r: String)
    ensures
        r@ == digits_text(value as nat),
    decreases value,
{
    if value < 10 {
        String::from_str(digit(value as u8))
    } else {
        let mut r = digits(value / 10);
        r.append(digit((value % 10) as u8));
        r
    }
}

/// An integer in decimal digits, with a minus sign in front where it is
/// negative.
pub fn decimal(value: i64) -> (r: String)
    ensures
        r@ == decimal_text(value as int),
{
    if value < 0 {
        let magnitude: u64 = (-(value + 1)) as u64 + 1;
        let mut r = String::from_str("-");
        r.append(digits(magnitude).as_str());
        r
    } else {
        digits(value as u64)
    }
}

/// A text between double quotes.
pub fn quoted(text: &str) -> (r: String)
    ensures
        r@ == quoted_text(text@),
{
    let mut r = String::from_str("\"");
    r.append(text);
    r.append("\"");
    r
}

/// A flag as the word `true` or `false`.
pub fn flag_word(flag: bool) -> (r: String)
    ensures
        r@ == flag_text(flag),
{
    if flag {
        String::from_str("true")
    } else {
        String::from_str("false")
    }
}

/// A value that may be absent, given the text of the value: `None`, or the
/// text between `Some(` and `)`.
pub fn optional(value: Option<&str>) -> (r: String)
    ensures
        r@ == optional_text(
            match value {
                Some(text) => Some(text@),
                None => None,
            },
        ),
{
    match value {
        Some(text) => {
            let mut r = String::from_str("Some(");
            r.append(text);
            r.append(")");
            r
        },
        None => String::from_str("None"),
    }
}

/// A record on one line: its name, and where it has fields, each as its
/// name, a colon and the text of its value, between braces and parted by
/// commas.
pub fn record(name: &str, fields: &Vec<(String, String)>) -> (r: String)
    ensures
        r@ == record_text(name@, field_views(fields@)),
{
    let mut r = String::from_str(name);
    let ghost views = field_views(fields@);
    let mut i: usize = 0;
    while i < fields.len()
        invariant
            i <= fields@.len(),
            views == field_views(fields@),
            r@ == name@ + fields_text(views.take(i as int)),
        decreases fields@.len() - i,
    {
        let ghost before = views.take(i as int);
        let ghost after = views.take(i + 1);
        assert(after.drop_last() =~= before);
        if i == 0 {
            r.append(" { ");
        } else {
            r.append(", ");
        }
        r.append(fields[i].0.as_str());
        r.append(": ");
        r.append(fields[i].1.as_str());
        i += 1;
    }
    assert(views.take(fields@.len() as int) =~= views);
    if fields.len() > 0 {
        r.append(" }");
    }
    r
}

} // verus!
