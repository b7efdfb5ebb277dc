//! Compact JSON text: strings, integers and objects.

use vstd::prelude::*;

verus! {

/// The JSON string literal (quoted and escaped) that serde_json writes for `s`.
pub uninterp spec fn json_string_of(s: Seq<char>) -> Seq<char>;

/// Relies on `serde_json::to_string` over a `str`: it writes the quoted and
/// escaped literal, and serializing a `str` into memory cannot fail.
#[verifier::external_body]
pub(crate) fn json_string(s: &str) -> (r: String)
    ensures
        r@ == json_string_of(s@),
{
    serde_json::to_string(s).unwrap()
}

/// The text of one decimal digit.
pub open spec fn digit_text(d: nat) -> Seq<char> {
    if d == 0 {
        "0"@
    } else if d == 1 {
        "1"@
    } else if d == 2 {
        "2"@
    } else if d == 3 {
        "3"@
    } else if d == 4 {
        "4"@
    } else if d == 5 {
        "5"@
    } else if d == 6 {
        "6"@
    } else if d == 7 {
        "7"@
    } else if d == 8 {
        "8"@
    } else {
        "9"@
    }
}

/// Decimal notation of a natural number, without leading zeros.
pub open spec fn nat_text(n: nat) -> Seq<char>
    decreases n,
{
    if n < 10 {
        digit_text(n)
    } else {
        nat_text(n / 10) + digit_text(n % 10)
    }
}

/// Decimal notation of an integer, with a leading `-` when negative.
pub open spec fn int_text(v: int) -> Seq<char> {
    if v < 0 {
        "-"@ + nat_text((-v) as nat)
    } else {
        nat_text(v as nat)
    }
}

fn digit_str(d: u64) -> (r: &'static str)
    requires
        d < 10,
    ensures
        r@ == digit_text(d as nat),
{
    match d {
        0 => "0",
        1 => "1",
        2 => "2",
        3 => "3",
        4 => "4",
        5 => "5",
        6 => "6",
        7 => "7",
        8 => "8",
        _ => "9",
    }
}

/// The JSON number text of an unsigned integer.
pub fn decimal_u64(n: u64) -> (r: String)
    ensures
        r@ == nat_text(n as nat),
    decreases n,
{
    if n < 10 {
        String::from_str(digit_str(n))
    } else {
        let mut s = decimal_u64(n / 10);
        s.append(digit_str(n % 10));
        s
    }
}

/// The JSON number text of a signed integer.
pub fn decimal_i64(v: i64) -> (r: String)
    ensures
        r@ == int_text(v as int),
{
    if v < 0 {
        let magnitude: u64 = (-(v as i128)) as u64;
        let digits = decimal_u64(magnitude);
        let s = String::from_str("-");
        s.concat(digits.as_str())
    } else {
        decimal_u64(v as u64)
    }
}

/// One `"key":value` member of an object; the value is already JSON text.
pub open spec fn member_text(field: (Seq<char>, Seq<char>)) -> Seq<char> {
    json_string_of(field.0) + ":"@ + field.1
}

/// The members of an object, separated by commas.
pub open spec fn members_text(fields: Seq<(Seq<char>, Seq<char>)>) -> Seq<char>
    decreases fields.len(),
{
    if fields.len() == 0 {
        Seq::empty()
    } else if fields.len() == 1 {
        member_text(fields[0])
    } else {
        members_text(fields.drop_last()) + ","@ + member_text(fields.last())
    }
}

/// A compact JSON object with the given members, in order.
pub open spec fn object_text(fields: Seq<(Seq<char>, Seq<char>)>) -> Seq<char> {
    "{"@ + members_text(fields) + "}"@
}

/// The view of a list of (key, value text) pairs.
pub open spec fn fields_view(fields: Seq<(String, String)>) -> Seq<(Seq<char>, Seq<char>)> {
    fields.map_values(|f: (String, String)| (f.0@, f.1@))
}

/// Writes a compact JSON object whose member values are already JSON text.
pub fn json_object(fields: &Vec<(String, String)>) -> (r: String)
    ensures
        r@ == object_text(fields_view(fields@)),
{
    let mut body = String::new();
    let mut i: usize = 0;
    while i < fields.len()
        invariant
            i <= fields.len(),
            body@ == members_text(fields_view(fields@.subrange(0, i as int))),
        decreases fields.len() - i,
    {
        let ghost prefix = fields_view(fields@.subrange(0, i as int));
        let ghost next = fields_view(fields@.subrange(0, i + 1));
        assert(next.drop_last() =~= prefix);
        if i > 0 {
            body.append(",");
        }
        let key = json_string(fields[i].0.as_str());
        body.append(key.as_str());
        body.append(":");
        body.append(fields[i].1.as_str());
        i = i + 1;
    }
    assert(fields@.subrange(0, fields.len() as int) =~= fields@);
    let open = String::from_str("{");
    let r = open.concat(body.as_str());
    r.concat("}")
}

} // verus!
