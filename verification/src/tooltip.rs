//! The tooltip formatter: given the trigger payload that the charting
//! runtime hands to a tooltip callback, produce the label text shown for
//! the hovered data point.
//!
//! The callback interface at the chart boundary is fixed: three positional
//! arguments (the trigger payload and two pointer-position values) and a
//! string result. The label for a payload whose first entry carries the
//! data value `v` is the decimal rendering of `v` followed by the literal
//! suffix `" Charming"`.

use vstd::prelude::*;

verus! {

/// The decimal digit character for `d` (`0 <= d <= 9`).
pub open spec fn digit_char(d: int) -> char {
    if d == 0 {
        '0'
    } else if d == 1 {
        '1'
    } else if d == 2 {
        '2'
    } else if d == 3 {
        '3'
    } else if d == 4 {
        '4'
    } else if d == 5 {
        '5'
    } else if d == 6 {
        '6'
    } else if d == 7 {
        '7'
    } else if d == 8 {
        '8'
    } else {
        '9'
    }
}

/// The decimal digit string of a non-negative number, most significant
/// digit first, with no leading zeros (`0` itself is rendered as `"0"`).
pub open spec fn dec_digits(n: nat) -> Seq<char>
    decreases n,
{
    if n < 10 {
        seq![digit_char(n as int)]
    } else {
        dec_digits(n / 10).push(digit_char((n % 10) as int))
    }
}

/// The decimal rendering of an integer: a leading `'-'` for negative
/// values, then the digit string of the magnitude.
pub open spec fn decimal_of(v: int) -> Seq<char> {
    if v < 0 {
        seq!['-'] + dec_digits((-v) as nat)
    } else {
        dec_digits(v as nat)
    }
}

/// The fixed suffix every tooltip label ends with.
pub open spec fn tooltip_suffix() -> Seq<char> {
    seq![' ', 'C', 'h', 'a', 'r', 'm', 'i', 'n', 'g']
}

/// The full tooltip label for a data value.
pub open spec fn tooltip_text(v: int) -> Seq<char> {
    decimal_of(v) + tooltip_suffix()
}

/// One entry of the tooltip trigger payload, holding the nested data
/// value of the hovered point.
pub struct TriggerEntry {
    pub data: i64,
}

fn digit_str(d: u64) -> (r: &'static str)
    requires
        d < 10,
    ensures
        r@ == seq![digit_char(d as int)],
{
    if d == 0 {
        proof {
            reveal_strlit("0");
            assert("0"@ =~= seq![digit_char(0)]);
        }
        "0"
    } else if d == 1 {
        proof {
            reveal_strlit("1");
            assert("1"@ =~= seq![digit_char(1)]);
        }
        "1"
    } else if d == 2 {
        proof {
            reveal_strlit("2");
            assert("2"@ =~= seq![digit_char(2)]);
        }
        "2"
    } else if d == 3 {
        proof {
            reveal_strlit("3");
            assert("3"@ =~= seq![digit_char(3)]);
        }
        "3"
    } else if d == 4 {
        proof {
            reveal_strlit("4");
            assert("4"@ =~= seq![digit_char(4)]);
        }
        "4"
    } else if d == 5 {
        proof {
            reveal_strlit("5");
            assert("5"@ =~= seq![digit_char(5)]);
        }
        "5"
    } else if d == 6 {
        proof {
            reveal_strlit("6");
            assert("6"@ =~= seq![digit_char(6)]);
        }
        "6"
    } else if d == 7 {
        proof {
            reveal_strlit("7");
            assert("7"@ =~= seq![digit_char(7)]);
        }
        "7"
    } else if d == 8 {
        proof {
            reveal_strlit("8");
            assert("8"@ =~= seq![digit_char(8)]);
        }
        "8"
    } else {
        proof {
            reveal_strlit("9");
            assert("9"@ =~= seq![digit_char(9)]);
        }
        "9"
    }
}

fn push_decimal(out: &mut String, n: u64)
    ensures
        final(out)@ == old(out)@ + dec_digits(n as nat),
    decreases n,
{
    let ghost entry = out@;
    if n >= 10 {
        push_decimal(out, n / 10);
    }
    let d: u64 = n % 10;
    out.append(digit_str(d));
    proof {
        if n >= 10 {
            assert(dec_digits(n as nat) == dec_digits((n / 10) as nat).push(
                digit_char((n % 10) as int),
            ));
        }
        assert(out@ =~= entry + dec_digits(n as nat));
    }
}

/// The tooltip label for a single data value: its decimal rendering
/// followed by `" Charming"`.
pub fn format_data_value(v: i64) -> (r: String)
    ensures
        r@ == tooltip_text(v as int),
{
    let mut out = String::new();
    if v < 0 {
        out.append("-");
        proof {
            reveal_strlit("-");
            assert("-"@ =~= seq!['-']);
        }
        let mag: u64 = if v == i64::MIN {
            9223372036854775808u64
        } else {
            (-v) as u64
        };
        push_decimal(&mut out, mag);
    } else {
        push_decimal(&mut out, v as u64);
    }
    out.append(" Charming");
    proof {
        reveal_strlit(" Charming");
        assert(" Charming"@ =~= tooltip_suffix());
        assert(out@ =~= tooltip_text(v as int));
    }
    out
}

/// The three-argument tooltip callback. The payload is the trigger
/// payload; the two pointer-position values do not influence the label.
/// A payload with no entries has no hovered point, so no label is
/// produced.
pub fn format_tooltip(payload: &Vec<TriggerEntry>, _pointer_x: i64, _pointer_y: i64) -> (r: Option<
    String,
>)
    ensures
        payload@.len() > 0 ==> (r matches Some(s) && s@ == tooltip_text(payload@[0].data as int)),
        payload@.len() == 0 ==> r is None,
{
    if payload.len() > 0 {
        Some(format_data_value(payload[0].data))
    } else {
        None
    }
}

/// The shape every tooltip label shares: the decimal rendering of the
/// data value is a prefix, and the literal `" Charming"` is the suffix
/// that makes up the rest.
pub proof fn lemma_tooltip_text_shape(v: int)
    ensures
        tooltip_text(v).len() == decimal_of(v).len() + 9,
        tooltip_text(v).take(decimal_of(v).len() as int) == decimal_of(v),
        tooltip_text(v).skip(decimal_of(v).len() as int) == " Charming"@,
{
    reveal_strlit(" Charming");
    assert(" Charming"@ =~= tooltip_suffix());
    assert(tooltip_text(v).take(decimal_of(v).len() as int) =~= decimal_of(v));
    assert(tooltip_text(v).skip(decimal_of(v).len() as int) =~= tooltip_suffix());
}

} // verus!
