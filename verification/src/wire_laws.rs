//! The wire form loses nothing: a frame determines the event that it encodes.

use crate::coordinate::{is_number_char, lemma_number_chars};
use crate::device::{DeviceKind, EventView, ValueView};
use crate::wire::{escape, escaped, frame_text, hex_digit, json_string};
use vstd::prelude::*;

verus! {

/// Whether `c` stands for itself inside a JSON string.
pub open spec fn is_plain(c: char) -> bool {
    c != '"' && c != '\\' && (c as int) >= 0x20
}

/// The code of a hexadecimal digit.
proof fn lemma_hex_digit(n: int)
    requires
        0 <= n < 16,
    ensures
        hex_digit(n) as int == (if n < 10 {
            48 + n
        } else {
            87 + n
        }),
{
    if n == 0 {
        assert(hex_digit(0) == '0');
    } else if n == 1 {
        assert(hex_digit(1) == '1');
    } else if n == 2 {
        assert(hex_digit(2) == '2');
    } else if n == 3 {
        assert(hex_digit(3) == '3');
    } else if n == 4 {
        assert(hex_digit(4) == '4');
    } else if n == 5 {
        assert(hex_digit(5) == '5');
    } else if n == 6 {
        assert(hex_digit(6) == '6');
    } else if n == 7 {
        assert(hex_digit(7) == '7');
    } else if n == 8 {
        assert(hex_digit(8) == '8');
    } else if n == 9 {
        assert(hex_digit(9) == '9');
    } else if n == 10 {
        assert(hex_digit(10) == 'a');
    } else if n == 11 {
        assert(hex_digit(11) == 'b');
    } else if n == 12 {
        assert(hex_digit(12) == 'c');
    } else if n == 13 {
        assert(hex_digit(13) == 'd');
    } else if n == 14 {
        assert(hex_digit(14) == 'e');
    } else {
        assert(hex_digit(15) == 'f');
    }
}

/// The two forms of an escape: a plain character alone, or a backslash and
/// what follows it. No escape starts with a quotation mark.
proof fn lemma_escape_shape(c: char)
    ensures
        is_plain(c) ==> escape(c) == seq![c],
        !is_plain(c) ==> escape(c).len() >= 2 && escape(c)[0] == '\\',
        escape(c).len() >= 1,
        escape(c)[0] != '"',
{
}

/// The escapes are a prefix code: where two texts start with an escape each
/// and are equal, the escapes are of the same character and the rests are
/// equal.
proof fn lemma_escape_prefix_code(c: char, r: Seq<char>, d: char, t: Seq<char>)
    requires
        escape(c) + r == escape(d) + t,
    ensures
        c == d,
        r == t,
{
    let left = escape(c) + r;
    let right = escape(d) + t;
    lemma_escape_shape(c);
    lemma_escape_shape(d);
    assert(left[0] == escape(c)[0]);
    assert(right[0] == escape(d)[0]);
    if is_plain(c) || is_plain(d) {
        assert(c == d);
    } else {
        assert(left[1] == escape(c)[1]);
        assert(right[1] == escape(d)[1]);
        if escape(c)[1] == 'u' {
            assert(escape(d)[1] == 'u');
            assert(left[4] == escape(c)[4]);
            assert(right[4] == escape(d)[4]);
            assert(left[5] == escape(c)[5]);
            assert(right[5] == escape(d)[5]);
            lemma_hex_digit((c as int) / 16);
            lemma_hex_digit((c as int) % 16);
            lemma_hex_digit((d as int) / 16);
            lemma_hex_digit((d as int) % 16);
            assert((c as int) / 16 == (d as int) / 16);
            assert((c as int) % 16 == (d as int) % 16);
            assert(c as int == d as int);
        }
        assert(c == d);
    }
    assert(r =~= left.subrange(escape(c).len() as int, left.len() as int));
    assert(t =~= right.subrange(escape(d).len() as int, right.len() as int));
}

/// A JSON string ends where its closing quotation mark stands: where two
/// texts start with a JSON string each and are equal, the strings hold the
/// same text and the rests are equal.
pub proof fn lemma_json_string_prefix_code(
    a: Seq<char>,
    r: Seq<char>,
    b: Seq<char>,
    t: Seq<char>,
)
    requires
        json_string(a) + r == json_string(b) + t,
    ensures
        a == b,
        r == t,
{
    let left = escaped(a) + (seq!['"'] + r);
    let right = escaped(b) + (seq!['"'] + t);
    assert(left =~= (json_string(a) + r).drop_first());
    assert(right =~= (json_string(b) + t).drop_first());
    lemma_escaped_then_quote(a, r, b, t);
}

/// The body of a JSON string ends at the first quotation mark that is not
/// part of an escape.
proof fn lemma_escaped_then_quote(a: Seq<char>, r: Seq<char>, b: Seq<char>, t: Seq<char>)
    requires
        escaped(a) + (seq!['"'] + r) == escaped(b) + (seq!['"'] + t),
    ensures
        a == b,
        r == t,
    decreases a.len(),
{
    let left = escaped(a) + (seq!['"'] + r);
    let right = escaped(b) + (seq!['"'] + t);
    if a.len() == 0 && b.len() == 0 {
        assert(a =~= b);
        assert(r =~= left.drop_first());
        assert(t =~= right.drop_first());
    } else if a.len() == 0 {
        lemma_escape_shape(b[0]);
        assert(left[0] == '"');
        assert(right[0] == escape(b[0])[0]);
    } else if b.len() == 0 {
        lemma_escape_shape(a[0]);
        assert(right[0] == '"');
        assert(left[0] == escape(a[0])[0]);
    } else {
        let rest_a = escaped(a.drop_first()) + (seq!['"'] + r);
        let rest_b = escaped(b.drop_first()) + (seq!['"'] + t);
        assert(left =~= escape(a[0]) + rest_a);
        assert(right =~= escape(b[0]) + rest_b);
        lemma_escape_prefix_code(a[0], rest_a, b[0], rest_b);
        lemma_escaped_then_quote(a.drop_first(), r, b.drop_first(), t);
        assert(a =~= seq![a[0]] + a.drop_first());
        assert(b =~= seq![b[0]] + b.drop_first());
    }
}

/// A number literal ends where the first character stands that cannot be part
/// of one: where two texts start with a number literal each, go on with such
/// a character, and are equal, the literals and the rests are equal.
proof fn lemma_number_prefix_code(
    x: Seq<char>,
    r: Seq<char>,
    y: Seq<char>,
    t: Seq<char>,
    stop: char,
)
    requires
        forall|i: int| 0 <= i < x.len() ==> is_number_char(#[trigger] x[i]),
        forall|i: int| 0 <= i < y.len() ==> is_number_char(#[trigger] y[i]),
        !is_number_char(stop),
        x + (seq![stop] + r) == y + (seq![stop] + t),
    ensures
        x == y,
        r == t,
{
    let left = x + (seq![stop] + r);
    let right = y + (seq![stop] + t);
    if x.len() < y.len() {
        assert(left[x.len() as int] == stop);
        assert(right[x.len() as int] == y[x.len() as int]);
    } else if y.len() < x.len() {
        assert(right[y.len() as int] == stop);
        assert(left[y.len() as int] == x[y.len() as int]);
    } else {
        assert(x =~= left.subrange(0, x.len() as int));
        assert(y =~= right.subrange(0, y.len() as int));
        assert(r =~= left.subrange(x.len() as int + 1, left.len() as int));
        assert(t =~= right.subrange(y.len() as int + 1, right.len() as int));
    }
}

/// No two kinds have the same name.
pub proof fn lemma_kind_names_differ(a: DeviceKind, b: DeviceKind)
    requires
        a.name() == b.name(),
    ensures
        a == b,
{
    reveal_strlit("MousePress");
    reveal_strlit("MouseRelease");
    reveal_strlit("MouseMove");
    reveal_strlit("KeyboardPress");
    reveal_strlit("KeyboardRelease");
    assert("MousePress"@.len() == 10);
    assert("MouseRelease"@.len() == 12);
    assert("MouseMove"@.len() == 9);
    assert("KeyboardPress"@.len() == 13);
    assert("KeyboardRelease"@.len() == 15);
}

/// Two texts that are equal behind a common start are equal without it.
proof fn lemma_cancel_prefix(p: Seq<char>, a: Seq<char>, b: Seq<char>)
    requires
        p + a == p + b,
    ensures
        a == b,
{
    assert(a =~= (p + a).subrange(p.len() as int, (p + a).len() as int));
    assert(b =~= (p + b).subrange(p.len() as int, (p + b).len() as int));
}

/// A frame determines its event: two well-formed events with the same wire
/// form are the same event. Whoever reads a frame back therefore finds the
/// event that was encoded, and no other.
pub proof fn lemma_frame_determines_event(a: EventView, b: EventView)
    requires
        a.well_formed(),
        b.well_formed(),
        frame_text(a) == frame_text(b),
    ensures
        a == b,
{
    let head = "{\"kind\":"@;
    let middle = ",\"value\":"@;
    let tail = "}"@;
    let rest_a = middle + crate::wire::value_text(a.value) + tail;
    let rest_b = middle + crate::wire::value_text(b.value) + tail;
    assert(frame_text(a) =~= head + (json_string(a.kind.name()) + rest_a));
    assert(frame_text(b) =~= head + (json_string(b.kind.name()) + rest_b));
    lemma_cancel_prefix(
        head,
        json_string(a.kind.name()) + rest_a,
        json_string(b.kind.name()) + rest_b,
    );
    lemma_json_string_prefix_code(a.kind.name(), rest_a, b.kind.name(), rest_b);
    lemma_kind_names_differ(a.kind, b.kind);
    let value_a = crate::wire::value_text(a.value) + tail;
    let value_b = crate::wire::value_text(b.value) + tail;
    assert(rest_a =~= middle + value_a);
    assert(rest_b =~= middle + value_b);
    lemma_cancel_prefix(middle, value_a, value_b);
    match (a.value, b.value) {
        (ValueView::Name(name_a), ValueView::Name(name_b)) => {
            lemma_json_string_prefix_code(name_a, tail, name_b, tail);
        },
        (ValueView::Position { x: xa, y: ya }, ValueView::Position { x: xb, y: yb }) => {
            reveal_strlit(",\"y\":");
            reveal_strlit("}");
            let open = "{\"x\":"@;
            let comma = ",\"y\":"@;
            let close = "}"@;
            lemma_number_chars(xa);
            lemma_number_chars(xb);
            lemma_number_chars(ya);
            lemma_number_chars(yb);
            let after_xa = comma.drop_first() + ya + close + tail;
            let after_xb = comma.drop_first() + yb + close + tail;
            assert(comma =~= seq![','] + comma.drop_first());
            assert(value_a =~= open + (xa + (seq![','] + after_xa)));
            assert(value_b =~= open + (xb + (seq![','] + after_xb)));
            lemma_cancel_prefix(open, xa + (seq![','] + after_xa), xb + (seq![','] + after_xb));
            lemma_number_prefix_code(xa, after_xa, xb, after_xb, ',');
            let after_ya = close.drop_first() + tail;
            assert(close =~= seq!['}'] + close.drop_first());
            assert(after_xa =~= comma.drop_first() + (ya + (seq!['}'] + after_ya)));
            assert(after_xb =~= comma.drop_first() + (yb + (seq!['}'] + after_ya)));
            lemma_cancel_prefix(
                comma.drop_first(),
                ya + (seq!['}'] + after_ya),
                yb + (seq!['}'] + after_ya),
            );
            lemma_number_prefix_code(ya, after_ya, yb, after_ya, '}');
        },
        _ => {},
    }
}

} // verus!
