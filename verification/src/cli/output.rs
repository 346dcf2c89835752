//! Text output: byte counts in binary units, and key/value listings.
use vstd::prelude::*;
use crate::text::{chars_of, decimal, owned, push_char, push_decimal, push_str};

verus! {

/// `x / d` rounded to the nearest integer, ties to the even one.
pub open spec fn round_div(x: nat, d: nat) -> nat {
    let q = x / d;
    let r = x % d;
    if 2 * r > d || (2 * r == d && q % 2 == 1) {
        q + 1
    } else {
        q
    }
}

/// The double-precision value nearest to `u`, found by scaling with powers
/// of two from `d` until 53 bits hold the quotient.
pub open spec fn f64_value_from(u: nat, d: nat) -> nat
    decreases u - d,
{
    if d == 0 {
        0
    } else if u / d < 0x20_0000_0000_0000 {
        round_div(u, d) * d
    } else {
        proof {
            assert(u >= 2 * d) by (nonlinear_arith)
                requires
                    d > 0,
                    u / d >= 0x20_0000_0000_0000,
            ;
        }
        f64_value_from(u, 2 * d)
    }
}

/// The value of `u as f64`, as an integer.
pub open spec fn f64_value(u: nat) -> nat {
    f64_value_from(u, 1)
}

/// The binary unit a value is shown in: the largest power of 1024 it
/// reaches, up to TiB.
pub open spec fn unit_index(f: nat) -> nat {
    if f < 0x400 {
        0
    } else if f < 0x10_0000 {
        1
    } else if f < 0x4000_0000 {
        2
    } else if f < 0x100_0000_0000 {
        3
    } else {
        4
    }
}

/// `1024` to the power of a unit index.
pub open spec fn unit_scale(i: nat) -> nat {
    if i == 0 {
        1
    } else if i == 1 {
        0x400
    } else if i == 2 {
        0x10_0000
    } else if i == 3 {
        0x4000_0000
    } else {
        0x100_0000_0000
    }
}

/// The name of a unit index.
pub open spec fn unit_name(i: nat) -> Seq<char> {
    if i == 0 {
        "B"@
    } else if i == 1 {
        "KiB"@
    } else if i == 2 {
        "MiB"@
    } else if i == 3 {
        "GiB"@
    } else {
        "TiB"@
    }
}

/// A byte count for people: below 1 KiB the whole number of bytes, else the
/// value in KiB, MiB, GiB or TiB with one decimal, rounded half to even.
/// Negative counts show as `0 B`; the count is taken as a double first.
pub open spec fn bytes_text(v: i64) -> Seq<char> {
    let u: nat = if v < 0 { 0 } else { v as nat };
    let f = f64_value(u);
    let i = unit_index(f);
    if i == 0 {
        decimal(f) + " B"@
    } else {
        let tenths = round_div(10 * f, unit_scale(i));
        decimal(tenths / 10) + "."@ + decimal(tenths % 10) + " "@ + unit_name(i)
    }
}

/// Law: counts below 2^53 are shown exactly as given: below 1 KiB as the
/// whole number of bytes, else in the unit `1024^i` with
/// `1024^i <= v < 1024^(i+1)` (TiB for all larger values), with one decimal
/// of `v / 1024^i` rounded half to even; each unit is 1024 times the one
/// before; negative counts show as zero bytes.
pub proof fn lemma_bytes_units(v: i64)
    ensures
        v < 0 ==> bytes_text(v) == bytes_text(0),
        0 <= v < 1024 ==> bytes_text(v) == decimal(v as nat) + " B"@,
        1024 <= v < 0x20_0000_0000_0000 ==> ({
            let i = unit_index(v as nat);
            let tenths = round_div(10 * (v as nat), unit_scale(i));
            &&& 1 <= i <= 4
            &&& unit_scale(i) <= v
            &&& (i < 4 ==> v < 1024 * unit_scale(i))
            &&& bytes_text(v) == decimal(tenths / 10) + "."@ + decimal(tenths % 10) + " "@ + unit_name(i)
        }),
        forall|i: nat| 1 <= i <= 4 ==> #[trigger] unit_scale(i) == 1024 * unit_scale((i - 1) as nat),
        unit_scale(0) == 1,
{
    let u: nat = if v < 0 { 0 } else { v as nat };
    if u < 0x20_0000_0000_0000 {
        assert(u / 1 == u);
        assert(u % 1 == 0);
        assert(f64_value(u) == u);
    }
}

fn round_div_exec(x: u128, d: u128) -> (r: u128)
    requires
        0 < d < 0x1_0000_0000_0000_0000,
        x < 0x1_0000_0000_0000_0000_0000,
    ensures
        r == round_div(x as nat, d as nat),
{
    let q = x / d;
    let r = x % d;
    if 2 * r > d || (2 * r == d && q % 2 == 1) {
        q + 1
    } else {
        q
    }
}

/// Formats a byte count in binary units.
pub fn bytes(v: i64) -> (r: String)
    ensures
        r@ == bytes_text(v),
{
    let u: u128 = if v < 0 {
        0
    } else {
        v as u128
    };
    let mut d: u128 = 1;
    while u / d >= 0x20_0000_0000_0000
        invariant
            0 < d <= 0x8000_0000_0000_0000,
            u < 0x8000_0000_0000_0000,
            f64_value_from(u as nat, d as nat) == f64_value(u as nat),
        decreases u - d,
    {
        assert(u >= 2 * d) by (nonlinear_arith)
            requires
                d > 0,
                u / d >= 0x20_0000_0000_0000,
        ;
        d = 2 * d;
    }
    let q = round_div_exec(u, d);
    assert(q <= u / d + 1);
    assert(q * d <= u + d) by (nonlinear_arith)
        requires
            q <= u / d + 1,
            d > 0,
    ;
    let f: u128 = q * d;
    assert(f == f64_value(u as nat));
    let mut i: u64 = 0;
    let mut scale: u128 = 1;
    while i < 4 && f >= scale * 0x400
        invariant
            i <= 4,
            scale == unit_scale(i as nat),
            f as nat >= unit_scale(i as nat) || i == 0,
            f <= 0x1_0000_0000_0000_0000,
            unit_index(f as nat) >= i,
        decreases 4 - i,
    {
        scale = scale * 0x400;
        i = i + 1;
    }
    assert(unit_index(f as nat) == i);
    let mut s = String::new();
    if i == 0 {
        push_decimal(&mut s, f as u64);
        push_str(&mut s, " B");
        proof {
            reveal_strlit(" B");
        }
        assert(s@ =~= bytes_text(v));
    } else {
        let tenths = round_div_exec(10 * f, scale);
        assert(tenths <= (10 * f) / (scale as int) + 1);
        assert(tenths < 0x1_0000_0000_0000_0000) by (nonlinear_arith)
            requires
                tenths <= (10 * f) / (scale as int) + 1,
                scale >= 0x400,
                f <= 0x1_0000_0000_0000_0000,
        ;
        push_decimal(&mut s, (tenths / 10) as u64);
        push_char(&mut s, '.');
        push_decimal(&mut s, (tenths % 10) as u64);
        push_char(&mut s, ' ');
        let unit = if i == 1 {
            "KiB"
        } else if i == 2 {
            "MiB"
        } else if i == 3 {
            "GiB"
        } else {
            "TiB"
        };
        push_str(&mut s, unit);
        proof {
            reveal_strlit(".");
            reveal_strlit(" ");
        }
        assert(s@ =~= bytes_text(v));
    }
    s
}

/// The widest key of a listing, in bytes.
pub open spec fn kv_width(rows: Seq<(&str, String)>) -> nat
    decreases rows.len(),
{
    if rows.len() == 0 {
        0
    } else {
        let w = kv_width(rows.drop_last());
        let k = rows.last().0.len() as nat;
        if k > w {
            k
        } else {
            w
        }
    }
}

/// `key` padded with spaces to `width` characters.
pub open spec fn padded(key: Seq<char>, width: nat) -> Seq<char> {
    if key.len() < width {
        key + Seq::new((width - key.len()) as nat, |i: int| ' ')
    } else {
        key
    }
}

/// One listing line: the key padded to the width, two spaces, the value.
pub open spec fn kv_line(key: Seq<char>, value: Seq<char>, width: nat) -> Seq<char> {
    padded(key, width) + "  "@ + value
}

/// Law: the width of a listing is the length of its longest key: no key
/// is longer, and some key reaches it when there is any row.
pub proof fn lemma_kv_width_is_max(rows: Seq<(&str, String)>)
    ensures
        forall|i: int| 0 <= i < rows.len() ==> #[trigger] rows[i].0.len() <= kv_width(rows),
        rows.len() > 0 ==> exists|i: int| 0 <= i < rows.len() && #[trigger] rows[i].0.len() == kv_width(rows),
        rows.len() == 0 ==> kv_width(rows) == 0,
    decreases rows.len(),
{
    if rows.len() > 0 {
        let init = rows.drop_last();
        lemma_kv_width_is_max(init);
        assert forall|i: int| 0 <= i < rows.len() implies #[trigger] rows[i].0.len() <= kv_width(rows) by {
            if i < init.len() {
                assert(init[i] == rows[i]);
            }
        }
        let last = rows.len() - 1;
        if rows[last].0.len() as nat > kv_width(init) {
            assert(rows[last].0.len() == kv_width(rows));
        } else if init.len() > 0 {
            let j = choose|j: int| 0 <= j < init.len() && #[trigger] init[j].0.len() == kv_width(init);
            assert(rows[j] == init[j]);
        } else {
            assert(rows[last].0.len() == kv_width(rows));
        }
    }
}

/// Law: a listing line whose key fits the width starts with the key, pads
/// it with spaces to the width, and shows the value after two more spaces,
/// so every value of a listing starts in the same column.
pub proof fn lemma_kv_line_aligned(key: Seq<char>, value: Seq<char>, width: nat)
    requires
        key.len() <= width,
    ensures
        kv_line(key, value, width).len() == width + 2 + value.len(),
        kv_line(key, value, width).subrange(0, key.len() as int) == key,
        forall|j: int| key.len() <= j < width + 2 ==> #[trigger] kv_line(key, value, width)[j] == ' ',
        kv_line(key, value, width).subrange(width + 2int, width + 2 + value.len() as int) == value,
{
    reveal_strlit("  ");
    let l = kv_line(key, value, width);
    let p = padded(key, width);
    assert(p.len() == width);
    assert(l == p + "  "@ + value);
    assert(l.subrange(0, key.len() as int) =~= key);
    assert(l.subrange(width + 2int, width + 2 + value.len() as int) =~= value);
    assert forall|j: int| key.len() <= j < width + 2 implies #[trigger] l[j] == ' ' by {
        if j < width {
            assert(l[j] == p[j]);
        }
    }
}

/// The lines of a key/value listing, keys aligned to the widest.
pub fn kv_lines(rows: &Vec<(&str, String)>) -> (r: Vec<String>)
    ensures
        r.len() == rows.len(),
        forall|i: int|
            0 <= i < rows.len() ==> #[trigger] r@[i]@ == kv_line(
                rows@[i].0@,
                rows@[i].1@,
                kv_width(rows@),
            ),
{
    let mut width: usize = 0;
    let mut i: usize = 0;
    while i < rows.len()
        invariant
            i <= rows.len(),
            width == kv_width(rows@.take(i as int)),
        decreases rows.len() - i,
    {
        assert(rows@.take(i + 1).drop_last() =~= rows@.take(i as int));
        assert(rows@.take(i + 1).last() == rows@[i as int]);
        let k = rows[i].0.len();
        if k > width {
            width = k;
        }
        i = i + 1;
    }
    assert(rows@.take(rows.len() as int) =~= rows@);
    let mut out: Vec<String> = Vec::new();
    let mut j: usize = 0;
    while j < rows.len()
        invariant
            j <= rows.len(),
            width == kv_width(rows@),
            out.len() == j,
            forall|m: int|
                0 <= m < j ==> #[trigger] out@[m]@ == kv_line(rows@[m].0@, rows@[m].1@, width as nat),
        decreases rows.len() - j,
    {
        let key = rows[j].0;
        let n = chars_of(key).len();
        let mut line = owned(key);
        let mut pad: usize = n;
        while pad < width
            invariant
                n == key@.len(),
                n <= pad <= width || (pad == n && n >= width),
                line@ == key@ + Seq::new((pad - n) as nat, |x: int| ' '),
            decreases width - pad,
        {
            push_char(&mut line, ' ');
            pad = pad + 1;
            assert(line@ =~= key@ + Seq::new((pad - n) as nat, |x: int| ' '));
        }
        assert(line@ =~= padded(key@, width as nat));
        push_str(&mut line, "  ");
        push_str(&mut line, rows[j].1.as_str());
        out.push(line);
        j = j + 1;
    }
    out
}

} // verus!
