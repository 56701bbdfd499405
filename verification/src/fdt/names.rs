//! Node names of the form `base@address`.
use vstd::prelude::*;
use crate::fdt::writer::{fdt_node_base_ok, fdt_node_char_ok, fdt_node_chars_ok, fdt_node_name_ok};

verus! {

/// Lower-case hexadecimal digit of `d < 16`.
pub open spec fn hex_digit(d: nat) -> char {
    if d < 10 {
        ((d + 48) as u8) as char
    } else {
        ((d + 87) as u8) as char
    }
}

/// `n` in lower-case hexadecimal, without leading zeros (`"0"` for zero).
pub open spec fn hex_digits(n: nat) -> Seq<char>
    decreases n,
{
    if n < 16 {
        seq![hex_digit(n)]
    } else {
        hex_digits(n / 16).push(hex_digit(n % 16))
    }
}

/// The node name `base@address`, the address in hexadecimal.
pub open spec fn unit_name(base: Seq<char>, addr: nat) -> Seq<char> {
    base + seq!['@'] + hex_digits(addr)
}

/// `String::push`: std's documentation says it appends the character.
#[verifier::external_body]
pub(crate) fn push_char(s: &mut String, c: char)
    ensures
        final(s)@ == old(s)@.push(c),
{
    s.push(c)
}

/// The hexadecimal digit of `d < 16`.
fn hex_digit_char(d: u64) -> (r: char)
    requires
        d < 16,
    ensures
        r == hex_digit(d as nat),
{
    if d < 10 {
        ((d as u8) + 48) as char
    } else {
        ((d as u8) + 87) as char
    }
}

/// Appends `n` in lower-case hexadecimal.
fn push_hex(s: &mut String, n: u64)
    ensures
        final(s)@ == old(s)@ + hex_digits(n as nat),
    decreases n,
{
    if n >= 16 {
        push_hex(s, n / 16);
    }
    let c = hex_digit_char(n % 16);
    push_char(s, c);
    proof {
        if n >= 16 {
            assert(hex_digits(n as nat) == hex_digits((n / 16) as nat).push(hex_digit((n % 16) as nat)));
        } else {
            assert(n % 16 == n);
        }
    }
    assert(s@ =~= old(s)@ + hex_digits(n as nat));
}

/// The node name `base@address`, the address in lower-case hexadecimal.
pub(crate) fn format_unit_name(base: &str, addr: u64) -> (r: String)
    ensures
        r@ == unit_name(base@, addr as nat),
{
    let mut r = String::from_str(base);
    push_char(&mut r, '@');
    push_hex(&mut r, addr);
    assert(r@ =~= unit_name(base@, addr as nat));
    r
}

pub proof fn lemma_hex_digits_ok(n: nat)
    ensures
        fdt_node_chars_ok(hex_digits(n)),
        hex_digits(n).len() > 0,
    decreases n,
{
    if n >= 16 {
        lemma_hex_digits_ok(n / 16);
        let d = n % 16;
        assert(fdt_node_char_ok(hex_digit(d)));
        let s = hex_digits(n);
        assert forall|i: int| 0 <= i < s.len() implies #[trigger] fdt_node_char_ok(s[i]) by {
            if i < s.len() - 1 {
                assert(s[i] == hex_digits(n / 16)[i]);
            }
        }
    } else {
        assert(fdt_node_char_ok(hex_digit(n)));
        let s = hex_digits(n);
        assert forall|i: int| 0 <= i < s.len() implies #[trigger] fdt_node_char_ok(s[i]) by {
            assert(i == 0);
        }
    }
}

/// `base@address` is a node name that the writer accepts.
pub proof fn lemma_unit_name_ok(base: Seq<char>, addr: nat)
    requires
        fdt_node_base_ok(base),
    ensures
        fdt_node_name_ok(unit_name(base, addr)),
{
    lemma_hex_digits_ok(addr);
    let name = unit_name(base, addr);
    let k = base.len() as int;
    assert(name.take(k) =~= base);
    assert(name.skip(k + 1) =~= hex_digits(addr));
    assert(name[k] == '@');
}

} // verus!
