//! Upper-case hexadecimal rendering of identifiers.

use vstd::prelude::*;
use vstd::string::{StringExecFns, is_ascii};
use vstd::utf8::is_ascii_chars;

verus! {

/// The upper-case hexadecimal digit for a value below 16.
pub open spec fn hex_char(d: int) -> char {
    if d == 0 { '0' } else if d == 1 { '1' } else if d == 2 { '2' } else if d == 3 { '3' }
    else if d == 4 { '4' } else if d == 5 { '5' } else if d == 6 { '6' } else if d == 7 { '7' }
    else if d == 8 { '8' } else if d == 9 { '9' } else if d == 10 { 'A' } else if d == 11 { 'B' }
    else if d == 12 { 'C' } else if d == 13 { 'D' } else if d == 14 { 'E' } else { 'F' }
}

/// The `n` lowest hexadecimal digits of `v`, most significant first
/// (zero-padded to exactly `n` digits).
pub open spec fn hex_seq(v: nat, n: nat) -> Seq<char>
    decreases n,
{
    if n == 0 {
        Seq::empty()
    } else {
        hex_seq(v / 16, (n - 1) as nat).push(hex_char((v % 16) as int))
    }
}

/// A one-character string holding the hexadecimal digit of `d`.
fn hex_digit_str(d: u64) -> (r: &'static str)
    requires
        d < 16,
    ensures
        r@ == seq![hex_char(d as int)],
{
    if d == 0 { proof { reveal_strlit("0"); } "0" }
    else if d == 1 { proof { reveal_strlit("1"); } "1" }
    else if d == 2 { proof { reveal_strlit("2"); } "2" }
    else if d == 3 { proof { reveal_strlit("3"); } "3" }
    else if d == 4 { proof { reveal_strlit("4"); } "4" }
    else if d == 5 { proof { reveal_strlit("5"); } "5" }
    else if d == 6 { proof { reveal_strlit("6"); } "6" }
    else if d == 7 { proof { reveal_strlit("7"); } "7" }
    else if d == 8 { proof { reveal_strlit("8"); } "8" }
    else if d == 9 { proof { reveal_strlit("9"); } "9" }
    else if d == 10 { proof { reveal_strlit("A"); } "A" }
    else if d == 11 { proof { reveal_strlit("B"); } "B" }
    else if d == 12 { proof { reveal_strlit("C"); } "C" }
    else if d == 13 { proof { reveal_strlit("D"); } "D" }
    else if d == 14 { proof { reveal_strlit("E"); } "E" }
    else { proof { reveal_strlit("F"); } "F" }
}

/// Appends the `n` lowest hexadecimal digits of `v` to `s`.
pub fn push_hex(s: &mut String, v: u64, n: usize)
    ensures
        final(s)@ == old(s)@ + hex_seq(v as nat, n as nat),
    decreases n,
{
    if n == 0 {
        assert(old(s)@ + hex_seq(v as nat, 0) =~= old(s)@);
    } else {
        push_hex(s, v / 16, n - 1);
        let d = hex_digit_str(v % 16);
        s.append(d);
        assert(hex_seq(v as nat, n as nat) == hex_seq((v / 16) as nat, (n - 1) as nat).push(
            hex_char((v % 16) as int),
        ));
        assert(old(s)@ + hex_seq((v / 16) as nat, (n - 1) as nat) + seq![hex_char((v % 16) as int)]
            =~= old(s)@ + hex_seq(v as nat, n as nat));
    }
}

/// The display name of a task seen in a trace: `T-` followed by its id in
/// eight hexadecimal digits.
pub open spec fn task_name(task_id: u32) -> Seq<char> {
    seq!['T', '-'] + hex_seq(task_id as nat, 8)
}

/// Builds the display name of a traced task.
pub fn make_task_name(task_id: u32) -> (r: String)
    ensures
        r@ == task_name(task_id),
{
    proof { reveal_strlit("T-"); }
    let mut s = String::from_str("T-");
    push_hex(&mut s, task_id as u64, 8);
    s
}

/// The name a worker task announces: `WRK-` followed by its ident in six
/// hexadecimal digits. The digits of a larger ident do not fit in the
/// ten-byte name buffer and are left out.
pub open spec fn worker_name(ident: u32) -> Seq<char> {
    if ident < 0x100_0000 {
        seq!['W', 'R', 'K', '-'] + hex_seq(ident as nat, 6)
    } else {
        seq!['W', 'R', 'K', '-']
    }
}

/// `hex_seq` has the requested number of digits.
pub proof fn lemma_hex_seq_len(v: nat, n: nat)
    ensures
        hex_seq(v, n).len() == n,
    decreases n,
{
    if n > 0 {
        lemma_hex_seq_len(v / 16, (n - 1) as nat);
    }
}

/// Hexadecimal digits are ASCII.
proof fn lemma_hex_seq_ascii(v: nat, n: nat)
    ensures
        is_ascii_chars(hex_seq(v, n)),
    decreases n,
{
    if n > 0 {
        lemma_hex_seq_ascii(v / 16, (n - 1) as nat);
        let p = hex_seq(v / 16, (n - 1) as nat);
        let c = hex_char((v % 16) as int);
        assert(forall|i: int| 0 <= i < p.len() ==> '\0' <= #[trigger] p[i] <= '\u{7f}');
        assert(forall|i: int| 0 <= i < p.push(c).len() ==> '\0' <= #[trigger] p.push(c)[i] <= '\u{7f}') by {
            assert forall|i: int| 0 <= i < p.push(c).len() implies '\0' <= #[trigger] p.push(c)[i] <= '\u{7f}' by {
                if i < p.len() {
                    assert(p.push(c)[i] == p[i]);
                }
            }
        }
    }
}

/// `heapless::String`, a string held in a fixed buffer.
#[verifier::external_type_specification]
#[verifier::external_body]
pub struct ExHeaplessString<const N: usize>(heapless::String<N>);

/// The characters held by a ten-byte name buffer.
pub uninterp spec fn name_chars(s: heapless::String<10>) -> Seq<char>;

/// `heapless::String::new`: an empty buffer.
#[verifier::external_body]
fn name_new() -> (r: heapless::String<10>)
    ensures
        name_chars(r) == Seq::<char>::empty(),
{
    heapless::String::new()
}

/// `heapless::String::push_str`: appends `s` when its bytes fit in the ten
/// bytes of the buffer, and otherwise fails and leaves the buffer as it was
/// (for ASCII text, bytes and characters agree).
#[verifier::external_body]
fn name_push_str(v: &mut heapless::String<10>, s: &str) -> (ok: bool)
    requires
        is_ascii(s),
        is_ascii_chars(name_chars(*old(v))),
    ensures
        ok == (name_chars(*old(v)).len() + s@.len() <= 10),
        ok ==> name_chars(*final(v)) == name_chars(*old(v)) + s@,
        !ok ==> name_chars(*final(v)) == name_chars(*old(v)),
{
    v.push_str(s).is_ok()
}

/// `heapless::String::as_str`: the held characters.
#[verifier::external_body]
fn name_as_str(v: &heapless::String<10>) -> (r: &str)
    ensures
        r@ == name_chars(*v),
{
    v.as_str()
}

/// Builds the name a worker task announces in its ten-byte buffer: the
/// ident is written in upper-case hexadecimal, zero-padded to six digits,
/// after `WRK-`; digits that do not fit are left out.
pub fn make_worker_name(ident: u32) -> (r: String)
    ensures
        r@ == worker_name(ident),
{
    let mut name = name_new();
    let prefix = "WRK-";
    proof {
        reveal_strlit("WRK-");
        assert(is_ascii_chars(prefix@));
    }
    let _ = name_push_str(&mut name, prefix);
    assert(name_chars(name) =~= seq!['W', 'R', 'K', '-']);
    let width: usize = if ident < 0x100_0000 {
        6
    } else if ident < 0x1000_0000 {
        7
    } else {
        8
    };
    let mut digits = String::new();
    push_hex(&mut digits, ident as u64, width);
    let ds = digits.as_str();
    proof {
        lemma_hex_seq_len(ident as nat, width as nat);
        lemma_hex_seq_ascii(ident as nat, width as nat);
        assert(ds@ =~= hex_seq(ident as nat, width as nat));
    }
    let _ = name_push_str(&mut name, ds);
    name_as_str(&name).to_owned()
}

/// The USB serial number of a device: its 64-bit unique id in sixteen
/// hexadecimal digits, most significant first.
pub fn serial_string(unique_id: u64) -> (r: String)
    ensures
        r@ == hex_seq(unique_id as nat, 16),
{
    let mut s = String::new();
    push_hex(&mut s, unique_id, 16);
    assert(s@ =~= hex_seq(unique_id as nat, 16));
    s
}

} // verus!
