//! Fresh identifiers and the clock, the two things the library reads from
//! outside: random version-4 UUIDs and the current Unix time.

use vstd::prelude::*;
use crate::text::{chars_of, owned, push_char};

verus! {

/// Whether `c` is a lower-case hexadecimal digit.
pub open spec fn is_lower_hex(c: char) -> bool {
    (48 <= c as u32 <= 57) || (97 <= c as u32 <= 102)
}

/// Whether `s` is the hyphenated lower-case text of a version-4 UUID:
/// 36 characters, hyphens at 8, 13, 18 and 23, hexadecimal digits elsewhere,
/// the version digit `4` at 14 and one of `8`, `9`, `a`, `b` at 19.
pub open spec fn is_uuid_v4_text(s: Seq<char>) -> bool {
    &&& s.len() == 36
    &&& forall|i: int| 0 <= i < 36 ==> (if i == 8 || i == 13 || i == 18 || i == 23 {
        #[trigger] s[i] == '-'
    } else {
        is_lower_hex(s[i])
    })
    &&& s[14] == '4'
    &&& (s[19] == '8' || s[19] == '9' || s[19] == 'a' || s[19] == 'b')
}

/// A fresh random UUID as text. The body calls `uuid::Uuid::new_v4` and
/// prints it with its `Display`, which the crate's source writes as the
/// hyphenated lower-case form; `new_v4` fixes the version digit to 4 and the
/// variant bits to `10`. Claimed: the text has that form. Which UUID comes out
/// is left open: it is random.
#[verifier::external_body]
pub(crate) fn new_uuid_text() -> (r: String)
    ensures
        is_uuid_v4_text(r@),
{
    uuid::Uuid::new_v4().to_string()
}

#[verifier::external_type_specification]
#[verifier::external_body]
pub struct ExSystemTime(std::time::SystemTime);

/// The current time of the system clock. The body calls
/// `std::time::SystemTime::now`; nothing is claimed of the result, which is
/// the clock's reading.
#[verifier::external_body]
fn system_now() -> (r: std::time::SystemTime) {
    std::time::SystemTime::now()
}

/// How long after the Unix epoch `t` is; none when `t` is earlier. The body
/// calls `SystemTime::duration_since` with `UNIX_EPOCH`; nothing is claimed of
/// the result, which depends on the opaque `t`.
#[verifier::external_body]
fn since_unix_epoch(t: &std::time::SystemTime) -> (r: Option<core::time::Duration>) {
    t.duration_since(std::time::UNIX_EPOCH).ok()
}

/// The whole seconds of `d`. The body calls `Duration::as_secs`; nothing is
/// claimed of the result, which depends on the opaque `d`.
#[verifier::external_body]
fn whole_seconds(d: &core::time::Duration) -> (r: u64) {
    d.as_secs()
}

/// The current time in whole seconds since the Unix epoch, as a signed
/// number; 0 when the clock reads earlier than the epoch.
pub(crate) fn now_ts() -> (r: i64) {
    let now = system_now();
    match since_unix_epoch(&now) {
        Some(d) => {
            let secs = whole_seconds(&d);
            secs as i64
        },
        None => 0,
    }
}

} // verus!

verus! {

/// The lower-case hexadecimal digit of `d` (below 16).
pub open spec fn hex_char(d: nat) -> char {
    if d < 10 { (d + 48) as char } else { (d + 87) as char }
}

/// The `k` lowest hexadecimal digits of `i`, lowest first.
pub open spec fn low_hex_digits(i: nat, k: nat) -> Seq<char>
    decreases k,
{
    if k == 0 {
        Seq::empty()
    } else {
        seq![hex_char(i % 16)] + low_hex_digits(i / 16, (k - 1) as nat)
    }
}

/// Sixteen to the power `k`.
pub open spec fn pow16(k: nat) -> nat
    decreases k,
{
    if k == 0 { 1 } else { 16 * pow16((k - 1) as nat) }
}

/// Where the digit `k` of a renumbering goes in a UUID text: positions 17,
/// 20 to 22 and 24 to 35, none of them a hyphen, the version digit or the
/// variant digit; -1 for the other positions.
pub open spec fn renumber_slot(p: int) -> int {
    if p == 17 {
        15
    } else if 20 <= p <= 22 {
        p - 20
    } else if 24 <= p <= 35 {
        p - 21
    } else {
        -1
    }
}

/// The UUID text `u` renumbered with `i`: its sixteen last free hexadecimal
/// digits replaced by the sixteen lowest hexadecimal digits of `i`.
pub open spec fn renumbered(u: Seq<char>, i: nat) -> Seq<char> {
    Seq::new(36, |p: int| if renumber_slot(p) >= 0 { low_hex_digits(i, 16)[renumber_slot(p)] } else { u[p] })
}

proof fn lemma_hex_char(d: nat)
    requires
        d < 16,
    ensures
        is_lower_hex(hex_char(d)),
        hex_char(d) as u32 == (if d < 10 { d + 48 } else { d + 87 }),
{
}

proof fn lemma_low_hex_digits(i: nat, k: nat)
    ensures
        low_hex_digits(i, k).len() == k,
        forall|j: int| 0 <= j < k ==> is_lower_hex(#[trigger] low_hex_digits(i, k)[j]),
    decreases k,
{
    if k > 0 {
        lemma_low_hex_digits(i / 16, (k - 1) as nat);
        lemma_hex_char(i % 16);
        let t = low_hex_digits(i / 16, (k - 1) as nat);
        assert forall|j: int| 0 <= j < k implies is_lower_hex(#[trigger] low_hex_digits(i, k)[j]) by {
            if j > 0 {
                assert(low_hex_digits(i, k)[j] == t[j - 1]);
            }
        }
    }
}

/// Numbers below `16^k` with the same `k` lowest digits are equal.
pub proof fn lemma_low_hex_digits_injective(i: nat, j: nat, k: nat)
    requires
        i < pow16(k),
        j < pow16(k),
        low_hex_digits(i, k) == low_hex_digits(j, k),
    ensures
        i == j,
    decreases k,
{
    if k == 0 {
    } else {
        let p = pow16((k - 1) as nat);
        assert(low_hex_digits(i, k)[0] == hex_char(i % 16));
        assert(low_hex_digits(j, k)[0] == hex_char(j % 16));
        lemma_hex_char(i % 16);
        lemma_hex_char(j % 16);
        assert(i % 16 == j % 16);
        lemma_low_hex_digits(i / 16, (k - 1) as nat);
        lemma_low_hex_digits(j / 16, (k - 1) as nat);
        assert(low_hex_digits(i / 16, (k - 1) as nat) =~= low_hex_digits(i, k).subrange(1, k as int));
        assert(low_hex_digits(j / 16, (k - 1) as nat) =~= low_hex_digits(j, k).subrange(1, k as int));
        vstd::arithmetic::div_mod::lemma_multiply_divide_lt(i as int, 16, p as int);
        vstd::arithmetic::div_mod::lemma_multiply_divide_lt(j as int, 16, p as int);
        lemma_low_hex_digits_injective(i / 16, j / 16, (k - 1) as nat);
        vstd::arithmetic::div_mod::lemma_fundamental_div_mod(i as int, 16);
        vstd::arithmetic::div_mod::lemma_fundamental_div_mod(j as int, 16);
    }
}

/// Every `usize` is below `16^16`.
pub proof fn lemma_usize_below_pow16()
    ensures
        usize::MAX < pow16(16),
{
    reveal_with_fuel(pow16, 17);
    assert(pow16(16) == 0x1_0000_0000_0000_0000nat);
}

/// Renumbering keeps the form of a version-4 UUID text, and different numbers
/// (below `16^16`) give different texts.
pub proof fn lemma_renumbered(u: Seq<char>, i: nat, j: nat)
    requires
        is_uuid_v4_text(u),
        i < pow16(16),
        j < pow16(16),
    ensures
        is_uuid_v4_text(renumbered(u, i)),
        renumbered(u, i) == renumbered(u, j) ==> i == j,
{
    lemma_low_hex_digits(i, 16);
    lemma_low_hex_digits(j, 16);
    let r = renumbered(u, i);
    assert forall|p: int| 0 <= p < 36 implies (if p == 8 || p == 13 || p == 18 || p == 23 {
        #[trigger] r[p] == '-'
    } else {
        is_lower_hex(r[p])
    }) by {
        if renumber_slot(p) >= 0 {
            assert(is_lower_hex(low_hex_digits(i, 16)[renumber_slot(p)]));
        }
    }
    if renumbered(u, i) == renumbered(u, j) {
        let di = low_hex_digits(i, 16);
        let dj = low_hex_digits(j, 16);
        assert forall|s: int| 0 <= s < 16 implies di[s] == dj[s] by {
            let p = if s == 15 { 17 } else if s < 3 { s + 20 } else { s + 21 };
            assert(renumber_slot(p) == s);
            assert(renumbered(u, i)[p] == renumbered(u, j)[p]);
        }
        assert(di =~= dj);
        lemma_low_hex_digits_injective(i, j, 16);
    }
}

/// The lower-case hexadecimal digit of `d`.
fn hex_digit(d: u64) -> (c: char)
    requires
        d < 16,
    ensures
        c == hex_char(d as nat),
{
    if d < 10 {
        ((d as u8) + 48) as char
    } else {
        ((d as u8) + 87) as char
    }
}

/// The UUID text `u` renumbered with `i`.
pub fn renumber_uuid(u: &str, i: u64) -> (r: String)
    requires
        u@.len() == 36,
    ensures
        r@ == renumbered(u@, i as nat),
{
    let mut digits: Vec<char> = Vec::new();
    let mut x: u64 = i;
    for k in 0..16usize
        invariant
            digits@.len() == k,
            digits@ + low_hex_digits(x as nat, (16 - k) as nat) == low_hex_digits(i as nat, 16),
    {
        let ghost m = (16 - k) as nat;
        assert(low_hex_digits(x as nat, m) == seq![hex_char((x % 16) as nat)] + low_hex_digits((x / 16) as nat, (m - 1) as nat));
        let ghost before = digits@;
        digits.push(hex_digit(x % 16));
        assert(digits@ + low_hex_digits((x / 16) as nat, (m - 1) as nat) =~= before + low_hex_digits(x as nat, m));
        x = x / 16;
    }
    assert(digits@ =~= low_hex_digits(i as nat, 16));
    let cs = chars_of(u);
    let mut r = owned("");
    proof {
        reveal_strlit("");
        lemma_low_hex_digits(i as nat, 16);
    }
    for p in 0..36usize
        invariant
            cs@ == u@,
            u@.len() == 36,
            digits@ == low_hex_digits(i as nat, 16),
            digits@.len() == 16,
            r@ == renumbered(u@, i as nat).take(p as int),
    {
        let c = if p == 17 {
            digits[15]
        } else if 20 <= p && p <= 22 {
            digits[p - 20]
        } else if 24 <= p {
            digits[p - 21]
        } else {
            cs[p]
        };
        let ghost before = r@;
        push_char(&mut r, c);
        assert(r@ =~= renumbered(u@, i as nat).take(p + 1));
    }
    assert(r@ =~= renumbered(u@, i as nat));
    r
}

} // verus!
