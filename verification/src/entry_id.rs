//! Identifiers of index entries: random version-4 UUIDs, written in their
//! hyphenated lower-case form.

use vstd::prelude::*;

verus! {

/// The identifier of an article or an image: the 128 bits of a UUID.
#[derive(Clone, Copy, Debug, PartialEq, Eq, Structural)]
pub struct EntryId(pub u128);

/// The lower-case hexadecimal digit for a value in `0..16`.
pub open spec fn hex_digit(d: int) -> char {
    if d < 10 {
        (d + 48) as char
    } else {
        (d + 87) as char
    }
}

/// The `n` lowest hexadecimal digits of `v`, most significant first.
pub open spec fn hex_lower(v: nat, n: nat) -> Seq<char>
    decreases n,
{
    if n == 0 {
        Seq::empty()
    } else {
        hex_lower(v / 16, (n - 1) as nat).push(hex_digit((v % 16) as int))
    }
}

/// The hyphenated form of a UUID: its 32 hexadecimal digits in groups of
/// 8, 4, 4, 4 and 12, separated by `-`.
pub open spec fn uuid_text(v: u128) -> Seq<char> {
    let h = hex_lower(v as nat, 32);
    h.subrange(0, 8) + seq!['-'] + h.subrange(8, 12) + seq!['-'] + h.subrange(12, 16) + seq!['-']
        + h.subrange(16, 20) + seq!['-'] + h.subrange(20, 32)
}

/// `16` to the power `n`.
pub open spec fn pow16(n: nat) -> nat
    decreases n,
{
    if n == 0 {
        1
    } else {
        16 * pow16((n - 1) as nat)
    }
}

/// The 32 digits of a UUID's hyphenated form, with the four hyphens taken out.
pub open spec fn unhyphenate(t: Seq<char>) -> Seq<char> {
    t.subrange(0, 8) + t.subrange(9, 13) + t.subrange(14, 18) + t.subrange(19, 23) + t.subrange(
        24,
        36,
    )
}

proof fn lemma_hex_digit_injective(a: int, b: int)
    requires
        0 <= a < 16,
        0 <= b < 16,
        hex_digit(a) == hex_digit(b),
    ensures
        a == b,
{
}

proof fn lemma_hex_lower_len(v: nat, n: nat)
    ensures
        hex_lower(v, n).len() == n,
    decreases n,
{
    if n > 0 {
        lemma_hex_lower_len(v / 16, (n - 1) as nat);
    }
}

proof fn lemma_hex_lower_injective(a: nat, b: nat, n: nat)
    requires
        a < pow16(n),
        b < pow16(n),
        hex_lower(a, n) == hex_lower(b, n),
    ensures
        a == b,
    decreases n,
{
    if n > 0 {
        let m = (n - 1) as nat;
        let p = pow16(m);
        assert(hex_lower(a / 16, m) == hex_lower(a, n).drop_last());
        assert(hex_lower(b / 16, m) == hex_lower(b, n).drop_last());
        assert(hex_lower(a, n).last() == hex_digit((a % 16) as int));
        assert(hex_lower(b, n).last() == hex_digit((b % 16) as int));
        lemma_hex_digit_injective((a % 16) as int, (b % 16) as int);
        assert(a / 16 < p) by (nonlinear_arith)
            requires
                a < 16 * p,
        ;
        assert(b / 16 < p) by (nonlinear_arith)
            requires
                b < 16 * p,
        ;
        lemma_hex_lower_injective(a / 16, b / 16, m);
        assert(a == 16 * (a / 16) + a % 16) by (nonlinear_arith);
        assert(b == 16 * (b / 16) + b % 16) by (nonlinear_arith);
    }
}

proof fn lemma_pow16_32()
    ensures
        pow16(32) == 0x1_0000_0000_0000_0000_0000_0000_0000_0000,
{
    reveal_with_fuel(pow16, 33);
}

/// The hyphens of a UUID's text stand at fixed places: taking them out gives
/// back the 32 digits.
pub proof fn lemma_unhyphenate_uuid_text(v: u128)
    ensures
        uuid_text(v).len() == 36,
        unhyphenate(uuid_text(v)) == hex_lower(v as nat, 32),
{
    lemma_hex_lower_len(v as nat, 32);
    let h = hex_lower(v as nat, 32);
    let t = uuid_text(v);
    assert(t.subrange(0, 8) =~= h.subrange(0, 8));
    assert(t.subrange(9, 13) =~= h.subrange(8, 12));
    assert(t.subrange(14, 18) =~= h.subrange(12, 16));
    assert(t.subrange(19, 23) =~= h.subrange(16, 20));
    assert(t.subrange(24, 36) =~= h.subrange(20, 32));
    assert(unhyphenate(t) =~= h);
}

/// Two identifiers with the same text are the same identifier: the text of a
/// UUID names it uniquely.
pub proof fn lemma_uuid_text_injective(a: u128, b: u128)
    requires
        uuid_text(a) == uuid_text(b),
    ensures
        a == b,
{
    lemma_unhyphenate_uuid_text(a);
    lemma_unhyphenate_uuid_text(b);
    lemma_pow16_32();
    lemma_hex_lower_injective(a as nat, b as nat, 32);
}

proof fn lemma_pow16_positive(k: nat)
    ensures
        pow16(k) > 0,
    decreases k,
{
    if k > 0 {
        lemma_pow16_positive((k - 1) as nat);
    }
}

/// The digit of `hex_lower(v, n)` that stands `k` places from the right is the
/// `k`-th hexadecimal digit of `v`.
proof fn lemma_hex_lower_digit(v: nat, n: nat, k: nat)
    requires
        k < n,
    ensures
        hex_lower(v, n)[n - 1 - k] == hex_digit(((v / pow16(k)) % 16) as int),
    decreases n,
{
    let m = (n - 1) as nat;
    lemma_hex_lower_len(v / 16, m);
    assert(pow16(0) == 1);
    if k == 0 {
        assert(v / pow16(0) == v);
    } else {
        let j = (k - 1) as nat;
        lemma_hex_lower_digit(v / 16, m, j);
        lemma_pow16_positive(j);
        vstd::arithmetic::div_mod::lemma_div_denominator(v as int, 16, pow16(j) as int);
        assert(hex_lower(v, n)[n - 1 - k] == hex_lower(v / 16, m)[m - 1 - j]);
    }
}

proof fn lemma_pow16_19_15()
    ensures
        pow16(19) == 0x1000_0000_0000_0000_0000,
        pow16(15) == 0x1000_0000_0000_0000,
{
    reveal_with_fuel(pow16, 20);
}

/// The mask and value that the version and variant fields of a version-4
/// UUID of RFC 4122 give.
pub open spec fn is_v4_bits(v: u128) -> bool {
    v & 0xF000_C000_0000_0000_0000u128 == 0x4000_8000_0000_0000_0000u128
}

/// The text of an identifier with the bits of a version-4 UUID shows it: its
/// version digit (the fifteenth character) is `4`, and its variant digit (the
/// twentieth) is one of `8`, `9`, `a`, `b`.
pub proof fn lemma_v4_text(v: u128)
    requires
        is_v4_bits(v),
    ensures
        uuid_text(v)[14] == '4',
        uuid_text(v)[19] == '8' || uuid_text(v)[19] == '9' || uuid_text(v)[19] == 'a'
            || uuid_text(v)[19] == 'b',
{
    lemma_hex_lower_len(v as nat, 32);
    lemma_hex_lower_digit(v as nat, 32, 19);
    lemma_hex_lower_digit(v as nat, 32, 15);
    lemma_pow16_19_15();
    assert((v / 0x1000_0000_0000_0000_0000u128) % 16 == 4 && 8 <= (v / 0x1000_0000_0000_0000u128)
        % 16 <= 11) by (bit_vector)
        requires
            v & 0xF000_C000_0000_0000_0000u128 == 0x4000_8000_0000_0000_0000u128,
    ;
    let h = hex_lower(v as nat, 32);
    assert(uuid_text(v)[14] == h[12]);
    assert(uuid_text(v)[19] == h[16]);
}

/// `uuid::Uuid::new_v4`: a random UUID whose version field is 4 and whose
/// variant field is the RFC 4122 one, so that the bits under
/// `0xF000_C000_0000_0000_0000` read `0x4000_8000_0000_0000_0000`. The other
/// 122 bits are random: nothing more is stated of them.
#[verifier::external_body]
fn random_v4() -> (bits: u128)
    ensures
        is_v4_bits(bits),
{
    uuid::Uuid::new_v4().as_u128()
}

/// The `Display` form of `uuid::Uuid::from_u128(bits)`: the 36 characters of
/// the hyphenated lower-case form, as `uuid`'s formatter writes them.
#[verifier::external_body]
fn uuid_to_string(bits: u128) -> (text: String)
    ensures
        text@ == uuid_text(bits),
{
    uuid::Uuid::from_u128(bits).to_string()
}

impl EntryId {
    /// A fresh random identifier.
    pub fn new_random() -> (id: EntryId)
        ensures
            is_v4_bits(id.0),
    {
        EntryId(random_v4())
    }

    /// The hyphenated lower-case form of the identifier.
    pub fn text(&self) -> (text: String)
        ensures
            text@ == uuid_text(self.0),
    {
        uuid_to_string(self.0)
    }
}

} // verus!
