//! Identities of records: the system-wide 128-bit identity with its text
//! form, and the short identifier that users see.

use vstd::prelude::*;
use vstd::string::StrSliceExecFns;
use vstd::string::StringExecFns;
use crate::date::Date;
use crate::record::RecordType;
use crate::text::is_digit;
use crate::text::nat_text;
use crate::text::padded_text;
use crate::text::push_decimal;
use crate::text::push_padded;

verus! {

/// Whether `c` is a hexadecimal digit, in either case.
pub open spec fn is_hex(c: char) -> bool {
    is_digit(c) || ('a' <= c && c <= 'f') || ('A' <= c && c <= 'F')
}

/// The number from 0 to 15 that the hexadecimal digit `c` stands for.
pub open spec fn hex_value(c: char) -> nat
    recommends
        is_hex(c),
{
    if is_digit(c) {
        (c as u32 - '0' as u32) as nat
    } else if 'a' <= c && c <= 'f' {
        (c as u32 - 'a' as u32 + 10) as nat
    } else {
        (c as u32 - 'A' as u32 + 10) as nat
    }
}

/// The lower-case hexadecimal digit for `d`, which is less than sixteen.
pub open spec fn hex_char(d: nat) -> char
    recommends
        d < 16,
{
    if d < 10 {
        ((d + 48) as u8) as char
    } else {
        ((d + 87) as u8) as char
    }
}

/// Sixteen to the power `e`.
pub open spec fn pow16(e: nat) -> nat
    decreases e,
{
    if e == 0 {
        1
    } else {
        16 * pow16((e - 1) as nat)
    }
}

/// The positions of the four hyphens in the 36 characters of an identity.
pub open spec fn is_hyphen_at(i: int) -> bool {
    i == 8 || i == 13 || i == 18 || i == 23
}

/// The position in the text of the hexadecimal digit number `k` (0 to 31,
/// most significant first).
pub open spec fn digit_position(k: int) -> int {
    if k >= 20 {
        k + 4
    } else if k >= 16 {
        k + 3
    } else if k >= 12 {
        k + 2
    } else if k >= 8 {
        k + 1
    } else {
        k
    }
}

/// The number, from 0 to 31, of the hexadecimal digit at position `i` of the
/// text, where `i` is not the position of a hyphen.
pub open spec fn digit_number(i: int) -> int {
    if i > 23 {
        i - 4
    } else if i > 18 {
        i - 3
    } else if i > 13 {
        i - 2
    } else if i > 8 {
        i - 1
    } else {
        i
    }
}

/// The canonical layout of an identity: 36 characters, hyphens at positions
/// 8, 13, 18 and 23, hexadecimal digits everywhere else.
pub open spec fn has_id_layout(s: Seq<char>) -> bool {
    &&& s.len() == 36
    &&& forall|i: int|
        0 <= i < 36 ==> if is_hyphen_at(i) {
            #[trigger] s[i] == '-'
        } else {
            is_hex(s[i])
        }
}

/// The number written by the first `k` hexadecimal digits of `s`.
pub open spec fn id_prefix_value(s: Seq<char>, k: nat) -> nat
    decreases k,
{
    if k == 0 {
        0
    } else {
        id_prefix_value(s, (k - 1) as nat) * 16 + hex_value(s[digit_position(k - 1)])
    }
}

/// The 128-bit number written by the 32 hexadecimal digits of `s`.
pub open spec fn id_value(s: Seq<char>) -> nat {
    id_prefix_value(s, 32)
}

/// Digit number `k` (0 to 31, most significant first) of `v` in base sixteen.
pub open spec fn nibble(v: nat, k: int) -> nat {
    (v / pow16((31 - k) as nat)) % 16
}

/// The canonical text of the 128-bit value `v`: its 32 lower-case
/// hexadecimal digits in groups of 8, 4, 4, 4 and 12, joined by hyphens.
pub open spec fn id_text(v: nat) -> Seq<char> {
    Seq::new(
        36,
        |i: int|
            if is_hyphen_at(i) {
                '-'
            } else {
                hex_char(nibble(v, digit_number(i)))
            },
    )
}

/// Whether `v` carries the fixed bits of a randomly generated identity:
/// version 4 in bits 76 to 79, variant `10` in bits 62 and 63.
pub open spec fn is_random_id(v: u128) -> bool {
    (v >> 76u128) & 0xfu128 == 4u128 && (v >> 62u128) & 0x3u128 == 2u128
}

/// `uuid::Error`, the error of `uuid::Uuid::parse_str`. Nothing is said of
/// what it holds.
#[verifier::external_type_specification]
#[verifier::external_body]
pub struct ExUuidError(uuid::Error);

/// `uuid::Uuid::new_v4`, read as a number by `Uuid::as_u128`: a random value
/// with the version and variant bits of a version-4 identity set.
#[verifier::external_body]
fn random_bits() -> (r: u128)
    ensures
        is_random_id(r),
{
    uuid::Uuid::new_v4().as_u128()
}

/// `uuid::Uuid::parse_str` on a text in the canonical layout: it succeeds,
/// and `Uuid::as_u128` of the result is the number that the 32 digits write,
/// most significant digit first.
#[verifier::external_body]
fn parse_bits(input: &str) -> (r: Result<u128, uuid::Error>)
    requires
        has_id_layout(input@),
    ensures
        r is Ok,
        r->Ok_0 == id_value(input@),
{
    match uuid::Uuid::parse_str(input) {
        Ok(u) => Ok(u.as_u128()),
        Err(e) => Err(e),
    }
}

/// `Uuid::to_string` of `uuid::Uuid::from_u128(v)`: the hyphenated
/// lower-case text of `v`.
#[verifier::external_body]
fn bits_text(v: u128) -> (r: String)
    ensures
        r@ == id_text(v as nat),
{
    uuid::Uuid::from_u128(v).to_string()
}

/// The text that was offered as an identity and is none.
#[derive(Debug, Clone, PartialEq, Eq)]
pub struct MalformedIdentity {
    pub text: String,
}

/// The message for a text that is no identity.
pub open spec fn malformed_identity_text(text: Seq<char>) -> Seq<char> {
    "given input \""@ + text + "\" couldn't be parsed as a UUID"@
}

impl MalformedIdentity {
    /// The message that tells the user what was wrong.
    pub fn to_string(&self) -> (r: String)
        ensures
            r@ == malformed_identity_text(self.text@),
    {
        let mut s: String = String::from_str("given input \"");
        s.append(self.text.as_str());
        s.append("\" couldn't be parsed as a UUID");
        s
    }
}

/// The system-wide identity of a record: a 128-bit value, immutable once
/// made, written as 36 characters of hyphenated hexadecimal.
#[derive(Debug, Clone, Copy, PartialEq, Eq, Structural, Hash)]
pub struct ID {
    bits: u128,
}

impl View for ID {
    type V = nat;

    closed spec fn view(&self) -> nat {
        self.bits as nat
    }
}

impl ID {
    /// An identity is a 128-bit value.
    pub proof fn lemma_in_range(self)
        ensures
            self@ <= u128::MAX,
    {
    }

    /// Identities of the same value are the same identity.
    pub proof fn lemma_same_value(self, other: ID)
        requires
            self@ == other@,
        ensures
            self == other,
    {
    }

    /// A fresh random identity.
    pub fn new() -> (r: ID)
        ensures
            r@ <= u128::MAX,
            is_random_id(r@ as u128),
    {
        ID { bits: random_bits() }
    }

    /// The identity with the given 128-bit value.
    pub fn from_u128(bits: u128) -> (r: ID)
        ensures
            r@ == bits,
    {
        ID { bits }
    }

    /// The 128-bit value of the identity.
    pub fn as_u128(&self) -> (r: u128)
        ensures
            r == self@,
    {
        self.bits
    }

    /// Reads an identity from its canonical text. Any other text is
    /// handed back in the error.
    pub fn from(input: &str) -> (r: Result<ID, MalformedIdentity>)
        ensures
            match r {
                Ok(id) => has_id_layout(input@) && id@ == id_value(input@),
                Err(e) => !has_id_layout(input@) && e.text@ == input@,
            },
    {
        if check_id_layout(input) {
            match parse_bits(input) {
                Ok(bits) => Ok(ID { bits }),
                Err(_) => Err(MalformedIdentity { text: String::from_str(input) }),
            }
        } else {
            Err(MalformedIdentity { text: String::from_str(input) })
        }
    }

    /// The canonical text of the identity.
    pub fn to_string(&self) -> (r: String)
        ensures
            r@ == id_text(self@),
    {
        bits_text(self.bits)
    }
}

proof fn lemma_pow16_32()
    ensures
        pow16(32) == 0x1_0000_0000_0000_0000_0000_0000_0000_0000,
{
    reveal_with_fuel(pow16, 33);
}

proof fn lemma_pow16_positive(e: nat)
    ensures
        pow16(e) >= 1,
    decreases e,
{
    if e > 0 {
        lemma_pow16_positive((e - 1) as nat);
    }
}

proof fn lemma_hex_char(d: nat)
    requires
        d < 16,
    ensures
        is_hex(hex_char(d)),
        hex_value(hex_char(d)) == d,
{
}

/// The first `k` digits of the text of `v` write `v` without its last
/// `32 - k` digits.
proof fn lemma_id_prefix_value(v: nat, k: nat)
    requires
        v < pow16(32),
        k <= 32,
    ensures
        id_prefix_value(id_text(v), k) == v / pow16((32 - k) as nat),
    decreases k,
{
    if k == 0 {
        vstd::arithmetic::div_mod::lemma_basic_div(v as int, pow16(32) as int);
    } else {
        let j = (k - 1) as nat;
        lemma_id_prefix_value(v, j);
        let q = pow16((32 - k) as nat);
        lemma_pow16_positive((32 - k) as nat);
        assert(pow16((32 - j) as nat) == 16 * q);
        let y = v / q;
        vstd::arithmetic::div_mod::lemma_div_denominator(v as int, q as int, 16);
        assert(q * 16 == 16 * q) by (nonlinear_arith);
        assert(v / (16 * q) == y / 16);
        let i = digit_position(j as int);
        assert(!is_hyphen_at(i));
        assert(digit_number(i) == j);
        assert(id_text(v)[i] == hex_char(nibble(v, j as int)));
        assert(nibble(v, j as int) == y % 16);
        lemma_hex_char(y % 16);
    }
}

/// Writing an identity and reading the text back gives the identity: the
/// text of every identity has the canonical layout and writes the value of
/// that identity.
pub proof fn lemma_id_round_trip(id: ID)
    ensures
        has_id_layout(id_text(id@)),
        id_value(id_text(id@)) == id@,
{
    lemma_bits_round_trip(id.bits);
}

proof fn lemma_bits_round_trip(v: u128)
    ensures
        has_id_layout(id_text(v as nat)),
        id_value(id_text(v as nat)) == v,
{
    let t = id_text(v as nat);
    assert forall|i: int| 0 <= i < 36 implies if is_hyphen_at(i) {
        #[trigger] t[i] == '-'
    } else {
        is_hex(t[i])
    } by {
        if !is_hyphen_at(i) {
            lemma_hex_char(nibble(v as nat, digit_number(i)));
        }
    }
    lemma_pow16_32();
    assert((v as nat) < pow16(32));
    lemma_id_prefix_value(v as nat, 32);
    assert(pow16((32 - 32) as nat) == 1);
    assert((v as nat) / 1 == v as nat);
}

/// The text of the identifier that numbers a record of kind `record` with
/// `number`: prefix, hyphen, number.
pub open spec fn sequence_text(record: RecordType, number: nat) -> Seq<char> {
    record.prefix() + seq!['-'] + nat_text(number)
}

/// The text of the identifier that numbers a record of kind `record` within
/// `year`: prefix, hyphen, the last two digits of the year, hyphen, number.
pub open spec fn year_sequence_text(record: RecordType, year: int, number: nat) -> Seq<char> {
    record.prefix() + seq!['-'] + padded_text((year % 100) as nat, 2) + seq!['-'] + nat_text(
        number,
    )
}

/// What an `Ident` stands for: the kind of record it names and its text.
pub struct IdentView {
    pub record: RecordType,
    pub text: Seq<char>,
}

/// The short identifier of a record, chosen by people and unique among the
/// records of one kind. It is easier to remember than the `ID`.
#[derive(Debug, PartialEq, Eq)]
pub struct Ident {
    record: RecordType,
    data: String,
}

impl View for Ident {
    type V = IdentView;

    closed spec fn view(&self) -> IdentView {
        IdentView { record: self.record, text: self.data@ }
    }
}

impl Clone for Ident {
    fn clone(&self) -> (r: Self)
        ensures
            r@ == self@,
    {
        Ident { record: self.record, data: self.data.clone() }
    }
}

impl Ident {
    /// The identifier with a freely chosen text.
    pub fn from(record: RecordType, ident: &str) -> (r: Ident)
        ensures
            r@ == (IdentView { record, text: ident@ }),
    {
        Ident { record, data: String::from_str(ident) }
    }

    /// The identifier made of the prefix of the kind of record and the
    /// given number, as in `e-23`.
    pub fn from_n(record: RecordType, number: u64) -> (r: Ident)
        ensures
            r@ == (IdentView { record, text: sequence_text(record, number as nat) }),
    {
        let mut data: String = String::from_str(Ident::prefix(record));
        data.push('-');
        push_decimal(&mut data, number);
        proof {
            assert(data@ =~= sequence_text(record, number as nat));
        }
        Ident { record, data }
    }

    /// The identifier made of the prefix of the kind of record, the last
    /// two digits of the year of `date` and the given number, as in
    /// `e-19-23`.
    pub fn from_year_n(record: RecordType, date: Date, number: u64) -> (r: Ident)
        ensures
            r@ == (IdentView {
                record,
                text: year_sequence_text(record, date@.year, number as nat),
            }),
    {
        let mut data: String = String::from_str(Ident::prefix(record));
        data.push('-');
        push_padded(&mut data, date.year_2d() as u64, 2);
        data.push('-');
        push_decimal(&mut data, number);
        proof {
            assert(data@ =~= year_sequence_text(record, date@.year, number as nat));
        }
        Ident { record, data }
    }

    /// The letters that start the identifiers of records of kind `record`.
    pub fn prefix(record: RecordType) -> (r: &'static str)
        ensures
            r@ == record.prefix(),
    {
        match record {
            RecordType::Customer => "c",
            RecordType::Employee => "y",
            RecordType::Expense => "e",
            RecordType::ExpenseCategory => "ec",
            RecordType::Invoice => "i",
            RecordType::Misc => "m",
            RecordType::Project => "p",
            RecordType::Transaction => "t",
        }
    }

    /// The kind of record that the identifier names.
    pub fn record(&self) -> (r: RecordType)
        ensures
            r == self@.record,
    {
        self.record
    }

    /// The text of the identifier.
    pub fn to_string(&self) -> (r: String)
        ensures
            r@ == self@.text,
    {
        self.data.clone()
    }
}

impl Default for Ident {
    /// The identifier `e-23` of an expense.
    fn default() -> (r: Ident)
        ensures
            r@ == (IdentView { record: RecordType::Expense, text: "e-23"@ }),
    {
        Ident::from(RecordType::Expense, "e-23")
    }
}

fn check_hex(c: char) -> (r: bool)
    ensures
        r == is_hex(c),
{
    ('0' <= c && c <= '9') || ('a' <= c && c <= 'f') || ('A' <= c && c <= 'F')
}

/// Decides whether `input` has the canonical layout of an identity.
pub fn check_id_layout(input: &str) -> (r: bool)
    ensures
        r == has_id_layout(input@),
{
    if input.unicode_len() != 36 {
        return false;
    }
    let mut i: usize = 0;
    while i < 36
        invariant
            i <= 36,
            input@.len() == 36,
            forall|j: int|
                0 <= j < i ==> if is_hyphen_at(j) {
                    #[trigger] input@[j] == '-'
                } else {
                    is_hex(input@[j])
                },
        decreases 36 - i,
    {
        let c: char = input.get_char(i);
        let ok: bool = if i == 8 || i == 13 || i == 18 || i == 23 {
            c == '-'
        } else {
            check_hex(c)
        };
        if !ok {
            return false;
        }
        i = i + 1;
    }
    true
}

} // verus!
