//! Money: an exact amount, counted in the minor unit of its currency, and
//! the canonical text `<amount> <code>` in which it is persisted.

use vstd::prelude::*;
use vstd::string::StrSliceExecFns;
use vstd::string::StringExecFns;
use crate::text::all_digits;
use crate::text::is_digit;
use crate::text::lemma_digits_value_bound;
use crate::text::lemma_nat_text;
use crate::text::lemma_padded_text;
use crate::text::lemma_pow10_positive;
use crate::text::lemma_pow10_monotone;
use crate::text::digits_value;
use crate::text::nat_text;
use crate::text::padded_text;
use crate::text::parse_digits;
use crate::text::pow10;
use crate::text::push_decimal;
use crate::text::push_padded;
use crate::text::check_digit;
use crate::text::lemma_trailing_digits;
use crate::text::trailing_digits;

verus! {

/// The largest number of decimal places of a minor unit that a `Currency`
/// can have.
pub const MAX_EXPONENT: u32 = 18;

/// What the table of `rusty_money` holds for a currency code: the
/// alphabetic code of the currency and the number of decimal places of its
/// minor unit, or nothing where the table has no such currency.
pub uninterp spec fn iso_currency(code: Seq<char>) -> Option<(Seq<char>, nat)>;

/// `rusty_money::Currency::find`: the entry of the currency table for
/// `code`, of which the fields `iso_alpha_code` and `exponent` are handed on.
#[verifier::external_body]
fn find_currency(code: &str) -> (r: Option<(String, u32)>)
    ensures
        match r {
            Some(entry) => iso_currency(code@) == Some((entry.0@, entry.1 as nat)),
            None => iso_currency(code@) is None,
        },
{
    match rusty_money::Currency::find(code) {
        Ok(currency) => Some((currency.iso_alpha_code.to_string(), currency.exponent)),
        Err(_) => None,
    }
}

/// The text in which `rusty_money` displays `minor` minor units of the
/// currency that its table has for `code`, in the manner of the country of
/// that currency, or nothing where the table has no such currency.
pub uninterp spec fn local_money_text(minor: int, code: Seq<char>) -> Option<Seq<char>>;

/// `ToString::to_string` of the `rusty_money::Money` that
/// `Money::from_minor` makes of `minor` and of what
/// `rusty_money::Currency::find` gives for `code`.
#[verifier::external_body]
fn local_text(minor: i64, code: &str) -> (r: Option<String>)
    ensures
        match r {
            Some(text) => local_money_text(minor as int, code@) == Some(text@),
            None => local_money_text(minor as int, code@) is None,
        },
{
    match rusty_money::Currency::find(code) {
        Ok(currency) => Some(rusty_money::Money::from_minor(minor, currency).to_string()),
        Err(_) => None,
    }
}

/// Whether `c` is an upper-case letter of the basic Latin alphabet.
pub open spec fn is_upper(c: char) -> bool {
    'A' <= c && c <= 'Z'
}

/// Whether `code` has the shape of an alphabetic currency code: three
/// upper-case letters.
pub open spec fn is_alpha_code(code: Seq<char>) -> bool {
    code.len() == 3 && is_upper(code[0]) && is_upper(code[1]) && is_upper(code[2])
}

/// What a `Currency` stands for: its alphabetic code and the number of
/// decimal places of its minor unit.
pub struct CurrencyView {
    pub code: Seq<char>,
    pub exponent: nat,
}

impl CurrencyView {
    /// Whether this is a currency that a `Currency` can hold.
    pub open spec fn wf(self) -> bool {
        is_alpha_code(self.code) && self.exponent <= MAX_EXPONENT
    }

    /// Whether the currency table has this currency under its own code,
    /// with this number of decimal places.
    pub open spec fn is_listed(self) -> bool {
        iso_currency(self.code) == Some((self.code, self.exponent))
    }
}

/// The currency that the table gives for `code`, where it has one that a
/// `Currency` can hold.
pub open spec fn supported_currency(code: Seq<char>) -> Option<CurrencyView> {
    match iso_currency(code) {
        Some(entry) => {
            let currency = CurrencyView { code: entry.0, exponent: entry.1 };
            if currency.wf() {
                Some(currency)
            } else {
                None
            }
        },
        None => None,
    }
}

/// A currency: a code of three upper-case letters and the number of decimal
/// places of its minor unit, at most `MAX_EXPONENT`.
#[derive(Debug, Clone, Copy, PartialEq, Eq, Structural, Hash)]
pub struct Currency {
    first: char,
    second: char,
    third: char,
    exponent: u32,
}

impl View for Currency {
    type V = CurrencyView;

    closed spec fn view(&self) -> CurrencyView {
        CurrencyView {
            code: seq![self.first, self.second, self.third],
            exponent: self.exponent as nat,
        }
    }
}

fn check_upper(c: char) -> (r: bool)
    ensures
        r == is_upper(c),
{
    'A' <= c && c <= 'Z'
}

impl Currency {
    #[verifier::type_invariant]
    spec fn well_formed(self) -> bool {
        self@.wf()
    }

    /// Currencies of the same code and decimal places are the same
    /// currency.
    pub proof fn lemma_same_currency(self, other: Currency)
        requires
            self@ == other@,
        ensures
            self == other,
    {
        assert(self@.code[0] == other@.code[0]);
        assert(self@.code[1] == other@.code[1]);
        assert(self@.code[2] == other@.code[2]);
    }

    /// The currency with the given code and number of decimal places, if
    /// the code is three upper-case letters and the places are at most
    /// `MAX_EXPONENT`.
    pub fn new(code: &str, exponent: u32) -> (r: Option<Currency>)
        ensures
            r is Some <==> is_alpha_code(code@) && exponent <= MAX_EXPONENT,
            r matches Some(currency) ==> currency@ == (CurrencyView {
                code: code@,
                exponent: exponent as nat,
            }),
    {
        if code.unicode_len() != 3 || exponent > MAX_EXPONENT {
            return None;
        }
        let first: char = code.get_char(0);
        let second: char = code.get_char(1);
        let third: char = code.get_char(2);
        if check_upper(first) && check_upper(second) && check_upper(third) {
            let currency = Currency { first, second, third, exponent };
            proof {
                assert(currency@.code =~= code@);
            }
            Some(currency)
        } else {
            None
        }
    }

    /// Looks `code` up in the currency table.
    pub fn find(code: &str) -> (r: Option<Currency>)
        ensures
            match r {
                Some(currency) => supported_currency(code@) == Some(currency@),
                None => supported_currency(code@) is None,
            },
    {
        match find_currency(code) {
            Some(entry) => Currency::new(entry.0.as_str(), entry.1),
            None => None,
        }
    }

    /// Whether the currency table has this currency under its own code,
    /// with this number of decimal places.
    pub fn is_listed(&self) -> (r: bool)
        ensures
            r == self@.is_listed(),
    {
        let code: String = self.code();
        match find_currency(code.as_str()) {
            Some(entry) => {
                let same: bool = entry.0 == code;
                same && entry.1 == self.exponent
            },
            None => false,
        }
    }

    /// The alphabetic code of the currency.
    pub fn code(&self) -> (r: String)
        ensures
            r@ == self@.code,
            is_alpha_code(r@),
    {
        proof {
            use_type_invariant(self);
        }
        let mut s: String = String::new();
        s.push(self.first);
        s.push(self.second);
        s.push(self.third);
        proof {
            assert(s@ =~= self@.code);
        }
        s
    }

    /// The number of decimal places of the minor unit.
    pub fn exponent(&self) -> (r: u32)
        ensures
            r == self@.exponent,
            r <= MAX_EXPONENT,
    {
        proof {
            use_type_invariant(self);
        }
        self.exponent
    }
}

/// The amount without its sign.
pub open spec fn magnitude(minor: int) -> nat {
    if minor < 0 {
        (-minor) as nat
    } else {
        minor as nat
    }
}

/// The canonical text of an amount of `minor` minor units in a currency
/// with `exponent` decimal places: a minus sign where the amount is
/// negative, the whole units without leading zeros or grouping and, where
/// the currency has decimal places, a full stop and exactly that many
/// digits.
pub open spec fn amount_text(minor: int, exponent: nat) -> Seq<char> {
    (if minor < 0 {
        seq!['-']
    } else {
        Seq::<char>::empty()
    }) + nat_text(magnitude(minor) / pow10(exponent)) + (if exponent > 0 {
        seq!['.'] + padded_text(magnitude(minor) % pow10(exponent), exponent)
    } else {
        Seq::<char>::empty()
    })
}

/// What a `Money` stands for: a count of minor units and a currency.
pub struct MoneyView {
    pub minor: int,
    pub currency: CurrencyView,
}

/// The canonical text of an amount of money: the amount, one space, the
/// currency code.
pub open spec fn money_text(money: MoneyView) -> Seq<char> {
    amount_text(money.minor, money.currency.exponent) + seq![' '] + money.currency.code
}

/// The number that an amount without sign writes for a currency with
/// `exponent` decimal places, counted in minor units. The amount is either
/// digits only, which count whole units, or digits, a full stop and from
/// one to `exponent` digits, which count whole units and a decimal fraction
/// of a unit. Anything else writes no amount: more decimal places than the
/// currency has, nothing before or nothing after the full stop, any other
/// character.
pub open spec fn unsigned_value(body: Seq<char>, exponent: nat) -> Option<nat> {
    let places = trailing_digits(body);
    let whole = body.len() - places - 1;
    if body.len() >= 1 && places == body.len() {
        Some(digits_value(body) * pow10(exponent))
    } else if 1 <= places <= exponent && whole >= 1 && body[whole] == '.' && all_digits(
        body.subrange(0, whole),
    ) {
        Some(
            digits_value(body.subrange(0, whole)) * pow10(exponent) + digits_value(
                body.subrange(whole + 1, body.len() as int),
            ) * pow10((exponent - places) as nat),
        )
    } else {
        None
    }
}

/// The number of minor units that the amount `token` writes for a currency
/// with `exponent` decimal places. A sign may come first.
pub open spec fn amount_value(token: Seq<char>, exponent: nat) -> Option<int> {
    let signed = token.len() > 0 && (token[0] == '-' || token[0] == '+');
    let body = if signed {
        token.subrange(1, token.len() as int)
    } else {
        token
    };
    match unsigned_value(body, exponent) {
        Some(v) => Some(
            if signed && token[0] == '-' {
                -(v as int)
            } else {
                v as int
            },
        ),
        None => None,
    }
}

/// Whether the one space of `s` is at position `i`.
pub open spec fn is_only_space(s: Seq<char>, i: int) -> bool {
    &&& 0 <= i < s.len()
    &&& s[i] == ' '
    &&& forall|j: int| 0 <= j < s.len() && j != i ==> #[trigger] s[j] != ' '
}

/// Whether `s` holds exactly one space.
pub open spec fn has_one_space(s: Seq<char>) -> bool {
    exists|i: int| is_only_space(s, i)
}

/// The position of the one space of `s`.
pub open spec fn space_position(s: Seq<char>) -> int {
    choose|i: int| is_only_space(s, i)
}

/// Why a text is no amount of money.
#[derive(Debug, Clone, Copy, PartialEq, Eq, Structural, Hash)]
pub enum MoneyFault {
    /// The text does not hold exactly one space.
    Spaces,
    /// What follows the space is no currency of the table.
    Currency,
    /// What stands before the space is no amount, has more decimal places
    /// than that currency has, or is more than a `Money` can hold.
    Amount,
}

/// The text that shows an amount of money to the user: the local text
/// where there is one, else the canonical text.
pub open spec fn display_text(money: MoneyView, local: Option<Seq<char>>) -> Seq<char> {
    match local {
        Some(text) => text,
        None => money_text(money),
    }
}

/// What the text `s` says as an amount of money, or why it says none.
pub open spec fn read_money(s: Seq<char>) -> Result<MoneyView, MoneyFault> {
    if !has_one_space(s) {
        Err(MoneyFault::Spaces)
    } else {
        let at = space_position(s);
        match supported_currency(s.subrange(at + 1, s.len() as int)) {
            None => Err(MoneyFault::Currency),
            Some(currency) => match amount_value(s.subrange(0, at), currency.exponent) {
                Some(v) => if i64::MIN <= v <= i64::MAX {
                    Ok(MoneyView { minor: v, currency })
                } else {
                    Err(MoneyFault::Amount)
                },
                None => Err(MoneyFault::Amount),
            },
        }
    }
}

/// A text that was offered as an amount of money and is none, with the
/// reason.
#[derive(Debug, Clone, PartialEq, Eq)]
pub struct MalformedMoney {
    pub text: String,
    pub reason: MoneyFault,
}

impl MoneyFault {
    /// What is wrong with the text, in words.
    pub open spec fn explanation(self) -> Seq<char> {
        match self {
            MoneyFault::Spaces => "contains to many whitespaces"@,
            MoneyFault::Currency => "Currency was not valid"@,
            MoneyFault::Amount => "Amount not parseable"@,
        }
    }

    /// What is wrong with the text, in words.
    pub fn to_string(&self) -> (r: String)
        ensures
            r@ == self.explanation(),
    {
        String::from_str(
            match self {
                MoneyFault::Spaces => "contains to many whitespaces",
                MoneyFault::Currency => "Currency was not valid",
                MoneyFault::Amount => "Amount not parseable",
            },
        )
    }
}

/// The message for a text that is no amount of money.
pub open spec fn malformed_money_text(text: Seq<char>, reason: MoneyFault) -> Seq<char> {
    "given input value \""@ + text + "\" couldn't be parsed as a amount of money, "@
        + reason.explanation()
}

impl MalformedMoney {
    /// The message that tells the user what was wrong.
    pub fn to_string(&self) -> (r: String)
        ensures
            r@ == malformed_money_text(self.text@, self.reason),
    {
        let reason: String = self.reason.to_string();
        let mut s: String = String::from_str("given input value \"");
        s.append(self.text.as_str());
        s.append("\" couldn't be parsed as a amount of money, ");
        s.append(reason.as_str());
        s
    }
}

/// An exact amount of money: a count of the minor unit of a currency. Two
/// amounts are equal where count and currency are.
#[derive(Debug, Clone, Copy, PartialEq, Eq, Structural, Hash)]
pub struct Money {
    minor: i64,
    currency: Currency,
}

impl View for Money {
    type V = MoneyView;

    closed spec fn view(&self) -> MoneyView {
        MoneyView { minor: self.minor as int, currency: self.currency@ }
    }
}

proof fn lemma_pow10_18()
    ensures
        pow10(18) == 1_000_000_000_000_000_000,
{
    reveal_with_fuel(pow10, 19);
}

fn pow10_of(exponent: u32) -> (r: u64)
    requires
        exponent <= MAX_EXPONENT,
    ensures
        r == pow10(exponent as nat),
        1 <= r <= 1_000_000_000_000_000_000,
{
    let mut r: u64 = 1;
    let mut i: u32 = 0;
    while i < exponent
        invariant
            i <= exponent <= MAX_EXPONENT,
            r == pow10(i as nat),
        decreases exponent - i,
    {
        proof {
            lemma_pow10_monotone((i + 1) as nat, 18);
            lemma_pow10_18();
        }
        r = r * 10;
        i = i + 1;
    }
    proof {
        lemma_pow10_monotone(exponent as nat, 18);
        lemma_pow10_18();
        crate::text::lemma_pow10_positive(exponent as nat);
    }
    r
}

fn magnitude_of(minor: i64) -> (r: u64)
    ensures
        r == magnitude(minor as int),
{
    if minor >= 0 {
        minor as u64
    } else if minor == i64::MIN {
        9_223_372_036_854_775_808
    } else {
        (-minor) as u64
    }
}

/// Finds the one space of `text`, if it holds exactly one.
fn find_only_space(text: &str) -> (r: Option<usize>)
    ensures
        match r {
            Some(i) => is_only_space(text@, i as int) && space_position(text@) == i,
            None => !has_one_space(text@),
        },
{
    let n: usize = text.unicode_len();
    let mut found: Option<usize> = None;
    let mut i: usize = 0;
    while i < n
        invariant
            i <= n,
            n == text@.len(),
            match found {
                Some(k) => k < i && text@[k as int] == ' ' && forall|j: int|
                    0 <= j < i && j != k ==> #[trigger] text@[j] != ' ',
                None => forall|j: int| 0 <= j < i ==> #[trigger] text@[j] != ' ',
            },
        decreases n - i,
    {
        if text.get_char(i) == ' ' {
            match found {
                Some(k) => {
                    proof {
                        assert forall|c: int| !is_only_space(text@, c) by {
                            if is_only_space(text@, c) {
                                if c != k {
                                    assert(text@[k as int] != ' ');
                                } else {
                                    assert(text@[i as int] != ' ');
                                }
                            }
                        }
                    }
                    return None;
                },
                None => {
                    found = Some(i);
                },
            }
        }
        i = i + 1;
    }
    proof {
        match found {
            Some(k) => {
                assert(is_only_space(text@, k as int));
                let c = space_position(text@);
                assert(is_only_space(text@, c));
                if c != k {
                    assert(text@[k as int] != ' ');
                }
            },
            None => {
                assert forall|c: int| !is_only_space(text@, c) by {
                    if is_only_space(text@, c) {
                        assert(text@[c] != ' ');
                    }
                }
            },
        }
    }
    found
}

/// Reads the amount without sign that `token` holds from position `from`
/// on, for a currency with `exponent` decimal places. There is no result
/// where it writes none or more than two to the power 63.
fn read_unsigned(token: &str, from: usize, exponent: u32) -> (r: Option<u64>)
    requires
        from <= token@.len(),
        exponent <= MAX_EXPONENT,
    ensures
        match r {
            Some(v) => unsigned_value(
                token@.subrange(from as int, token@.len() as int),
                exponent as nat,
            ) == Some(v as nat) && v <= 0x8000_0000_0000_0000,
            None => match unsigned_value(
                token@.subrange(from as int, token@.len() as int),
                exponent as nat,
            ) {
                Some(v) => v > 0x8000_0000_0000_0000,
                None => true,
            },
        },
{
    let n: usize = token.unicode_len();
    let ghost body = token@.subrange(from as int, n as int);
    let mut first: usize = n;
    let mut more: bool = true;
    while more && first > from
        invariant
            from <= first <= n,
            n == token@.len(),
            forall|j: int| first <= j < n ==> is_digit(#[trigger] token@[j]),
            !more ==> first > from && !is_digit(token@[first - 1]),
        decreases (first - from) + (if more { 1int } else { 0int }),
    {
        if check_digit(token.get_char(first - 1)) {
            first = first - 1;
        } else {
            more = false;
        }
    }
    let places: usize = n - first;
    let p: u64 = pow10_of(exponent);
    proof {
        let tail = body.subrange(body.len() - places, body.len() as int);
        assert(tail =~= token@.subrange(first as int, n as int));
        assert forall|j: int| 0 <= j < tail.len() implies is_digit(#[trigger] tail[j]) by {
            assert(tail[j] == token@[first + j]);
        }
        if places < body.len() {
            assert(body[body.len() - places - 1] == token@[first - 1]);
        }
        lemma_trailing_digits(body, places as nat);
    }
    if first == from {
        if n == from {
            return None;
        }
        let units: u64 = match parse_digits(token, from, n) {
            Some(v) => v,
            None => {
                proof {
                    let w = digits_value(body);
                    assert(w * p >= w) by (nonlinear_arith)
                        requires
                            p >= 1,
                    ;
                }
                return None;
            },
        };
        proof {
            assert(units * p <= 0xffff_ffff_ffff_ffff * 1_000_000_000_000_000_000)
                by (nonlinear_arith)
                requires
                    units <= 0xffff_ffff_ffff_ffff,
                    p <= 1_000_000_000_000_000_000,
            ;
        }
        let total: u128 = units as u128 * p as u128;
        if total <= 0x8000_0000_0000_0000 {
            Some(total as u64)
        } else {
            None
        }
    } else {
        let dot: usize = first - 1;
        if places < 1 || places > exponent as usize || dot <= from {
            return None;
        }
        let ghost whole = body.len() - places - 1;
        proof {
            assert(whole == dot - from);
            assert(body[whole] == token@[dot as int]);
            assert(body.subrange(0, whole) =~= token@.subrange(from as int, dot as int));
            assert(body.subrange(whole + 1, body.len() as int) =~= token@.subrange(
                dot + 1,
                n as int,
            ));
        }
        if token.get_char(dot) != '.' {
            return None;
        }
        let units: u64 = match parse_digits(token, from, dot) {
            Some(v) => v,
            None => {
                proof {
                    let w = digits_value(token@.subrange(from as int, dot as int));
                    assert(w * p >= w) by (nonlinear_arith)
                        requires
                            p >= 1,
                    ;
                }
                return None;
            },
        };
        proof {
            let f = token@.subrange(dot + 1, n as int);
            lemma_digits_value_bound(f);
            lemma_pow10_monotone(f.len(), 18);
            lemma_pow10_18();
        }
        let fraction: u64 = match parse_digits(token, dot + 1, n) {
            Some(v) => v,
            None => {
                return None;
            },
        };
        let scale: u64 = pow10_of(exponent - places as u32);
        proof {
            assert(units * p <= 0xffff_ffff_ffff_ffff * 1_000_000_000_000_000_000)
                by (nonlinear_arith)
                requires
                    units <= 0xffff_ffff_ffff_ffff,
                    p <= 1_000_000_000_000_000_000,
            ;
            assert(fraction * scale <= 1_000_000_000_000_000_000 * 1_000_000_000_000_000_000)
                by (nonlinear_arith)
                requires
                    fraction <= 1_000_000_000_000_000_000,
                    scale <= 1_000_000_000_000_000_000,
            ;
        }
        let total: u128 = units as u128 * p as u128 + fraction as u128 * scale as u128;
        if total <= 0x8000_0000_0000_0000 {
            Some(total as u64)
        } else {
            None
        }
    }
}

/// Reads the amount that `token` writes for a currency with `exponent`
/// decimal places, if it writes one that fits.
fn read_minor(token: &str, exponent: u32) -> (r: Option<i64>)
    requires
        exponent <= MAX_EXPONENT,
    ensures
        match r {
            Some(v) => amount_value(token@, exponent as nat) == Some(v as int),
            None => match amount_value(token@, exponent as nat) {
                Some(v) => !(i64::MIN <= v <= i64::MAX),
                None => true,
            },
        },
{
    let n: usize = token.unicode_len();
    if n == 0 {
        return None;
    }
    let sign: char = token.get_char(0);
    let signed: bool = sign == '-' || sign == '+';
    let from: usize = if signed {
        1
    } else {
        0
    };
    proof {
        if !signed {
            assert(token@.subrange(0, n as int) =~= token@);
        }
    }
    match read_unsigned(token, from, exponent) {
        Some(v) => {
            if sign == '-' {
                if v == 0x8000_0000_0000_0000 {
                    Some(i64::MIN)
                } else {
                    Some(-(v as i64))
                }
            } else if v <= 0x7fff_ffff_ffff_ffff {
                Some(v as i64)
            } else {
                None
            }
        },
        None => None,
    }
}

/// The canonical text of an amount holds a minus sign, digits and at most
/// one full stop. Where the currency has decimal places, none is dropped:
/// the text ends in a full stop and exactly that many digits.
proof fn lemma_amount_text_shape(minor: int, exponent: nat)
    ensures
        forall|i: int|
            0 <= i < amount_text(minor, exponent).len() ==> {
                let c = #[trigger] amount_text(minor, exponent)[i];
                c == '-' || c == '.' || is_digit(c)
            },
        exponent > 0 ==> {
            let t = amount_text(minor, exponent);
            &&& t.len() >= exponent + 2
            &&& t[t.len() - exponent - 1] == '.'
            &&& all_digits(t.subrange(t.len() - exponent, t.len() as int))
        },
{
    let p = pow10(exponent);
    let units = nat_text(magnitude(minor) / p);
    let fraction = padded_text(magnitude(minor) % p, exponent);
    lemma_nat_text(magnitude(minor) / p);
    lemma_padded_text(magnitude(minor) % p, exponent);
    let t = amount_text(minor, exponent);
    let sign = if minor < 0 {
        seq!['-']
    } else {
        Seq::<char>::empty()
    };
    assert forall|i: int| 0 <= i < t.len() implies {
        let c = #[trigger] t[i];
        c == '-' || c == '.' || is_digit(c)
    } by {
        if i < sign.len() {
        } else if i < sign.len() + units.len() {
            assert(t[i] == units[i - sign.len()]);
        } else if i == sign.len() + units.len() {
        } else {
            assert(t[i] == fraction[i - sign.len() - units.len() - 1]);
        }
    }
    if exponent > 0 {
        assert(t.len() == sign.len() + units.len() + 1 + exponent);
        assert(t.subrange(t.len() - exponent, t.len() as int) =~= fraction);
    }
}

/// Reading the canonical text of an amount gives the amount.
proof fn lemma_amount_round_trip(minor: int, exponent: nat)
    ensures
        amount_value(amount_text(minor, exponent), exponent) == Some(minor),
{
    let p = pow10(exponent);
    let m = magnitude(minor);
    lemma_pow10_positive(exponent);
    let units = nat_text(m / p);
    let fraction = padded_text(m % p, exponent);
    lemma_nat_text(m / p);
    lemma_padded_text(m % p, exponent);
    vstd::arithmetic::div_mod::lemma_fundamental_div_mod(m as int, p as int);
    vstd::arithmetic::div_mod::lemma_mod_pos_bound(m as int, p as int);
    vstd::arithmetic::div_mod::lemma_small_mod(m % p, p);
    let t = amount_text(minor, exponent);
    let tail = if exponent > 0 {
        seq!['.'] + fraction
    } else {
        Seq::<char>::empty()
    };
    let body = units + tail;
    assert(is_digit(units[0]));
    if minor < 0 {
        assert(t =~= seq!['-'] + units + tail);
        assert(t[0] == '-');
        assert(t.subrange(1, t.len() as int) =~= body);
    } else {
        assert(t =~= body);
        assert(t[0] == units[0]);
    }
    if exponent == 0 {
        assert(body =~= units);
        assert(p == 1);
        assert(m / 1 == m);
        assert(body.subrange(0, body.len() as int) =~= body);
        lemma_trailing_digits(body, body.len());
        assert(digits_value(body) * 1 == m);
    } else {
        let whole = body.len() - exponent - 1;
        assert(whole == units.len());
        assert(body[whole] == '.');
        assert(body.subrange(0, whole) =~= units);
        assert(body.subrange(whole + 1, body.len() as int) =~= fraction);
        assert(body.subrange(body.len() - exponent, body.len() as int) =~= fraction);
        lemma_trailing_digits(body, exponent);
        assert(pow10((exponent - exponent) as nat) == 1);
        assert((m / p) * p == p * (m / p)) by (nonlinear_arith);
        assert((m % p) * 1 == m % p);
    }
    assert(unsigned_value(body, exponent) == Some(m));
}

/// Writing an amount of money and reading the text back gives the amount,
/// for every amount in a currency that the currency table has. No decimal
/// place is dropped in between, not even a zero.
pub proof fn lemma_money_round_trip(money: Money)
    requires
        money@.currency.wf(),
        money@.currency.is_listed(),
    ensures
        read_money(money_text(money@)) == Ok::<MoneyView, MoneyFault>(money@),
        money@.currency.exponent > 0 ==> {
            let t = amount_text(money@.minor, money@.currency.exponent);
            &&& t.len() >= money@.currency.exponent + 2
            &&& t[t.len() - money@.currency.exponent - 1] == '.'
            &&& all_digits(t.subrange(t.len() - money@.currency.exponent, t.len() as int))
        },
{
    lemma_amount_text_shape(money@.minor, money@.currency.exponent);
    lemma_view_round_trip(money@);
}

proof fn lemma_view_round_trip(money: MoneyView)
    requires
        money.currency.wf(),
        money.currency.is_listed(),
        i64::MIN <= money.minor <= i64::MAX,
    ensures
        read_money(money_text(money)) == Ok::<MoneyView, MoneyFault>(money),
{
    let amount = amount_text(money.minor, money.currency.exponent);
    let code = money.currency.code;
    let t = money_text(money);
    let at = amount.len() as int;
    lemma_amount_text_shape(money.minor, money.currency.exponent);
    lemma_amount_round_trip(money.minor, money.currency.exponent);
    assert(t.len() == at + 4);
    assert(t[at] == ' ');
    assert forall|j: int| 0 <= j < t.len() && j != at implies #[trigger] t[j] != ' ' by {
        if j < at {
            assert(t[j] == amount[j]);
        } else {
            assert(t[j] == code[j - at - 1]);
        }
    }
    assert(is_only_space(t, at));
    let found = space_position(t);
    assert(is_only_space(t, found));
    if found != at {
        assert(t[at] != ' ');
    }
    assert(t.subrange(0, at) =~= amount);
    assert(t.subrange(at + 1, t.len() as int) =~= code);
    assert(supported_currency(code) == Some(money.currency));
}

impl Money {
    /// The count of minor units is a 64-bit number.
    pub proof fn lemma_in_range(self)
        ensures
            i64::MIN <= self@.minor <= i64::MAX,
    {
    }

    /// Amounts of the same count in the same currency are the same amount.
    pub proof fn lemma_same_amount(self, other: Money)
        requires
            self@ == other@,
        ensures
            self == other,
    {
        self.currency.lemma_same_currency(other.currency);
    }

    /// The amount of `minor` minor units of `currency`.
    pub fn new(minor: i64, currency: Currency) -> (r: Money)
        ensures
            r@ == (MoneyView { minor: minor as int, currency: currency@ }),
    {
        Money { minor, currency }
    }

    /// The amount of `major` whole units of `currency`, if a `Money` can
    /// hold it.
    pub fn from_major(major: i64, currency: Currency) -> (r: Option<Money>)
        ensures
            match r {
                Some(money) => money@ == (MoneyView {
                    minor: major * pow10(currency@.exponent),
                    currency: currency@,
                }),
                None => !(i64::MIN <= major * pow10(currency@.exponent) <= i64::MAX),
            },
    {
        let p: u64 = pow10_of(currency.exponent());
        proof {
            assert(-0x8000_0000_0000_0000 * 1_000_000_000_000_000_000 <= major * p
                <= 0x7fff_ffff_ffff_ffff * 1_000_000_000_000_000_000) by (nonlinear_arith)
                requires
                    -0x8000_0000_0000_0000 <= major <= 0x7fff_ffff_ffff_ffff,
                    1 <= p <= 1_000_000_000_000_000_000,
            ;
        }
        let minor: i128 = major as i128 * p as i128;
        if -0x8000_0000_0000_0000 <= minor && minor <= 0x7fff_ffff_ffff_ffff {
            Some(Money { minor: minor as i64, currency })
        } else {
            None
        }
    }

    /// Reads the amount `token` as an amount of `currency`: an optional
    /// sign, digits and, if any, a full stop and from one digit up to as
    /// many as the currency has decimal places. Decimal places that are
    /// not written count as zeros. There is no result where the token is
    /// written otherwise or the amount does not fit.
    pub fn read_amount(token: &str, currency: Currency) -> (r: Option<Money>)
        ensures
            match r {
                Some(money) => amount_value(token@, currency@.exponent) == Some(money@.minor)
                    && money@.currency == currency@,
                None => match amount_value(token@, currency@.exponent) {
                    Some(v) => !(i64::MIN <= v <= i64::MAX),
                    None => true,
                },
            },
    {
        match read_minor(token, currency.exponent()) {
            Some(minor) => Some(Money { minor, currency }),
            None => None,
        }
    }

    /// The amount, counted in the minor unit of the currency.
    pub fn minor(&self) -> (r: i64)
        ensures
            r == self@.minor,
    {
        self.minor
    }

    /// The currency of the amount.
    pub fn currency(&self) -> (r: Currency)
        ensures
            r@ == self@.currency,
            r@.wf(),
    {
        proof {
            use_type_invariant(&self.currency);
        }
        self.currency
    }

    /// The canonical text of the amount, as it is persisted.
    pub fn serialize(&self) -> (r: String)
        ensures
            r@ == money_text(self@),
    {
        let exponent: u32 = self.currency.exponent();
        let p: u64 = pow10_of(exponent);
        let magnitude: u64 = magnitude_of(self.minor);
        let mut s: String = String::new();
        if self.minor < 0 {
            s.push('-');
        }
        push_decimal(&mut s, magnitude / p);
        if exponent > 0 {
            s.push('.');
            push_padded(&mut s, magnitude % p, exponent);
        }
        s.push(' ');
        let code: String = self.currency.code();
        s.append(code.as_str());
        proof {
            assert(s@ =~= money_text(self@));
        }
        s
    }

    /// The text that shows the amount to the user, given the local text
    /// for it, if there is one.
    pub fn display_with(&self, local: Option<String>) -> (r: String)
        ensures
            r@ == display_text(
                self@,
                match local {
                    Some(text) => Some(text@),
                    None => None,
                },
            ),
    {
        match local {
            Some(text) => text,
            None => self.serialize(),
        }
    }

    /// The text that shows the amount to the user: in the manner of the
    /// country of the currency where the currency table has the currency,
    /// else the canonical text.
    pub fn to_string(&self) -> (r: String)
        ensures
            r@ == display_text(self@, local_money_text(self@.minor, self@.currency.code)),
    {
        let code: String = self.currency.code();
        let local: Option<String> = local_text(self.minor, code.as_str());
        self.display_with(local)
    }

    /// Reads an amount of money from its canonical text. Any other text is
    /// handed back in the error, with the reason.
    pub fn deserialize(text: &str) -> (r: Result<Money, MalformedMoney>)
        ensures
            match r {
                Ok(money) => read_money(text@) == Ok::<MoneyView, MoneyFault>(money@),
                Err(e) => read_money(text@) == Err::<MoneyView, MoneyFault>(e.reason) && e.text@
                    == text@,
            },
    {
        let at: usize = match find_only_space(text) {
            Some(i) => i,
            None => {
                return Err(
                    MalformedMoney { text: String::from_str(text), reason: MoneyFault::Spaces },
                );
            },
        };
        let n: usize = text.unicode_len();
        let amount: &str = text.substring_char(0, at);
        let code: &str = text.substring_char(at + 1, n);
        let currency: Currency = match Currency::find(code) {
            Some(c) => c,
            None => {
                return Err(
                    MalformedMoney { text: String::from_str(text), reason: MoneyFault::Currency },
                );
            },
        };
        match Money::read_amount(amount, currency) {
            Some(money) => Ok(money),
            None => Err(
                MalformedMoney { text: String::from_str(text), reason: MoneyFault::Amount },
            ),
        }
    }
}

impl Default for Money {
    /// No money, in Swiss francs.
    fn default() -> (r: Money)
        ensures
            r@ == (MoneyView {
                minor: 0,
                currency: CurrencyView { code: seq!['C', 'H', 'F'], exponent: 2 },
            }),
    {
        Money { minor: 0, currency: Currency { first: 'C', second: 'H', third: 'F', exponent: 2 } }
    }
}

} // verus!
