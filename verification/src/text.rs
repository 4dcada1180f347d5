//! Plain text: decimal numbers, trimming, and moving between strings and characters.

use vstd::prelude::*;

verus! {

/// `String::push`: the character goes to the end of the string, and what the
/// string held before stays in front of it.
pub assume_specification[ String::push ](s: &mut String, c: char)
    ensures
        final(s)@ == old(s)@.push(c),
;

/// What the strings of a vector hold.
pub open spec fn texts(v: Seq<String>) -> Seq<Seq<char>> {
    v.map_values(|s: String| s@)
}

/// The characters of a string, in order.
pub fn chars_of(s: &str) -> (chars: Vec<char>)
    ensures
        chars@ == s@,
{
    let mut chars: Vec<char> = Vec::new();
    for c in it: s.chars()
        invariant
            chars@ == s@.take(it.index()),
            it.seq() == s@,
    {
        chars.push(c);
    }
    chars
}

/// The string made of `chars[from..to]`.
pub fn string_of(chars: &Vec<char>, from: usize, to: usize) -> (s: String)
    requires
        from <= to <= chars@.len(),
    ensures
        s@ == chars@.subrange(from as int, to as int),
{
    let mut s = String::new();
    let mut i: usize = from;
    while i < to
        invariant
            from <= i <= to <= chars@.len(),
            s@ == chars@.subrange(from as int, i as int),
        decreases to - i,
    {
        s.push(chars[i]);
        i += 1;
    }
    s
}

// ---------------------------------------------------------------------------
// Decimal numbers
// ---------------------------------------------------------------------------

/// `c` is one of `0` to `9`.
pub open spec fn is_digit(c: char) -> bool {
    '0' as int <= c as int <= '9' as int
}

/// The number that a digit stands for.
pub open spec fn digit_value(c: char) -> int {
    c as int - '0' as int
}

/// The digit that stands for a number below ten.
pub open spec fn digit_char(d: int) -> char {
    ('0' as int + d) as char
}

/// Every character is a digit.
pub open spec fn all_digits(s: Seq<char>) -> bool {
    forall|i: int| 0 <= i < s.len() ==> is_digit(#[trigger] s[i])
}

/// The number that a sequence of digits stands for; leading zeros do not count.
pub open spec fn digits_value(s: Seq<char>) -> int
    decreases s.len(),
{
    if s.len() == 0 {
        0
    } else {
        digits_value(s.drop_last()) * 10 + digit_value(s.last())
    }
}

/// The decimal digits of `n`, without leading zeros.
pub open spec fn decimal(n: int) -> Seq<char>
    decreases n,
{
    if n < 10 {
        seq![digit_char(n)]
    } else {
        decimal(n / 10).push(digit_char(n % 10))
    }
}

/// Why a text is not a `u32`.
#[derive(Clone, Copy, Debug, PartialEq, Eq, Structural)]
pub enum NumberError {
    /// There is nothing to read.
    Empty,
    /// A character is not a digit.
    InvalidDigit,
    /// The number is larger than `u32::MAX`.
    PosOverflow,
}

impl NumberError {
    /// What the error says.
    pub open spec fn text(self) -> Seq<char> {
        match self {
            NumberError::Empty => "cannot parse integer from empty string"@,
            NumberError::InvalidDigit => "invalid digit found in string"@,
            NumberError::PosOverflow => "number too large to fit in target type"@,
        }
    }

    /// The error in words.
    pub fn message(self) -> (m: &'static str)
        ensures
            m@ == self.text(),
    {
        match self {
            NumberError::Empty => "cannot parse integer from empty string",
            NumberError::InvalidDigit => "invalid digit found in string",
            NumberError::PosOverflow => "number too large to fit in target type",
        }
    }
}

/// What is left of `s` after one leading plus sign; a lone sign stays.
pub open spec fn unsigned_part(s: Seq<char>) -> Seq<char> {
    if s.len() > 1 && s[0] == '+' {
        s.drop_first()
    } else {
        s
    }
}

/// `s` is a `u32`: digits, perhaps behind a plus sign, whose number fits.
pub open spec fn is_u32_text(s: Seq<char>) -> bool {
    &&& s.len() > 0
    &&& all_digits(unsigned_part(s))
    &&& digits_value(unsigned_part(s)) <= u32::MAX
}

/// The digits at the front of `s` are already too large for a `u32`.
pub open spec fn overflows_u32(s: Seq<char>) -> bool {
    exists|k: int|
        0 <= k <= s.len() && all_digits(#[trigger] s.take(k)) && digits_value(s.take(k)) > u32::MAX
}

/// What reading `s` as a `u32` gives.
pub open spec fn u32_of_text(s: Seq<char>) -> Result<u32, NumberError> {
    if s.len() == 0 {
        Err(NumberError::Empty)
    } else if overflows_u32(unsigned_part(s)) {
        Err(NumberError::PosOverflow)
    } else if !all_digits(unsigned_part(s)) {
        Err(NumberError::InvalidDigit)
    } else {
        Ok(digits_value(unsigned_part(s)) as u32)
    }
}

/// The digits of `n` as a string.
pub fn decimal_text(n: u64) -> (s: String)
    ensures
        s@ == decimal(n as int),
    decreases n,
{
    let d: u8 = (n % 10) as u8;
    let mut s = if n < 10 {
        String::new()
    } else {
        decimal_text(n / 10)
    };
    s.push((48u8 + d) as char);
    s
}

proof fn lemma_digits_value_nonneg(s: Seq<char>)
    requires
        all_digits(s),
    ensures
        digits_value(s) >= 0,
    decreases s.len(),
{
    if s.len() > 0 {
        assert forall|i: int| 0 <= i < s.drop_last().len() implies is_digit(
            #[trigger] s.drop_last()[i],
        ) by {
            assert(s.drop_last()[i] == s[i]);
        }
        lemma_digits_value_nonneg(s.drop_last());
        assert(is_digit(s[s.len() - 1]));
    }
}

/// The value of one more digit at the end.
proof fn lemma_digits_value_step(s: Seq<char>, i: int)
    requires
        0 <= i < s.len(),
    ensures
        digits_value(s.take(i + 1)) == digits_value(s.take(i)) * 10 + digit_value(s[i]),
{
    assert(s.take(i + 1).drop_last() == s.take(i));
    assert(s.take(i + 1).last() == s[i]);
}

/// A text is a `u32` exactly where reading it succeeds.
pub proof fn lemma_u32_of_text_succeeds(s: Seq<char>)
    ensures
        u32_of_text(s) is Ok <==> is_u32_text(s),
{
    let d = unsigned_part(s);
    assert(d.take(d.len() as int) == d);
    if is_u32_text(s) && overflows_u32(d) {
        let k = choose|k: int|
            0 <= k <= d.len() && all_digits(#[trigger] d.take(k)) && digits_value(d.take(k))
                > u32::MAX;
        lemma_prefix_value(d, k, d.len() as int);
    }
}

/// Digits at the front stand for no more than the whole.
proof fn lemma_prefix_value(s: Seq<char>, k: int, n: int)
    requires
        0 <= k <= n <= s.len(),
        all_digits(s),
    ensures
        digits_value(s.take(k)) <= digits_value(s.take(n)),
    decreases n - k,
{
    if k < n {
        lemma_prefix_value(s, k, n - 1);
        lemma_digits_value_step(s, n - 1);
        assert(all_digits(s.take(n - 1)));
        lemma_digits_value_nonneg(s.take(n - 1));
        assert(is_digit(s[n - 1]));
    }
}

/// Reads `chars[from..to]` as a `u32`, with the outcomes of `str::parse`.
pub fn parse_u32_range(chars: &Vec<char>, from: usize, to: usize) -> (r: Result<u32, NumberError>)
    requires
        from <= to <= chars@.len(),
    ensures
        r == u32_of_text(chars@.subrange(from as int, to as int)),
{
    let ghost text = chars@.subrange(from as int, to as int);
    if from == to {
        return Err(NumberError::Empty);
    }
    let start: usize = if to - from > 1 && chars[from] == '+' {
        from + 1
    } else {
        from
    };
    let ghost digits = unsigned_part(text);
    assert(digits == chars@.subrange(start as int, to as int));
    let mut value: u32 = 0;
    let mut i: usize = start;
    proof {
        assert(digits.take(0).len() == 0);
    }
    while i < to
        invariant
            from <= start <= i <= to <= chars@.len(),
            text == chars@.subrange(from as int, to as int),
            text.len() > 0,
            digits == unsigned_part(text),
            digits == chars@.subrange(start as int, to as int),
            value as int == digits_value(digits.take(i - start)),
            forall|j: int| 0 <= j < i - start ==> is_digit(#[trigger] digits[j]),
            forall|k: int|
                0 <= k <= i - start ==> digits_value(#[trigger] digits.take(k)) <= u32::MAX,
        decreases to - i,
    {
        let c = chars[i];
        let ghost n = i - start;
        assert(digits[n] == c);
        if c < '0' || c > '9' {
            assert forall|k: int|
                0 <= k <= digits.len() && all_digits(#[trigger] digits.take(k)) implies digits_value(
                digits.take(k),
            ) <= u32::MAX by {
                if k > n {
                    assert(digits.take(k)[n] == c);
                }
            }
            return Err(NumberError::InvalidDigit);
        }
        let next: u64 = value as u64 * 10 + (c as u64 - 48);
        proof {
            lemma_digits_value_step(digits, n);
        }
        if next > 0xffff_ffff {
            assert(all_digits(digits.take(n + 1)));
            return Err(NumberError::PosOverflow);
        }
        value = next as u32;
        i += 1;
    }
    assert(digits.take(digits.len() as int) == digits);
    Ok(value)
}

/// Reading the digits of a `u32` gives the number back.
pub proof fn law_decimal_reads_back(n: u32)
    ensures
        u32_of_text(decimal(n as int)) == Ok::<u32, NumberError>(n),
{
    let s = decimal(n as int);
    lemma_decimal(n as int);
    assert(is_digit(s[0]));
    lemma_u32_of_text_succeeds(s);
}

/// The digits of a number are digits, and stand for it.
pub proof fn lemma_decimal(n: int)
    requires
        0 <= n,
    ensures
        decimal(n).len() > 0,
        all_digits(decimal(n)),
        digits_value(decimal(n)) == n,
    decreases n,
{
    if n < 10 {
        assert(decimal(n).drop_last().len() == 0);
        assert(digits_value(decimal(n).drop_last()) == 0);
        assert(decimal(n).last() == digit_char(n));
    } else {
        lemma_decimal(n / 10);
        assert(decimal(n).drop_last() == decimal(n / 10));
    }
}

// ---------------------------------------------------------------------------
// White space
// ---------------------------------------------------------------------------

/// `c` has Unicode's `White_Space` property.
pub open spec fn is_white_space(c: char) -> bool {
    let n = c as int;
    ||| 0x9 <= n <= 0xd
    ||| n == 0x20
    ||| n == 0x85
    ||| n == 0xa0
    ||| n == 0x1680
    ||| 0x2000 <= n <= 0x200a
    ||| n == 0x2028
    ||| n == 0x2029
    ||| n == 0x202f
    ||| n == 0x205f
    ||| n == 0x3000
}

/// Every character is white space.
pub open spec fn all_white_space(s: Seq<char>) -> bool {
    forall|i: int| 0 <= i < s.len() ==> is_white_space(#[trigger] s[i])
}

/// `s` without the white space at its front.
pub open spec fn trim_start(s: Seq<char>) -> Seq<char>
    decreases s.len(),
{
    if s.len() > 0 && is_white_space(s[0]) {
        trim_start(s.drop_first())
    } else {
        s
    }
}

/// `s` without the white space at its end.
pub open spec fn trim_end(s: Seq<char>) -> Seq<char>
    decreases s.len(),
{
    if s.len() > 0 && is_white_space(s.last()) {
        trim_end(s.drop_last())
    } else {
        s
    }
}

/// `s` without the white space at its two ends, as `str::trim` gives it.
pub open spec fn trim(s: Seq<char>) -> Seq<char> {
    trim_end(trim_start(s))
}

fn white_space(c: char) -> (r: bool)
    ensures
        r == is_white_space(c),
{
    let n: u32 = c as u32;
    (0x9 <= n && n <= 0xd) || n == 0x20 || n == 0x85 || n == 0xa0 || n == 0x1680 || (0x2000 <= n
        && n <= 0x200a) || n == 0x2028 || n == 0x2029 || n == 0x202f || n == 0x205f || n == 0x3000
}

/// Where the text of `chars` begins and ends once it is trimmed.
pub fn trim_range(chars: &Vec<char>) -> (r: (usize, usize))
    ensures
        r.0 <= r.1 <= chars@.len(),
        chars@.subrange(r.0 as int, r.1 as int) == trim(chars@),
{
    let mut from: usize = 0;
    let mut to: usize = chars.len();
    assert(chars@.subrange(0, to as int) == chars@);
    while from < to && white_space(chars[from])
        invariant
            from <= to == chars@.len(),
            trim_start(chars@) == trim_start(chars@.subrange(from as int, to as int)),
        decreases to - from,
    {
        assert(chars@.subrange(from as int, to as int).drop_first() == chars@.subrange(
            from + 1,
            to as int,
        ));
        from += 1;
    }
    assert(trim_start(chars@) == chars@.subrange(from as int, to as int));
    while from < to && white_space(chars[to - 1])
        invariant
            from <= to <= chars@.len(),
            trim(chars@) == trim_end(chars@.subrange(from as int, to as int)),
        decreases to - from,
    {
        assert(chars@.subrange(from as int, to as int).drop_last() == chars@.subrange(
            from as int,
            to - 1,
        ));
        to -= 1;
    }
    (from, to)
}

/// White space around a text that neither begins nor ends with any is what
/// trimming takes away.
pub proof fn lemma_trim_surrounded(before: Seq<char>, s: Seq<char>, after: Seq<char>)
    requires
        all_white_space(before),
        all_white_space(after),
        s.len() > 0,
        !is_white_space(s[0]),
        !is_white_space(s.last()),
    ensures
        trim(before + s + after) == s,
    decreases before.len() + after.len(),
{
    let whole = before + s + after;
    if before.len() > 0 {
        assert(whole[0] == before[0]);
        assert(whole.drop_first() == before.drop_first() + s + after);
        lemma_trim_surrounded(before.drop_first(), s, after);
    } else if after.len() > 0 {
        assert(whole[0] == s[0]);
        assert(whole == s + after);
        assert(trim_start(whole) == whole);
        assert(whole.last() == after.last());
        assert(whole.drop_last() == before + s + after.drop_last());
        let shorter = before + s + after.drop_last();
        assert(shorter[0] == s[0]);
        assert(trim_start(shorter) == shorter);
        lemma_trim_surrounded(before, s, after.drop_last());
    } else {
        assert(whole == s);
    }
}

/// The texts of strings are those of each of them, in order.
pub proof fn law_texts(v: Seq<String>, i: int)
    requires
        0 <= i < v.len(),
    ensures
        texts(v).len() == v.len(),
        texts(v)[i] == v[i]@,
{
}

/// The ten digits, and the numbers that they stand for.
pub proof fn law_digits(d: int, c: char)
    requires
        0 <= d < 10,
    ensures
        digit_char(d) == "0123456789"@[d],
        digit_value("0123456789"@[d]) == d,
        is_digit(c) <==> "0123456789"@.contains(c),
{
    reveal_strlit("0123456789");
    let all = "0123456789"@;
    assert(all[0] == '0' && all[1] == '1' && all[2] == '2' && all[3] == '3' && all[4] == '4');
    assert(all[5] == '5' && all[6] == '6' && all[7] == '7' && all[8] == '8' && all[9] == '9');
    assert(all.len() == 10);
    if is_digit(c) {
        assert(all[c as int - '0' as int] == c);
    }
    if all.contains(c) {
        let k = choose|k: int| 0 <= k < all.len() && all[k] == c;
        assert(0 <= k < 10);
    }
}

/// Decimal is positional: a digit behind the digits of a number makes them those of
/// ten times the number and the digit, and reading goes by the same rule.
pub proof fn law_decimal_is_positional(n: int, d: int, s: Seq<char>)
    requires
        0 < n,
        0 <= d < 10,
    ensures
        decimal(d) == seq!["0123456789"@[d]],
        decimal(n * 10 + d) == decimal(n).push("0123456789"@[d]),
        digits_value(seq![]) == 0,
        digits_value(s.push("0123456789"@[d])) == digits_value(s) * 10 + d,
{
    law_digits(d, '0');
    assert((n * 10 + d) / 10 == n);
    assert((n * 10 + d) % 10 == d);
    assert(s.push("0123456789"@[d]).drop_last() == s);
}

/// No zero stands in front of the digits of a number, unless it is zero itself.
pub proof fn law_decimal_has_no_leading_zero(n: int)
    requires
        0 < n,
    ensures
        decimal(n).len() > 0,
        decimal(n)[0] != '0',
    decreases n,
{
    if n >= 10 {
        law_decimal_has_no_leading_zero(n / 10);
        assert(decimal(n)[0] == decimal(n / 10)[0]);
    }
}

/// `n` zeros.
pub open spec fn zeros(n: nat) -> Seq<char> {
    Seq::new(n, |i: int| '0')
}

proof fn lemma_leading_zeros(n: nat, s: Seq<char>)
    requires
        all_digits(s),
    ensures
        all_digits(zeros(n) + s),
        digits_value(zeros(n) + s) == digits_value(s),
    decreases s.len(), n,
{
    let whole = zeros(n) + s;
    assert forall|i: int| 0 <= i < whole.len() implies is_digit(#[trigger] whole[i]) by {
        if i >= n {
            assert(whole[i] == s[i - n]);
        }
    }
    if s.len() > 0 {
        assert(whole.drop_last() == zeros(n) + s.drop_last());
        assert(whole.last() == s.last());
        assert forall|i: int| 0 <= i < s.drop_last().len() implies is_digit(
            #[trigger] s.drop_last()[i],
        ) by {
            assert(s.drop_last()[i] == s[i]);
        }
        lemma_leading_zeros(n, s.drop_last());
    } else if n > 0 {
        assert(whole.drop_last() == zeros((n - 1) as nat) + s);
        assert(whole.last() == '0');
        lemma_leading_zeros((n - 1) as nat, s);
    } else {
        assert(whole == s);
    }
}

/// A number is read from its digits, with or without zeros in front of them and a
/// plus sign in front of those.
pub proof fn law_number_is_read(n: u32, leading: nat)
    ensures
        u32_of_text(zeros(leading) + decimal(n as int)) == Ok::<u32, NumberError>(n),
        u32_of_text(seq!['+'] + (zeros(leading) + decimal(n as int))) == Ok::<u32, NumberError>(n),
{
    let d = decimal(n as int);
    let s = zeros(leading) + d;
    lemma_decimal(n as int);
    lemma_leading_zeros(leading, d);
    assert(is_digit(s[0]));
    assert(unsigned_part(s) == s);
    let signed = seq!['+'] + s;
    assert(signed.drop_first() == s);
    assert(unsigned_part(signed) == s);
    assert(is_u32_text(s));
    assert(is_u32_text(signed));
    lemma_u32_of_text_succeeds(s);
    lemma_u32_of_text_succeeds(signed);
}

/// A text that is read as a number is made of digits that stand for it, perhaps
/// behind one plus sign.
pub proof fn law_number_is_made_of_digits(s: Seq<char>, n: u32)
    requires
        u32_of_text(s) == Ok::<u32, NumberError>(n),
    ensures
        exists|d: Seq<char>|
            #![trigger digits_value(d)]
            d.len() > 0 && (s == d || s == seq!['+'] + d) && digits_value(d) == n && forall|i: int|
                0 <= i < d.len() ==> "0123456789"@.contains(#[trigger] d[i]),
{
    let d = unsigned_part(s);
    lemma_u32_of_text_succeeds(s);
    lemma_digits_value_nonneg(d);
    assert(digits_value(d) == n);
    if d != s {
        assert(s == seq!['+'] + d);
    }
    assert forall|i: int| 0 <= i < d.len() implies "0123456789"@.contains(#[trigger] d[i]) by {
        assert(is_digit(d[i]));
        law_digits(0, d[i]);
    }
}

/// What cannot be read as a number: nothing at all, what holds another character than
/// a digit behind the place of the sign, and digits that stand for too much.
pub proof fn law_what_is_no_number(s: Seq<char>)
    ensures
        u32_of_text(s) == Err::<u32, NumberError>(NumberError::Empty) <==> s.len() == 0,
        s.len() > 0 && all_digits(s) && digits_value(s) > u32::MAX ==> u32_of_text(s) == Err::<
            u32,
            NumberError,
        >(NumberError::PosOverflow),
        forall|i: int|
            0 < i < s.len() && !"0123456789"@.contains(#[trigger] s[i]) ==> u32_of_text(s) is Err,
        s.len() > 0 && s[0] != '+' && !"0123456789"@.contains(s[0]) ==> u32_of_text(s) == Err::<
            u32,
            NumberError,
        >(NumberError::InvalidDigit),
        s == seq!['+'] ==> u32_of_text(s) == Err::<u32, NumberError>(NumberError::InvalidDigit),
{
    let d = unsigned_part(s);
    lemma_u32_of_text_succeeds(s);
    assert(s.take(s.len() as int) == s);
    assert forall|i: int| 0 < i < s.len() && !"0123456789"@.contains(#[trigger] s[i]) implies u32_of_text(
        s,
    ) is Err by {
        law_digits(0, s[i]);
        if d == s {
            assert(!is_digit(d[i]));
        } else {
            assert(!is_digit(d[i - 1]));
        }
    }
    if s.len() > 0 {
        law_digits(0, s[0]);
        if all_digits(s) {
            assert(is_digit(s[0]));
            assert(d == s);
        }
        if !is_digit(s[0]) && (s[0] != '+' || s.len() == 1) {
            assert(d == s);
            assert forall|k: int|
                0 <= k <= d.len() && all_digits(#[trigger] d.take(k)) implies digits_value(
                d.take(k),
            ) <= u32::MAX by {
                if k > 0 {
                    assert(d.take(k)[0] == s[0]);
                }
            }
        }
    }
    if s == seq!['+'] {
        assert(s.len() == 1 && s[0] == '+');
    }
}

/// A number is too large exactly where digits at the front already stand for too much,
/// whatever follows them.
pub proof fn law_overflow_shows_in_front(front: Seq<char>, rest: Seq<char>, s: Seq<char>)
    requires
        front.len() > 0,
        all_digits(front),
        digits_value(front) > u32::MAX,
        u32_of_text(s) == Err::<u32, NumberError>(NumberError::PosOverflow),
    ensures
        u32_of_text(front + rest) == Err::<u32, NumberError>(NumberError::PosOverflow),
        u32_of_text(seq!['+'] + (front + rest)) == Err::<u32, NumberError>(
            NumberError::PosOverflow,
        ),
        exists|d: Seq<char>, k: int|
            #![trigger d.take(k)]
            (s == d || s == seq!['+'] + d) && 0 <= k <= d.len() && digits_value(d.take(k))
                > u32::MAX && forall|i: int|
                0 <= i < k ==> "0123456789"@.contains(#[trigger] d[i]),
{
    let whole = front + rest;
    assert(is_digit(front[0]));
    assert(whole[0] == front[0]);
    assert(whole.take(front.len() as int) =~= front);
    assert(unsigned_part(whole) == whole);
    let signed = seq!['+'] + whole;
    assert(signed.drop_first() =~= whole);
    assert(unsigned_part(signed) == whole);
    let d = unsigned_part(s);
    let k = choose|k: int|
        0 <= k <= d.len() && all_digits(#[trigger] d.take(k)) && digits_value(d.take(k)) > u32::MAX;
    if d != s {
        assert(s =~= seq!['+'] + d);
    }
    assert forall|i: int| 0 <= i < k implies "0123456789"@.contains(#[trigger] d[i]) by {
        assert(is_digit(d.take(k)[i]));
        law_digits(0, d[i]);
    }
}

/// The text of a number is made of digits that stand for it.
pub proof fn law_text_of_a_number(n: u64, r: String)
    requires
        call_ensures(decimal_text, (n,), r),
    ensures
        r@.len() > 0,
        all_digits(r@),
        digits_value(r@) == n,
        n > 0 ==> r@[0] != '0',
{
    lemma_decimal(n as int);
    if n > 0 {
        law_decimal_has_no_leading_zero(n as int);
    }
}

/// The characters that count as white space.
pub proof fn law_white_space(c: char)
    ensures
        is_white_space(c) <==> seq![
            '\t',
            '\n',
            '\u{b}',
            '\u{c}',
            '\r',
            ' ',
            '\u{85}',
            '\u{a0}',
            '\u{1680}',
            '\u{2000}',
            '\u{2001}',
            '\u{2002}',
            '\u{2003}',
            '\u{2004}',
            '\u{2005}',
            '\u{2006}',
            '\u{2007}',
            '\u{2008}',
            '\u{2009}',
            '\u{200a}',
            '\u{2028}',
            '\u{2029}',
            '\u{202f}',
            '\u{205f}',
            '\u{3000}',
        ].contains(c),
{
    let all = seq![
        '\t',
        '\n',
        '\u{b}',
        '\u{c}',
        '\r',
        ' ',
        '\u{85}',
        '\u{a0}',
        '\u{1680}',
        '\u{2000}',
        '\u{2001}',
        '\u{2002}',
        '\u{2003}',
        '\u{2004}',
        '\u{2005}',
        '\u{2006}',
        '\u{2007}',
        '\u{2008}',
        '\u{2009}',
        '\u{200a}',
        '\u{2028}',
        '\u{2029}',
        '\u{202f}',
        '\u{205f}',
        '\u{3000}',
    ];
    let n = c as int;
    if is_white_space(c) {
        let k = if 0x9 <= n <= 0xd {
            n - 0x9
        } else if 0x2000 <= n <= 0x200a {
            n - 0x2000 + 9
        } else if n == 0x20 {
            5
        } else if n == 0x85 {
            6
        } else if n == 0xa0 {
            7
        } else if n == 0x1680 {
            8
        } else if n == 0x2028 {
            20
        } else if n == 0x2029 {
            21
        } else if n == 0x202f {
            22
        } else if n == 0x205f {
            23
        } else {
            24
        };
        assert(all[k] == c);
    }
}

proof fn lemma_trim_start(s: Seq<char>) -> (k: int)
    ensures
        0 <= k <= s.len(),
        trim_start(s) == s.skip(k),
        all_white_space(s.take(k)),
        k < s.len() ==> !is_white_space(s[k]),
    decreases s.len(),
{
    if s.len() > 0 && is_white_space(s[0]) {
        let k = lemma_trim_start(s.drop_first());
        assert(s.drop_first().skip(k) == s.skip(k + 1));
        assert forall|i: int| 0 <= i < s.take(k + 1).len() implies is_white_space(
            #[trigger] s.take(k + 1)[i],
        ) by {
            if i > 0 {
                assert(s.take(k + 1)[i] == s.drop_first().take(k)[i - 1]);
            }
        }
        k + 1
    } else {
        assert(s.skip(0) == s);
        0
    }
}

proof fn lemma_trim_end(s: Seq<char>) -> (k: int)
    ensures
        0 <= k <= s.len(),
        trim_end(s) == s.take(k),
        all_white_space(s.skip(k)),
        k > 0 ==> !is_white_space(s[k - 1]),
    decreases s.len(),
{
    if s.len() > 0 && is_white_space(s.last()) {
        let k = lemma_trim_end(s.drop_last());
        assert(s.drop_last().take(k) == s.take(k));
        assert forall|i: int| 0 <= i < s.skip(k).len() implies is_white_space(
            #[trigger] s.skip(k)[i],
        ) by {
            if i < s.skip(k).len() - 1 {
                assert(s.skip(k)[i] == s.drop_last().skip(k)[i]);
            }
        }
        k
    } else {
        assert(s.take(s.len() as int) == s);
        s.len() as int
    }
}

/// Trimming takes white space away from the two ends, all of it, and nothing else.
pub proof fn law_trim(s: Seq<char>) -> (r: (int, int))
    ensures
        0 <= r.0 <= r.1 <= s.len(),
        trim(s) == s.subrange(r.0, r.1),
        all_white_space(s.take(r.0)),
        all_white_space(s.skip(r.1)),
        r.0 < r.1 ==> !is_white_space(s[r.0]) && !is_white_space(s[r.1 - 1]),
{
    let i = lemma_trim_start(s);
    let t = s.skip(i);
    let k = lemma_trim_end(t);
    assert(t.take(k) == s.subrange(i, i + k));
    assert(s.skip(i + k) == t.skip(k));
    if 0 < k {
        assert(t[0] == s[i]);
        assert(t[k - 1] == s[i + k - 1]);
    }
    (i, i + k)
}

} // verus!
