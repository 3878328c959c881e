//! Text building blocks: decimal and lowercase hexadecimal rendering,
//! string comparison, and the suffix of a name after its last dot.
use vstd::prelude::*;

verus! {

/// The character of a decimal digit `d < 10`.
pub open spec fn decimal_char(d: nat) -> char {
    ((48 + d) as u8) as char
}

/// The decimal rendering of `n`, as `format!("{}", n)` writes it.
pub open spec fn decimal(n: nat) -> Seq<char>
    decreases n,
{
    if n < 10 {
        seq![decimal_char(n)]
    } else {
        decimal(n / 10).push(decimal_char(n % 10))
    }
}

/// The lowercase hexadecimal character of a nibble `d < 16`.
pub open spec fn hex_char(d: nat) -> char {
    if d < 10 {
        ((48 + d) as u8) as char
    } else {
        ((87 + d) as u8) as char
    }
}

/// The two lowercase hexadecimal digits of a byte, as `format!("{:02x}", b)` writes them.
pub open spec fn hex_byte(b: u8) -> Seq<char> {
    seq![hex_char((b / 16) as nat), hex_char((b % 16) as nat)]
}

/// The lowercase hexadecimal rendering of a byte string, two digits per byte.
pub open spec fn hex_lower(bytes: Seq<u8>) -> Seq<char>
    decreases bytes.len(),
{
    if bytes.len() == 0 {
        Seq::empty()
    } else {
        hex_lower(bytes.drop_last()) + hex_byte(bytes.last())
    }
}

/// Appends one character to a string (`String::push`).
#[verifier::external_body]
pub(crate) fn push_char(s: &mut String, c: char)
    ensures
        final(s)@ == old(s)@.push(c),
{
    s.push(c);
}

fn digit_to_char(d: u64) -> (c: char)
    requires
        d < 10,
    ensures
        c == decimal_char(d as nat),
{
    ((48 + d) as u8) as char
}

fn nibble_to_char(d: u8) -> (c: char)
    requires
        d < 16,
    ensures
        c == hex_char(d as nat),
{
    if d < 10 {
        (48 + d) as char
    } else {
        (87 + d) as char
    }
}

/// Appends the decimal rendering of `n` to `s`.
pub fn push_decimal(s: &mut String, n: u64)
    ensures
        final(s)@ == old(s)@ + decimal(n as nat),
    decreases n,
{
    if n >= 10 {
        push_decimal(s, n / 10);
    }
    push_char(s, digit_to_char(n % 10));
    proof {
        if n < 10 {
            assert(decimal(n as nat) == seq![decimal_char(n as nat)]);
        }
    }
    assert(final(s)@ =~= old(s)@ + decimal(n as nat));
}


/// The decimal rendering of `n` as a fresh string.
pub fn decimal_string(n: u64) -> (res: String)
    ensures
        res@ == decimal(n as nat),
{
    let mut s = String::new();
    push_decimal(&mut s, n);
    s
}

/// Appends the lowercase hexadecimal rendering of `bytes` to `s`.
pub fn push_hex(s: &mut String, bytes: &[u8])
    ensures
        final(s)@ == old(s)@ + hex_lower(bytes@),
{
    let ghost start = s@;
    let n = bytes.len();
    let mut i: usize = 0;
    while i < n
        invariant
            n == bytes@.len(),
            i <= n,
            s@ == start + hex_lower(bytes@.take(i as int)),
        decreases n - i,
    {
        let b = bytes[i];
        push_char(s, nibble_to_char(b / 16));
        push_char(s, nibble_to_char(b % 16));
        proof {
            assert(bytes@.take(i + 1).drop_last() =~= bytes@.take(i as int));
            assert(bytes@.take(i + 1).last() == b);
        }
        i = i + 1;
        assert(s@ =~= start + hex_lower(bytes@.take(i as int)));
    }
    assert(bytes@.take(n as int) =~= bytes@);
}

/// The lowercase hexadecimal rendering of `bytes` as a fresh string.
pub fn hex_string(bytes: &[u8]) -> (res: String)
    ensures
        res@ == hex_lower(bytes@),
{
    let mut s = String::new();
    push_hex(&mut s, bytes);
    proof {
        assert(s@ =~= hex_lower(bytes@));
    }
    s
}

/// The hexadecimal rendering has two characters per byte.
pub proof fn lemma_hex_len(bytes: Seq<u8>)
    ensures
        hex_lower(bytes).len() == 2 * bytes.len(),
    decreases bytes.len(),
{
    if bytes.len() > 0 {
        lemma_hex_len(bytes.drop_last());
    }
}

proof fn lemma_hex_char_injective(a: nat, b: nat)
    requires
        a < 16,
        b < 16,
        hex_char(a) == hex_char(b),
    ensures
        a == b,
{
}

/// Distinct byte strings have distinct hexadecimal renderings.
pub proof fn lemma_hex_injective(x: Seq<u8>, y: Seq<u8>)
    requires
        hex_lower(x) == hex_lower(y),
    ensures
        x == y,
    decreases x.len(),
{
    lemma_hex_len(x);
    lemma_hex_len(y);
    if x.len() > 0 {
        let hx = hex_lower(x);
        let px = hex_lower(x.drop_last());
        let py = hex_lower(y.drop_last());
        lemma_hex_len(x.drop_last());
        lemma_hex_len(y.drop_last());
        assert(hx[2 * x.len() - 2] == hex_byte(x.last())[0]);
        assert(hx[2 * x.len() - 2] == hex_byte(y.last())[0]);
        assert(hx[2 * x.len() - 1] == hex_byte(x.last())[1]);
        assert(hx[2 * x.len() - 1] == hex_byte(y.last())[1]);
        lemma_hex_char_injective((x.last() / 16) as nat, (y.last() / 16) as nat);
        lemma_hex_char_injective((x.last() % 16) as nat, (y.last() % 16) as nat);
        assert(x.last() == y.last());
        assert(px =~= hx.subrange(0, 2 * x.len() - 2));
        assert(py =~= hx.subrange(0, 2 * x.len() - 2));
        lemma_hex_injective(x.drop_last(), y.drop_last());
        assert(x =~= x.drop_last().push(x.last()));
        assert(y =~= y.drop_last().push(y.last()));
    } else {
        assert(x =~= y);
    }
}


/// Whether two strings hold the same characters.
pub fn str_equal(a: &str, b: &str) -> (res: bool)
    ensures
        res == (a@ == b@),
{
    let n = a.unicode_len();
    if n != b.unicode_len() {
        return false;
    }
    let mut i: usize = 0;
    while i < n
        invariant
            n == a@.len(),
            n == b@.len(),
            i <= n,
            forall|j: int| 0 <= j < i ==> a@[j] == b@[j],
        decreases n - i,
    {
        if a.get_char(i) != b.get_char(i) {
            return false;
        }
        i = i + 1;
    }
    assert(a@ =~= b@);
    true
}

/// What follows the last `.` of `s`, or all of `s` where it holds no `.`:
/// the last item of `s.split('.')`.
pub open spec fn after_last_dot(s: Seq<char>) -> Seq<char>
    decreases s.len(),
{
    if s.len() == 0 {
        s
    } else if s.last() == '.' {
        Seq::empty()
    } else {
        after_last_dot(s.drop_last()).push(s.last())
    }
}

proof fn lemma_after_last_dot_from(s: Seq<char>, i: int, k: int)
    requires
        0 <= i <= k <= s.len(),
        i == 0 || s[i - 1] == '.',
        forall|j: int| i <= j < s.len() ==> s[j] != '.',
    ensures
        after_last_dot(s.take(k)) == s.subrange(i, k),
    decreases k - i,
{
    if k == i {
        if i == 0 {
            assert(s.take(0) =~= Seq::<char>::empty());
        } else {
            assert(s.take(k).last() == '.');
        }
        assert(s.subrange(i, k) =~= Seq::<char>::empty());
    } else {
        lemma_after_last_dot_from(s, i, k - 1);
        assert(s.take(k).drop_last() =~= s.take(k - 1));
        assert(s.take(k).last() == s[k - 1]);
        assert(s.subrange(i, k) =~= s.subrange(i, k - 1).push(s[k - 1]));
    }
}

/// The part after the last dot holds no dot, and `s` ends with it.
pub proof fn lemma_after_last_dot_shape(s: Seq<char>)
    ensures
        !after_last_dot(s).contains('.'),
        after_last_dot(s).len() <= s.len(),
        s.subrange(s.len() - after_last_dot(s).len(), s.len() as int) == after_last_dot(s),
    decreases s.len(),
{
    if s.len() > 0 {
        lemma_after_last_dot_shape(s.drop_last());
        if s.last() != '.' {
            let t = after_last_dot(s.drop_last());
            assert forall|j: int| 0 <= j < t.push(s.last()).len() implies t.push(s.last())[j] != '.' by {
                if j < t.len() {
                    assert(!t.contains('.'));
                    assert(t[j] == t.push(s.last())[j]);
                }
            }
            assert(s.subrange(s.len() - t.len() - 1, s.len() as int) =~= s.drop_last().subrange(
                s.len() - 1 - t.len(),
                s.len() - 1,
            ).push(s.last()));
        } else {
            assert(s.subrange(s.len() as int, s.len() as int) =~= Seq::<char>::empty());
        }
    }
}

/// The last item of `s.split('.')`: what follows the last dot of `s`,
/// or `s` itself where it holds no dot.
pub fn last_dot_segment(s: &str) -> (res: String)
    ensures
        res@ == after_last_dot(s@),
{
    let n = s.unicode_len();
    let mut i: usize = n;
    loop
        invariant
            n == s@.len(),
            i <= n,
            forall|j: int| i <= j < n ==> s@[j] != '.',
        ensures
            i == 0 || s@[i - 1] == '.',
        decreases i,
    {
        if i == 0 {
            break;
        }
        if s.get_char(i - 1) == '.' {
            break;
        }
        i = i - 1;
    }
    proof {
        lemma_after_last_dot_from(s@, i as int, n as int);
        assert(s@.take(n as int) =~= s@);
    }
    let seg = s.substring_char(i, n);
    seg.to_owned()
}


/// Whether `c` is an ASCII decimal digit.
pub open spec fn is_digit(c: char) -> bool {
    '0' <= c <= '9'
}

/// The value of a string of decimal digits.
pub open spec fn digits_value(s: Seq<char>) -> nat
    decreases s.len(),
{
    if s.len() == 0 {
        0
    } else {
        digits_value(s.drop_last()) * 10 + ((s.last() as int - 48) as nat)
    }
}

/// Whether `s` is a non-empty string of decimal digits.
pub open spec fn all_digits(s: Seq<char>) -> bool {
    s.len() > 0 && forall|i: int| 0 <= i < s.len() ==> is_digit(s[i])
}

/// The integer written in `s`: an optional `+` (or, where `signed`, `-`)
/// followed by one or more decimal digits and nothing else.
pub open spec fn decimal_value(s: Seq<char>, signed: bool) -> Option<int> {
    if s.len() > 0 && s[0] == '+' && all_digits(s.drop_first()) {
        Some(digits_value(s.drop_first()) as int)
    } else if signed && s.len() > 0 && s[0] == '-' && all_digits(s.drop_first()) {
        Some(-(digits_value(s.drop_first()) as int))
    } else if all_digits(s) {
        Some(digits_value(s) as int)
    } else {
        None
    }
}

/// What `s.parse::<i64>()` gives.
pub open spec fn parsed_i64(s: Seq<char>) -> Option<i64> {
    match decimal_value(s, true) {
        Some(v) => if i64::MIN <= v <= i64::MAX {
            Some(v as i64)
        } else {
            None
        },
        None => None,
    }
}

/// What `s.parse::<u64>()` gives.
pub open spec fn parsed_u64(s: Seq<char>) -> Option<u64> {
    match decimal_value(s, false) {
        Some(v) => if 0 <= v <= u64::MAX {
            Some(v as u64)
        } else {
            None
        },
        None => None,
    }
}

/// Parses a decimal `i64` (`str::parse::<i64>`).
///
/// Trusted: as std documents `i64::from_str`, the string must be an optional
/// `+` or `-` followed by only digits, with a value in range.
#[verifier::external_body]
pub(crate) fn parse_i64(s: &str) -> (res: Option<i64>)
    ensures
        res == parsed_i64(s@),
{
    s.parse::<i64>().ok()
}

/// Parses a decimal `u64` (`str::parse::<u64>`).
///
/// Trusted: as std documents `u64::from_str`, the string must be an optional
/// `+` followed by only digits, with a value in range.
#[verifier::external_body]
pub(crate) fn parse_u64(s: &str) -> (res: Option<u64>)
    ensures
        res == parsed_u64(s@),
{
    s.parse::<u64>().ok()
}


proof fn lemma_decimal_digits(n: nat)
    ensures
        all_digits(decimal(n)),
        digits_value(decimal(n)) == n,
    decreases n,
{
    if n >= 10 {
        lemma_decimal_digits(n / 10);
        let p = decimal(n / 10);
        let d = decimal(n);
        assert(d == p.push(decimal_char(n % 10)));
        assert(d.drop_last() =~= p);
        assert(decimal_char(n % 10) as int == 48 + n % 10);
        assert(d.last() == decimal_char(n % 10));
        assert(digits_value(d) == digits_value(p) * 10 + n % 10);
        assert forall|i: int| 0 <= i < d.len() implies is_digit(d[i]) by {
            if i < p.len() {
                assert(d[i] == p[i]);
            }
        }
    } else {
        assert(decimal(n).drop_last() =~= Seq::<char>::empty());
        assert(decimal_char(n) as int == 48 + n);
        assert(digits_value(Seq::<char>::empty()) == 0);
        assert(digits_value(decimal(n)) == digits_value(decimal(n).drop_last()) * 10 + n);
    }
}

/// A number written in decimal reads back as itself: `parse::<u64>` of
/// `decimal_string(n)` is `n`.
pub proof fn lemma_decimal_parses_back(n: u64)
    ensures
        parsed_u64(decimal(n as nat)) == Some(n),
{
    lemma_decimal_digits(n as nat);
    assert(is_digit(decimal(n as nat)[0]));
}


/// The decimal rendering is canonical: it holds only digits, reads back as
/// the number, and has no leading zero except for zero itself, which is "0".
pub proof fn lemma_decimal_canonical(n: nat)
    ensures
        all_digits(decimal(n)),
        digits_value(decimal(n)) == n,
        n == 0 ==> decimal(n) == seq!['0'],
        n > 0 ==> decimal(n)[0] != '0',
    decreases n,
{
    lemma_decimal_digits(n);
    if n >= 10 {
        lemma_decimal_canonical(n / 10);
        assert(decimal(n)[0] == decimal(n / 10)[0]);
    } else {
        assert(decimal_char(n) as int == 48 + n);
    }
}

} // verus!
