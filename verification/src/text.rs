//! Numbers and bytes as text.
use vstd::prelude::*;

verus! {

/// The digit of a value below sixteen.
pub open spec fn digit(d: nat) -> char {
    if d == 0 {
        '0'
    } else if d == 1 {
        '1'
    } else if d == 2 {
        '2'
    } else if d == 3 {
        '3'
    } else if d == 4 {
        '4'
    } else if d == 5 {
        '5'
    } else if d == 6 {
        '6'
    } else if d == 7 {
        '7'
    } else if d == 8 {
        '8'
    } else if d == 9 {
        '9'
    } else if d == 10 {
        'a'
    } else if d == 11 {
        'b'
    } else if d == 12 {
        'c'
    } else if d == 13 {
        'd'
    } else if d == 14 {
        'e'
    } else {
        'f'
    }
}

/// A number in the positional system of the given base.
pub open spec fn digits(n: nat, base: nat) -> Seq<char>
    decreases n,
{
    if n < base || base < 2 {
        seq![digit(n)]
    } else {
        proof {
            assert(n / base < n) by (nonlinear_arith)
                requires
                    base >= 2,
                    n >= base,
            ;
        }
        digits(n / base, base).push(digit(n % base))
    }
}

/// A number in decimal.
pub open spec fn decimal(n: nat) -> Seq<char> {
    digits(n, 10)
}

/// A number in hexadecimal, filled up with zeroes to the given width.
pub open spec fn padded_hex(n: nat, width: nat) -> Seq<char> {
    let text = digits(n, 16);
    if text.len() < width {
        Seq::new((width - text.len()) as nat, |i: int| '0') + text
    } else {
        text
    }
}

/// What stands for a byte of a quoted text: printable characters stand for
/// themselves, but for quotes and backslashes; the others have two hexadecimal
/// digits, unless there is a letter for them.
pub open spec fn escaped_byte(b: u8) -> Seq<char> {
    if b == 0x09 {
        seq!['\\', 't']
    } else if b == 0x0d {
        seq!['\\', 'r']
    } else if b == 0x0a {
        seq!['\\', 'n']
    } else if b == 0x27 || b == 0x22 || b == 0x5c {
        seq!['\\', b as char]
    } else if 0x20 <= b <= 0x7e {
        seq![b as char]
    } else {
        seq!['\\', 'x', digit((b / 16) as nat), digit((b % 16) as nat)]
    }
}

/// What stands for bytes of a quoted text.
pub open spec fn escaped(bytes: Seq<u8>) -> Seq<char>
    decreases bytes.len(),
{
    if bytes.len() == 0 {
        Seq::empty()
    } else {
        escaped(bytes.drop_last()) + escaped_byte(bytes.last())
    }
}

/// Bytes as a quoted text.
pub open spec fn quoted(bytes: Seq<u8>) -> Seq<char> {
    seq!['"'] + escaped(bytes) + seq!['"']
}

/// `String::push` adds the character at the end.
pub assume_specification[ String::push ](text: &mut String, c: char)
    ensures
        final(text)@ == old(text)@.push(c),
;

fn digit_text(d: u64) -> (r: &'static str)
    requires
        d < 16,
    ensures
        r@ == seq![digit(d as nat)],
{
    proof {
        reveal_strlit("0");
        reveal_strlit("1");
        reveal_strlit("2");
        reveal_strlit("3");
        reveal_strlit("4");
        reveal_strlit("5");
        reveal_strlit("6");
        reveal_strlit("7");
        reveal_strlit("8");
        reveal_strlit("9");
        reveal_strlit("a");
        reveal_strlit("b");
        reveal_strlit("c");
        reveal_strlit("d");
        reveal_strlit("e");
        reveal_strlit("f");
    }
    match d {
        0 => "0",
        1 => "1",
        2 => "2",
        3 => "3",
        4 => "4",
        5 => "5",
        6 => "6",
        7 => "7",
        8 => "8",
        9 => "9",
        10 => "a",
        11 => "b",
        12 => "c",
        13 => "d",
        14 => "e",
        _ => "f",
    }
}

/// Appends a number in decimal.
pub fn append_decimal(text: &mut String, n: u64)
    ensures
        final(text)@ == old(text)@ + decimal(n as nat),
    decreases n,
{
    if n < 10 {
        text.append(digit_text(n));
    } else {
        let ghost before = text@;
        append_decimal(text, n / 10);
        text.append(digit_text(n % 10));
        proof {
            assert(text@ =~= before + decimal(n as nat));
        }
    }
}

/// Appends a number in hexadecimal, filled up with zeroes to the given width.
pub fn append_padded_hex(text: &mut String, n: u64, width: u8)
    ensures
        final(text)@ == old(text)@ + padded_hex(n as nat, width as nat),
    decreases n,
{
    let ghost before = text@;
    if n < 16 {
        let mut missing: u8 = if width > 0 {
            width - 1
        } else {
            0
        };
        let ghost total = missing;
        while missing > 0
            invariant
                missing <= total,
                text@ == before + Seq::new((total - missing) as nat, |i: int| '0'),
            decreases missing,
        {
            proof {
                reveal_strlit("0");
                assert(Seq::new((total - missing + 1) as nat, |i: int| '0') =~= Seq::new(
                    (total - missing) as nat,
                    |i: int| '0',
                ) + "0"@);
            }
            text.append("0");
            missing = missing - 1;
        }
        text.append(digit_text(n));
        proof {
            assert(text@ =~= before + padded_hex(n as nat, width as nat));
        }
    } else {
        let rest: u8 = if width > 0 {
            width - 1
        } else {
            0
        };
        append_padded_hex(text, n / 16, rest);
        text.append(digit_text(n % 16));
        proof {
            assert(text@ =~= before + padded_hex(n as nat, width as nat));
        }
    }
}

fn append_escaped_byte(text: &mut String, b: u8)
    ensures
        final(text)@ == old(text)@ + escaped_byte(b),
{
    if 0x20 <= b && b <= 0x7e && b != 0x27 && b != 0x22 && b != 0x5c {
        text.push(b as char);
    } else {
        text.push('\\');
        if b == 0x09 {
            text.push('t');
        } else if b == 0x0d {
            text.push('r');
        } else if b == 0x0a {
            text.push('n');
        } else if b == 0x27 || b == 0x22 || b == 0x5c {
            text.push(b as char);
        } else {
            text.push('x');
            text.append(digit_text((b / 16) as u64));
            text.append(digit_text((b % 16) as u64));
        }
    }
    proof {
        assert(text@ =~= old(text)@ + escaped_byte(b));
    }
}

/// Appends bytes as a quoted text.
pub fn append_quoted(text: &mut String, bytes: &Vec<u8>)
    ensures
        final(text)@ == old(text)@ + quoted(bytes@),
{
    let ghost before = text@;
    text.push('"');
    let mut i: usize = 0;
    while i < bytes.len()
        invariant
            i <= bytes.len(),
            text@ == before + seq!['"'] + escaped(bytes@.take(i as int)),
        decreases bytes.len() - i,
    {
        append_escaped_byte(text, bytes[i]);
        proof {
            assert(bytes@.take(i + 1).drop_last() =~= bytes@.take(i as int));
            assert(text@ =~= before + seq!['"'] + escaped(bytes@.take(i + 1)));
        }
        i += 1;
    }
    text.push('"');
    proof {
        assert(bytes@.take(i as int) =~= bytes@);
        assert(text@ =~= before + quoted(bytes@));
    }
}

/// A quoted text has no line break.
pub proof fn lemma_quoted_has_no_break(bytes: Seq<u8>)
    ensures
        !quoted(bytes).contains('\n'),
{
    lemma_escaped_has_no_break(bytes);
}

proof fn lemma_escaped_has_no_break(bytes: Seq<u8>)
    ensures
        forall|i: int| 0 <= i < escaped(bytes).len() ==> #[trigger] escaped(bytes)[i] != '\n',
    decreases bytes.len(),
{
    if bytes.len() > 0 {
        lemma_escaped_has_no_break(bytes.drop_last());
        let front = escaped(bytes.drop_last());
        let last = escaped_byte(bytes.last());
        assert forall|i: int| 0 <= i < escaped(bytes).len() implies #[trigger] escaped(bytes)[i]
            != '\n' by {
            if i < front.len() {
                assert(escaped(bytes)[i] == front[i]);
            } else {
                assert(escaped(bytes)[i] == last[i - front.len()]);
            }
        }
    }
}

/// What a digit counts.
pub open spec fn digit_value(c: char) -> nat {
    if '0' <= c <= '9' {
        (c as nat - '0' as nat) as nat
    } else if 'a' <= c <= 'f' {
        (10 + (c as nat - 'a' as nat)) as nat
    } else {
        0
    }
}

/// The number that digits are read as.
pub open spec fn reading(text: Seq<char>, base: nat) -> nat
    decreases text.len(),
{
    if text.len() == 0 {
        0
    } else {
        reading(text.drop_last(), base) * base + digit_value(text.last())
    }
}

pub proof fn lemma_decimal_is_not_empty(n: nat)
    ensures
        decimal(n).len() > 0,
{
}

proof fn lemma_digit_value(d: nat)
    requires
        d < 16,
    ensures
        digit_value(digit(d)) == d,
        digit(d) == '0' ==> d == 0,
        '0' <= digit(d) <= '9' || 'a' <= digit(d) <= 'f',
        d < 10 ==> '0' <= digit(d) <= '9',
{
}

/// Digits are read as the number that they were made of, and begin with none that
/// counts nothing unless there is only one.
pub proof fn lemma_digits_are_read(n: nat, base: nat)
    requires
        2 <= base <= 16,
    ensures
        digits(n, base).len() > 0,
        reading(digits(n, base), base) == n,
        digits(n, base)[0] == '0' ==> n == 0 && digits(n, base).len() == 1,
        forall|i: int|
            0 <= i < digits(n, base).len() ==> {
                let c = #[trigger] digits(n, base)[i];
                &&& '0' <= c <= '9' || 'a' <= c <= 'f'
                &&& base <= 10 ==> '0' <= c <= '9'
            },
    decreases n,
{
    let text = digits(n, base);
    if n < base {
        lemma_digit_value(n);
        assert(text.drop_last() =~= Seq::<char>::empty());
        assert(reading(Seq::<char>::empty(), base) == 0);
    } else {
        assert(n / base < n && n / base > 0 && n % base < base && n == (n / base) * base + n
            % base) by (nonlinear_arith)
            requires
                base >= 2,
                n >= base,
        ;
        lemma_digits_are_read(n / base, base);
        lemma_digit_value(n % base);
        let front = digits(n / base, base);
        assert(text.drop_last() =~= front);
        assert(text[0] == front[0]);
        assert forall|i: int| 0 <= i < text.len() implies {
            let c = #[trigger] text[i];
            &&& '0' <= c <= '9' || 'a' <= c <= 'f'
            &&& base <= 10 ==> '0' <= c <= '9'
        } by {
            if i < front.len() {
                assert(text[i] == front[i]);
            }
        }
    }
}

/// Leading zeroes count nothing.
pub proof fn lemma_zeroes_count_nothing(k: nat, text: Seq<char>, base: nat)
    ensures
        reading(Seq::new(k, |i: int| '0') + text, base) == reading(text, base),
    decreases k + text.len(),
{
    let zeroes = Seq::new(k, |i: int| '0');
    let s = zeroes + text;
    if text.len() > 0 {
        lemma_zeroes_count_nothing(k, text.drop_last(), base);
        assert(s.drop_last() =~= zeroes + text.drop_last());
    } else if k > 0 {
        let fewer = Seq::new((k - 1) as nat, |i: int| '0');
        lemma_zeroes_count_nothing((k - 1) as nat, text, base);
        assert(s.drop_last() =~= fewer + text);
        assert(reading(text, base) == 0);
        assert(0 * base == 0) by (nonlinear_arith);
    } else {
        assert(s =~= text);
    }
}

/// A number that was appended in decimal is read back: what stands behind the text of
/// before are its digits, without leading zeroes.
pub proof fn law_decimal_is_read_back(text: &mut String, n: u64, i: int)
    requires
        call_ensures(append_decimal, (text, n), ()),
    ensures
        ({
            let k = old(text)@.len() as int;
            let appended = final(text)@.subrange(k, final(text)@.len() as int);
            &&& k < final(text)@.len()
            &&& final(text)@.subrange(0, k) == old(text)@
            &&& reading(appended, 10) == n
            &&& 0 <= i < appended.len() ==> '0' <= appended[i] <= '9'
            &&& appended[0] == '0' ==> appended.len() == 1
        }),
{
    lemma_digits_are_read(n as nat, 10);
    let k = old(text)@.len() as int;
    assert(final(text)@.subrange(0, k) =~= old(text)@);
    assert(final(text)@.subrange(k, final(text)@.len() as int) =~= decimal(n as nat));
}

/// So is one that was appended in hexadecimal; it has at least the given width, and
/// leading zeroes only to reach it.
pub proof fn law_hexadecimal_is_read_back(text: &mut String, n: u64, width: u8, i: int)
    requires
        call_ensures(append_padded_hex, (text, n, width), ()),
    ensures
        ({
            let k = old(text)@.len() as int;
            let appended = final(text)@.subrange(k, final(text)@.len() as int);
            &&& k < final(text)@.len()
            &&& final(text)@.subrange(0, k) == old(text)@
            &&& reading(appended, 16) == n
            &&& appended.len() >= width
            &&& 0 <= i < appended.len() ==> '0' <= appended[i] <= '9' || 'a' <= appended[i] <= 'f'
            &&& appended[0] == '0' ==> appended.len() == 1 || appended.len() == width
        }),
{
    lemma_padded_hex_is_read(n as nat, width as nat, i);
    let k = old(text)@.len() as int;
    assert(final(text)@.subrange(0, k) =~= old(text)@);
    assert(final(text)@.subrange(k, final(text)@.len() as int) =~= padded_hex(
        n as nat,
        width as nat,
    ));
}

pub proof fn lemma_padded_hex_is_read(n: nat, width: nat, i: int)
    ensures
        padded_hex(n, width).len() > 0,
        padded_hex(n, width).len() >= width,
        reading(padded_hex(n, width), 16) == n,
        0 <= i < padded_hex(n, width).len() ==> '0' <= padded_hex(n, width)[i] <= '9' || 'a'
            <= padded_hex(n, width)[i] <= 'f',
        padded_hex(n, width)[0] == '0' ==> padded_hex(n, width).len() == 1 || padded_hex(
            n,
            width,
        ).len() == width,
{
    let text = digits(n, 16);
    lemma_digits_are_read(n, 16);
    if text.len() < width {
        let zeroes = (width - text.len()) as nat;
        lemma_zeroes_count_nothing(zeroes, text, 16);
        if zeroes <= i < width {
            assert(padded_hex(n, width)[i] == text[i - zeroes]);
        }
    }
}

/// The bytes that a text between quotes stands for.
pub open spec fn unescaped(text: Seq<char>) -> Seq<u8>
    decreases text.len(),
{
    if text.len() == 0 {
        Seq::empty()
    } else if text[0] != '\\' {
        seq![text[0] as u8] + unescaped(text.skip(1))
    } else if text.len() < 2 {
        Seq::empty()
    } else if text[1] == 't' {
        seq![9u8] + unescaped(text.skip(2))
    } else if text[1] == 'r' {
        seq![13u8] + unescaped(text.skip(2))
    } else if text[1] == 'n' {
        seq![10u8] + unescaped(text.skip(2))
    } else if text[1] != 'x' {
        seq![text[1] as u8] + unescaped(text.skip(2))
    } else if text.len() < 4 {
        Seq::empty()
    } else {
        seq![(digit_value(text[2]) * 16 + digit_value(text[3])) as u8] + unescaped(text.skip(4))
    }
}

proof fn lemma_escaped_byte_is_read(b: u8, rest: Seq<char>)
    ensures
        unescaped(escaped_byte(b) + rest) == seq![b] + unescaped(rest),
{
    let text = escaped_byte(b) + rest;
    let n = escaped_byte(b).len() as int;
    assert(text.skip(n) =~= rest);
    lemma_digit_value((b / 16) as nat);
    lemma_digit_value((b % 16) as nat);
    if 0x20 <= b <= 0x7e && b != 0x27 && b != 0x22 && b != 0x5c {
        assert((b as char) as u8 == b);
        assert(text[0] == b as char);
    } else {
        assert(text[0] == '\\');
        assert(text[1] == escaped_byte(b)[1]);
        if b == 0x27 || b == 0x22 || b == 0x5c {
            assert((b as char) as u8 == b);
        } else if n == 4 {
            assert(text[2] == escaped_byte(b)[2] && text[3] == escaped_byte(b)[3]);
            assert((b / 16) * 16 + b % 16 == b);
        }
    }
}

proof fn lemma_escaped_from_the_front(bytes: Seq<u8>)
    requires
        bytes.len() > 0,
    ensures
        escaped(bytes) == escaped_byte(bytes[0]) + escaped(bytes.skip(1)),
    decreases bytes.len(),
{
    if bytes.len() == 1 {
        assert(bytes.drop_last() =~= Seq::<u8>::empty());
        assert(bytes.skip(1) =~= Seq::<u8>::empty());
        assert(escaped(bytes) =~= escaped_byte(bytes[0]) + escaped(bytes.skip(1)));
    } else {
        lemma_escaped_from_the_front(bytes.drop_last());
        assert(bytes.skip(1).drop_last() =~= bytes.drop_last().skip(1));
        assert(escaped(bytes) =~= escaped_byte(bytes[0]) + escaped(bytes.skip(1)));
    }
}

/// Escaped bytes stand for the bytes, and are printable throughout.
pub proof fn lemma_escaped_is_read(bytes: Seq<u8>)
    ensures
        unescaped(escaped(bytes)) == bytes,
        forall|i: int|
            0 <= i < escaped(bytes).len() ==> ' ' <= #[trigger] escaped(bytes)[i] <= '~',
    decreases bytes.len(),
{
    if bytes.len() > 0 {
        lemma_escaped_is_read(bytes.skip(1));
        lemma_escaped_from_the_front(bytes);
        lemma_escaped_byte_is_read(bytes[0], escaped(bytes.skip(1)));
        lemma_digit_value((bytes[0] / 16) as nat);
        lemma_digit_value((bytes[0] % 16) as nat);
        assert(seq![bytes[0]] + bytes.skip(1) =~= bytes);
        let first = escaped_byte(bytes[0]);
        assert forall|i: int| 0 <= i < escaped(bytes).len() implies ' ' <= #[trigger] escaped(
            bytes,
        )[i] <= '~' by {
            if i < first.len() {
                assert(escaped(bytes)[i] == first[i]);
            } else {
                assert(escaped(bytes)[i] == escaped(bytes.skip(1))[i - first.len()]);
            }
        }
    } else {
        assert(bytes =~= Seq::<u8>::empty());
    }
}

/// Bytes that were appended as a quoted text are read back: between two quotes there are
/// printable characters that stand for them.
pub proof fn law_quoted_text_is_read_back(text: &mut String, bytes: Vec<u8>, i: int)
    requires
        call_ensures(append_quoted, (text, &bytes), ()),
    ensures
        ({
            let k = old(text)@.len() as int;
            let n = final(text)@.len() as int;
            &&& k + 2 <= n
            &&& final(text)@.subrange(0, k) == old(text)@
            &&& final(text)@[k] == '"' && final(text)@[n - 1] == '"'
            &&& unescaped(final(text)@.subrange(k + 1, n - 1)) == bytes@
            &&& k <= i < n ==> ' ' <= final(text)@[i] <= '~'
        }),
{
    lemma_escaped_is_read(bytes@);
    let k = old(text)@.len() as int;
    let n = final(text)@.len() as int;
    assert(final(text)@.subrange(0, k) =~= old(text)@);
    assert(final(text)@.subrange(k + 1, n - 1) =~= escaped(bytes@));
    if k < i < n - 1 {
        assert(final(text)@[i] == escaped(bytes@)[i - k - 1]);
    }
}

/// A byte more adds to what stands between the quotes, and nothing else: the character
/// itself if it is printable and neither a quote nor a backslash, else a backslash and
/// that character, a letter for it, or its two hexadecimal digits.
pub proof fn law_every_byte_is_quoted_alike(
    shorter: &mut String,
    longer: &mut String,
    bytes: Vec<u8>,
    more: Vec<u8>,
    b: u8,
)
    requires
        *longer == *old(shorter),
        more@ == bytes@.push(b),
        call_ensures(append_quoted, (shorter, &bytes), ()),
        call_ensures(append_quoted, (longer, &more), ()),
    ensures
        ({
            let n = final(shorter)@.len() - 1;
            let added = final(longer)@.subrange(n, final(longer)@.len() - 1);
            let plain = 0x20 <= b <= 0x7e;
            let marked = b == 0x22 || b == 0x27 || b == 0x5c;
            &&& final(longer)@.subrange(0, n) == final(shorter)@.subrange(0, n)
            &&& plain && !marked ==> added == seq![b as char]
            &&& marked ==> added == seq!['\\', b as char]
            &&& b == 9 ==> added == seq!['\\', 't']
            &&& b == 10 ==> added == seq!['\\', 'n']
            &&& b == 13 ==> added == seq!['\\', 'r']
            &&& !plain && b != 9 && b != 10 && b != 13 ==> added.len() == 4 && added[0] == '\\'
                && added[1] == 'x'
        }),
{
    let n = final(shorter)@.len() - 1;
    assert(more@.drop_last() =~= bytes@);
    assert(final(longer)@.subrange(0, n) =~= final(shorter)@.subrange(0, n));
    assert(final(longer)@.subrange(n, final(longer)@.len() - 1) =~= escaped_byte(b));
}

} // verus!
