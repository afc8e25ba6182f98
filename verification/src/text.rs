//! Text handling shared by the request flows: trimming, case folding,
//! HTML sanitising, byte lengths and decimal rendering.
use vstd::prelude::*;
use vstd::std_specs::iter::IteratorSpec;
use vstd::utf8::encode_utf8;

verus! {

/// Length in bytes of the UTF-8 encoding of `s`, as `str::len` returns it.
pub open spec fn byte_len(s: Seq<char>) -> usize {
    encode_utf8(s).len() as usize
}

/// The Unicode `White_Space` property, as `char::is_whitespace` documents it.
pub open spec fn white_space(c: char) -> bool {
    ||| '\u{9}' <= c <= '\u{d}'
    ||| c == ' '
    ||| c == '\u{85}'
    ||| c == '\u{a0}'
    ||| c == '\u{1680}'
    ||| '\u{2000}' <= c <= '\u{200a}'
    ||| c == '\u{2028}'
    ||| c == '\u{2029}'
    ||| c == '\u{202f}'
    ||| c == '\u{205f}'
    ||| c == '\u{3000}'
}

/// `s` without its leading white space.
pub open spec fn trim_start(s: Seq<char>) -> Seq<char>
    decreases s.len(),
{
    if s.len() > 0 && white_space(s[0]) {
        trim_start(s.drop_first())
    } else {
        s
    }
}

/// `s` without its trailing white space.
pub open spec fn trim_end(s: Seq<char>) -> Seq<char>
    decreases s.len(),
{
    if s.len() > 0 && white_space(s.last()) {
        trim_end(s.drop_last())
    } else {
        s
    }
}

/// `s` without leading and trailing white space (what `str::trim` returns).
pub open spec fn trimmed(s: Seq<char>) -> Seq<char> {
    trim_end(trim_start(s))
}

proof fn lemma_trim_start_shape(s: Seq<char>)
    ensures
        trim_start(s).len() == 0 || !white_space(trim_start(s)[0]),
    decreases s.len(),
{
    if s.len() > 0 && white_space(s[0]) {
        lemma_trim_start_shape(s.drop_first());
    }
}

proof fn lemma_trim_end_shape(s: Seq<char>)
    ensures
        trim_end(s).len() <= s.len(),
        trim_end(s) == s.subrange(0, trim_end(s).len() as int),
        trim_end(s).len() == 0 || !white_space(trim_end(s).last()),
    decreases s.len(),
{
    if s.len() > 0 && white_space(s.last()) {
        let u = s.drop_last();
        lemma_trim_end_shape(u);
        assert(u.subrange(0, trim_end(u).len() as int) =~= s.subrange(0, trim_end(u).len() as int));
    } else {
        assert(s.subrange(0, s.len() as int) =~= s);
    }
}

/// A trimmed text neither starts nor ends with white space.
pub proof fn trimmed_has_no_outer_white_space(s: Seq<char>)
    ensures
        trimmed(s).len() > 0 ==> !white_space(trimmed(s)[0]) && !white_space(trimmed(s).last()),
{
    let u = trim_start(s);
    lemma_trim_start_shape(s);
    lemma_trim_end_shape(u);
    let t = trim_end(u);
    if t.len() > 0 {
        assert(t[0] == u.subrange(0, t.len() as int)[0]);
    }
}

/// Trimming a trimmed text changes nothing.
pub proof fn trim_is_idempotent(s: Seq<char>)
    ensures
        trimmed(trimmed(s)) == trimmed(s),
{
    trimmed_has_no_outer_white_space(s);
    let t = trimmed(s);
    assert(trim_start(t) == t);
    assert(trim_end(t) == t);
}

pub fn is_white_space(c: char) -> (r: bool)
    ensures
        r == white_space(c),
{
    ('\u{9}' <= c && c <= '\u{d}') || c == ' ' || c == '\u{85}' || c == '\u{a0}' || c
        == '\u{1680}' || ('\u{2000}' <= c && c <= '\u{200a}') || c == '\u{2028}' || c
        == '\u{2029}' || c == '\u{202f}' || c == '\u{205f}' || c == '\u{3000}'
}

/// The characters of `s`, in order.
pub fn chars_of(s: &str) -> (r: Vec<char>)
    ensures
        r@ == s@,
{
    let mut out: Vec<char> = Vec::new();
    for c in it: s.chars()
        invariant
            it.seq() == s@,
            out@ == it.seq().take(it.index() as int),
    {
        out.push(c);
    }
    out
}


proof fn lemma_trim_start(s: Seq<char>, i: int)
    requires
        0 <= i <= s.len(),
        forall|k: int| 0 <= k < i ==> white_space(#[trigger] s[k]),
        i == s.len() || !white_space(s[i]),
    ensures
        trim_start(s) == s.subrange(i, s.len() as int),
    decreases i,
{
    if i == 0 {
        assert(s.subrange(0, s.len() as int) =~= s);
    } else {
        let t = s.drop_first();
        assert forall|k: int| 0 <= k < i - 1 implies white_space(#[trigger] t[k]) by {
            assert(t[k] == s[k + 1]);
        }
        if i < s.len() {
            assert(t[i - 1] == s[i]);
        }
        lemma_trim_start(t, i - 1);
        assert(t.subrange(i - 1, t.len() as int) =~= s.subrange(i, s.len() as int));
    }
}

proof fn lemma_trim_end(t: Seq<char>, j: int)
    requires
        0 <= j <= t.len(),
        forall|k: int| j <= k < t.len() ==> white_space(#[trigger] t[k]),
        j == 0 || !white_space(t[j - 1]),
    ensures
        trim_end(t) == t.subrange(0, j),
    decreases t.len() - j,
{
    if j == t.len() {
        assert(t.subrange(0, j) =~= t);
    } else {
        let u = t.drop_last();
        assert forall|k: int| j <= k < u.len() implies white_space(#[trigger] u[k]) by {
            assert(u[k] == t[k]);
        }
        assert(white_space(t[t.len() - 1]));
        if j > 0 {
            assert(u[j - 1] == t[j - 1]);
        }
        lemma_trim_end(u, j);
        assert(u.subrange(0, j) =~= t.subrange(0, j));
    }
}

/// Appends `c` to `s` (`String::push`).
#[verifier::external_body]
pub(crate) fn push_char(s: &mut String, c: char)
    ensures
        final(s)@ == old(s)@.push(c),
{
    s.push(c);
}

/// The characters `v[from..to]` as a `String`.
pub fn string_from_chars(v: &Vec<char>, from: usize, to: usize) -> (r: String)
    requires
        from <= to <= v@.len(),
    ensures
        r@ == v@.subrange(from as int, to as int),
{
    let mut out = String::new();
    let mut k = from;
    while k < to
        invariant
            from <= k <= to <= v@.len(),
            out@ == v@.subrange(from as int, k as int),
        decreases to - k,
    {
        push_char(&mut out, v[k]);
        assert(v@.subrange(from as int, k + 1) =~= v@.subrange(from as int, k as int).push(v@[k as int]));
        k = k + 1;
    }
    out
}

/// `s` with leading and trailing white space removed.
pub fn trim(s: &str) -> (r: String)
    ensures
        r@ == trimmed(s@),
{
    let v = chars_of(s);
    let n = v.len();
    let mut i: usize = 0;
    while i < n && is_white_space(v[i])
        invariant
            i <= n == v@.len(),
            v@ == s@,
            forall|k: int| 0 <= k < i ==> white_space(#[trigger] v@[k]),
        decreases n - i,
    {
        i = i + 1;
    }
    let mut j: usize = n;
    while j > i && is_white_space(v[j - 1])
        invariant
            i <= j <= n == v@.len(),
            v@ == s@,
            forall|k: int| j <= k < n ==> white_space(#[trigger] v@[k]),
        decreases j - i,
    {
        j = j - 1;
    }
    proof {
        lemma_trim_start(s@, i as int);
        let t = s@.subrange(i as int, n as int);
        assert forall|k: int| j - i <= k < t.len() implies white_space(#[trigger] t[k]) by {
            assert(t[k] == s@[k + i]);
        }
        if j > i {
            assert(t[j - i - 1] == s@[j - 1]);
        }
        lemma_trim_end(t, j - i);
        assert(t.subrange(0, j - i) =~= s@.subrange(i as int, j as int));
    }
    string_from_chars(&v, i, j)
}


/// The decimal digit `d` (for `d < 10`).
pub open spec fn digit_char(d: nat) -> char {
    seq!['0', '1', '2', '3', '4', '5', '6', '7', '8', '9'][d as int]
}

/// The decimal representation of `n`, without sign or leading zeros.
pub open spec fn decimal(n: nat) -> Seq<char>
    decreases n,
{
    if n < 10 {
        seq![digit_char(n)]
    } else {
        decimal(n / 10).push(digit_char(n % 10))
    }
}

fn digit(d: u64) -> (c: char)
    requires
        d < 10,
    ensures
        c == digit_char(d as nat),
{
    match d {
        0 => '0',
        1 => '1',
        2 => '2',
        3 => '3',
        4 => '4',
        5 => '5',
        6 => '6',
        7 => '7',
        8 => '8',
        _ => '9',
    }
}

/// `n` written in decimal (what `n.to_string()` gives).
pub fn decimal_text(n: u64) -> (r: String)
    ensures
        r@ == decimal(n as nat),
{
    let mut digits: Vec<char> = Vec::new();
    let mut m: u64 = n;
    loop
        invariant_except_break
            decimal(n as nat) == decimal(m as nat) + digits@,
        ensures
            decimal(n as nat) == digits@,
        decreases m,
    {
        let c = digit(m % 10);
        if m < 10 {
            assert(decimal(m as nat) == seq![c]);
            assert(decimal(m as nat) + digits@ =~= digits@.insert(0, c));
            digits.insert(0, c);
            break;
        }
        assert(decimal(m as nat) == decimal((m / 10) as nat).push(c));
        assert(decimal(m as nat) + digits@ =~= decimal((m / 10) as nat) + digits@.insert(0, c));
        digits.insert(0, c);
        m = m / 10;
    }
    string_from_chars(&digits, 0, digits.len())
}

/// The lower-case form of a text, as `str::to_lowercase` computes it (full
/// Unicode case mapping, including the final-sigma rule).
pub uninterp spec fn unicode_lowercase(s: Seq<char>) -> Seq<char>;

/// `str::to_lowercase`: returns the lower-case equivalent of `s`. The
/// contract names the result; what the Unicode tables map each character to
/// is left unsaid.
#[verifier::external_body]
pub(crate) fn to_lowercase(s: &str) -> (r: String)
    ensures
        r@ == unicode_lowercase(s@),
{
    s.to_lowercase()
}

/// What `ammonia::clean` makes of a text: the HTML fragment parsed and
/// re-serialised with only the default allow-list of tags and attributes.
pub uninterp spec fn html_clean(s: Seq<char>) -> Seq<char>;

/// `ammonia::clean`: sanitises `s` with ammonia's default settings. The
/// result depends on `s` alone; the sanitising rules are left unsaid.
#[verifier::external_body]
pub(crate) fn sanitize_html(s: &str) -> (r: String)
    ensures
        r@ == html_clean(s@),
{
    ammonia::clean(s)
}

/// How `{:?}` renders a string: the text between double quotes, each
/// character escaped as `char::escape_debug` escapes it, except that a
/// single quote is left as it is.
pub uninterp spec fn debug_quoted(s: Seq<char>) -> Seq<char>;

/// `<str as Debug>::fmt`, through `format!("{:?}", s)`.
#[verifier::external_body]
pub(crate) fn quote_debug(s: &str) -> (r: String)
    ensures
        r@ == debug_quoted(s@),
{
    format!("{:?}", s)
}

/// The lower-case hexadecimal digit `d` (for `d < 16`).
pub open spec fn hex_char(d: nat) -> char {
    seq!['0', '1', '2', '3', '4', '5', '6', '7', '8', '9', 'a', 'b', 'c', 'd', 'e', 'f'][d as int]
}

/// The last `count` hexadecimal digits of `x`, most significant first.
pub open spec fn hex_digits(x: nat, count: nat) -> Seq<char>
    decreases count,
{
    if count == 0 {
        seq![]
    } else {
        hex_digits(x / 16, (count - 1) as nat).push(hex_char(x % 16))
    }
}

/// The hyphenated lower-case form of a UUID whose big-endian value is `id`:
/// 32 hex digits grouped 8-4-4-4-12.
pub open spec fn uuid_hyphenated(id: u128) -> Seq<char> {
    let h = hex_digits(id as nat, 32);
    h.subrange(0, 8) + seq!['-'] + h.subrange(8, 12) + seq!['-'] + h.subrange(12, 16) + seq!['-']
        + h.subrange(16, 20) + seq!['-'] + h.subrange(20, 32)
}

proof fn lemma_hex_digits_len(x: nat, count: nat)
    ensures
        hex_digits(x, count).len() == count,
    decreases count,
{
    if count > 0 {
        lemma_hex_digits_len(x / 16, (count - 1) as nat);
    }
}

/// The text of a UUID has 36 characters, with hyphens at positions 8, 13, 18
/// and 23.
pub proof fn uuid_text_shape(id: u128)
    ensures
        uuid_hyphenated(id).len() == 36,
        uuid_hyphenated(id)[8] == '-',
        uuid_hyphenated(id)[13] == '-',
        uuid_hyphenated(id)[18] == '-',
        uuid_hyphenated(id)[23] == '-',
{
    lemma_hex_digits_len(id as nat, 32);
}

/// `uuid::Uuid::from_u128(id).to_string()`: `Display` for `Uuid` writes the
/// hyphenated lower-case hex form of its 16 big-endian bytes.
#[verifier::external_body]
pub(crate) fn uuid_text(id: u128) -> (r: String)
    ensures
        r@ == uuid_hyphenated(id),
{
    uuid::Uuid::from_u128(id).to_string()
}

/// The value of a decimal digit character.
pub open spec fn decimal_digit_value(c: char) -> int {
    c as int - '0' as int
}

/// The number a string of decimal digits denotes.
pub open spec fn decimal_value(s: Seq<char>) -> int
    decreases s.len(),
{
    if s.len() == 0 {
        0
    } else {
        decimal_value(s.drop_last()) * 10 + decimal_digit_value(s.last())
    }
}

proof fn lemma_digit_char(d: nat)
    requires
        d < 10,
    ensures
        '0' <= digit_char(d) <= '9',
        decimal_digit_value(digit_char(d)) == d,
{
    assert(d == 0 || d == 1 || d == 2 || d == 3 || d == 4 || d == 5 || d == 6 || d == 7 || d == 8
        || d == 9);
}

/// `decimal(n)` is a string of decimal digits, with no leading zero, that
/// reads back as `n`.
pub proof fn decimal_reads_back(n: nat)
    ensures
        decimal(n).len() > 0,
        forall|i: int| 0 <= i < decimal(n).len() ==> '0' <= #[trigger] decimal(n)[i] <= '9',
        decimal_value(decimal(n)) == n,
        decimal(n).len() > 1 ==> decimal(n)[0] != '0',
    decreases n,
{
    if n < 10 {
        lemma_digit_char(n);
        let s = decimal(n);
        assert(s =~= seq![digit_char(n)]);
        assert(s.drop_last() =~= Seq::<char>::empty());
        assert(decimal_value(s.drop_last()) == 0);
        assert(s.last() == digit_char(n));
    } else {
        let q = n / 10;
        let r = n % 10;
        decimal_reads_back(q);
        lemma_digit_char(r);
        let s = decimal(n);
        assert(s == decimal(q).push(digit_char(r)));
        assert(s.drop_last() =~= decimal(q));
        assert(forall|i: int| 0 <= i < s.len() ==> '0' <= #[trigger] s[i] <= '9') by {
            assert forall|i: int| 0 <= i < s.len() implies '0' <= #[trigger] s[i] <= '9' by {
                if i < decimal(q).len() {
                    assert(s[i] == decimal(q)[i]);
                }
            }
        }
        assert(s.last() == digit_char(r));
        assert(decimal_value(s) == decimal_value(decimal(q)) * 10 + decimal_digit_value(digit_char(r)));
        assert(n == q * 10 + r);
        assert(s[0] == decimal(q)[0]);
        if q >= 10 {
            assert(decimal(q) == decimal(q / 10).push(digit_char(q % 10)));
            decimal_reads_back(q / 10);
            assert(decimal(q).len() > 1);
        }
        if q < 10 {
            lemma_digit_char(q);
            assert(decimal(q) =~= seq![digit_char(q)]);
            assert(q != 0);
            assert(decimal_digit_value(decimal(q)[0]) == q);
        }
    }
}

/// The value of a lower-case hexadecimal digit character.
pub open spec fn hex_digit_value(c: char) -> int {
    if '0' <= c <= '9' {
        c as int - '0' as int
    } else {
        c as int - 'a' as int + 10
    }
}

/// The number a string of hexadecimal digits denotes.
pub open spec fn hex_value(s: Seq<char>) -> int
    decreases s.len(),
{
    if s.len() == 0 {
        0
    } else {
        hex_value(s.drop_last()) * 16 + hex_digit_value(s.last())
    }
}

/// The number the text of a UUID denotes: its five groups of 8, 4, 4, 4 and
/// 12 hexadecimal digits, read together without the hyphens between them.
pub open spec fn uuid_value(s: Seq<char>) -> int {
    hex_value(
        s.subrange(0, 8) + s.subrange(9, 13) + s.subrange(14, 18) + s.subrange(19, 23)
            + s.subrange(24, 36),
    )
}

/// `16` to the power `n`.
pub open spec fn pow16(n: nat) -> nat
    decreases n,
{
    if n == 0 {
        1
    } else {
        16 * pow16((n - 1) as nat)
    }
}

proof fn lemma_hex_char(d: nat)
    requires
        d < 16,
    ensures
        hex_digit_value(hex_char(d)) == d,
        hex_char(d) != '-',
{
    assert(d == 0 || d == 1 || d == 2 || d == 3 || d == 4 || d == 5 || d == 6 || d == 7 || d == 8
        || d == 9 || d == 10 || d == 11 || d == 12 || d == 13 || d == 14 || d == 15);
}

proof fn lemma_hex_digits_value(x: nat, count: nat)
    ensures
        pow16(count) > 0,
        hex_value(hex_digits(x, count)) == x % pow16(count),
    decreases count,
{
    if count > 0 {
        let c = (count - 1) as nat;
        lemma_hex_digits_value(x / 16, c);
        lemma_hex_char(x % 16);
        let h = hex_digits(x, count);
        assert(h.drop_last() =~= hex_digits(x / 16, c));
        let m = pow16(c) as int;
        let q = (x / 16) as int;
        let b = q % m;
        let a = q / m;
        assert(q == a * m + b) by (nonlinear_arith)
            requires
                m > 0,
                a == q / m,
                b == q % m,
        ;
        assert(x == a * (16 * m) + (b * 16 + x % 16)) by (nonlinear_arith)
            requires
                q == a * m + b,
                q == x / 16,
        ;
        assert(0 <= b * 16 + x % 16 < 16 * m) by (nonlinear_arith)
            requires
                0 <= b < m,
                0 <= x % 16 < 16,
        ;
        vstd::arithmetic::div_mod::lemma_fundamental_div_mod_converse(
            x as int,
            16 * m,
            a,
            b * 16 + x % 16,
        );
    }
}

/// The text of a UUID reads back as the UUID: its hexadecimal groups
/// denote exactly the 128-bit value it was made from, so two different ids
/// never share a text.
pub proof fn uuid_text_reads_back(id: u128)
    ensures
        uuid_value(uuid_hyphenated(id)) == id,
{
    let h = hex_digits(id as nat, 32);
    lemma_hex_digits_len(id as nat, 32);
    lemma_hex_digits_value(id as nat, 32);
    let s = uuid_hyphenated(id);
    assert(s.subrange(0, 8) =~= h.subrange(0, 8));
    assert(s.subrange(9, 13) =~= h.subrange(8, 12));
    assert(s.subrange(14, 18) =~= h.subrange(12, 16));
    assert(s.subrange(19, 23) =~= h.subrange(16, 20));
    assert(s.subrange(24, 36) =~= h.subrange(20, 32));
    assert(s.subrange(0, 8) + s.subrange(9, 13) + s.subrange(14, 18) + s.subrange(19, 23)
        + s.subrange(24, 36) =~= h);
    reveal_with_fuel(pow16, 33);
    assert(pow16(32) == 0x1_0000_0000_0000_0000_0000_0000_0000_0000nat);
    assert((id as nat) % pow16(32) == id as nat);
}

/// Two different ids have different texts.
pub proof fn uuid_text_is_unique(a: u128, b: u128)
    ensures
        a != b ==> uuid_hyphenated(a) != uuid_hyphenated(b),
{
    uuid_text_reads_back(a);
    uuid_text_reads_back(b);
}

} // verus!
