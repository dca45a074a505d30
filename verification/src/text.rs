//! Text of the wire protocol: trimming, the `ok` token, decimal integers.

use vstd::prelude::*;

verus! {

/// Whether `c` has the Unicode `White_Space` property.
pub open spec fn is_space(c: char) -> bool {
    let u = c as u32;
    ||| 0x09 <= u <= 0x0D
    ||| u == 0x20
    ||| u == 0x85
    ||| u == 0xA0
    ||| u == 0x1680
    ||| 0x2000 <= u <= 0x200A
    ||| u == 0x2028
    ||| u == 0x2029
    ||| u == 0x202F
    ||| u == 0x205F
    ||| u == 0x3000
}

/// Number of white-space characters at the front of `s`.
pub open spec fn leading_spaces(s: Seq<char>) -> nat
    decreases s.len(),
{
    if s.len() > 0 && is_space(s[0]) {
        1 + leading_spaces(s.drop_first())
    } else {
        0
    }
}

/// Number of white-space characters at the back of `s`.
pub open spec fn trailing_spaces(s: Seq<char>) -> nat
    decreases s.len(),
{
    if s.len() > 0 && is_space(s.last()) {
        1 + trailing_spaces(s.drop_last())
    } else {
        0
    }
}

/// `s` without its leading and trailing white space.
pub open spec fn trimmed(s: Seq<char>) -> Seq<char> {
    let front = s.skip(leading_spaces(s) as int);
    front.take(front.len() - trailing_spaces(front))
}

/// Tests a character for white space.
pub fn char_is_space(c: char) -> (b: bool)
    ensures
        b == is_space(c),
{
    let u: u32 = c as u32;
    (0x09 <= u && u <= 0x0D) || u == 0x20 || u == 0x85 || u == 0xA0 || u == 0x1680 || (0x2000 <= u
        && u <= 0x200A) || u == 0x2028 || u == 0x2029 || u == 0x202F || u == 0x205F || u == 0x3000
}

/// The count of leading white space is the index of the first character
/// that is not white space.
pub proof fn lemma_leading_spaces(s: Seq<char>, k: int)
    requires
        0 <= k <= s.len(),
        forall|i: int| 0 <= i < k ==> is_space(#[trigger] s[i]),
        k == s.len() || !is_space(s[k]),
    ensures
        leading_spaces(s) == k,
    decreases k,
{
    if k > 0 {
        let rest = s.drop_first();
        assert forall|i: int| 0 <= i < k - 1 implies is_space(#[trigger] rest[i]) by {
            assert(rest[i] == s[i + 1]);
        }
        if k < s.len() {
            assert(rest[k - 1] == s[k]);
        }
        lemma_leading_spaces(rest, k - 1);
    }
}

/// The count of trailing white space is the distance from the end to the
/// last character that is not white space.
pub proof fn lemma_trailing_spaces(s: Seq<char>, k: int)
    requires
        0 <= k <= s.len(),
        forall|i: int| k <= i < s.len() ==> is_space(#[trigger] s[i]),
        k == 0 || !is_space(s[k - 1]),
    ensures
        trailing_spaces(s) == s.len() - k,
    decreases s.len() - k,
{
    if k < s.len() {
        let rest = s.drop_last();
        assert forall|i: int| k <= i < rest.len() implies is_space(#[trigger] rest[i]) by {
            assert(rest[i] == s[i]);
        }
        if k > 0 {
            assert(rest[k - 1] == s[k - 1]);
        }
        lemma_trailing_spaces(rest, k);
    }
}

/// What the count of leading white space counts: every character before it
/// is white space, and the one at it, if there is one, is not.
pub proof fn lemma_leading_spaces_bounds(s: Seq<char>)
    ensures
        leading_spaces(s) <= s.len(),
        forall|i: int| 0 <= i < leading_spaces(s) ==> is_space(#[trigger] s[i]),
        leading_spaces(s) < s.len() ==> !is_space(s[leading_spaces(s) as int]),
    decreases s.len(),
{
    if s.len() > 0 && is_space(s[0]) {
        let rest = s.drop_first();
        lemma_leading_spaces_bounds(rest);
        assert forall|i: int| 0 <= i < leading_spaces(s) implies is_space(#[trigger] s[i]) by {
            if i > 0 {
                assert(s[i] == rest[i - 1]);
            }
        }
        if leading_spaces(s) < s.len() {
            assert(s[leading_spaces(s) as int] == rest[leading_spaces(rest) as int]);
        }
    }
}

/// What the count of trailing white space counts: every character in the
/// last that many is white space, and the one before them, if there is one,
/// is not.
pub proof fn lemma_trailing_spaces_bounds(s: Seq<char>)
    ensures
        trailing_spaces(s) <= s.len(),
        forall|i: int| s.len() - trailing_spaces(s) <= i < s.len() ==> is_space(#[trigger] s[i]),
        trailing_spaces(s) < s.len() ==> !is_space(s[s.len() - trailing_spaces(s) - 1]),
    decreases s.len(),
{
    if s.len() > 0 && is_space(s.last()) {
        let rest = s.drop_last();
        lemma_trailing_spaces_bounds(rest);
        assert forall|i: int| s.len() - trailing_spaces(s) <= i < s.len() implies is_space(
            #[trigger] s[i],
        ) by {
            if i < s.len() - 1 {
                assert(s[i] == rest[i]);
            }
        }
        if trailing_spaces(s) < s.len() {
            assert(s[s.len() - trailing_spaces(s) - 1] == rest[rest.len() - trailing_spaces(rest)
                - 1]);
        }
    }
}

/// Trimmed text neither starts nor ends with white space.
pub proof fn lemma_trimmed_ends(s: Seq<char>)
    ensures
        trimmed(s).len() > 0 ==> !is_space(trimmed(s).first()) && !is_space(trimmed(s).last()),
        trimmed(s).len() <= s.len(),
{
    lemma_leading_spaces_bounds(s);
    let front = s.skip(leading_spaces(s) as int);
    lemma_trailing_spaces_bounds(front);
    let t = trimmed(s);
    if t.len() > 0 {
        assert(t.first() == s[leading_spaces(s) as int]);
        assert(t.last() == front[front.len() - trailing_spaces(front) - 1]);
    }
}

/// Trimming twice is trimming once.
pub proof fn lemma_trimmed_idempotent(s: Seq<char>)
    ensures
        trimmed(trimmed(s)) == trimmed(s),
{
    lemma_trimmed_ends(s);
    let t = trimmed(s);
    assert(leading_spaces(t) == 0);
    assert(t.skip(0) =~= t);
    assert(trailing_spaces(t) == 0);
    assert(t.take(t.len() as int) =~= t);
}

/// The characters of `s`, in order.
pub fn to_chars(s: &str) -> (v: Vec<char>)
    ensures
        v@ == s@,
{
    let mut v: Vec<char> = Vec::new();
    for c in it: s.chars()
        invariant
            it.seq() == s@,
            v@ == it.seq().take(it.index() as int),
    {
        v.push(c);
        assert(it.seq().take(it.index() + 1) =~= it.seq().take(it.index() as int).push(c));
    }
    assert(v@ =~= s@);
    v
}

/// Removes leading and trailing white space.
pub fn trim(s: &str) -> (t: String)
    ensures
        t@ == trimmed(s@),
{
    let chars = to_chars(s);
    let n: usize = chars.len();
    let mut start: usize = 0;
    while start < n && char_is_space(chars[start])
        invariant
            n == s@.len(),
            chars@ == s@,
            start <= n,
            forall|i: int| 0 <= i < start ==> is_space(#[trigger] s@[i]),
        decreases n - start,
    {
        start += 1;
    }
    let mut end: usize = n;
    while end > start && char_is_space(chars[end - 1])
        invariant
            n == s@.len(),
            chars@ == s@,
            start <= end <= n,
            forall|i: int| end <= i < n ==> is_space(#[trigger] s@[i]),
        decreases end,
    {
        end -= 1;
    }
    proof {
        lemma_leading_spaces(s@, start as int);
        let front = s@.skip(start as int);
        assert forall|i: int| end - start <= i < front.len() implies is_space(
            #[trigger] front[i],
        ) by {
            assert(front[i] == s@[i + start]);
        }
        if end > start {
            assert(front[end - start - 1] == s@[end - 1]);
        } else if start < n {
            assert(is_space(s@[start as int]));
        }
        lemma_trailing_spaces(front, end - start);
        assert(trimmed(s@) =~= s@.subrange(start as int, end as int));
    }
    String::from_str(s.substring_char(start, end))
}

/// The acknowledgement token of the protocol, `ok`.
pub open spec fn ok_token() -> Seq<char> {
    seq!['o', 'k']
}

/// Whether `s` is the acknowledgement token but for the case of its
/// letters.
pub open spec fn is_ok_any_case(s: Seq<char>) -> bool {
    &&& s.len() == 2
    &&& (s[0] == 'o' || s[0] == 'O')
    &&& (s[1] == 'k' || s[1] == 'K')
}

/// A reply that acknowledges letter for letter also acknowledges without
/// regard to case; the converse fails, for `OK`.
pub proof fn lemma_ok_in_any_case()
    ensures
        is_ok_any_case(ok_token()),
        is_ok_any_case(seq!['O', 'K']) && seq!['O', 'K'] != ok_token(),
{
    assert(seq!['O', 'K'][0] == 'O');
}

/// Tests for the acknowledgement token, letter for letter.
pub fn is_ok(s: &str) -> (b: bool)
    ensures
        b == (s@ == ok_token()),
{
    let chars = to_chars(s);
    let b = chars.len() == 2 && chars[0] == 'o' && chars[1] == 'k';
    proof {
        if b {
            assert(s@ =~= ok_token());
        }
    }
    b
}

/// Tests for the acknowledgement token without regard to ASCII case.
pub fn is_ok_ignoring_case(s: &str) -> (b: bool)
    ensures
        b == is_ok_any_case(s@),
{
    let chars = to_chars(s);
    chars.len() == 2 && (chars[0] == 'o' || chars[0] == 'O') && (chars[1] == 'k' || chars[1]
        == 'K')
}

/// Whether `c` is one of the ASCII digits `0` to `9`.
pub open spec fn is_digit(c: char) -> bool {
    0x30 <= c as u32 <= 0x39
}

/// The value of the ASCII digit `c`.
pub open spec fn digit_value(c: char) -> int {
    c as u32 - 0x30
}

/// Whether `s` holds ASCII digits only.
pub open spec fn all_digits(s: Seq<char>) -> bool {
    forall|i: int| 0 <= i < s.len() ==> is_digit(#[trigger] s[i])
}

/// The number that the digits of `s` write in base ten.
pub open spec fn digits_value(s: Seq<char>) -> int
    decreases s.len(),
{
    if s.len() == 0 {
        0
    } else {
        10 * digits_value(s.drop_last()) + digit_value(s.last())
    }
}

/// Whether `s` starts with a sign.
pub open spec fn has_sign(s: Seq<char>) -> bool {
    s.len() > 0 && (s[0] == '-' || s[0] == '+')
}

/// The integer that `s` writes in base ten with an optional sign, without
/// regard to its size; `None` where `s` is not of that form.
pub open spec fn decimal_value(s: Seq<char>) -> Option<int> {
    let body = if has_sign(s) {
        s.drop_first()
    } else {
        s
    };
    if body.len() == 0 || !all_digits(body) {
        None
    } else if s[0] == '-' {
        Some(-digits_value(body))
    } else {
        Some(digits_value(body))
    }
}

/// The 32-bit integer that `s` writes: an optional sign, then one or more
/// ASCII digits, the value within the range of `i32`.
pub open spec fn parsed_i32(s: Seq<char>) -> Option<i32> {
    match decimal_value(s) {
        Some(v) => if i32::MIN <= v <= i32::MAX {
            Some(v as i32)
        } else {
            None
        },
        None => None,
    }
}

/// Appending a digit multiplies the value by ten and adds the digit.
pub proof fn lemma_digits_value_step(s: Seq<char>, i: int)
    requires
        0 <= i < s.len(),
    ensures
        digits_value(s.take(i + 1)) == 10 * digits_value(s.take(i)) + digit_value(s[i]),
{
    assert(s.take(i + 1).drop_last() =~= s.take(i));
}

/// Reads a decimal 32-bit integer.
pub fn parse_i32(s: &str) -> (r: Option<i32>)
    ensures
        r == parsed_i32(s@),
{
    let chars = to_chars(s);
    let n: usize = chars.len();
    let signed: bool = n > 0 && (chars[0] == '-' || chars[0] == '+');
    let negative: bool = signed && chars[0] == '-';
    let first: usize = if signed {
        1
    } else {
        0
    };
    if first == n {
        return None;
    }
    let ghost body = if signed {
        s@.drop_first()
    } else {
        s@
    };
    let limit: i64 = 0x8000_0000;
    let mut acc: i64 = 0;
    let mut too_big: bool = false;
    let mut i: usize = first;
    while i < n
        invariant
            chars@ == s@,
            n == s@.len(),
            first <= i <= n,
            first < n,
            signed == has_sign(s@),
            first == if signed { 1int } else { 0int },
            body == s@.skip(first as int),
            limit == 0x8000_0000,
            all_digits(body.take(i - first)),
            !too_big ==> acc == digits_value(body.take(i - first)) && 0 <= acc <= limit,
            too_big ==> digits_value(body.take(i - first)) > limit,
        decreases n - i,
    {
        let c = chars[i];
        let u: u32 = c as u32;
        proof {
            assert(body[i - first] == s@[i as int]);
        }
        if u < 0x30 || u > 0x39 {
            proof {
                assert(!is_digit(body[i - first]));
            }
            return None;
        }
        let d: i64 = (u - 0x30) as i64;
        proof {
            lemma_digits_value_step(body, i - first);
            assert forall|j: int| 0 <= j < i + 1 - first implies is_digit(
                #[trigger] body.take(i + 1 - first)[j],
            ) by {
                if j < i - first {
                    assert(body.take(i - first)[j] == body[j]);
                }
            }
        }
        if !too_big {
            acc = acc * 10 + d;
            if acc > limit {
                too_big = true;
            }
        }
        i += 1;
    }
    proof {
        assert(body.take(n - first) =~= body);
        assert(body =~= if has_sign(s@) { s@.drop_first() } else { s@ });
    }
    if too_big {
        return None;
    }
    if negative {
        Some((-acc) as i32)
    } else if acc == limit {
        None
    } else {
        Some(acc as i32)
    }
}

/// The ASCII digit that writes `d`, for `d` from 0 to 9.
pub open spec fn digit_char(d: int) -> char {
    if d == 0 {
        '0'
    } else if d == 1 {
        '1'
    } else if d == 2 {
        '2'
    } else if d == 3 {
        '3'
    } else if d == 4 {
        '4'
    } else if d == 5 {
        '5'
    } else if d == 6 {
        '6'
    } else if d == 7 {
        '7'
    } else if d == 8 {
        '8'
    } else {
        '9'
    }
}

/// The digits of `n` in base ten, most significant first, without leading
/// zeros.
pub open spec fn natural_text(n: nat) -> Seq<char>
    decreases n,
{
    if n < 10 {
        seq![digit_char(n as int)]
    } else {
        natural_text(n / 10).push(digit_char((n % 10) as int))
    }
}

/// `n` in base ten, with a minus sign in front where it is negative.
pub open spec fn decimal_text(n: int) -> Seq<char> {
    if n < 0 {
        seq!['-'] + natural_text((-n) as nat)
    } else {
        natural_text(n as nat)
    }
}

/// The digits of a number are digits, and write that number.
pub proof fn lemma_natural_text_value(n: nat)
    ensures
        natural_text(n).len() > 0,
        all_digits(natural_text(n)),
        digits_value(natural_text(n)) == n,
    decreases n,
{
    let last = digit_char((n % 10) as int);
    assert(is_digit(last) && digit_value(last) == n % 10);
    if n < 10 {
        let text = seq![last];
        assert(text.drop_last() =~= Seq::<char>::empty());
        assert(digits_value(text.drop_last()) == 0);
    } else {
        let head = natural_text(n / 10);
        lemma_natural_text_value(n / 10);
        assert(head.push(last).drop_last() =~= head);
        assert forall|i: int| 0 <= i < head.push(last).len() implies is_digit(
            #[trigger] head.push(last)[i],
        ) by {
            if i < head.len() {
                assert(head.push(last)[i] == head[i]);
            }
        }
    }
}

/// What `decimal` writes, `parse_i32` reads back.
pub proof fn lemma_decimal_text_parses(n: i32)
    ensures
        parsed_i32(decimal_text(n as int)) == Some(n),
{
    let text = decimal_text(n as int);
    if n < 0 {
        let digits = natural_text((-n) as nat);
        lemma_natural_text_value((-n) as nat);
        assert(text[0] == '-');
        assert(text.drop_first() =~= digits);
    } else {
        lemma_natural_text_value(n as nat);
        assert(is_digit(text[0]));
    }
}

fn digit_str(d: u32) -> (r: &'static str)
    requires
        d < 10,
    ensures
        r@ == seq![digit_char(d as int)],
{
    proof {
        reveal_strlit("0");
        reveal_strlit("1");
        reveal_strlit("2");
        reveal_strlit("3");
        reveal_strlit("4");
        reveal_strlit("5");
        reveal_strlit("6");
        reveal_strlit("7");
        reveal_strlit("8");
        reveal_strlit("9");
    }
    let r = if d == 0 {
        "0"
    } else if d == 1 {
        "1"
    } else if d == 2 {
        "2"
    } else if d == 3 {
        "3"
    } else if d == 4 {
        "4"
    } else if d == 5 {
        "5"
    } else if d == 6 {
        "6"
    } else if d == 7 {
        "7"
    } else if d == 8 {
        "8"
    } else {
        "9"
    };
    assert(r@ =~= seq![digit_char(d as int)]);
    r
}

/// Appends the decimal digits of `n` to `out`.
pub fn append_natural(out: &mut String, n: u32)
    ensures
        final(out)@ == old(out)@ + natural_text(n as nat),
    decreases n,
{
    if n >= 10 {
        append_natural(out, n / 10);
    }
    out.append(digit_str(n % 10));
    proof {
        let d = seq![digit_char((n % 10) as int)];
        if n >= 10 {
            assert(old(out)@ + natural_text((n / 10) as nat) + d =~= old(out)@ + natural_text(
                (n / 10) as nat,
            ).push(digit_char((n % 10) as int)));
        }
    }
}

/// Appends `n` in base ten to `out`.
pub fn append_decimal(out: &mut String, n: i32)
    ensures
        final(out)@ == old(out)@ + decimal_text(n as int),
{
    if n < 0 {
        proof {
            reveal_strlit("-");
        }
        out.append("-");
        let wide: i64 = n as i64;
        let magnitude: u32 = (-wide) as u32;
        append_natural(out, magnitude);
        assert(final(out)@ =~= old(out)@ + decimal_text(n as int));
    } else {
        append_natural(out, n as u32);
    }
}

/// Writes `n` in base ten.
pub fn decimal(n: i32) -> (s: String)
    ensures
        s@ == decimal_text(n as int),
{
    let mut s = String::new();
    append_decimal(&mut s, n);
    assert(s@ =~= decimal_text(n as int));
    s
}

/// Whether `pattern` stands in `s` from position `i` on.
pub open spec fn occurs_at(s: Seq<char>, pattern: Seq<char>, i: int) -> bool {
    &&& 0 <= i
    &&& i + pattern.len() <= s.len()
    &&& s.subrange(i, i + pattern.len()) == pattern
}

/// Whether `pattern` stands somewhere in `s`.
pub open spec fn contains(s: Seq<char>, pattern: Seq<char>) -> bool {
    exists|i: int| occurs_at(s, pattern, i)
}

fn matches_at(s: &Vec<char>, pattern: &Vec<char>, i: usize) -> (b: bool)
    requires
        i + pattern@.len() <= s@.len(),
    ensures
        b == occurs_at(s@, pattern@, i as int),
{
    let n: usize = s.len();
    let m: usize = pattern.len();
    let mut j: usize = 0;
    while j < m
        invariant
            m == pattern@.len(),
            n == s@.len(),
            i + m <= n,
            j <= m,
            forall|k: int| 0 <= k < j ==> s@[i + k] == pattern@[k],
        decreases m - j,
    {
        if s[i + j] != pattern[j] {
            proof {
                assert(s@.subrange(i as int, i + m)[j as int] == s@[i + j]);
            }
            return false;
        }
        j += 1;
    }
    assert(s@.subrange(i as int, i + m) =~= pattern@);
    true
}

/// Searches `s` for `pattern`.
pub fn find(s: &str, pattern: &str) -> (b: bool)
    ensures
        b == contains(s@, pattern@),
{
    let text = to_chars(s);
    let wanted = to_chars(pattern);
    let n: usize = text.len();
    let m: usize = wanted.len();
    if m > n {
        return false;
    }
    let last: usize = n - m;
    let mut i: usize = 0;
    while i < last
        invariant
            text@ == s@,
            wanted@ == pattern@,
            n == text@.len(),
            m == wanted@.len(),
            last == n - m,
            i <= last,
            forall|k: int| 0 <= k < i ==> !occurs_at(s@, pattern@, k),
        decreases last - i,
    {
        if matches_at(&text, &wanted, i) {
            return true;
        }
        i += 1;
    }
    matches_at(&text, &wanted, last)
}

/// The text that a lossy UTF-8 decoder makes of `bytes`: each well-formed
/// sequence gives its character, each malformed one the replacement
/// character.
pub uninterp spec fn lossy_text(bytes: Seq<u8>) -> Seq<char>;

/// The text of `bytes`: what they encode where they are well-formed UTF-8,
/// and what the lossy decoder makes of them where they are not.
pub open spec fn decoded_text(bytes: Seq<u8>) -> Seq<char> {
    if vstd::utf8::valid_utf8(bytes) {
        vstd::utf8::decode_utf8(bytes)
    } else {
        lossy_text(bytes)
    }
}

/// Decodes with `String::from_utf8_lossy`. Taken on trust: the result is the
/// lossy decoding of exactly these bytes and depends on nothing else, and
/// well-formed UTF-8 decodes to the text that it encodes.
#[verifier::external_body]
fn decode_lossy(bytes: &[u8]) -> (s: String)
    ensures
        s@ == lossy_text(bytes@),
        vstd::utf8::valid_utf8(bytes@) ==> s@ == vstd::utf8::decode_utf8(bytes@),
{
    String::from_utf8_lossy(bytes).into_owned()
}

/// Decodes bytes to text, malformed sequences included.
pub fn decode(bytes: &[u8]) -> (s: String)
    ensures
        s@ == decoded_text(bytes@),
{
    decode_lossy(bytes)
}

/// Text that was encoded as UTF-8 decodes to itself.
pub proof fn lemma_decoded_text_of_utf8(text: Seq<char>)
    ensures
        decoded_text(vstd::utf8::encode_utf8(text)) == text,
{
    vstd::utf8::encode_utf8_valid_utf8(text);
    vstd::utf8::encode_utf8_decode_utf8(text);
}

/// The text of a datagram: decoded, then trimmed.
pub open spec fn reply_text(bytes: Seq<u8>) -> Seq<char> {
    trimmed(decoded_text(bytes))
}

/// Decodes a datagram and trims it.
pub fn read_reply(bytes: &[u8]) -> (s: String)
    ensures
        s@ == reply_text(bytes@),
{
    let raw = decode(bytes);
    trim(raw.as_str())
}

} // verus!
