//! Operations on text, each stated over the sequence of characters that the
//! text holds.
use vstd::prelude::*;
use vstd::utf8::encode_utf8;

verus! {

/// The characters with Unicode's `White_Space` property.
pub open spec fn white_space(c: char) -> bool {
    ||| 0x09 <= c as u32 <= 0x0d
    ||| c as u32 == 0x20
    ||| c as u32 == 0x85
    ||| c as u32 == 0xa0
    ||| c as u32 == 0x1680
    ||| 0x2000 <= c as u32 <= 0x200a
    ||| c as u32 == 0x2028
    ||| c as u32 == 0x2029
    ||| c as u32 == 0x202f
    ||| c as u32 == 0x205f
    ||| c as u32 == 0x3000
}

/// `s` without the white space it starts with.
pub open spec fn trimmed_start(s: Seq<char>) -> Seq<char>
    decreases s.len(),
{
    if s.len() > 0 && white_space(s[0]) {
        trimmed_start(s.drop_first())
    } else {
        s
    }
}

/// `s` without the white space it ends with.
pub open spec fn trimmed_end(s: Seq<char>) -> Seq<char>
    decreases s.len(),
{
    if s.len() > 0 && white_space(s.last()) {
        trimmed_end(s.drop_last())
    } else {
        s
    }
}

/// `s` without the white space around it.
pub open spec fn trimmed(s: Seq<char>) -> Seq<char> {
    trimmed_end(trimmed_start(s))
}

/// What the strings of a vector hold.
pub open spec fn texts(v: Seq<String>) -> Seq<Seq<char>> {
    Seq::new(v.len(), |i: int| v[i]@)
}

/// The first `n` of `parts`, with `sep` between neighbours.
pub open spec fn joined_upto(parts: Seq<Seq<char>>, sep: Seq<char>, n: nat) -> Seq<char>
    decreases n,
{
    if n == 0 {
        Seq::empty()
    } else if n == 1 {
        parts[0]
    } else {
        joined_upto(parts, sep, (n - 1) as nat) + sep + parts[n - 1]
    }
}

/// All of `parts`, with `sep` between neighbours.
pub open spec fn joined(parts: Seq<Seq<char>>, sep: Seq<char>) -> Seq<char> {
    joined_upto(parts, sep, parts.len())
}

/// `pat` stands in `s` at position `i`.
pub open spec fn occurs_at(s: Seq<char>, pat: Seq<char>, i: int) -> bool {
    &&& 0 <= i
    &&& i + pat.len() <= s.len()
    &&& s.subrange(i, i + pat.len()) == pat
}

/// `pat` stands somewhere in `s`.
pub open spec fn occurs(s: Seq<char>, pat: Seq<char>) -> bool {
    exists|i: int| #[trigger] occurs_at(s, pat, i)
}

/// The first position from `from` on at which `pat` stands in `s`.
pub open spec fn first_occurrence(s: Seq<char>, pat: Seq<char>, from: int) -> Option<int>
    decreases s.len() - from + 1,
{
    if from < 0 || from + pat.len() > s.len() {
        None
    } else if occurs_at(s, pat, from) {
        Some(from)
    } else {
        first_occurrence(s, pat, from + 1)
    }
}

/// What follows position `from` in `s`, with each occurrence of `pat`, taken
/// from the left without overlap, replaced by `with`.
pub open spec fn replaced_from(s: Seq<char>, pat: Seq<char>, with: Seq<char>, from: int) -> Seq<char>
    decreases s.len() - from,
{
    match first_occurrence(s, pat, from) {
        Some(i) if pat.len() > 0 && from <= i && i + pat.len() <= s.len() => s.subrange(from, i)
            + with + replaced_from(s, pat, with, i + pat.len()),
        _ => s.subrange(from, s.len() as int),
    }
}

/// `s` with each occurrence of `pat` replaced by `with`.
pub open spec fn replaced(s: Seq<char>, pat: Seq<char>, with: Seq<char>) -> Seq<char> {
    replaced_from(s, pat, with, 0)
}

/// The first position of `c` in `s` from `from` on, or the length of `s`.
pub open spec fn position_of(s: Seq<char>, c: char, from: int) -> int
    decreases s.len() - from,
{
    if from < 0 || from >= s.len() {
        s.len() as int
    } else if s[from] == c {
        from
    } else {
        position_of(s, c, from + 1)
    }
}

/// A line without the carriage return that may end it.
pub open spec fn without_return(line: Seq<char>) -> Seq<char> {
    if line.len() > 0 && line.last() == '\r' {
        line.drop_last()
    } else {
        line
    }
}

/// The lines of `s` from position `from` on. A line ends at a line feed, which
/// may have a carriage return before it; neither belongs to the line. What
/// follows the last line feed is a line unless it is empty.
pub open spec fn lines_from(s: Seq<char>, from: int) -> Seq<Seq<char>>
    decreases s.len() - from,
{
    if from < 0 || from >= s.len() {
        Seq::empty()
    } else {
        let end = position_of(s, '\n', from);
        if from <= end < s.len() {
            seq![without_return(s.subrange(from, end))] + lines_from(s, end + 1)
        } else {
            seq![s.subrange(from, s.len() as int)]
        }
    }
}

/// The decimal digit of a number below ten.
pub open spec fn digit_char(d: nat) -> char {
    (('0' as u32) + d) as char
}

/// A natural number in decimal.
pub open spec fn decimal(n: nat) -> Seq<char>
    decreases n,
{
    if n < 10 {
        seq![digit_char(n)]
    } else {
        decimal(n / 10).push(digit_char(n % 10))
    }
}

/// An integer in decimal.
pub open spec fn signed_decimal(n: int) -> Seq<char> {
    if n < 0 {
        seq!['-'] + decimal((-n) as nat)
    } else {
        decimal(n as nat)
    }
}

/// The lower-case hexadecimal digit of a number below sixteen.
pub open spec fn hex_char(d: nat) -> char {
    if d < 10 {
        digit_char(d)
    } else {
        (('a' as u32) + (d - 10)) as char
    }
}

/// A natural number in lower-case hexadecimal.
pub open spec fn hexadecimal(n: nat) -> Seq<char>
    decreases n,
{
    if n < 16 {
        seq![hex_char(n)]
    } else {
        hexadecimal(n / 16).push(hex_char(n % 16))
    }
}

/// `s` with as many zeros before it as make it `width` long.
pub open spec fn zero_padded(s: Seq<char>, width: nat) -> Seq<char> {
    if s.len() >= width {
        s
    } else {
        Seq::new((width - s.len()) as nat, |i: int| '0') + s
    }
}

/// The first `n` characters of `s`, or all of them where there are fewer.
pub open spec fn first_chars(s: Seq<char>, n: nat) -> Seq<char> {
    if s.len() <= n {
        s
    } else {
        s.take(n as int)
    }
}

/// The number of bytes that `s` takes in UTF-8.
pub open spec fn utf8_len(s: Seq<char>) -> nat {
    encode_utf8(s).len()
}

/// `s` as it is shown where long text is cut: up to `limit` bytes it is left as
/// it is; of a longer one the first `limit` characters are kept, followed by
/// `note`.
pub open spec fn clipped(s: Seq<char>, limit: nat, note: Seq<char>) -> Seq<char> {
    if utf8_len(s) > limit {
        first_chars(s, limit) + note
    } else {
        s
    }
}

/// Whether `c` is white space.
pub fn is_white_space(c: char) -> (r: bool)
    ensures
        r == white_space(c),
{
    let u: u32 = c as u32;
    (0x09 <= u && u <= 0x0d) || u == 0x20 || u == 0x85 || u == 0xa0 || u == 0x1680 || (0x2000 <= u
        && u <= 0x200a) || u == 0x2028 || u == 0x2029 || u == 0x202f || u == 0x205f || u == 0x3000
}

/// The characters of `s`.
pub fn chars_of(s: &str) -> (v: Vec<char>)
    ensures
        v@ == s@,
{
    let mut v: Vec<char> = Vec::new();
    for c in it: s.chars()
        invariant
            v@ == it.seq().take(it.index() as int),
            it.seq() == s@,
    {
        v.push(c);
    }
    v
}

/// The number of bytes that `s` takes in UTF-8.
pub fn byte_len(s: &str) -> (n: usize)
    ensures
        n == utf8_len(s@),
{
    s.as_bytes().len()
}

/// Whether two texts are the same.
pub fn same(a: &str, b: &str) -> (r: bool)
    ensures
        r == (a@ == b@),
{
    a.to_owned() == b.to_owned()
}

/// The part of `s` from one character position to another.
pub fn slice(s: &str, from: usize, to: usize) -> (r: String)
    requires
        from <= to <= s@.len(),
    ensures
        r@ == s@.subrange(from as int, to as int),
{
    s.substring_char(from, to).to_owned()
}

proof fn lemma_trimmed_start_skips(s: Seq<char>, n: int)
    requires
        0 <= n <= s.len(),
        forall|i: int| 0 <= i < n ==> white_space(#[trigger] s[i]),
        n < s.len() ==> !white_space(s[n]),
    ensures
        trimmed_start(s) == s.skip(n),
    decreases n,
{
    if n == 0 {
        assert(s.skip(0) =~= s);
    } else {
        assert(white_space(s[0]));
        let t = s.drop_first();
        assert forall|i: int| 0 <= i < n - 1 implies white_space(#[trigger] t[i]) by {
            assert(t[i] == s[i + 1]);
        }
        lemma_trimmed_start_skips(t, n - 1);
        assert(t.skip(n - 1) =~= s.skip(n));
    }
}

proof fn lemma_trimmed_end_keeps(s: Seq<char>, n: int)
    requires
        0 <= n <= s.len(),
        forall|i: int| n <= i < s.len() ==> white_space(#[trigger] s[i]),
        n > 0 ==> !white_space(s[n - 1]),
    ensures
        trimmed_end(s) == s.take(n),
    decreases s.len(),
{
    if n == s.len() {
        assert(s.take(n) =~= s);
    } else {
        assert(white_space(s[s.len() - 1]));
        let t = s.drop_last();
        assert forall|i: int| n <= i < t.len() implies white_space(#[trigger] t[i]) by {
            assert(t[i] == s[i]);
        }
        lemma_trimmed_end_keeps(t, n);
        assert(t.take(n) =~= s.take(n));
    }
}

/// `s` without the white space around it.
pub fn trim(s: &str) -> (r: String)
    ensures
        r@ == trimmed(s@),
{
    let chars = chars_of(s);
    let mut start: usize = 0;
    while start < chars.len() && is_white_space(chars[start])
        invariant
            start <= chars@.len(),
            chars@ == s@,
            forall|i: int| 0 <= i < start ==> white_space(#[trigger] s@[i]),
        decreases chars@.len() - start,
    {
        start = start + 1;
    }
    let mut end: usize = chars.len();
    while end > start && is_white_space(chars[end - 1])
        invariant
            start <= end <= chars@.len(),
            chars@ == s@,
            forall|i: int| end <= i < s@.len() ==> white_space(#[trigger] s@[i]),
        decreases end,
    {
        end = end - 1;
    }
    proof {
        lemma_trimmed_start_skips(s@, start as int);
        let rest = s@.skip(start as int);
        assert forall|i: int| end - start <= i < rest.len() implies white_space(#[trigger] rest[i]) by {
            assert(rest[i] == s@[i + start]);
        }
        lemma_trimmed_end_keeps(rest, end - start);
        assert(rest.take(end - start) =~= s@.subrange(start as int, end as int));
    }
    slice(s, start, end)
}

/// Trimming text twice is trimming it once.
pub proof fn law_trim_is_idempotent(s: Seq<char>)
    ensures
        trimmed(trimmed(s)) == trimmed(s),
{
    lemma_trimmed_start_head(s);
    let t = trimmed_start(s);
    lemma_trimmed_end_tail(t);
    let u = trimmed_end(t);
    if u.len() > 0 {
        assert(u[0] == t[0]);
    }
}

proof fn lemma_trimmed_start_head(s: Seq<char>)
    ensures
        trimmed_start(s).len() > 0 ==> !white_space(trimmed_start(s)[0]),
    decreases s.len(),
{
    if s.len() > 0 && white_space(s[0]) {
        lemma_trimmed_start_head(s.drop_first());
    }
}

proof fn lemma_trimmed_end_tail(s: Seq<char>)
    ensures
        trimmed_end(s).len() <= s.len(),
        trimmed_end(s) == s.take(trimmed_end(s).len() as int),
        trimmed_end(s).len() > 0 ==> !white_space(trimmed_end(s).last()),
    decreases s.len(),
{
    if s.len() > 0 && white_space(s.last()) {
        lemma_trimmed_end_tail(s.drop_last());
        let n = trimmed_end(s.drop_last()).len() as int;
        assert(s.drop_last().take(n) =~= s.take(n));
    } else {
        assert(s.take(s.len() as int) =~= s);
    }
}

/// Whether `pat` stands in `chars` at position `i`.
fn matches_at(chars: &Vec<char>, pat: &Vec<char>, i: usize) -> (r: bool)
    requires
        i + pat@.len() <= chars@.len(),
    ensures
        r == occurs_at(chars@, pat@, i as int),
{
    let total: usize = chars.len();
    let mut k: usize = 0;
    while k < pat.len()
        invariant
            i + pat@.len() <= total,
            total == chars@.len(),
            k <= pat@.len(),
            forall|j: int| 0 <= j < k ==> chars@[i + j] == #[trigger] pat@[j],
        decreases pat@.len() - k,
    {
        if chars[i + k] != pat[k] {
            assert(chars@.subrange(i as int, i + pat@.len())[k as int] != pat@[k as int]);
            return false;
        }
        k = k + 1;
    }
    assert(chars@.subrange(i as int, i + pat@.len()) =~= pat@);
    true
}

/// The first position from `from` on at which `pat` stands in `chars`.
pub fn find_from(chars: &Vec<char>, pat: &Vec<char>, from: usize) -> (r: Option<usize>)
    ensures
        (match r {
            Some(i) => first_occurrence(chars@, pat@, from as int) == Some(i as int),
            None => first_occurrence(chars@, pat@, from as int) is None,
        }),
        r matches Some(i) ==> from <= i && occurs_at(chars@, pat@, i as int),
{
    if pat.len() > chars.len() {
        return None;
    }
    let last: usize = chars.len() - pat.len();
    let mut i: usize = from;
    while i <= last
        invariant
            from <= i,
            last == chars@.len() - pat@.len(),
            first_occurrence(chars@, pat@, from as int) == first_occurrence(
                chars@,
                pat@,
                i as int,
            ),
        decreases last + 1 - i,
    {
        if matches_at(chars, pat, i) {
            return Some(i);
        }
        if i == last {
            assert(first_occurrence(chars@, pat@, i as int) == first_occurrence(
                chars@,
                pat@,
                i + 1,
            ));
            return None;
        }
        i = i + 1;
    }
    None
}

/// What stands in a text stands in a longer one.
pub proof fn lemma_occurs_between(before: Seq<char>, s: Seq<char>, after: Seq<char>, pat: Seq<char>)
    requires
        occurs(s, pat),
    ensures
        occurs(before + s + after, pat),
{
    let i = choose|i: int| #[trigger] occurs_at(s, pat, i);
    let all = before + s + after;
    let at = before.len() + i;
    assert(all.subrange(at, at + pat.len()) =~= s.subrange(i, i + pat.len()));
    assert(occurs_at(all, pat, at));
}

/// What stands in a part stands in the parts that are joined.
pub proof fn lemma_occurs_joined(
    parts: Seq<Seq<char>>,
    sep: Seq<char>,
    k: int,
    n: nat,
    pat: Seq<char>,
)
    requires
        0 <= k < n <= parts.len(),
        occurs(parts[k], pat),
    ensures
        occurs(joined_upto(parts, sep, n), pat),
    decreases n,
{
    let all = joined_upto(parts, sep, n);
    let none = Seq::<char>::empty();
    if n > 1 {
        let head = joined_upto(parts, sep, (n - 1) as nat);
        if k == n - 1 {
            lemma_occurs_between(head + sep, parts[k], none, pat);
            assert(head + sep + parts[k] + none =~= all);
        } else {
            lemma_occurs_joined(parts, sep, k, (n - 1) as nat, pat);
            lemma_occurs_between(none, head, sep + parts[n - 1], pat);
            assert(none + head + (sep + parts[n - 1]) =~= all);
        }
    }
}

/// Where `first_occurrence` finds a position, the pattern stands there.
pub proof fn lemma_first_occurrence_occurs(s: Seq<char>, pat: Seq<char>, from: int)
    ensures
        first_occurrence(s, pat, from) matches Some(i) ==> from <= i && occurs_at(s, pat, i),
    decreases s.len() - from + 1,
{
    if from < 0 || from + pat.len() > s.len() {
    } else if occurs_at(s, pat, from) {
    } else {
        lemma_first_occurrence_occurs(s, pat, from + 1);
    }
}

/// Whether `s` starts with `prefix`.
pub fn starts_with(s: &str, prefix: &str) -> (r: bool)
    ensures
        r == occurs_at(s@, prefix@, 0),
{
    let chars = chars_of(s);
    let pat = chars_of(prefix);
    pat.len() <= chars.len() && matches_at(&chars, &pat, 0)
}

/// `parts`, with `sep` between neighbours.
pub fn join(parts: &Vec<String>, sep: &str) -> (r: String)
    ensures
        r@ == joined(texts(parts@), sep@),
{
    let mut r = String::new();
    let mut i: usize = 0;
    while i < parts.len()
        invariant
            i <= parts@.len(),
            r@ == joined_upto(texts(parts@), sep@, i as nat),
        decreases parts@.len() - i,
    {
        if i > 0 {
            r.append(sep);
        }
        r.append(parts[i].as_str());
        proof {
            if i == 0 {
                assert(r@ =~= parts@[0]@);
            }
        }
        i = i + 1;
    }
    r
}

/// The decimal digit of a number below ten.
fn digit(d: u8) -> (r: &'static str)
    requires
        d < 10,
    ensures
        r@ == seq![digit_char(d as nat)],
{
    proof {
        reveal_strlit("0");
        reveal_strlit("1");
        reveal_strlit("2");
        reveal_strlit("3");
        reveal_strlit("4");
        reveal_strlit("5");
        reveal_strlit("6");
        reveal_strlit("7");
        reveal_strlit("8");
        reveal_strlit("9");
    }
    if d == 0 {
        "0"
    } else if d == 1 {
        "1"
    } else if d == 2 {
        "2"
    } else if d == 3 {
        "3"
    } else if d == 4 {
        "4"
    } else if d == 5 {
        "5"
    } else if d == 6 {
        "6"
    } else if d == 7 {
        "7"
    } else if d == 8 {
        "8"
    } else {
        "9"
    }
}

/// A number in decimal.
pub fn decimal_text(n: u64) -> (r: String)
    ensures
        r@ == decimal(n as nat),
    decreases n,
{
    if n < 10 {
        digit(n as u8).to_owned()
    } else {
        let mut r = decimal_text(n / 10);
        r.append(digit((n % 10) as u8));
        r
    }
}

/// A signed number in decimal.
pub fn signed_decimal_text(n: i64) -> (r: String)
    ensures
        r@ == signed_decimal(n as int),
{
    if n >= 0 {
        decimal_text(n as u64)
    } else {
        proof {
            reveal_strlit("-");
        }
        let mut r = "-".to_owned();
        let magnitude: u64 = if n == i64::MIN {
            0x8000_0000_0000_0000
        } else {
            (-n) as u64
        };
        let digits = decimal_text(magnitude);
        r.append(digits.as_str());
        assert(r@ =~= signed_decimal(n as int));
        r
    }
}

/// The lower-case hexadecimal digit of a number below sixteen.
fn hex_digit(d: u8) -> (r: &'static str)
    requires
        d < 16,
    ensures
        r@ == seq![hex_char(d as nat)],
{
    proof {
        reveal_strlit("a");
        reveal_strlit("b");
        reveal_strlit("c");
        reveal_strlit("d");
        reveal_strlit("e");
        reveal_strlit("f");
    }
    if d < 10 {
        digit(d)
    } else if d == 10 {
        "a"
    } else if d == 11 {
        "b"
    } else if d == 12 {
        "c"
    } else if d == 13 {
        "d"
    } else if d == 14 {
        "e"
    } else {
        "f"
    }
}

/// A number in lower-case hexadecimal.
pub fn hexadecimal_text(n: u128) -> (r: String)
    ensures
        r@ == hexadecimal(n as nat),
    decreases n,
{
    if n < 16 {
        hex_digit(n as u8).to_owned()
    } else {
        let mut r = hexadecimal_text(n / 16);
        r.append(hex_digit((n % 16) as u8));
        r
    }
}

/// `s` with as many zeros before it as make it `width` long.
pub fn pad_with_zeros(s: &str, width: usize) -> (r: String)
    ensures
        r@ == zero_padded(s@, width as nat),
{
    let len: usize = s.unicode_len();
    let mut r = String::new();
    let mut n: usize = len;
    while n < width
        invariant
            len == s@.len(),
            len <= n,
            len < width ==> n <= width,
            len >= width ==> n == len,
            r@ == Seq::new((n - len) as nat, |i: int| '0'),
        decreases width - n,
    {
        proof {
            reveal_strlit("0");
        }
        r.append("0");
        n = n + 1;
        assert(r@ =~= Seq::new((n - len) as nat, |i: int| '0'));
    }
    r.append(s);
    assert(r@ =~= zero_padded(s@, width as nat));
    r
}

/// The first `n` characters of `s`, or all of them where there are fewer.
pub fn take_chars(s: &str, n: usize) -> (r: String)
    ensures
        r@ == first_chars(s@, n as nat),
{
    let len: usize = s.unicode_len();
    if len <= n {
        s.to_owned()
    } else {
        let r = slice(s, 0, n);
        assert(s@.subrange(0, n as int) =~= s@.take(n as int));
        r
    }
}

/// `s`, cut where it takes more than `limit` bytes.
pub fn clip(s: &str, limit: usize, note: &str) -> (r: String)
    ensures
        r@ == clipped(s@, limit as nat, note@),
{
    if byte_len(s) > limit {
        let mut r = take_chars(s, limit);
        r.append(note);
        r
    } else {
        s.to_owned()
    }
}

/// Clipped text never holds more than `limit` characters and the note.
pub proof fn law_clipped_is_bounded(s: Seq<char>, limit: nat, note: Seq<char>)
    ensures
        clipped(s, limit, note).len() <= limit + note.len(),
{
    lemma_chars_within_bytes(s);
}

/// A character takes at least one byte.
pub proof fn lemma_chars_within_bytes(s: Seq<char>)
    ensures
        s.len() <= utf8_len(s),
    decreases s.len(),
{
    reveal(encode_utf8);
    if s.len() > 0 {
        lemma_chars_within_bytes(s.drop_first());
    }
}

/// The lines of `s`.
pub fn lines(s: &str) -> (r: Vec<String>)
    ensures
        texts(r@) == lines_from(s@, 0),
{
    let chars = chars_of(s);
    let mut r: Vec<String> = Vec::new();
    let mut from: usize = 0;
    assert(texts(r@) + lines_from(s@, 0) =~= lines_from(s@, 0));
    while from < chars.len()
        invariant
            chars@ == s@,
            from <= s@.len(),
            texts(r@) + lines_from(s@, from as int) == lines_from(s@, 0),
        decreases s@.len() - from,
    {
        let mut end: usize = from;
        while end < chars.len() && chars[end] != '\n'
            invariant
                chars@ == s@,
                from <= end <= s@.len(),
                position_of(s@, '\n', from as int) == position_of(s@, '\n', end as int),
            decreases s@.len() - end,
        {
            end = end + 1;
        }
        let ghost before = r@;
        if end < chars.len() {
            let stop: usize = if end > from && chars[end - 1] == '\r' {
                end - 1
            } else {
                end
            };
            let line = slice(s, from, stop);
            proof {
                let full = s@.subrange(from as int, end as int);
                assert(line@ =~= without_return(full));
            }
            r.push(line);
            proof {
                assert(texts(r@) =~= texts(before) + seq![line@]);
                assert(lines_from(s@, from as int) =~= seq![line@] + lines_from(s@, end + 1));
                assert(texts(r@) + lines_from(s@, end + 1) =~= texts(before) + lines_from(
                    s@,
                    from as int,
                ));
            }
            from = end + 1;
        } else {
            let line = slice(s, from, end);
            r.push(line);
            proof {
                assert(texts(r@) =~= texts(before) + seq![line@]);
                assert(lines_from(s@, from as int) =~= seq![line@]);
                assert(texts(r@) + lines_from(s@, end as int) =~= texts(before) + lines_from(
                    s@,
                    from as int,
                ));
            }
            from = end;
        }
    }
    assert(texts(r@) =~= texts(r@) + lines_from(s@, from as int));
    r
}

/// `s` with each occurrence of `pat` replaced by `with`.
pub fn replace(s: &str, pat: &str, with: &str) -> (r: String)
    requires
        pat@.len() > 0,
    ensures
        r@ == replaced(s@, pat@, with@),
{
    let chars = chars_of(s);
    let pattern = chars_of(pat);
    let total: usize = chars.len();
    let mut r = String::new();
    let mut from: usize = 0;
    assert(r@ + replaced_from(s@, pat@, with@, 0) =~= replaced(s@, pat@, with@));
    loop
        invariant
            chars@ == s@,
            pattern@ == pat@,
            pat@.len() > 0,
            total == s@.len(),
            from <= total,
            r@ + replaced_from(s@, pat@, with@, from as int) == replaced(s@, pat@, with@),
        decreases s@.len() - from,
    {
        let ghost before = r@;
        match find_from(&chars, &pattern, from) {
            Some(i) => {
                let part = slice(s, from, i);
                r.append(part.as_str());
                r.append(with);
                proof {
                    let next = replaced_from(s@, pat@, with@, i + pat@.len());
                    assert(r@ + next =~= before + (s@.subrange(from as int, i as int) + with@ + next));
                }
                from = i + pattern.len();
            },
            None => {
                let part = slice(s, from, total);
                r.append(part.as_str());
                return r;
            },
        }
    }
}

/// How many tenths of 1024 bytes `n` bytes are, rounded; halfway it is rounded to the
/// even number.
pub open spec fn kilobyte_tenths(n: nat) -> nat {
    let whole = n * 10 / 1024;
    let rest = n * 10 % 1024;
    if rest > 512 || (rest == 512 && whole % 2 == 1) {
        whole + 1
    } else {
        whole
    }
}

/// A number of bytes in units of 1024, with one digit behind the point.
pub open spec fn kilobytes(n: nat) -> Seq<char> {
    decimal(kilobyte_tenths(n) / 10) + "."@ + decimal(kilobyte_tenths(n) % 10)
}

/// A number of bytes in units of 1024, with one digit behind the point.
pub fn kilobytes_text(n: u64) -> (r: String)
    ensures
        r@ == kilobytes(n as nat),
{
    let scaled: u128 = n as u128 * 10;
    let whole: u128 = scaled / 1024;
    let rest: u128 = scaled % 1024;
    let tenths: u128 = if rest > 512 || (rest == 512 && whole % 2 == 1) {
        whole + 1
    } else {
        whole
    };
    let mut r = decimal_text((tenths / 10) as u64);
    r.append(".");
    r.append(decimal_text((tenths % 10) as u64).as_str());
    r
}

/// How `str` is written by its `Debug`: between quotation marks, with escapes.
pub uninterp spec fn debug_text(s: Seq<char>) -> Seq<char>;

/// A list of texts as it is written for a developer.
pub open spec fn debug_list(all: Seq<Seq<char>>) -> Seq<char> {
    "["@ + joined(all.map_values(|s: Seq<char>| debug_text(s)), ", "@) + "]"@
}

/// `Debug` of `str`. Claims that what comes back is what `debug_text` names.
#[verifier::external_body]
fn debug_str(s: &str) -> (r: String)
    ensures
        r@ == debug_text(s@),
{
    format!("{:?}", s)
}

/// A list of texts as it is written for a developer.
pub fn debug_strings(all: &Vec<String>) -> (r: String)
    ensures
        r@ == debug_list(texts(all@)),
{
    let ghost quoted = texts(all@).map_values(|s: Seq<char>| debug_text(s));
    let mut parts: Vec<String> = Vec::new();
    let mut i: usize = 0;
    while i < all.len()
        invariant
            i <= all@.len(),
            quoted == texts(all@).map_values(|s: Seq<char>| debug_text(s)),
            texts(parts@) =~= quoted.take(i as int),
        decreases all@.len() - i,
    {
        let ghost before = parts@;
        parts.push(debug_str(all[i].as_str()));
        i = i + 1;
        assert(texts(parts@) =~= texts(before).push(debug_text(all@[i - 1]@)));
    }
    assert(texts(parts@) =~= quoted);
    let mut r = "[".to_owned();
    r.append(join(&parts, ", ").as_str());
    r.append("]");
    r
}

} // verus!
