//! Text, numbers in words, and the members of documents.
use vstd::prelude::*;

use crate::conversation::session_name;
use crate::json::{
    content, key_index, member, member_bool, member_items, member_number, member_signed,
    member_text, member_unsigned, Json, JsonView, NumberView,
};
use crate::text::{
    clipped, decimal, first_chars, first_occurrence, hexadecimal, joined, joined_upto, kilobytes,
    kilobyte_tenths, lines_from, occurs_at, position_of, replaced, replaced_from, signed_decimal,
    trimmed, trimmed_end, trimmed_start, utf8_len, white_space, zero_padded,
};
use crate::toolcall::lemma_first;

verus! {

/// Among the characters of ASCII, the space, the tab and those that end a line or a page are
/// white space, and no other is.
pub proof fn law_white_space(c: char)
    requires
        (c as u32) < 128,
    ensures
        white_space(c) <==> c == ' ' || c == '\t' || c == '\n' || c == '\r' || c as u32 == 11
            || c as u32 == 12,
{
}

proof fn lemma_start(s: Seq<char>) -> (a: int)
    ensures
        0 <= a <= s.len(),
        trimmed_start(s) == s.skip(a),
        forall|i: int| 0 <= i < a ==> white_space(#[trigger] s[i]),
        a < s.len() ==> !white_space(s[a]),
    decreases s.len(),
{
    if s.len() > 0 && white_space(s[0]) {
        let rest = s.drop_first();
        let b = lemma_start(rest);
        assert(rest.skip(b) =~= s.skip(b + 1));
        assert forall|i: int| 0 <= i < b + 1 implies white_space(#[trigger] s[i]) by {
            if i > 0 {
                assert(rest[i - 1] == s[i]);
            }
        }
        b + 1
    } else {
        assert(s.skip(0) =~= s);
        0
    }
}

proof fn lemma_end(s: Seq<char>) -> (b: int)
    ensures
        0 <= b <= s.len(),
        trimmed_end(s) == s.take(b),
        forall|i: int| b <= i < s.len() ==> white_space(#[trigger] s[i]),
        b > 0 ==> !white_space(s[b - 1]),
    decreases s.len(),
{
    if s.len() > 0 && white_space(s.last()) {
        let rest = s.drop_last();
        let b = lemma_end(rest);
        assert(rest.take(b) =~= s.take(b));
        assert forall|i: int| b <= i < s.len() implies white_space(#[trigger] s[i]) by {
            if i < rest.len() {
                assert(rest[i] == s[i]);
            }
        }
        b
    } else {
        assert(s.take(s.len() as int) =~= s);
        s.len() as int
    }
}

/// Text that is trimmed loses the white space around it and nothing else: whatever stands
/// between white space comes back, where it neither starts nor ends with any.
pub proof fn law_only_white_space_is_trimmed(before: Seq<char>, s: Seq<char>, after: Seq<char>)
    requires
        forall|i: int| 0 <= i < before.len() ==> white_space(#[trigger] before[i]),
        forall|i: int| 0 <= i < after.len() ==> white_space(#[trigger] after[i]),
        s.len() > 0 ==> !white_space(s[0]) && !white_space(s.last()),
    ensures
        trimmed(before + s + after) == s,
{
    let all = before + s + after;
    let a = lemma_start(all);
    let t = trimmed_start(all);
    let b = lemma_end(t);
    if s.len() > 0 {
        assert(all[before.len() as int] == s[0]);
        if a < before.len() {
            assert(all[a] == before[a]);
        }
        assert(a == before.len());
        assert(t =~= s + after);
        assert(t[s.len() - 1] == s.last());
        if b > s.len() {
            assert(t[b - 1] == after[b - 1 - s.len()]);
        }
        assert(b == s.len());
        assert(t.take(b) =~= s);
    } else {
        if a < all.len() {
            if a < before.len() {
                assert(all[a] == before[a]);
            } else {
                assert(all[a] == after[a - before.len()]);
            }
        }
        assert(t =~= Seq::<char>::empty());
        assert(trimmed(all) =~= s);
    }
}

/// Of any text something is left exactly where it is not all white space; what is left stands
/// in the text, and starts and ends with other characters.
pub proof fn law_what_trimming_leaves(s: Seq<char>)
    ensures
        trimmed(s).len() == 0 <==> forall|i: int| 0 <= i < s.len() ==> white_space(#[trigger] s[i]),
        trimmed(s).len() > 0 ==> !white_space(trimmed(s)[0]) && !white_space(trimmed(s).last()),
        exists|a: int| #[trigger] occurs_at(s, trimmed(s), a),
{
    let a = lemma_start(s);
    let t = trimmed_start(s);
    let b = lemma_end(t);
    assert(trimmed(s) =~= s.subrange(a, a + b));
    assert(occurs_at(s, trimmed(s), a));
    if trimmed(s).len() == 0 {
        assert forall|i: int| 0 <= i < s.len() implies white_space(#[trigger] s[i]) by {
            if i >= a {
                assert(t[i - a] == s[i]);
            }
        }
    } else {
        assert(t[0] == s[a]);
        assert(trimmed(s)[0] == s[a]);
        assert(trimmed(s).last() == t[b - 1]);
    }
}

proof fn lemma_joined_alike(a: Seq<Seq<char>>, b: Seq<Seq<char>>, sep: Seq<char>, n: nat)
    requires
        n <= a.len(),
        n <= b.len(),
        forall|i: int| 0 <= i < n ==> #[trigger] a[i] == b[i],
    ensures
        joined_upto(a, sep, n) == joined_upto(b, sep, n),
    decreases n,
{
    if n > 0 {
        lemma_joined_alike(a, b, sep, (n - 1) as nat);
    }
}

/// Parts are joined in their order, with what separates them between neighbours only.
pub proof fn law_parts_are_joined(parts: Seq<Seq<char>>, part: Seq<char>, sep: Seq<char>)
    ensures
        joined(Seq::empty(), sep) == Seq::<char>::empty(),
        joined(seq![part], sep) == part,
        parts.len() > 0 ==> joined(parts.push(part), sep) == joined(parts, sep) + sep + part,
{
    lemma_joined_alike(parts.push(part), parts, sep, parts.len());
}

proof fn lemma_position_shifted(before: Seq<char>, s: Seq<char>, c: char, from: int)
    requires
        0 <= from <= s.len(),
    ensures
        position_of(before + s, c, before.len() + from) == before.len() + position_of(s, c, from),
    decreases s.len() - from,
{
    if from < s.len() && s[from] != c {
        lemma_position_shifted(before, s, c, from + 1);
    }
}

proof fn lemma_position(s: Seq<char>, c: char, from: int)
    requires
        0 <= from <= s.len(),
    ensures
        from <= position_of(s, c, from) <= s.len(),
    decreases s.len() - from,
{
    if from < s.len() && s[from] != c {
        lemma_position(s, c, from + 1);
    }
}

proof fn lemma_position_first(s: Seq<char>, c: char, from: int, at: int)
    requires
        0 <= from <= at <= s.len(),
        forall|i: int| from <= i < at ==> #[trigger] s[i] != c,
        at < s.len() ==> s[at] == c,
    ensures
        position_of(s, c, from) == at,
    decreases at - from,
{
    if from < at {
        lemma_position_first(s, c, from + 1, at);
    }
}

proof fn lemma_lines_shifted(before: Seq<char>, s: Seq<char>, from: int)
    requires
        0 <= from <= s.len(),
    ensures
        lines_from(before + s, before.len() + from) == lines_from(s, from),
    decreases s.len() - from,
{
    let all = before + s;
    let at = before.len() + from;
    if from < s.len() {
        lemma_position_shifted(before, s, '\n', from);
        lemma_position(s, '\n', from);
        let end = position_of(s, '\n', from);
        if end < s.len() {
            assert(all.subrange(at, before.len() + end) =~= s.subrange(from, end));
            lemma_lines_shifted(before, s, end + 1);
        } else {
            assert(all.subrange(at, all.len() as int) =~= s.subrange(from, s.len() as int));
        }
    }
}

/// The first line of a text is what stands before its first line feed, without a carriage
/// return at its end; the other lines are those of the rest. Text without a line feed is one
/// line, and the empty text has none.
pub proof fn law_text_has_its_lines(line: Seq<char>, rest: Seq<char>)
    requires
        !line.contains('\n'),
    ensures
        line.len() == 0 || line.last() != '\r' ==> lines_from(line + seq!['\n'] + rest, 0)
            == seq![line] + lines_from(rest, 0),
        line.len() == 0 || line.last() != '\r' ==> lines_from(line + seq!['\r', '\n'] + rest, 0)
            == seq![line] + lines_from(rest, 0),
        line.len() > 0 ==> lines_from(line, 0) == seq![line],
        lines_from(Seq::empty(), 0) == Seq::<Seq<char>>::empty(),
{
    assert forall|i: int| 0 <= i < line.len() implies #[trigger] line[i] != '\n' by {
        assert(line.contains(line[i]));
    }
    let plain = line + seq!['\n'];
    let all = plain + rest;
    lemma_position_first(all, '\n', 0, line.len() as int);
    assert(all.subrange(0, line.len() as int) =~= line);
    lemma_lines_shifted(plain, rest, 0);
    let returned = line + seq!['\r', '\n'];
    let other = returned + rest;
    lemma_position_first(other, '\n', 0, line.len() + 1int);
    assert(other.subrange(0, line.len() + 1int) =~= line.push('\r'));
    assert(line.push('\r').drop_last() =~= line);
    lemma_lines_shifted(returned, rest, 0);
    if line.len() > 0 {
        lemma_position_first(line, '\n', 0, line.len() as int);
        assert(line.subrange(0, line.len() as int) =~= line);
    }
}

proof fn lemma_occurrence_shifted(before: Seq<char>, s: Seq<char>, pat: Seq<char>, from: int)
    requires
        0 <= from <= s.len(),
    ensures
        first_occurrence(before + s, pat, before.len() + from) == (match first_occurrence(
            s,
            pat,
            from,
        ) {
            Some(i) => Some(before.len() + i),
            None => None,
        }),
    decreases s.len() - from,
{
    let all = before + s;
    let at = before.len() + from;
    if from + pat.len() <= s.len() {
        assert(all.subrange(at, at + pat.len()) =~= s.subrange(from, from + pat.len()));
        if !occurs_at(s, pat, from) {
            assert(!occurs_at(all, pat, at));
            if from < s.len() {
                lemma_occurrence_shifted(before, s, pat, from + 1);
            }
        } else {
            assert(occurs_at(all, pat, at));
        }
    }
}

proof fn lemma_replaced_shifted(
    before: Seq<char>,
    s: Seq<char>,
    pat: Seq<char>,
    with: Seq<char>,
    from: int,
)
    requires
        0 <= from <= s.len(),
    ensures
        replaced_from(before + s, pat, with, before.len() + from) == replaced_from(
            s,
            pat,
            with,
            from,
        ),
    decreases s.len() - from,
{
    let all = before + s;
    let at = before.len() + from;
    lemma_occurrence_shifted(before, s, pat, from);
    crate::text::lemma_first_occurrence_occurs(s, pat, from);
    match first_occurrence(s, pat, from) {
        Some(i) if pat.len() > 0 && from <= i && i + pat.len() <= s.len() => {
            assert(all.subrange(at, before.len() + i) =~= s.subrange(from, i));
            lemma_replaced_shifted(before, s, pat, with, i + pat.len());
        },
        _ => {
            assert(all.subrange(at, all.len() as int) =~= s.subrange(from, s.len() as int));
        },
    }
}

proof fn lemma_no_occurrence(s: Seq<char>, pat: Seq<char>, from: int)
    requires
        0 <= from,
        forall|i: int| from <= i ==> !(#[trigger] occurs_at(s, pat, i)),
    ensures
        first_occurrence(s, pat, from) is None,
    decreases s.len() - from + 1,
{
    if from + pat.len() <= s.len() {
        assert(!occurs_at(s, pat, from));
        lemma_no_occurrence(s, pat, from + 1);
    }
}

/// What stands for something else is replaced by it wherever it stands, from the left; the
/// rest of the text is left as it is.
pub proof fn law_every_occurrence_is_replaced(
    before: Seq<char>,
    pat: Seq<char>,
    after: Seq<char>,
    with: Seq<char>,
    other: Seq<char>,
)
    requires
        pat.len() > 0,
        forall|i: int|
            0 <= i < before.len() ==> !(#[trigger] occurs_at(before + pat + after, pat, i)),
        forall|i: int| !(#[trigger] occurs_at(other, pat, i)),
    ensures
        replaced(before + pat + after, pat, with) == before + with + replaced(after, pat, with),
        replaced(other, pat, with) == other,
{
    let all = before + pat + after;
    let at = before.len() as int;
    assert(all.subrange(at, at + pat.len()) =~= pat);
    assert(occurs_at(all, pat, at));
    lemma_first(all, pat, 0, at);
    assert(all.subrange(0, at) =~= before);
    lemma_replaced_shifted(before + pat, after, pat, with, 0);
    lemma_no_occurrence(other, pat, 0);
    assert(other.subrange(0, other.len() as int) =~= other);
}

/// A digit.
pub open spec fn is_digit(c: char) -> bool {
    '0' <= c && c <= '9'
}

/// The number that digits stand for, to this base; the letters from `a` on stand for ten and
/// more.
pub open spec fn number_in(digits: Seq<char>, base: int) -> int
    decreases digits.len(),
{
    if digits.len() == 0 {
        0
    } else {
        let c = digits.last();
        base * number_in(digits.drop_last(), base) + (if is_digit(c) {
            c as int - '0' as int
        } else {
            c as int - 'a' as int + 10
        })
    }
}

/// A number is written in digits that stand for it, without a zero before them.
pub proof fn law_numbers_in_decimal(n: nat)
    ensures
        number_in(decimal(n), 10) == n,
        decimal(n).len() > 0,
        forall|i: int| 0 <= i < decimal(n).len() ==> is_digit(#[trigger] decimal(n)[i]),
        decimal(n)[0] == '0' ==> n == 0,
    decreases n,
{
    reveal_with_fuel(number_in, 2);
    if n < 10 {
        assert(decimal(n).drop_last() =~= Seq::<char>::empty());
    } else {
        law_numbers_in_decimal(n / 10);
        assert(decimal(n).drop_last() =~= decimal(n / 10));
    }
}

/// A number below zero is written with a sign before its digits; any other is not.
pub proof fn law_signed_numbers(n: nat)
    ensures
        signed_decimal(n as int) == decimal(n),
        n > 0 ==> signed_decimal(-(n as int)) == seq!['-'] + decimal(n),
{
}

proof fn lemma_hexadecimal(n: nat)
    ensures
        number_in(hexadecimal(n), 16) == n,
        forall|i: int|
            0 <= i < hexadecimal(n).len() ==> {
                let c = #[trigger] hexadecimal(n)[i];
                is_digit(c) || ('a' <= c && c <= 'f')
            },
    decreases n,
{
    reveal_with_fuel(number_in, 2);
    if n < 16 {
        assert(hexadecimal(n).drop_last() =~= Seq::<char>::empty());
    } else {
        lemma_hexadecimal(n / 16);
        assert(hexadecimal(n).drop_last() =~= hexadecimal(n / 16));
    }
}

proof fn lemma_padded(zeros: Seq<char>, s: Seq<char>)
    requires
        forall|i: int| 0 <= i < zeros.len() ==> #[trigger] zeros[i] == '0',
    ensures
        number_in(zeros + s, 16) == number_in(s, 16),
    decreases zeros.len() + s.len(),
{
    if s.len() > 0 {
        assert((zeros + s).drop_last() =~= zeros + s.drop_last());
        lemma_padded(zeros, s.drop_last());
    } else if zeros.len() > 0 {
        assert(zeros + s =~= zeros);
        assert(zeros.drop_last() + s =~= zeros.drop_last());
        lemma_padded(zeros.drop_last(), s);
    } else {
        assert(zeros + s =~= s);
    }
}

/// The name of a session is the moment at which it started, in at least sixteen hexadecimal
/// digits.
pub proof fn law_session_names(nanos: nat)
    ensures
        number_in(session_name(nanos), 16) == nanos,
        session_name(nanos).len() >= 16,
        forall|i: int|
            0 <= i < session_name(nanos).len() ==> {
                let c = #[trigger] session_name(nanos)[i];
                is_digit(c) || ('a' <= c && c <= 'f')
            },
{
    let digits = hexadecimal(nanos);
    lemma_hexadecimal(nanos);
    if digits.len() < 16 {
        let zeros = Seq::new((16 - digits.len()) as nat, |i: int| '0');
        lemma_padded(zeros, digits);
        assert(session_name(nanos) == zeros + digits);
        assert forall|i: int| 0 <= i < session_name(nanos).len() implies ({
            let c = #[trigger] session_name(nanos)[i];
            is_digit(c) || ('a' <= c && c <= 'f')
        }) by {
            if i >= zeros.len() {
                assert(session_name(nanos)[i] == digits[i - zeros.len()]);
            }
        }
    }
}

/// Padding puts zeros before a text that is too short, and leaves any other as it is.
pub proof fn law_padding(s: Seq<char>, width: nat)
    ensures
        s.len() >= width ==> zero_padded(s, width) == s,
        s.len() < width ==> zero_padded(s, width).len() == width,
        zero_padded(s, width).skip(zero_padded(s, width).len() - s.len()) == s,
        forall|i: int|
            0 <= i < width - s.len() ==> #[trigger] zero_padded(s, width)[i] == '0',
{
    assert(zero_padded(s, width).skip(zero_padded(s, width).len() - s.len()) =~= s);
}

/// The first characters of a text are a part of it at its start, as many as were asked for
/// where there are so many.
pub proof fn law_first_characters(s: Seq<char>, n: nat)
    ensures
        first_chars(s, n).len() == (if s.len() < n {
            s.len()
        } else {
            n
        }),
        forall|i: int| 0 <= i < first_chars(s, n).len() ==> #[trigger] first_chars(s, n)[i] == s[i],
{
}

/// Text is cut only where it is longer than the limit; then its first characters stay, and
/// the note stands behind them.
pub proof fn law_long_text_is_cut(s: Seq<char>, limit: nat, note: Seq<char>)
    ensures
        utf8_len(s) <= limit ==> clipped(s, limit, note) == s,
        utf8_len(s) > limit && s.len() >= limit ==> clipped(s, limit, note) == s.take(limit as int)
            + note,
        utf8_len(s) > limit && s.len() < limit ==> clipped(s, limit, note) == s + note,
{
    assert(s.take(s.len() as int) =~= s);
}

/// A number of bytes is shown in units of 1024 with one digit behind the point: the nearest
/// tenth, and of two that are as near the even one.
pub proof fn law_kilobytes(n: nat)
    ensures
        -512 <= 1024 * kilobyte_tenths(n) - 10 * n <= 512,
        10 * n - 1024 * kilobyte_tenths(n) == 512 || 1024 * kilobyte_tenths(n) - 10 * n == 512
            ==> kilobyte_tenths(n) % 2 == 0,
        kilobytes(n) == decimal(kilobyte_tenths(n) / 10) + "."@ + decimal(
            kilobyte_tenths(n) % 10,
        ),
{
}

/// What is put under a key is read under it, as what it is and as nothing else; the other
/// keys keep what they had.
pub proof fn law_members_are_read(
    members: Map<Seq<char>, JsonView>,
    key: Seq<char>,
    other: Seq<char>,
    value: JsonView,
    text: Seq<char>,
    truth: bool,
    number: NumberView,
    items: Seq<JsonView>,
)
    requires
        key != other,
    ensures
        member(JsonView::Object(members.insert(key, value)), key) == Some(value),
        member(JsonView::Object(members.insert(key, value)), other) == member(
            JsonView::Object(members),
            other,
        ),
        !members.contains_key(key) ==> member(JsonView::Object(members), key) is None,
        !(value is Object) ==> member(value, key) is None,
        ({
            let json = JsonView::Object(members.insert(key, JsonView::Text(text)));
            member_text(json, key) == Some(text) && member_bool(json, key) is None
                && member_unsigned(json, key) is None && member_signed(json, key) is None
                && member_number(json, key) is None && member_items(json, key) is None
        }),
        ({
            let json = JsonView::Object(members.insert(key, JsonView::Bool(truth)));
            member_bool(json, key) == Some(truth) && member_text(json, key) is None
                && member_unsigned(json, key) is None && member_signed(json, key) is None
                && member_number(json, key) is None && member_items(json, key) is None
        }),
        ({
            let json = JsonView::Object(members.insert(key, JsonView::Number(number)));
            member_unsigned(json, key) == number.unsigned && member_signed(json, key)
                == number.signed && member_number(json, key) == Some(number.text) && member_text(
                json,
                key,
            ) is None && member_bool(json, key) is None && member_items(json, key) is None
        }),
        ({
            let json = JsonView::Object(members.insert(key, JsonView::Array(items)));
            member_items(json, key) == Some(items) && member_text(json, key) is None
                && member_bool(json, key) is None && member_unsigned(json, key) is None
                && member_signed(json, key) is None && member_number(json, key) is None
        }),
{
}

proof fn lemma_key_pushed(
    members: Seq<(String, Json)>,
    entry: (String, Json),
    key: Seq<char>,
    n: nat,
)
    requires
        n <= members.len(),
    ensures
        key_index(members.push(entry), key, n) == key_index(members, key, n),
        key_index(members, key, n) matches Some(i) ==> 0 <= i < n,
    decreases n,
{
    if n > 0 {
        lemma_key_pushed(members, entry, key, (n - 1) as nat);
    }
}

/// The last member with a key is the one that counts; a member leaves the other keys as they
/// were.
pub proof fn law_the_last_member_counts(
    before: Vec<(String, Json)>,
    after: Vec<(String, Json)>,
    key: String,
    value: Json,
    other: Seq<char>,
)
    requires
        after@ == before@.push((key, value)),
    ensures
        member(content(Json::Object(after)), key@) == Some(content(value)),
        other != key@ ==> member(content(Json::Object(after)), other) == member(
            content(Json::Object(before)),
            other,
        ),
{
    lemma_key_pushed(before@, (key, value), other, before@.len());
}

} // verus!
