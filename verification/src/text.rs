//! Characters and text: the character classes the parsers use, and
//! trimming.

use vstd::prelude::*;
use vstd::utf8::is_ascii_chars;

verus! {

/// The characters that count as white space: those with the Unicode
/// property `White_Space`.
pub open spec fn spec_is_white_space(c: char) -> bool {
    let code: u32 = c as u32;
    ||| 0x09 <= code <= 0x0D
    ||| code == 0x20
    ||| code == 0x85
    ||| code == 0xA0
    ||| code == 0x1680
    ||| 0x2000 <= code <= 0x200A
    ||| code == 0x2028
    ||| code == 0x2029
    ||| code == 0x202F
    ||| code == 0x205F
    ||| code == 0x3000
}

/// Whether `c` is white space.
#[verifier::when_used_as_spec(spec_is_white_space)]
pub fn is_white_space(c: char) -> (r: bool)
    ensures
        r == spec_is_white_space(c),
{
    let code: u32 = c as u32;
    let ascii: bool = (0x09 <= code && code <= 0x0D) || code == 0x20;
    let latin: bool = code == 0x85 || code == 0xA0;
    let spaces: bool = code == 0x1680 || (0x2000 <= code && code <= 0x200A) || code == 0x202F
        || code == 0x205F || code == 0x3000;
    let separators: bool = code == 0x2028 || code == 0x2029;
    ascii || latin || spaces || separators
}

/// The characters of which a number is written: the digits `0` to `9` and
/// the point.
pub open spec fn spec_is_number_char(c: char) -> bool {
    '0' <= c <= '9' || c == '.'
}

/// Whether a number may hold `c`.
#[verifier::when_used_as_spec(spec_is_number_char)]
pub fn is_number_char(c: char) -> (r: bool)
    ensures
        r == spec_is_number_char(c),
{
    ('0' <= c && c <= '9') || c == '.'
}

/// `c`, or the small letter for it where `c` is one of the capital letters
/// `A` to `Z`.
pub open spec fn ascii_lower(c: char) -> char {
    if 'A' <= c <= 'Z' {
        ((c as u32) + 32) as char
    } else {
        c
    }
}

/// `s` with each capital letter from `A` to `Z` replaced by its small letter.
pub open spec fn ascii_lowered(s: Seq<char>) -> Seq<char> {
    s.map_values(|c: char| ascii_lower(c))
}

/// The characters of `s`, in order.
pub fn chars_of(s: &str) -> (chars: Vec<char>)
    ensures
        chars@ == s@,
{
    let mut chars: Vec<char> = Vec::new();
    for c in it: s.chars()
        invariant
            chars@ == it.seq().take(it.index() as int),
            it.seq() == s@,
    {
        chars.push(c);
    }
    chars
}

/// `s` without the white space it begins with.
pub open spec fn trim_start(s: Seq<char>) -> Seq<char>
    decreases s.len(),
{
    if s.len() > 0 && is_white_space(s[0]) {
        trim_start(s.drop_first())
    } else {
        s
    }
}

/// `s` without the white space it ends with.
pub open spec fn trim_end(s: Seq<char>) -> Seq<char>
    decreases s.len(),
{
    if s.len() > 0 && is_white_space(s.last()) {
        trim_end(s.drop_last())
    } else {
        s
    }
}

/// `s` without the white space around it.
pub open spec fn trimmed(s: Seq<char>) -> Seq<char> {
    trim_end(trim_start(s))
}

/// Every character of `s` is white space.
pub open spec fn all_white_space(s: Seq<char>) -> bool {
    forall|i: int| 0 <= i < s.len() ==> is_white_space(#[trigger] s[i])
}

/// Where the leading white space of `s` ends after `n` characters,
/// `trim_start` removes exactly those.
pub proof fn lemma_trim_start_skips(s: Seq<char>, n: int)
    requires
        0 <= n <= s.len(),
        all_white_space(s.take(n)),
        n < s.len() ==> !is_white_space(s[n]),
    ensures
        trim_start(s) == s.skip(n),
    decreases n,
{
    if n == 0 {
        assert(s.skip(0) =~= s);
    } else {
        assert(s.take(n)[0] == s[0]);
        let rest = s.drop_first();
        let front = rest.take(n - 1);
        assert forall|i: int| 0 <= i < front.len() implies is_white_space(#[trigger] front[i]) by {
            assert(s.take(n)[i + 1] == front[i]);
        }
        lemma_trim_start_skips(rest, n - 1);
        assert(rest.skip(n - 1) =~= s.skip(n));
    }
}

/// Where the trailing white space of `s` begins at index `n`, `trim_end`
/// keeps exactly what stands before it.
pub proof fn lemma_trim_end_takes(s: Seq<char>, n: int)
    requires
        0 <= n <= s.len(),
        all_white_space(s.skip(n)),
        n > 0 ==> !is_white_space(s[n - 1]),
    ensures
        trim_end(s) == s.take(n),
    decreases s.len() - n,
{
    if n == s.len() {
        assert(s.take(n) =~= s);
    } else {
        assert(s.skip(n)[s.len() - n - 1] == s.last());
        let rest = s.drop_last();
        let back = rest.skip(n);
        assert forall|i: int| 0 <= i < back.len() implies is_white_space(#[trigger] back[i]) by {
            assert(s.skip(n)[i] == back[i]);
        }
        lemma_trim_end_takes(rest, n);
        assert(rest.take(n) =~= s.take(n));
    }
}

/// White space put before a text is trimmed away with the white space the
/// text begins with.
pub proof fn lemma_trim_start_ignores_padding(padding: Seq<char>, s: Seq<char>)
    requires
        all_white_space(padding),
    ensures
        trim_start(padding + s) == trim_start(s),
    decreases padding.len(),
{
    if padding.len() == 0 {
        assert(padding + s =~= s);
    } else {
        assert((padding + s)[0] == padding[0]);
        assert((padding + s).drop_first() =~= padding.drop_first() + s);
        lemma_trim_start_ignores_padding(padding.drop_first(), s);
    }
}

/// White space put after a text is trimmed away with the white space the
/// text ends with.
pub proof fn lemma_trim_end_ignores_padding(s: Seq<char>, padding: Seq<char>)
    requires
        all_white_space(padding),
    ensures
        trim_end(s + padding) == trim_end(s),
    decreases padding.len(),
{
    if padding.len() == 0 {
        assert(s + padding =~= s);
    } else {
        assert((s + padding).last() == padding.last());
        assert((s + padding).drop_last() =~= s + padding.drop_last());
        lemma_trim_end_ignores_padding(s, padding.drop_last());
    }
}

proof fn lemma_trimmed_ignores_padding_after(s: Seq<char>, padding: Seq<char>)
    requires
        all_white_space(padding),
    ensures
        trimmed(s + padding) == trimmed(s),
    decreases s.len(),
{
    if s.len() == 0 {
        assert(s + padding =~= padding + s);
        lemma_trim_start_ignores_padding(padding, s);
    } else if is_white_space(s[0]) {
        assert((s + padding)[0] == s[0]);
        assert((s + padding).drop_first() =~= s.drop_first() + padding);
        lemma_trimmed_ignores_padding_after(s.drop_first(), padding);
    } else {
        assert((s + padding)[0] == s[0]);
        lemma_trim_end_ignores_padding(s, padding);
    }
}

/// White space put around a text does not change what trimming leaves of
/// it.
pub proof fn lemma_trimmed_ignores_padding(before: Seq<char>, s: Seq<char>, after: Seq<char>)
    requires
        all_white_space(before),
        all_white_space(after),
    ensures
        trimmed(before + s + after) == trimmed(s),
{
    assert(before + s + after =~= before + (s + after));
    lemma_trim_start_ignores_padding(before, s + after);
    lemma_trimmed_ignores_padding_after(s, after);
}

proof fn lemma_trim_start_of_lowered(s: Seq<char>)
    ensures
        trim_start(ascii_lowered(s)) == ascii_lowered(trim_start(s)),
    decreases s.len(),
{
    let lowered = ascii_lowered(s);
    if s.len() > 0 {
        assert(is_white_space(lowered[0]) == is_white_space(s[0]));
        assert(lowered.drop_first() =~= ascii_lowered(s.drop_first()));
        lemma_trim_start_of_lowered(s.drop_first());
    }
}

proof fn lemma_trim_end_of_lowered(s: Seq<char>)
    ensures
        trim_end(ascii_lowered(s)) == ascii_lowered(trim_end(s)),
    decreases s.len(),
{
    let lowered = ascii_lowered(s);
    if s.len() > 0 {
        assert(is_white_space(lowered.last()) == is_white_space(s.last()));
        assert(lowered.drop_last() =~= ascii_lowered(s.drop_last()));
        lemma_trim_end_of_lowered(s.drop_last());
    }
}

/// Trimming and putting in small letters can be done in either order: no
/// letter is white space.
pub proof fn lemma_trimmed_of_lowered(s: Seq<char>)
    ensures
        trimmed(ascii_lowered(s)) == ascii_lowered(trimmed(s)),
{
    lemma_trim_start_of_lowered(s);
    lemma_trim_end_of_lowered(trim_start(s));
}

/// A part of a text of ASCII characters holds ASCII characters.
pub proof fn lemma_part_of_ascii(s: Seq<char>, from: int, to: int)
    requires
        is_ascii_chars(s),
        0 <= from <= to <= s.len(),
    ensures
        is_ascii_chars(s.subrange(from, to)),
        from == 0 ==> is_ascii_chars(s.take(to)),
        to == s.len() ==> is_ascii_chars(s.skip(from)),
{
    let part = s.subrange(from, to);
    assert forall|i: int| 0 <= i < part.len() implies '\0' <= #[trigger] part[i] <= '\u{7f}' by {
        assert(part[i] == s[from + i]);
    }
    if from == 0 {
        assert(s.take(to) =~= part);
    }
    if to == s.len() {
        assert(s.skip(from) =~= part);
    }
}

proof fn lemma_trim_start_of_ascii(s: Seq<char>)
    requires
        is_ascii_chars(s),
    ensures
        is_ascii_chars(trim_start(s)),
    decreases s.len(),
{
    if s.len() > 0 {
        lemma_part_of_ascii(s, 1, s.len() as int);
        lemma_trim_start_of_ascii(s.drop_first());
    }
}

proof fn lemma_trim_end_of_ascii(s: Seq<char>)
    requires
        is_ascii_chars(s),
    ensures
        is_ascii_chars(trim_end(s)),
    decreases s.len(),
{
    if s.len() > 0 {
        lemma_part_of_ascii(s, 0, s.len() - 1);
        lemma_trim_end_of_ascii(s.drop_last());
    }
}

/// Trimming leaves only characters of `s`: of a text of ASCII characters
/// it leaves ASCII characters.
pub proof fn lemma_trimmed_of_ascii(s: Seq<char>)
    requires
        is_ascii_chars(s),
    ensures
        is_ascii_chars(trimmed(s)),
{
    lemma_trim_start_of_ascii(s);
    lemma_trim_end_of_ascii(trim_start(s));
}

/// The text `s` without the white space around it.
pub fn trim(s: &str) -> (r: &str)
    ensures
        r@ == trimmed(s@),
{
    let chars = chars_of(s);
    let mut start: usize = 0;
    while start < chars.len() && is_white_space(chars[start])
        invariant
            start <= chars.len(),
            all_white_space(chars@.take(start as int)),
        decreases chars.len() - start,
    {
        start += 1;
    }
    let mut end: usize = chars.len();
    while end > start && is_white_space(chars[end - 1])
        invariant
            start <= end <= chars.len(),
            all_white_space(chars@.skip(end as int)),
        decreases end,
    {
        proof {
            let before = chars@.skip(end as int);
            let after = chars@.skip(end - 1);
            assert forall|i: int| 0 < i < after.len() implies is_white_space(
                #[trigger] after[i],
            ) by {
                assert(after[i] == before[i - 1]);
            }
        }
        end -= 1;
    }
    proof {
        let kept = s@.skip(start as int);
        lemma_trim_start_skips(s@, start as int);
        assert(kept.skip(end - start) =~= s@.skip(end as int));
        lemma_trim_end_takes(kept, end - start);
        assert(kept.take(end - start) =~= s@.subrange(start as int, end as int));
    }
    s.substring_char(start, end)
}

} // verus!
