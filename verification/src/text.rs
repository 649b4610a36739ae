//! Character sequences: trimming, joining, decimal numbers, substring search.
use vstd::prelude::*;

verus! {

/// Whether `c` has the Unicode property White_Space: the controls from tab
/// to carriage return, the space, next line, the no-break space, the ogham
/// space mark, the spaces from en quad to hair space, the line and the
/// paragraph separator, the narrow no-break space, the medium mathematical
/// space and the ideographic space.
pub open spec fn white_space(c: char) -> bool {
    let code = c as u32;
    ||| 0x0009 <= code <= 0x000D
    ||| code == 0x0020
    ||| code == 0x0085
    ||| code == 0x00A0
    ||| code == 0x1680
    ||| 0x2000 <= code <= 0x200A
    ||| code == 0x2028
    ||| code == 0x2029
    ||| code == 0x202F
    ||| code == 0x205F
    ||| code == 0x3000
}

/// `s` without its leading white space.
pub open spec fn trim_start(s: Seq<char>) -> Seq<char>
    decreases s.len(),
{
    if s.len() > 0 && white_space(s[0]) {
        trim_start(s.drop_first())
    } else {
        s
    }
}

/// `s` without its trailing white space.
pub open spec fn trim_end(s: Seq<char>) -> Seq<char>
    decreases s.len(),
{
    if s.len() > 0 && white_space(s.last()) {
        trim_end(s.drop_last())
    } else {
        s
    }
}

/// `s` without leading and trailing white space.
pub open spec fn trimmed(s: Seq<char>) -> Seq<char> {
    trim_end(trim_start(s))
}

/// Whether `s` holds nothing but white space.
pub open spec fn is_blank(s: Seq<char>) -> bool {
    trimmed(s).len() == 0
}

/// The decimal digit for `d`.
pub open spec fn digit(d: nat) -> char
    recommends
        d < 10,
{
    if d == 0 {
        '0'
    } else if d == 1 {
        '1'
    } else if d == 2 {
        '2'
    } else if d == 3 {
        '3'
    } else if d == 4 {
        '4'
    } else if d == 5 {
        '5'
    } else if d == 6 {
        '6'
    } else if d == 7 {
        '7'
    } else if d == 8 {
        '8'
    } else {
        '9'
    }
}

/// `n` written in base ten without leading zeros.
pub open spec fn decimal(n: nat) -> Seq<char>
    decreases n,
{
    if n < 10 {
        seq![digit(n)]
    } else {
        decimal(n / 10).push(digit(n % 10))
    }
}

/// The decimal digit for `d`, as text.
fn digit_text(d: u64) -> (s: &'static str)
    requires
        d < 10,
    ensures
        s@ == seq![digit(d as nat)],
{
    proof {
        reveal_strlit("0");
        reveal_strlit("1");
        reveal_strlit("2");
        reveal_strlit("3");
        reveal_strlit("4");
        reveal_strlit("5");
        reveal_strlit("6");
        reveal_strlit("7");
        reveal_strlit("8");
        reveal_strlit("9");
    }
    let s = if d == 0 {
        "0"
    } else if d == 1 {
        "1"
    } else if d == 2 {
        "2"
    } else if d == 3 {
        "3"
    } else if d == 4 {
        "4"
    } else if d == 5 {
        "5"
    } else if d == 6 {
        "6"
    } else if d == 7 {
        "7"
    } else if d == 8 {
        "8"
    } else {
        "9"
    };
    assert(s@ =~= seq![digit(d as nat)]);
    s
}

/// The number in base ten, digits only, without leading zeros.
pub fn u64_to_string(n: u64) -> (s: String)
    ensures
        s@ == decimal(n as nat),
    decreases n,
{
    if n < 10 {
        digit_text(n).to_owned()
    } else {
        let mut s = u64_to_string(n / 10);
        s.append(digit_text(n % 10));
        s
    }
}

/// The parts of `parts` in order with `sep` between neighbours.
pub open spec fn joined(parts: Seq<Seq<char>>, sep: Seq<char>) -> Seq<char>
    decreases parts.len(),
{
    if parts.len() == 0 {
        Seq::empty()
    } else if parts.len() == 1 {
        parts[0]
    } else {
        joined(parts.drop_last(), sep) + sep + parts.last()
    }
}

/// Joins `parts` with `sep` between neighbours.
pub fn join(parts: &Vec<String>, sep: &str) -> (out: String)
    ensures
        out@ == joined(parts.deep_view(), sep@),
{
    let mut out = String::new();
    let mut i: usize = 0;
    while i < parts.len()
        invariant
            i <= parts.len(),
            out@ == joined(parts.deep_view().take(i as int), sep@),
        decreases parts.len() - i,
    {
        proof {
            let next = parts.deep_view().take(i + 1);
            assert(next.drop_last() =~= parts.deep_view().take(i as int));
        }
        if i > 0 {
            out.append(sep);
        }
        out.append(parts[i].as_str());
        i += 1;
    }
    proof {
        assert(parts.deep_view().take(parts.len() as int) =~= parts.deep_view());
    }
    out
}

/// Whether `needle` occurs in `hay` as a run of neighbouring characters.
pub open spec fn has_substring(hay: Seq<char>, needle: Seq<char>) -> bool {
    exists|i: int|
        0 <= i && i + needle.len() <= hay.len() && #[trigger] hay.subrange(i, i + needle.len())
            == needle
}

/// What `str::to_lowercase` makes of a string, by the Unicode rules for
/// lower case.
pub uninterp spec fn lowercase(s: Seq<char>) -> Seq<char>;

/// `str::to_lowercase`.
#[verifier::external_body]
pub(crate) fn to_lowercase(s: &str) -> (r: String)
    ensures
        r@ == lowercase(s@),
{
    s.to_lowercase()
}

/// The characters of `s`, one by one.
pub fn to_chars(s: &str) -> (v: Vec<char>)
    ensures
        v@ == s@,
{
    let mut v: Vec<char> = Vec::new();
    for c in it: s.chars()
        invariant
            it.seq() == s@,
            v@ == s@.take(it.index() as int),
    {
        v.push(c);
    }
    v
}

/// Whether the character is white space.
pub fn is_whitespace(c: char) -> (b: bool)
    ensures
        b == white_space(c),
{
    let code = c as u32;
    (0x0009 <= code && code <= 0x000D) || code == 0x0020 || code == 0x0085 || code == 0x00A0
        || code == 0x1680 || (0x2000 <= code && code <= 0x200A) || code == 0x2028 || code
        == 0x2029 || code == 0x202F || code == 0x205F || code == 0x3000
}

/// Whether `c` is numeric by Unicode's general categories, which is what
/// `char::is_numeric` reports.
pub uninterp spec fn numeric(c: char) -> bool;

/// `char::is_numeric`: whether the character is a number of any kind.
#[verifier::external_body]
pub(crate) fn is_numeric(c: char) -> (b: bool)
    ensures
        b == numeric(c),
{
    c.is_numeric()
}

/// Index of the first `c` in `s` at or after `from`, or the length of `s`
/// where there is none.
pub open spec fn find_char(s: Seq<char>, from: int, c: char) -> int
    decreases s.len() - from,
{
    if from >= s.len() {
        s.len() as int
    } else if from >= 0 && s[from] == c {
        from
    } else {
        find_char(s, from + 1, c)
    }
}

/// What is found is not before the start, is the character looked for
/// unless it is the end, and is the first of its kind.
pub proof fn lemma_find_char(s: Seq<char>, from: int, c: char)
    requires
        0 <= from <= s.len(),
    ensures
        from <= find_char(s, from, c) <= s.len(),
        find_char(s, from, c) < s.len() ==> s[find_char(s, from, c)] == c,
        forall|i: int| from <= i < find_char(s, from, c) ==> s[i] != c,
    decreases s.len() - from,
{
    if from < s.len() && s[from] != c {
        lemma_find_char(s, from + 1, c);
    }
}

/// A stretch without the character does not change what is found.
pub proof fn lemma_find_char_skips(s: Seq<char>, from: int, to: int, c: char)
    requires
        0 <= from <= to <= s.len(),
        forall|i: int| from <= i < to ==> s[i] != c,
    ensures
        find_char(s, from, c) == find_char(s, to, c),
    decreases to - from,
{
    if from < to {
        lemma_find_char_skips(s, from + 1, to, c);
    }
}

/// Index of the first `c` in `chars` at or after `from`, or the length of
/// `chars` where there is none.
pub fn index_of_char(chars: &Vec<char>, from: usize, c: char) -> (at: usize)
    requires
        from <= chars.len(),
    ensures
        at == find_char(chars@, from as int, c),
        from <= at <= chars.len(),
{
    let mut i: usize = from;
    while i < chars.len() && chars[i] != c
        invariant
            from <= i <= chars.len(),
            forall|k: int| from <= k < i ==> chars@[k] != c,
        decreases chars.len() - i,
    {
        i += 1;
    }
    proof {
        lemma_find_char_skips(chars@, from as int, i as int, c);
        lemma_find_char(chars@, i as int, c);
    }
    i
}

/// Whether `needle` stands in `hay` at index `at`.
pub open spec fn matches_at(hay: Seq<char>, needle: Seq<char>, at: int) -> bool {
    0 <= at && at + needle.len() <= hay.len() && hay.subrange(at, at + needle.len()) == needle
}

/// Index of the first place at or after `from` where `needle` stands in
/// `hay`, if there is one.
pub open spec fn find_match(hay: Seq<char>, needle: Seq<char>, from: int) -> Option<int>
    decreases hay.len() - from,
{
    if from < 0 || from + needle.len() > hay.len() {
        None
    } else if matches_at(hay, needle, from) {
        Some(from)
    } else if from >= hay.len() {
        None
    } else {
        find_match(hay, needle, from + 1)
    }
}

/// A stretch in which the needle does not stand does not change what is
/// found.
pub proof fn lemma_find_match_skips(hay: Seq<char>, needle: Seq<char>, from: int, to: int)
    requires
        0 <= from <= to,
        forall|i: int| from <= i < to ==> !matches_at(hay, needle, i),
    ensures
        find_match(hay, needle, from) == find_match(hay, needle, to),
    decreases to - from,
{
    if from < to {
        lemma_find_match_skips(hay, needle, from + 1, to);
    }
}

/// Whether `needle` stands in `hay` at index `at`.
pub fn stands_at(hay: &Vec<char>, needle: &Vec<char>, at: usize) -> (b: bool)
    ensures
        b == matches_at(hay@, needle@, at as int),
{
    if needle.len() > hay.len() || at > hay.len() - needle.len() {
        return false;
    }
    let mut k: usize = 0;
    while k < needle.len()
        invariant
            k <= needle.len(),
            at + needle.len() <= hay.len(),
            forall|j: int| 0 <= j < k ==> hay@[at + j] == needle@[j],
        decreases needle.len() - k,
    {
        if hay[at + k] != needle[k] {
            return false;
        }
        k += 1;
    }
    assert(hay@.subrange(at as int, at + needle.len()) =~= needle@);
    true
}

/// Index of the first place at or after `from` where `needle` stands in
/// `hay`, if there is one.
pub fn index_of(hay: &Vec<char>, needle: &Vec<char>, from: usize) -> (at: Option<usize>)
    ensures
        match at {
            Some(i) => find_match(hay@, needle@, from as int) == Some(i as int) && from <= i
                && matches_at(hay@, needle@, i as int),
            None => find_match(hay@, needle@, from as int) is None,
        },
{
    let mut i: usize = from;
    while i < hay.len()
        invariant
            from <= i,
            forall|k: int| from <= k < i ==> !matches_at(hay@, needle@, k),
        decreases hay.len() - i,
    {
        proof {
            lemma_find_match_skips(hay@, needle@, from as int, i as int);
        }
        if stands_at(hay, needle, i) {
            return Some(i);
        }
        i += 1;
    }
    proof {
        lemma_find_match_skips(hay@, needle@, from as int, i as int);
    }
    if stands_at(hay, needle, i) {
        Some(i)
    } else {
        None
    }
}

/// Index of the first character of `s` at or after `from` that is not
/// white space, or the length of `s` where there is none.
pub open spec fn word_start(s: Seq<char>, from: int) -> int
    decreases s.len() - from,
{
    if from >= s.len() {
        s.len() as int
    } else if from >= 0 && !white_space(s[from]) {
        from
    } else {
        word_start(s, from + 1)
    }
}

/// Index of the first white space of `s` at or after `from`, or the length
/// of `s` where there is none.
pub open spec fn word_end(s: Seq<char>, from: int) -> int
    decreases s.len() - from,
{
    if from >= s.len() {
        s.len() as int
    } else if from >= 0 && white_space(s[from]) {
        from
    } else {
        word_end(s, from + 1)
    }
}

/// The words of `s` from index `from` on: the longest runs of characters
/// that are not white space, in order.
pub open spec fn words_from(s: Seq<char>, from: int) -> Seq<Seq<char>>
    decreases s.len() - from,
{
    let start = word_start(s, from);
    let end = word_end(s, start);
    if from <= start < end <= s.len() {
        seq![s.subrange(start, end)] + words_from(s, end)
    } else {
        Seq::empty()
    }
}

/// The words of `s`: what `str::split_whitespace` yields.
pub open spec fn words_of(s: Seq<char>) -> Seq<Seq<char>> {
    words_from(s, 0)
}

/// Skipping white space does not change where the next word starts.
proof fn lemma_word_start_skips(s: Seq<char>, from: int, to: int)
    requires
        0 <= from <= to <= s.len(),
        forall|i: int| from <= i < to ==> white_space(s[i]),
    ensures
        word_start(s, from) == word_start(s, to),
    decreases to - from,
{
    if from < to {
        lemma_word_start_skips(s, from + 1, to);
    }
}

/// Skipping what is not white space does not change where the word ends.
proof fn lemma_word_end_skips(s: Seq<char>, from: int, to: int)
    requires
        0 <= from <= to <= s.len(),
        forall|i: int| from <= i < to ==> !white_space(s[i]),
    ensures
        word_end(s, from) == word_end(s, to),
    decreases to - from,
{
    if from < to {
        lemma_word_end_skips(s, from + 1, to);
    }
}

/// The words of a text.
pub fn split_words(s: &str) -> (out: Vec<String>)
    ensures
        out.deep_view() == words_of(s@),
{
    let chars = to_chars(s);
    let n = chars.len();
    let mut out: Vec<String> = Vec::new();
    let mut i: usize = 0;
    while i < n
        invariant
            chars@ == s@,
            n == chars.len(),
            i <= n,
            words_of(s@) == out.deep_view() + words_from(s@, i as int),
        decreases n - i,
    {
        let from = i;
        while i < n && is_whitespace(chars[i])
            invariant
                chars@ == s@,
                n == chars.len(),
                from <= i <= n,
                forall|k: int| from <= k < i ==> white_space(s@[k]),
            decreases n - i,
        {
            i += 1;
        }
        let start = i;
        while i < n && !is_whitespace(chars[i])
            invariant
                chars@ == s@,
                n == chars.len(),
                start <= i <= n,
                forall|k: int| start <= k < i ==> !white_space(s@[k]),
            decreases n - i,
        {
            i += 1;
        }
        proof {
            lemma_word_start_skips(s@, from as int, start as int);
            lemma_word_end_skips(s@, start as int, i as int);
        }
        if start < i {
            let word = s.substring_char(start, i).to_owned();
            out.push(word);
        }
    }
    out
}

/// Leading white space of known length is what `trim_start` removes.
proof fn lemma_trim_start(s: Seq<char>, k: int)
    requires
        0 <= k <= s.len(),
        forall|i: int| 0 <= i < k ==> white_space(s[i]),
        k < s.len() ==> !white_space(s[k]),
    ensures
        trim_start(s) == s.skip(k),
    decreases k,
{
    if k == 0 {
    } else {
        let rest = s.drop_first();
        assert forall|i: int| 0 <= i < k - 1 implies white_space(rest[i]) by {
        }
        lemma_trim_start(rest, k - 1);
    }
}

/// Trailing white space of known length is what `trim_end` removes.
proof fn lemma_trim_end(s: Seq<char>, k: int)
    requires
        0 <= k <= s.len(),
        forall|i: int| k <= i < s.len() ==> white_space(s[i]),
        k > 0 ==> !white_space(s[k - 1]),
    ensures
        trim_end(s) == s.take(k),
    decreases s.len() - k,
{
    if k == s.len() {
    } else {
        let rest = s.drop_last();
        lemma_trim_end(rest, k);
    }
}

/// The text without leading and trailing white space.
pub fn trim(s: &str) -> (r: &str)
    ensures
        r@ == trimmed(s@),
{
    let chars = to_chars(s);
    let n = chars.len();
    let mut start: usize = 0;
    while start < n && is_whitespace(chars[start])
        invariant
            chars@ == s@,
            n == chars.len(),
            start <= n,
            forall|k: int| 0 <= k < start ==> white_space(s@[k]),
        decreases n - start,
    {
        start += 1;
    }
    let mut end: usize = n;
    while end > start && is_whitespace(chars[end - 1])
        invariant
            chars@ == s@,
            n == chars.len(),
            start <= end <= n,
            forall|k: int| end <= k < n ==> white_space(s@[k]),
        decreases end,
    {
        end -= 1;
    }
    proof {
        lemma_trim_start(s@, start as int);
        let rest = s@.skip(start as int);
        assert forall|i: int| end - start <= i < rest.len() implies white_space(rest[i]) by {
            assert(rest[i] == s@[i + start]);
        }
        lemma_trim_end(rest, end - start);
    }
    s.substring_char(start, end)
}

/// Where nothing is found, the needle stands nowhere from the start on.
proof fn lemma_find_match_none(hay: Seq<char>, needle: Seq<char>, from: int, at: int)
    requires
        0 <= from <= at,
        find_match(hay, needle, from) is None,
    ensures
        !matches_at(hay, needle, at),
    decreases at - from,
{
    if from + needle.len() <= hay.len() && from < at && from < hay.len() {
        lemma_find_match_none(hay, needle, from + 1, at);
    }
}

/// Whether `needle` occurs somewhere in `hay`.
pub fn contains(hay: &str, needle: &str) -> (b: bool)
    ensures
        b == has_substring(hay@, needle@),
{
    let found = index_of(&to_chars(hay), &to_chars(needle), 0);
    proof {
        if found is None {
            assert forall|i: int|
                0 <= i && i + needle@.len() <= hay@.len() implies #[trigger] hay@.subrange(
                i,
                i + needle@.len(),
            ) != needle@ by {
                lemma_find_match_none(hay@, needle@, 0, i);
            }
        }
    }
    found.is_some()
}

} // verus!
