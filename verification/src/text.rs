//! Text as sequences of characters: whitespace, trimming, words, joining and
//! searching, each with an executable version proved against its definition.

use vstd::prelude::*;

verus! {

// ---------------------------------------------------------------------------
// Between strings and characters
// ---------------------------------------------------------------------------

/// `String::push` appends one character to the end of the string.
pub assume_specification[ String::push ](s: &mut String, c: char)
    ensures
        final(s)@ == old(s)@.push(c),
;

/// The characters of `s`, in order.
pub fn chars_of(s: &str) -> (out: Vec<char>)
    ensures
        out@ == s@,
{
    let mut out: Vec<char> = Vec::new();
    for c in it: s.chars()
        invariant
            it.seq() == s@,
            out@ == s@.take(it.index()),
    {
        proof {
            assert(s@.take(it.index() + 1) =~= s@.take(it.index()).push(s@[it.index()]));
        }
        out.push(c);
    }
    proof {
        assert(s@.take(s@.len() as int) =~= s@);
    }
    out
}

/// The string made of `chars`, in order.
pub fn string_of(chars: &[char]) -> (out: String)
    ensures
        out@ == chars@,
{
    let mut out = String::new();
    let mut i: usize = 0;
    while i < chars.len()
        invariant
            i <= chars@.len(),
            out@ == chars@.take(i as int),
        decreases chars@.len() - i,
    {
        proof {
            assert(chars@.take(i as int + 1) =~= chars@.take(i as int).push(chars@[i as int]));
        }
        out.push(chars[i]);
        i += 1;
    }
    proof {
        assert(chars@.take(chars@.len() as int) =~= chars@);
    }
    out
}

/// A copy of `chars[from..to]`.
pub fn slice_of(chars: &[char], from: usize, to: usize) -> (out: Vec<char>)
    requires
        from <= to <= chars@.len(),
    ensures
        out@ == chars@.subrange(from as int, to as int),
{
    let mut out: Vec<char> = Vec::new();
    let mut i: usize = from;
    while i < to
        invariant
            from <= i <= to <= chars@.len(),
            out@ == chars@.subrange(from as int, i as int),
        decreases to - i,
    {
        proof {
            assert(chars@.subrange(from as int, i as int + 1) =~= chars@.subrange(
                from as int,
                i as int,
            ).push(chars@[i as int]));
        }
        out.push(chars[i]);
        i += 1;
    }
    out
}

/// Appends the characters of `tail` to `out`.
pub fn append_chars(out: &mut Vec<char>, tail: &[char])
    ensures
        final(out)@ == old(out)@ + tail@,
{
    let ghost start = out@;
    let mut i: usize = 0;
    while i < tail.len()
        invariant
            i <= tail@.len(),
            out@ == start + tail@.take(i as int),
        decreases tail@.len() - i,
    {
        proof {
            assert(start + tail@.take(i as int + 1) =~= (start + tail@.take(i as int)).push(
                tail@[i as int],
            ));
        }
        out.push(tail[i]);
        i += 1;
    }
    proof {
        assert(tail@.take(tail@.len() as int) =~= tail@);
    }
}

/// Whether two runs of characters are the same.
pub fn same_chars(a: &[char], b: &[char]) -> (same: bool)
    ensures
        same == (a@ == b@),
{
    if a.len() != b.len() {
        return false;
    }
    let mut i: usize = 0;
    while i < a.len()
        invariant
            i <= a@.len(),
            a@.len() == b@.len(),
            forall|j: int| 0 <= j < i ==> a@[j] == b@[j],
        decreases a@.len() - i,
    {
        if a[i] != b[i] {
            return false;
        }
        i += 1;
    }
    proof {
        assert(a@ =~= b@);
    }
    true
}

/// Whether two strings hold the same characters.
pub fn same_text(a: &str, b: &str) -> (same: bool)
    ensures
        same == (a@ == b@),
{
    let a = chars_of(a);
    let b = chars_of(b);
    same_chars(&a, &b)
}

/// A copy of `s`.
pub fn copy_of(s: &str) -> (out: String)
    ensures
        out@ == s@,
{
    s.to_owned()
}

// ---------------------------------------------------------------------------
// Whitespace
// ---------------------------------------------------------------------------

/// The characters with the Unicode `White_Space` property.
pub open spec fn is_space(c: char) -> bool {
    let u = c as u32;
    ||| 0x09 <= u <= 0x0d
    ||| u == 0x20
    ||| u == 0x85
    ||| u == 0xa0
    ||| u == 0x1680
    ||| 0x2000 <= u <= 0x200a
    ||| u == 0x2028
    ||| u == 0x2029
    ||| u == 0x202f
    ||| u == 0x205f
    ||| u == 0x3000
}

/// The ASCII whitespace characters: space, tab, line feed, form feed, carriage
/// return.
pub open spec fn is_ascii_space(c: char) -> bool {
    let u = c as u32;
    u == 0x20 || u == 0x09 || u == 0x0a || u == 0x0c || u == 0x0d
}

pub fn is_whitespace(c: char) -> (b: bool)
    ensures
        b == is_space(c),
{
    let u: u32 = c as u32;
    (0x09 <= u && u <= 0x0d) || u == 0x20 || u == 0x85 || u == 0xa0 || u == 0x1680 || (0x2000 <= u
        && u <= 0x200a) || u == 0x2028 || u == 0x2029 || u == 0x202f || u == 0x205f || u == 0x3000
}

pub fn is_ascii_whitespace(c: char) -> (b: bool)
    ensures
        b == is_ascii_space(c),
{
    let u: u32 = c as u32;
    u == 0x20 || u == 0x09 || u == 0x0a || u == 0x0c || u == 0x0d
}

/// `s` without its leading whitespace.
pub open spec fn trim_start(s: Seq<char>) -> Seq<char>
    decreases s.len(),
{
    if s.len() > 0 && is_space(s[0]) {
        trim_start(s.skip(1))
    } else {
        s
    }
}

/// `s` without its trailing whitespace.
pub open spec fn trim_end(s: Seq<char>) -> Seq<char>
    decreases s.len(),
{
    if s.len() > 0 && is_space(s.last()) {
        trim_end(s.drop_last())
    } else {
        s
    }
}

/// `s` without leading and trailing whitespace.
pub open spec fn trimmed(s: Seq<char>) -> Seq<char> {
    trim_end(trim_start(s))
}

/// Whether `s` holds nothing but whitespace.
pub open spec fn is_blank(s: Seq<char>) -> bool {
    forall|i: int| 0 <= i < s.len() ==> is_space(#[trigger] s[i])
}

/// Where the leading whitespace of `s` ends.
pub fn leading_space(s: &[char]) -> (n: usize)
    ensures
        n <= s@.len(),
        forall|i: int| 0 <= i < n ==> is_space(#[trigger] s@[i]),
        n < s@.len() ==> !is_space(s@[n as int]),
        s@.skip(n as int) == trim_start(s@),
{
    let mut n: usize = 0;
    proof {
        assert(s@.skip(0) =~= s@);
    }
    while n < s.len() && is_whitespace(s[n])
        invariant
            n <= s@.len(),
            forall|i: int| 0 <= i < n ==> is_space(#[trigger] s@[i]),
            trim_start(s@.skip(n as int)) == trim_start(s@),
        decreases s@.len() - n,
    {
        proof {
            assert(s@.skip(n as int).skip(1) =~= s@.skip(n as int + 1));
        }
        n += 1;
    }
    n
}

/// Removes leading and trailing whitespace.
pub fn trim_chars(s: &[char]) -> (out: Vec<char>)
    ensures
        out@ == trimmed(s@),
{
    let lo: usize = leading_space(s);
    let mut hi: usize = s.len();
    proof {
        assert(s@.subrange(lo as int, hi as int) =~= s@.skip(lo as int));
    }
    while lo < hi && is_whitespace(s[hi - 1])
        invariant
            lo <= hi <= s@.len(),
            trim_end(s@.subrange(lo as int, hi as int)) == trimmed(s@),
        decreases hi,
    {
        proof {
            assert(s@.subrange(lo as int, hi as int).drop_last() =~= s@.subrange(
                lo as int,
                hi as int - 1,
            ));
        }
        hi -= 1;
    }
    slice_of(s, lo, hi)
}

/// Removes leading and trailing whitespace from a string.
pub fn trim_text(s: &str) -> (out: String)
    ensures
        out@ == trimmed(s@),
{
    let chars = chars_of(s);
    let t = trim_chars(&chars);
    string_of(&t)
}

/// Whether `s` holds nothing but whitespace.
pub fn blank_chars(s: &[char]) -> (b: bool)
    ensures
        b == is_blank(s@),
        b == (trimmed(s@).len() == 0),
{
    let n: usize = leading_space(s);
    proof {
        lemma_trimmed_blank(s@);
    }
    n == s.len()
}

/// Whether the string holds nothing but whitespace.
pub fn blank_text(s: &str) -> (b: bool)
    ensures
        b == is_blank(s@),
        b == (trimmed(s@).len() == 0),
{
    let chars = chars_of(s);
    blank_chars(&chars)
}

pub proof fn lemma_trim_start(s: Seq<char>)
    ensures
        trim_start(s).len() <= s.len(),
        trim_start(s) == s.skip(s.len() - trim_start(s).len()),
        trim_start(s).len() > 0 ==> !is_space(trim_start(s)[0]),
        forall|i: int| 0 <= i < s.len() - trim_start(s).len() ==> is_space(#[trigger] s[i]),
        (trim_start(s).len() == 0) == is_blank(s),
    decreases s.len(),
{
    if s.len() > 0 && is_space(s[0]) {
        let t = s.skip(1);
        lemma_trim_start(t);
        assert(trim_start(s) =~= s.skip(s.len() - trim_start(s).len()));
        assert forall|i: int| 0 <= i < s.len() - trim_start(s).len() implies is_space(
            #[trigger] s[i],
        ) by {
            if i > 0 {
                assert(s[i] == t[i - 1]);
            }
        }
        assert(is_blank(t) == is_blank(s)) by {
            if is_blank(t) {
                assert forall|i: int| 0 <= i < s.len() implies is_space(#[trigger] s[i]) by {
                    if i > 0 {
                        assert(s[i] == t[i - 1]);
                    }
                }
            }
            if is_blank(s) {
                assert forall|i: int| 0 <= i < t.len() implies is_space(#[trigger] t[i]) by {
                    assert(t[i] == s[i + 1]);
                }
            }
        }
    } else {
        assert(s.skip(0) =~= s);
    }
}

pub proof fn lemma_trim_end(s: Seq<char>)
    ensures
        trim_end(s).len() <= s.len(),
        trim_end(s) == s.take(trim_end(s).len() as int),
        trim_end(s).len() > 0 ==> !is_space(trim_end(s).last()),
        forall|i: int| trim_end(s).len() <= i < s.len() ==> is_space(#[trigger] s[i]),
        (trim_end(s).len() == 0) == is_blank(s),
    decreases s.len(),
{
    if s.len() > 0 && is_space(s.last()) {
        let t = s.drop_last();
        lemma_trim_end(t);
        assert(trim_end(s) =~= s.take(trim_end(s).len() as int));
        assert forall|i: int| trim_end(s).len() <= i < s.len() implies is_space(#[trigger] s[i]) by {
            if i < s.len() - 1 {
                assert(s[i] == t[i]);
            }
        }
        assert(is_blank(t) == is_blank(s)) by {
            if is_blank(t) {
                assert forall|i: int| 0 <= i < s.len() implies is_space(#[trigger] s[i]) by {
                    if i < s.len() - 1 {
                        assert(s[i] == t[i]);
                    }
                }
            }
            if is_blank(s) {
                assert forall|i: int| 0 <= i < t.len() implies is_space(#[trigger] t[i]) by {
                    assert(t[i] == s[i]);
                }
            }
        }
    } else {
        assert(s.take(s.len() as int) =~= s);
    }
}

/// Trimming leaves nothing exactly where there was nothing but whitespace, and
/// otherwise a text that begins and ends with a visible character.
pub proof fn lemma_trimmed_blank(s: Seq<char>)
    ensures
        (trimmed(s).len() == 0) == is_blank(s),
        trimmed(s).len() > 0 ==> !is_space(trimmed(s)[0]) && !is_space(trimmed(s).last()),
{
    lemma_trim_start(s);
    lemma_trim_end(trim_start(s));
    let t = trim_start(s);
    if t.len() > 0 {
        assert(!is_blank(t)) by {
            assert(!is_space(t[0]));
        }
        assert(trimmed(s)[0] == t[0]);
    }
}

// ---------------------------------------------------------------------------
// Words
// ---------------------------------------------------------------------------

/// The maximal runs of characters other than whitespace, in order.
pub open spec fn words(s: Seq<char>) -> Seq<Seq<char>>
    decreases s.len(),
{
    if s.len() == 0 {
        Seq::empty()
    } else {
        let before = words(s.drop_last());
        let c = s.last();
        if is_space(c) {
            before
        } else if s.len() == 1 || is_space(s[s.len() - 2]) {
            before.push(seq![c])
        } else {
            before.drop_last().push(before.last().push(c))
        }
    }
}

/// The characters of each of several runs.
pub open spec fn all_chars(v: Seq<Vec<char>>) -> Seq<Seq<char>> {
    v.map_values(|x: Vec<char>| x@)
}

/// The characters of each of several strings.
pub open spec fn all_texts(v: Seq<String>) -> Seq<Seq<char>> {
    v.map_values(|x: String| x@)
}

/// A word: not empty, no whitespace in it.
pub open spec fn is_word(w: Seq<char>) -> bool {
    w.len() > 0 && forall|i: int| 0 <= i < w.len() ==> !is_space(#[trigger] w[i])
}

pub proof fn lemma_words(s: Seq<char>)
    ensures
        forall|k: int| 0 <= k < words(s).len() ==> is_word(#[trigger] words(s)[k]),
        s.len() > 0 && !is_space(s.last()) ==> words(s).len() > 0,
    decreases s.len(),
{
    if s.len() > 0 {
        lemma_words(s.drop_last());
        let before = words(s.drop_last());
        let c = s.last();
        if !is_space(c) {
            if s.len() == 1 || is_space(s[s.len() - 2]) {
                assert forall|k: int| 0 <= k < words(s).len() implies is_word(
                    #[trigger] words(s)[k],
                ) by {
                    if k < before.len() {
                        assert(words(s)[k] == before[k]);
                    }
                }
            } else {
                assert(s.drop_last().last() == s[s.len() - 2]);
                assert forall|k: int| 0 <= k < words(s).len() implies is_word(
                    #[trigger] words(s)[k],
                ) by {
                    if k < before.len() - 1 {
                        assert(words(s)[k] == before[k]);
                    } else {
                        assert(is_word(before.last())) by {
                            assert(before.last() == before[before.len() - 1]);
                        }
                    }
                }
            }
        }
    }
}

/// The words of a text.
pub fn split_words(s: &[char]) -> (out: Vec<Vec<char>>)
    ensures
        all_chars(out@) == words(s@),
{
    let mut out: Vec<Vec<char>> = Vec::new();
    let mut current: Vec<char> = Vec::new();
    let mut i: usize = 0;
    proof {
        assert(all_chars(out@) =~= words(s@.take(0)));
    }
    while i < s.len()
        invariant
            i <= s@.len(),
            (current@.len() == 0) == (i == 0 || is_space(s@[i - 1])),
            current@.len() == 0 ==> all_chars(out@) == words(s@.take(i as int)),
            current@.len() > 0 ==> all_chars(out@).push(current@) == words(s@.take(i as int)),
        decreases s@.len() - i,
    {
        let c = s[i];
        let ghost next = s@.take(i as int + 1);
        let ghost here = words(s@.take(i as int));
        proof {
            assert(next.drop_last() =~= s@.take(i as int));
            assert(next.last() == c);
            if i > 0 {
                assert(next[next.len() - 2] == s@[i - 1]);
            }
        }
        if is_whitespace(c) {
            if current.len() > 0 {
                let ghost before = out@;
                let ghost done = current@;
                out.push(current);
                current = Vec::new();
                proof {
                    assert(all_chars(out@) =~= all_chars(before).push(done));
                }
            }
        } else {
            let ghost done = current@;
            current.push(c);
            proof {
                if done.len() == 0 {
                    assert(current@ =~= seq![c]);
                } else {
                    assert(here.last() == done);
                    assert(here.drop_last() =~= all_chars(out@));
                }
            }
        }
        i += 1;
    }
    proof {
        assert(s@.take(s@.len() as int) =~= s@);
    }
    if current.len() > 0 {
        let ghost before = out@;
        let ghost done = current@;
        out.push(current);
        proof {
            assert(all_chars(out@) =~= all_chars(before).push(done));
        }
    }
    out
}

/// The words, one space between each two.
pub open spec fn join_words(ws: Seq<Seq<char>>) -> Seq<char>
    decreases ws.len(),
{
    if ws.len() == 0 {
        Seq::empty()
    } else if ws.len() == 1 {
        ws[0]
    } else {
        join_words(ws.drop_last()).push(' ') + ws.last()
    }
}

/// Joins words with one space between each two.
pub fn join_with_spaces(ws: &Vec<Vec<char>>) -> (out: Vec<char>)
    ensures
        out@ == join_words(all_chars(ws@)),
{
    let mut out: Vec<char> = Vec::new();
    let mut i: usize = 0;
    let ghost all = all_chars(ws@);
    while i < ws.len()
        invariant
            i <= ws@.len(),
            all == all_chars(ws@),
            out@ == join_words(all.take(i as int)),
        decreases ws@.len() - i,
    {
        let ghost next = all.take(i as int + 1);
        proof {
            assert(next.drop_last() =~= all.take(i as int));
            assert(next.last() == ws@[i as int]@);
        }
        if i > 0 {
            out.push(' ');
        } else {
            proof {
                assert(out@ + ws@[0]@ =~= ws@[0]@);
            }
        }
        append_chars(&mut out, &ws[i]);
        i += 1;
    }
    proof {
        assert(all.take(all.len() as int) =~= all);
    }
    out
}

/// Words are found again in `a`, whitespace, and one word behind it.
pub proof fn lemma_words_append(a: Seq<char>, w: Seq<char>)
    requires
        a.len() == 0 || is_space(a.last()),
        is_word(w),
    ensures
        words(a + w) == words(a).push(w),
    decreases w.len(),
{
    let s = a + w;
    let c = w.last();
    assert(s.last() == c);
    assert(!is_space(c));
    if w.len() == 1 {
        assert(s.drop_last() =~= a);
        assert(w =~= seq![c]);
        if a.len() > 0 {
            assert(s[s.len() - 2] == a.last());
        }
    } else {
        let v = w.drop_last();
        assert forall|i: int| 0 <= i < v.len() implies !is_space(#[trigger] v[i]) by {
            assert(v[i] == w[i]);
        }
        assert(s.drop_last() =~= a + v);
        lemma_words_append(a, v);
        assert(s[s.len() - 2] == w[w.len() - 2]);
        assert(words(a).push(v).drop_last() =~= words(a));
        assert(v.push(c) =~= w);
    }
}

/// The words of joined words are those words.
pub proof fn lemma_words_of_joined(ws: Seq<Seq<char>>)
    requires
        forall|k: int| 0 <= k < ws.len() ==> is_word(#[trigger] ws[k]),
    ensures
        words(join_words(ws)) == ws,
    decreases ws.len(),
{
    if ws.len() == 0 {
        assert(words(join_words(ws)) =~= ws);
    } else if ws.len() == 1 {
        lemma_words_append(Seq::<char>::empty(), ws[0]);
        assert(Seq::<char>::empty() + ws[0] =~= ws[0]);
        assert(words(Seq::<char>::empty()).push(ws[0]) =~= ws);
    } else {
        let before = ws.drop_last();
        lemma_words_of_joined(before);
        let a = join_words(before).push(' ');
        assert(a.drop_last() =~= join_words(before));
        lemma_words_append(a, ws.last());
        assert(before.push(ws.last()) =~= ws);
    }
}

// ---------------------------------------------------------------------------
// ASCII case
// ---------------------------------------------------------------------------

/// `c` with `A` to `Z` made lower case, and every other character as it is.
pub open spec fn ascii_lower(c: char) -> char {
    if 'A' <= c <= 'Z' {
        ((c as u32) + 32) as char
    } else {
        c
    }
}

pub open spec fn lowered(s: Seq<char>) -> Seq<char> {
    s.map_values(|c: char| ascii_lower(c))
}

pub fn to_ascii_lower(c: char) -> (l: char)
    ensures
        l == ascii_lower(c),
{
    if 'A' <= c && c <= 'Z' {
        let b: u8 = c as u8;
        (b + 32) as char
    } else {
        c
    }
}

/// Makes `A` to `Z` lower case throughout.
pub fn lower_chars(s: &[char]) -> (out: Vec<char>)
    ensures
        out@ == lowered(s@),
{
    let mut out: Vec<char> = Vec::new();
    let mut i: usize = 0;
    while i < s.len()
        invariant
            i <= s@.len(),
            out@ == lowered(s@.take(i as int)),
        decreases s@.len() - i,
    {
        out.push(to_ascii_lower(s[i]));
        proof {
            assert(lowered(s@.take(i as int + 1)) =~= lowered(s@.take(i as int)).push(
                ascii_lower(s@[i as int]),
            ));
        }
        i += 1;
    }
    proof {
        assert(s@.take(s@.len() as int) =~= s@);
    }
    out
}

// ---------------------------------------------------------------------------
// Searching
// ---------------------------------------------------------------------------

/// Whether `pattern` stands in `s` at `at`.
pub open spec fn stands_at(s: Seq<char>, pattern: Seq<char>, at: int) -> bool {
    0 <= at && at + pattern.len() <= s.len() && s.subrange(at, at + pattern.len()) == pattern
}

/// Whether `pattern` stands anywhere in `s`.
pub open spec fn has_text(s: Seq<char>, pattern: Seq<char>) -> bool {
    exists|at: int| #[trigger] stands_at(s, pattern, at)
}

fn text_at(s: &[char], pattern: &[char], at: usize) -> (b: bool)
    requires
        at + pattern@.len() <= s@.len(),
    ensures
        b == stands_at(s@, pattern@, at as int),
{
    let size: usize = s.len();
    let mut i: usize = 0;
    while i < pattern.len()
        invariant
            i <= pattern@.len(),
            at + pattern@.len() <= s@.len() == size,
            forall|j: int| 0 <= j < i ==> s@[at + j] == pattern@[j],
        decreases pattern@.len() - i,
    {
        if s[at + i] != pattern[i] {
            proof {
                assert(s@.subrange(at as int, at + pattern@.len())[i as int] != pattern@[i as int]);
            }
            return false;
        }
        i += 1;
    }
    proof {
        assert(s@.subrange(at as int, at + pattern@.len()) =~= pattern@);
    }
    true
}

/// Whether `pattern` stands anywhere in `s`.
pub fn contains_text(s: &[char], pattern: &[char]) -> (b: bool)
    ensures
        b == has_text(s@, pattern@),
{
    if pattern.len() > s.len() {
        return false;
    }
    let mut at: usize = 0;
    while at <= s.len() - pattern.len()
        invariant
            pattern@.len() <= s@.len(),
            at <= s@.len() - pattern@.len() + 1,
            forall|k: int| 0 <= k < at ==> !stands_at(s@, pattern@, k),
        decreases s@.len() + 1 - at,
    {
        if text_at(s, pattern, at) {
            return true;
        }
        if at == s.len() - pattern.len() {
            return false;
        }
        at += 1;
    }
    false
}

// ---------------------------------------------------------------------------
// Numbers
// ---------------------------------------------------------------------------

/// The character of a decimal digit.
pub open spec fn digit(d: nat) -> char {
    (48 + d) as char
}

/// A number in decimal.
pub open spec fn decimal(n: nat) -> Seq<char>
    decreases n,
{
    if n < 10 {
        seq![digit(n)]
    } else {
        decimal(n / 10).push(digit(n % 10))
    }
}

fn digit_char(d: u8) -> (c: char)
    requires
        d < 10,
    ensures
        c == digit(d as nat),
{
    (48 + d) as char
}

/// Writes a number in decimal behind a text.
pub fn append_decimal(out: &mut String, n: u128)
    ensures
        final(out)@ == old(out)@ + decimal(n as nat),
    decreases n,
{
    if n >= 10 {
        append_decimal(out, n / 10);
    }
    out.push(digit_char((n % 10) as u8));
}

// ---------------------------------------------------------------------------
// Laws
// ---------------------------------------------------------------------------

/// Whitespace is the twenty-five characters that Unicode calls so, and ASCII
/// whitespace the five of them that `char::is_ascii_whitespace` knows: space,
/// tab, line feed, form feed and carriage return.
pub proof fn law_white_space(c: char)
    ensures
        is_ascii_space(c) <==> c == ' ' || c == '\t' || c == '\n' || c == '\u{c}' || c == '\r',
        is_space(c) <==> is_ascii_space(c) || c == '\u{b}' || c == '\u{85}' || c == '\u{a0}' || c
            == '\u{1680}' || c == '\u{2000}' || c == '\u{2001}' || c == '\u{2002}' || c
            == '\u{2003}' || c == '\u{2004}' || c == '\u{2005}' || c == '\u{2006}' || c
            == '\u{2007}' || c == '\u{2008}' || c == '\u{2009}' || c == '\u{200a}' || c
            == '\u{2028}' || c == '\u{2029}' || c == '\u{202f}' || c == '\u{205f}' || c
            == '\u{3000}',
{
}

/// Trimming takes the whitespace at both ends and nothing else: whatever
/// whitespace stands round a text that begins and ends with a visible
/// character, that text is left.
pub proof fn law_trimming_leaves_the_text(lead: Seq<char>, t: Seq<char>, trail: Seq<char>)
    requires
        is_blank(lead),
        is_blank(trail),
        t.len() > 0 ==> !is_space(t[0]) && !is_space(t.last()),
    ensures
        trimmed(lead + t + trail) == t,
        t.len() > 0 ==> trim_start(lead + t + trail) == t + trail,
        t.len() > 0 ==> trim_end(lead + t + trail) == lead + t,
{
    let s = lead + t + trail;
    lemma_trim_start(s);
    lemma_trim_end(s);
    let rest = trim_start(s);
    lemma_trim_end(rest);
    let k = s.len() - rest.len();
    if t.len() == 0 {
        assert forall|i: int| 0 <= i < s.len() implies is_space(#[trigger] s[i]) by {
            if i < lead.len() {
                assert(s[i] == lead[i]);
            } else {
                assert(s[i] == trail[i - lead.len()]);
            }
        }
        lemma_trimmed_blank(s);
        assert(trimmed(s) =~= t);
    } else {
        let a = lead.len() as int;
        let z = a + t.len() - 1;
        assert(s[a] == t[0]);
        assert(s[z] == t.last());
        assert(k == a) by {
            if k > a {
                assert(is_space(s[a]));
            }
            if k < a {
                assert(rest[0] == s[k]);
                assert(s[k] == lead[k]);
            }
        }
        assert(rest =~= t + trail);
        let kept = trim_end(rest).len() as int;
        assert(rest[t.len() - 1] == t.last());
        assert(kept == t.len()) by {
            if kept < t.len() {
                assert(is_space(rest[t.len() - 1]));
            }
            if kept > t.len() {
                assert(trim_end(rest).last() == rest[kept - 1]);
                assert(rest[kept - 1] == trail[kept - 1 - t.len()]);
            }
        }
        assert(trimmed(s) =~= t);
        let upto = trim_end(s).len() as int;
        assert(upto == z + 1) by {
            if upto < z + 1 {
                assert(is_space(s[z]));
            }
            if upto > z + 1 {
                assert(trim_end(s).last() == s[upto - 1]);
                assert(s[upto - 1] == trail[upto - 1 - (z + 1)]);
            }
        }
        assert(trim_end(s) =~= lead + t);
    }
}

/// Words end at whitespace and nowhere else: a run of characters without any is
/// one word, and at a whitespace character a text falls into the words before
/// it and those behind it.
pub proof fn law_words_end_at_white_space(a: Seq<char>, c: char, b: Seq<char>)
    ensures
        words(Seq::<char>::empty()) == Seq::<Seq<char>>::empty(),
        is_word(a) ==> words(a) == seq![a],
        is_space(c) ==> words(a + seq![c] + b) == words(a) + words(b),
{
    assert(words(Seq::<char>::empty()) =~= Seq::<Seq<char>>::empty());
    if is_word(a) {
        lemma_words_append(Seq::<char>::empty(), a);
        assert(Seq::<char>::empty() + a =~= a);
        assert(words(Seq::<char>::empty()).push(a) =~= seq![a]);
    }
    if is_space(c) {
        assert((a + seq![c]).drop_last() =~= a);
        assert(words(a + seq![c]) == words(a));
        lemma_words_behind_space(a + seq![c], b);
    }
}

/// Behind whitespace the words of a text stand by themselves.
pub proof fn lemma_words_behind_space(a: Seq<char>, b: Seq<char>)
    requires
        a.len() == 0 || is_space(a.last()),
    ensures
        words(a + b) == words(a) + words(b),
    decreases b.len(),
{
    if b.len() == 0 {
        assert(a + b =~= a);
        assert(words(a) + words(b) =~= words(a));
    } else {
        let s = a + b;
        let t = b.drop_last();
        assert(s.drop_last() =~= a + t);
        lemma_words_behind_space(a, t);
        let c = b.last();
        assert(s.last() == c);
        if b.len() == 1 {
            if a.len() > 0 {
                assert(s[s.len() - 2] == a.last());
            }
        } else {
            assert(s[s.len() - 2] == b[b.len() - 2]);
        }
        if !is_space(c) && b.len() > 1 && !is_space(b[b.len() - 2]) {
            lemma_words(t);
            assert(t.last() == b[b.len() - 2]);
            assert(words(t).len() > 0);
            assert((words(a) + words(t)).drop_last() =~= words(a) + words(t).drop_last());
        }
        assert(words(s) =~= words(a) + words(b));
    }
}

/// Lower case changes the letters from `A` to `Z` alone, each to the letter from
/// `a` to `z` that stands as far behind `a` as it does behind `A`.
pub proof fn law_lower_case(s: Seq<char>, i: int)
    requires
        0 <= i < s.len(),
    ensures
        lowered(s).len() == s.len(),
        'A' <= s[i] <= 'Z' ==> lowered(s)[i] as int - 'a' as int == s[i] as int - 'A' as int,
        !('A' <= s[i] <= 'Z') ==> lowered(s)[i] == s[i],
{
}

/// A pattern stands in a text exactly where some run of the text equals it,
/// character by character.
pub proof fn law_searching(s: Seq<char>, pattern: Seq<char>)
    ensures
        has_text(s, pattern) <==> exists|a: Seq<char>, b: Seq<char>|
            s == #[trigger] (a + pattern + b),
{
    if has_text(s, pattern) {
        let at = choose|at: int| #[trigger] stands_at(s, pattern, at);
        let a = s.take(at);
        let b = s.skip(at + pattern.len());
        assert(s.subrange(at, at + pattern.len()) == pattern);
        assert forall|i: int| 0 <= i < s.len() implies s[i] == (a + pattern + b)[i] by {
            if at <= i < at + pattern.len() {
                assert(pattern[i - at] == s.subrange(at, at + pattern.len())[i - at]);
            }
        }
        assert(s =~= a + pattern + b);
    }
    if exists|a: Seq<char>, b: Seq<char>| s == #[trigger] (a + pattern + b) {
        let (a, b) = choose|a: Seq<char>, b: Seq<char>| s == #[trigger] (a + pattern + b);
        assert(s.subrange(a.len() as int, (a.len() + pattern.len()) as int) =~= pattern);
        assert(stands_at(s, pattern, a.len() as int));
    }
}

/// The value of a run of decimal digits, most significant first.
pub open spec fn value_of(digits: Seq<char>) -> int
    decreases digits.len(),
{
    if digits.len() == 0 {
        0
    } else {
        10 * value_of(digits.drop_last()) + (digits.last() as int - '0' as int)
    }
}

/// A number is written in digits from `0` to `9` that are worth it, without a
/// zero in front unless it is zero itself.
pub proof fn law_decimal_is_worth_the_number(n: nat)
    ensures
        value_of(decimal(n)) == n,
        decimal(n).len() > 0,
        forall|i: int| 0 <= i < decimal(n).len() ==> '0' <= #[trigger] decimal(n)[i] <= '9',
        n > 0 ==> decimal(n)[0] != '0',
        n == 0 ==> decimal(n) == seq!['0'],
    decreases n,
{
    if n < 10 {
        assert(decimal(n).drop_last() =~= Seq::<char>::empty());
        assert(value_of(decimal(n).drop_last()) == 0);
    } else {
        let m = n / 10;
        law_decimal_is_worth_the_number(m);
        assert(decimal(n).drop_last() =~= decimal(m));
        assert forall|i: int| 0 <= i < decimal(n).len() implies '0' <= #[trigger] decimal(n)[i]
            <= '9' by {
            if i < decimal(m).len() {
                assert(decimal(n)[i] == decimal(m)[i]);
            }
        }
        assert(decimal(n)[0] == decimal(m)[0]);
    }
}

/// Joined words stand as they are, in order, with one space between each two and
/// nothing round them.
pub proof fn law_one_space_between_words(ws: Seq<Seq<char>>, w: Seq<char>)
    ensures
        join_words(Seq::<Seq<char>>::empty()) == Seq::<char>::empty(),
        join_words(seq![w]) == w,
        ws.len() > 0 ==> join_words(ws.push(w)) == join_words(ws) + seq![' '] + w,
{
    if ws.len() > 0 {
        assert(ws.push(w).drop_last() =~= ws);
        assert(join_words(ws).push(' ') + w =~= join_words(ws) + seq![' '] + w);
    }
}

} // verus!
