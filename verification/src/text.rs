//! Text measures: white space, words, punctuation, substitution and numerals.
use vstd::prelude::*;
use vstd::string::*;

verus! {

/// The characters with the Unicode property `White_Space`.
pub open spec fn is_white_space(c: char) -> bool {
    let u = c as u32;
    ||| 0x9 <= u <= 0xd
    ||| u == 0x20
    ||| u == 0x85
    ||| u == 0xa0
    ||| u == 0x1680
    ||| 0x2000 <= u <= 0x200a
    ||| u == 0x2028
    ||| u == 0x2029
    ||| u == 0x202f
    ||| u == 0x205f
    ||| u == 0x3000
}

/// `s` without its leading white space.
pub open spec fn trimmed_start(s: Seq<char>) -> Seq<char>
    decreases s.len(),
{
    if s.len() > 0 && is_white_space(s[0]) {
        trimmed_start(s.skip(1))
    } else {
        s
    }
}

/// `s` without its trailing white space.
pub open spec fn trimmed_end(s: Seq<char>) -> Seq<char>
    decreases s.len(),
{
    if s.len() > 0 && is_white_space(s.last()) {
        trimmed_end(s.drop_last())
    } else {
        s
    }
}

/// `s` without its leading and trailing white space.
pub open spec fn trimmed(s: Seq<char>) -> Seq<char> {
    trimmed_end(trimmed_start(s))
}

/// What `str::to_lowercase` makes of a text.
pub uninterp spec fn lower_case(s: Seq<char>) -> Seq<char>;

/// `str::to_lowercase` of std. The Unicode case tables behind it are not
/// spelled out: the result is only said to be a function of the text.
pub assume_specification[ str::to_lowercase ](s: &str) -> (r: String)
    ensures
        r@ == lower_case(s@),
;

/// `String::push` of std: appends one character.
pub assume_specification[ String::push ](s: &mut String, c: char)
    ensures
        final(s)@ == old(s)@.push(c),
;

/// Whether a word of `s` begins at `i`.
pub open spec fn word_starts_at(s: Seq<char>, i: int) -> bool {
    !is_white_space(s[i]) && (i == 0 || is_white_space(s[i - 1]))
}

/// The number of words of `s`, the maximal runs of characters other than
/// white space.
pub open spec fn words_in(s: Seq<char>) -> nat
    decreases s.len(),
{
    if s.len() == 0 {
        0
    } else {
        words_in(s.drop_last()) + if word_starts_at(s, s.len() - 1) {
            1nat
        } else {
            0nat
        }
    }
}

/// ASCII punctuation, and the full-width comma, stop, exclamation mark,
/// question mark, semicolon and colon of Chinese text.
pub open spec fn is_punctuation(c: char) -> bool {
    let u = c as u32;
    ||| 0x21 <= u <= 0x2f
    ||| 0x3a <= u <= 0x40
    ||| 0x5b <= u <= 0x60
    ||| 0x7b <= u <= 0x7e
    ||| c == '，'
    ||| c == '。'
    ||| c == '！'
    ||| c == '？'
    ||| c == '；'
    ||| c == '：'
}

pub open spec fn some_punctuation(s: Seq<char>) -> bool {
    exists|i: int| 0 <= i < s.len() && is_punctuation(#[trigger] s[i])
}

/// A text of three words or more, or with punctuation in it, counts as a
/// sentence; any other is looked up as a word.
pub open spec fn reads_as_sentence(s: Seq<char>) -> bool {
    words_in(s) >= 3 || some_punctuation(s)
}

/// `s` with every occurrence of `from`, taken from the left without overlap,
/// replaced by `to`.
pub open spec fn replaced(s: Seq<char>, from: Seq<char>, to: Seq<char>) -> Seq<char>
    decreases s.len(),
{
    if from.len() == 0 || s.len() < from.len() {
        s
    } else if from.is_prefix_of(s) {
        to + replaced(s.skip(from.len() as int), from, to)
    } else {
        seq![s[0]] + replaced(s.skip(1), from, to)
    }
}

/// `s` without `prefix` at its start, however often it is repeated there.
pub open spec fn stripped(s: Seq<char>, prefix: Seq<char>) -> Seq<char>
    decreases s.len(),
{
    if prefix.len() > 0 && prefix.is_prefix_of(s) {
        stripped(s.skip(prefix.len() as int), prefix)
    } else {
        s
    }
}

/// The first `max` characters of the trimmed text, with `...` behind them
/// where something was cut off.
pub open spec fn previewed(s: Seq<char>, max: nat) -> Seq<char> {
    let t = trimmed(s);
    if t.len() > max {
        t.take(max as int) + "..."@
    } else {
        t
    }
}

pub open spec fn digit(d: nat) -> char {
    if d == 0 {
        '0'
    } else if d == 1 {
        '1'
    } else if d == 2 {
        '2'
    } else if d == 3 {
        '3'
    } else if d == 4 {
        '4'
    } else if d == 5 {
        '5'
    } else if d == 6 {
        '6'
    } else if d == 7 {
        '7'
    } else if d == 8 {
        '8'
    } else {
        '9'
    }
}

/// The decimal numeral of `n`, without leading zeros.
pub open spec fn decimal(n: nat) -> Seq<char>
    decreases n,
{
    if n < 10 {
        seq![digit(n)]
    } else {
        decimal(n / 10).push(digit(n % 10))
    }
}

/// Whether two texts hold the same characters.
pub fn same(a: &str, b: &str) -> (r: bool)
    ensures
        r == (a@ == b@),
{
    a.to_owned() == b.to_owned()
}

pub fn starts_with(s: &str, prefix: &str) -> (r: bool)
    ensures
        r == prefix@.is_prefix_of(s@),
{
    let n: usize = prefix.unicode_len();
    if s.unicode_len() < n {
        return false;
    }
    assert(prefix@.is_prefix_of(s@) <==> s@.subrange(0, n as int) == prefix@);
    same(s.substring_char(0, n), prefix)
}

/// Removes `prefix` from the start of `s` as often as it stands there.
pub fn strip_repeated(s: &str, prefix: &str) -> (r: String)
    ensures
        r@ == stripped(s@, prefix@),
{
    let width: usize = prefix.unicode_len();
    let total: usize = s.unicode_len();
    let mut from: usize = 0;
    assert(s@.skip(0) =~= s@);
    while width > 0 && starts_with(s.substring_char(from, total), prefix)
        invariant
            width == prefix@.len(),
            total == s@.len(),
            from <= total,
            stripped(s@.skip(from as int), prefix@) == stripped(s@, prefix@),
        ensures
            from <= total,
            total == s@.len(),
            s@.skip(from as int) == stripped(s@, prefix@),
        decreases total - from,
    {
        proof {
            assert(s@.subrange(from as int, total as int) =~= s@.skip(from as int));
            assert(s@.skip(from as int).skip(width as int) =~= s@.skip(from + width));
        }
        from = from + width;
    }
    assert(s@.subrange(from as int, total as int) =~= s@.skip(from as int));
    s.substring_char(from, total).to_owned()
}

pub fn white_space(c: char) -> (r: bool)
    ensures
        r == is_white_space(c),
{
    let u: u32 = c as u32;
    (0x9 <= u && u <= 0xd) || u == 0x20 || u == 0x85 || u == 0xa0 || u == 0x1680 || (0x2000 <= u
        && u <= 0x200a) || u == 0x2028 || u == 0x2029 || u == 0x202f || u == 0x205f || u == 0x3000
}

/// The number of words of `s`.
pub fn word_count(s: &str) -> (n: usize)
    ensures
        n == words_in(s@),
{
    let total: usize = s.unicode_len();
    let mut n: usize = 0;
    let mut after_space: bool = true;
    assert(s@.take(0) =~= Seq::<char>::empty());
    for c in it: s.chars()
        invariant
            total == s@.len(),
            it.seq() == s@,
            n <= it.index() <= total,
            n == words_in(s@.take(it.index())),
            after_space == (it.index() == 0 || is_white_space(s@[it.index() - 1])),
    {
        let ghost i = it.index();
        assert(s@.take(i + 1).drop_last() =~= s@.take(i));
        let space: bool = white_space(c);
        if !space && after_space {
            n = n + 1;
        }
        after_space = space;
    }
    assert(s@.take(s@.len() as int) =~= s@);
    n
}

pub fn punctuation(c: char) -> (r: bool)
    ensures
        r == is_punctuation(c),
{
    let u: u32 = c as u32;
    (0x21 <= u && u <= 0x2f) || (0x3a <= u && u <= 0x40) || (0x5b <= u && u <= 0x60) || (0x7b <= u
        && u <= 0x7e) || c == '，' || c == '。' || c == '！' || c == '？' || c == '；' || c == '：'
}

pub fn has_punctuation(s: &str) -> (r: bool)
    ensures
        r == some_punctuation(s@),
{
    for c in it: s.chars()
        invariant
            it.seq() == s@,
            forall|i: int| 0 <= i < it.index() ==> !is_punctuation(#[trigger] s@[i]),
    {
        if punctuation(c) {
            assert(is_punctuation(s@[it.index() as int]));
            return true;
        }
    }
    false
}

/// Whether `s` is translated as a sentence rather than looked up as a word.
pub fn is_sentence(s: &str) -> (r: bool)
    ensures
        r == reads_as_sentence(s@),
{
    word_count(s) >= 3 || has_punctuation(s)
}

fn chars_of(s: &str) -> (v: Vec<char>)
    ensures
        v@ == s@,
{
    let mut v: Vec<char> = Vec::new();
    for c in it: s.chars()
        invariant
            it.seq() == s@,
            v@ =~= s@.take(it.index()),
    {
        v.push(c);
    }
    v
}

fn matches_at(s: &Vec<char>, at: usize, pattern: &Vec<char>) -> (r: bool)
    requires
        at <= s.len(),
    ensures
        r == pattern@.is_prefix_of(s@.skip(at as int)),
{
    if s.len() - at < pattern.len() {
        return false;
    }
    let mut i: usize = 0;
    while i < pattern.len()
        invariant
            at <= s.len(),
            pattern.len() <= s.len() - at,
            i <= pattern.len(),
            forall|j: int| 0 <= j < i ==> s@[at + j] == #[trigger] pattern@[j],
        decreases pattern.len() - i,
    {
        if s[at + i] != pattern[i] {
            assert(s@.skip(at as int)[i as int] != pattern@[i as int]);
            return false;
        }
        i = i + 1;
    }
    assert(s@.skip(at as int).subrange(0, pattern@.len() as int) =~= pattern@);
    true
}

/// `s` with every occurrence of `from` replaced by `to`.
pub fn replace_all(s: &str, from: &str, to: &str) -> (r: String)
    requires
        from@.len() > 0,
    ensures
        r@ == replaced(s@, from@, to@),
{
    let source: Vec<char> = chars_of(s);
    let pattern: Vec<char> = chars_of(from);
    let mut out: String = String::new();
    let mut i: usize = 0;
    assert(source@.skip(0) =~= s@);
    assert(out@ + replaced(source@.skip(0), from@, to@) =~= replaced(s@, from@, to@));
    while i < source.len()
        invariant
            i <= source.len(),
            source@ == s@,
            pattern@ == from@,
            from@.len() > 0,
            out@ + replaced(source@.skip(i as int), from@, to@) == replaced(s@, from@, to@),
        decreases source.len() - i,
    {
        let ghost rest = source@.skip(i as int);
        let ghost before = out@;
        if matches_at(&source, i, &pattern) {
            out.append(to);
            i = i + pattern.len();
            assert(rest.skip(from@.len() as int) =~= source@.skip(i as int));
            assert(before + replaced(rest, from@, to@) =~= out@ + replaced(
                source@.skip(i as int),
                from@,
                to@,
            ));
        } else {
            out.push(source[i]);
            i = i + 1;
            assert(rest.skip(1) =~= source@.skip(i as int));
            assert(before + replaced(rest, from@, to@) =~= out@ + replaced(
                source@.skip(i as int),
                from@,
                to@,
            ));
        }
    }
    assert(out@ + source@.skip(i as int) =~= out@);
    out
}

/// `s` without its leading and trailing white space.
pub fn trim(s: &str) -> (r: &str)
    ensures
        r@ == trimmed(s@),
{
    let chars: Vec<char> = chars_of(s);
    let total: usize = chars.len();
    let mut from: usize = 0;
    assert(s@.skip(0) =~= s@);
    while from < total && white_space(chars[from])
        invariant
            chars@ == s@,
            total == s@.len(),
            from <= total,
            trimmed_start(s@.skip(from as int)) == trimmed_start(s@),
        ensures
            from <= total,
            s@.skip(from as int) == trimmed_start(s@),
        decreases total - from,
    {
        assert(s@.skip(from as int).skip(1) =~= s@.skip(from + 1));
        from = from + 1;
    }
    let mut to: usize = total;
    assert(s@.subrange(from as int, to as int) =~= s@.skip(from as int));
    while from < to && white_space(chars[to - 1])
        invariant
            chars@ == s@,
            from <= to <= total,
            total == s@.len(),
            trimmed_end(s@.subrange(from as int, to as int)) == trimmed(s@),
        ensures
            from <= to <= total,
            s@.subrange(from as int, to as int) == trimmed(s@),
        decreases to - from,
    {
        assert(s@.subrange(from as int, to as int).drop_last() =~= s@.subrange(
            from as int,
            to - 1,
        ));
        to = to - 1;
    }
    s.substring_char(from, to)
}

/// The trimmed text, cut to `max_chars` characters.
pub fn preview_text(text: &str, max_chars: usize) -> (r: String)
    ensures
        r@ == previewed(text@, max_chars as nat),
{
    let trimmed: &str = trim(text);
    let total: usize = trimmed.unicode_len();
    if total > max_chars {
        let mut preview: String = trimmed.substring_char(0, max_chars).to_owned();
        preview.append("...");
        assert(trimmed@.subrange(0, max_chars as int) =~= trimmed@.take(max_chars as int));
        preview
    } else {
        trimmed.to_owned()
    }
}

fn digit_char(d: u128) -> (c: char)
    requires
        d < 10,
    ensures
        c == digit(d as nat),
{
    match d {
        0 => '0',
        1 => '1',
        2 => '2',
        3 => '3',
        4 => '4',
        5 => '5',
        6 => '6',
        7 => '7',
        8 => '8',
        _ => '9',
    }
}

/// The decimal numeral of `n`.
pub fn decimal_text(n: u128) -> (r: String)
    ensures
        r@ == decimal(n as nat),
    decreases n,
{
    if n < 10 {
        let mut s: String = String::new();
        s.push(digit_char(n));
        assert(s@ =~= seq![digit(n as nat)]);
        s
    } else {
        let mut s: String = decimal_text(n / 10);
        s.push(digit_char(n % 10));
        s
    }
}

proof fn lemma_trimmed_start_is_suffix(s: Seq<char>)
    ensures
        exists|k: int|
            0 <= k <= s.len() && #[trigger] s.skip(k) == trimmed_start(s) && (forall|i: int|
                0 <= i < k ==> is_white_space(#[trigger] s[i])),
        trimmed_start(s).len() > 0 ==> !is_white_space(trimmed_start(s)[0]),
    decreases s.len(),
{
    if s.len() > 0 && is_white_space(s[0]) {
        lemma_trimmed_start_is_suffix(s.skip(1));
        let k = choose|k: int|
            0 <= k <= s.skip(1).len() && #[trigger] s.skip(1).skip(k) == trimmed_start(s.skip(1))
                && (forall|i: int| 0 <= i < k ==> is_white_space(#[trigger] s.skip(1)[i]));
        assert(s.skip(k + 1) =~= s.skip(1).skip(k));
        assert forall|i: int| 0 <= i < k + 1 implies is_white_space(#[trigger] s[i]) by {
            if i > 0 {
                assert(s.skip(1)[i - 1] == s[i]);
            }
        }
    } else {
        assert(s.skip(0) =~= s);
    }
}

proof fn lemma_trimmed_end_is_prefix(s: Seq<char>)
    ensures
        exists|k: int|
            0 <= k <= s.len() && #[trigger] s.take(k) == trimmed_end(s) && (forall|i: int|
                k <= i < s.len() ==> is_white_space(#[trigger] s[i])),
        trimmed_end(s).len() > 0 ==> !is_white_space(trimmed_end(s).last()),
    decreases s.len(),
{
    if s.len() > 0 && is_white_space(s.last()) {
        let t = s.drop_last();
        lemma_trimmed_end_is_prefix(t);
        let k = choose|k: int|
            0 <= k <= t.len() && #[trigger] t.take(k) == trimmed_end(t) && (forall|i: int|
                k <= i < t.len() ==> is_white_space(#[trigger] t[i]));
        assert(s.take(k) =~= t.take(k));
        assert forall|i: int| k <= i < s.len() implies is_white_space(#[trigger] s[i]) by {
            if i < t.len() {
                assert(t[i] == s[i]);
            }
        }
    } else {
        assert(s.take(s.len() as int) =~= s);
    }
}

/// Trimming cuts nothing but white space off the two ends: the trimmed text
/// is a stretch of the text, what stands before and behind it is white space,
/// and it neither begins nor ends with white space.
pub proof fn law_trim_cuts_white_space_only(s: Seq<char>)
    ensures
        exists|i: int, j: int|
            0 <= i <= j <= s.len() && #[trigger] s.subrange(i, j) == trimmed(s) && (forall|k: int|
                (0 <= k < i || j <= k < s.len()) ==> is_white_space(#[trigger] s[k])),
        trimmed(s).len() > 0 ==> !is_white_space(trimmed(s)[0]) && !is_white_space(
            trimmed(s).last(),
        ),
{
    let t = trimmed_start(s);
    lemma_trimmed_start_is_suffix(s);
    lemma_trimmed_end_is_prefix(t);
    let i = choose|k: int|
        0 <= k <= s.len() && #[trigger] s.skip(k) == trimmed_start(s) && (forall|i: int|
            0 <= i < k ==> is_white_space(#[trigger] s[i]));
    let n = choose|k: int|
        0 <= k <= t.len() && #[trigger] t.take(k) == trimmed_end(t) && (forall|i: int|
            k <= i < t.len() ==> is_white_space(#[trigger] t[i]));
    assert(s.subrange(i, i + n) =~= trimmed(s));
    assert forall|k: int| (0 <= k < i || i + n <= k < s.len()) implies is_white_space(
        #[trigger] s[k],
    ) by {
        if k >= i + n {
            assert(t[k - i] == s[k]);
        }
    }
    if n > 0 {
        assert(trimmed(s)[0] == t[0]);
    }
}

/// Trimming a trimmed text changes nothing.
pub proof fn law_trim_idempotent(s: Seq<char>)
    ensures
        trimmed(trimmed(s)) == trimmed(s),
{
    law_trim_cuts_white_space_only(s);
}

/// The trimmed text is empty exactly when the text is all white space.
pub proof fn law_trim_empty(s: Seq<char>)
    ensures
        trimmed(s).len() == 0 <==> forall|i: int|
            0 <= i < s.len() ==> is_white_space(#[trigger] s[i]),
{
    law_trim_cuts_white_space_only(s);
    let (i, j) = choose|i: int, j: int|
        0 <= i <= j <= s.len() && #[trigger] s.subrange(i, j) == trimmed(s) && (forall|k: int|
            (0 <= k < i || j <= k < s.len()) ==> is_white_space(#[trigger] s[k]));
    if trimmed(s).len() > 0 {
        assert(s[i] == trimmed(s)[0]);
    }
}

/// A preview is never longer than its limit and the three dots, it begins as
/// the trimmed text does, and a trimmed text within the limit is its own preview.
pub proof fn law_preview_bounded(s: Seq<char>, max: nat)
    ensures
        previewed(s, max).len() <= max + 3,
        trimmed(s).len() <= max ==> previewed(s, max) == trimmed(s),
        trimmed(s).len() > max ==> previewed(s, max).len() == max + 3 && trimmed(s).take(
            max as int,
        ).is_prefix_of(previewed(s, max)),
{
    reveal_strlit("...");
    if trimmed(s).len() > max {
        assert(trimmed(s).take(max as int) =~= previewed(s, max).subrange(0, max as int));
    }
}

/// Whether `s` reads, from `i` to `j`, something that neither begins nor ends
/// with white space, and before and behind it white space alone.
pub open spec fn bare_stretch(s: Seq<char>, i: int, j: int) -> bool {
    &&& 0 <= i < j <= s.len()
    &&& !is_white_space(s[i])
    &&& !is_white_space(s[j - 1])
    &&& forall|k: int| (0 <= k < i || j <= k < s.len()) ==> is_white_space(#[trigger] s[k])
}

/// Trimming keeps every character between the outermost white space, in its
/// place, and no other.
pub proof fn law_trim_keeps_the_stretch(s: Seq<char>, i: int, j: int)
    requires
        bare_stretch(s, i, j),
    ensures
        trimmed(s) == s.subrange(i, j),
{
    law_trim_cuts_white_space_only(s);
    let (a, b) = choose|a: int, b: int|
        0 <= a <= b <= s.len() && #[trigger] s.subrange(a, b) == trimmed(s) && (forall|k: int|
            (0 <= k < a || b <= k < s.len()) ==> is_white_space(#[trigger] s[k]));
    assert(a <= i < b);
    assert(a <= j - 1 < b);
    assert(trimmed(s)[0] == s[a]);
    assert(trimmed(s).last() == s[b - 1]);
}

/// A text with a character other than white space has a stretch between its
/// outermost white space.
pub proof fn law_stretch_exists(s: Seq<char>)
    requires
        exists|k: int| 0 <= k < s.len() && !is_white_space(#[trigger] s[k]),
    ensures
        exists|i: int, j: int| bare_stretch(s, i, j),
{
    law_trim_cuts_white_space_only(s);
    law_trim_empty(s);
    let (a, b) = choose|a: int, b: int|
        0 <= a <= b <= s.len() && #[trigger] s.subrange(a, b) == trimmed(s) && (forall|k: int|
            (0 <= k < a || b <= k < s.len()) ==> is_white_space(#[trigger] s[k]));
    assert(trimmed(s)[0] == s[a]);
    assert(trimmed(s).last() == s[b - 1]);
    assert(bare_stretch(s, a, b));
}

/// A text that is not empty and holds no white space is one word.
pub proof fn law_one_word(s: Seq<char>)
    requires
        forall|i: int| 0 <= i < s.len() ==> !is_white_space(#[trigger] s[i]),
    ensures
        words_in(s) == (if s.len() > 0 {
            1nat
        } else {
            0nat
        }),
    decreases s.len(),
{
    if s.len() > 0 {
        let t = s.drop_last();
        assert forall|i: int| 0 <= i < t.len() implies !is_white_space(#[trigger] t[i]) by {
            assert(t[i] == s[i]);
        }
        law_one_word(t);
        if s.len() > 1 {
            assert(!is_white_space(s[s.len() - 2]));
        }
    }
}

/// White space parts the words before it from those behind it: their numbers
/// add up.
pub proof fn law_words_add_up(a: Seq<char>, space: char, b: Seq<char>)
    requires
        is_white_space(space),
    ensures
        words_in(a.push(space) + b) == words_in(a) + words_in(b),
    decreases b.len(),
{
    let s = a.push(space) + b;
    if b.len() == 0 {
        assert(s =~= a.push(space));
        assert(s.drop_last() =~= a);
    } else {
        law_words_add_up(a, space, b.drop_last());
        assert(s.drop_last() =~= a.push(space) + b.drop_last());
        assert(s.last() == b.last());
        if b.len() > 1 {
            assert(s[s.len() - 2] == b[b.len() - 2]);
        } else {
            assert(s[s.len() - 2] == space);
        }
    }
}

proof fn lemma_some_word(s: Seq<char>, i: int)
    requires
        0 <= i < s.len(),
        !is_white_space(s[i]),
    ensures
        words_in(s) >= 1,
    decreases s.len(),
{
    let t = s.drop_last();
    if i < s.len() - 1 {
        lemma_some_word(t, i);
    } else if i > 0 && !is_white_space(s[i - 1]) {
        lemma_some_word(t, i - 1);
    }
}

proof fn lemma_last_word(s: Seq<char>) -> (t: int)
    requires
        words_in(s) >= 1,
    ensures
        0 <= t < s.len(),
        word_starts_at(s, t),
        words_in(s) == words_in(s.take(t)) + 1,
    decreases s.len(),
{
    let last = s.len() - 1;
    assert(s.take(last) =~= s.drop_last());
    if word_starts_at(s, last) {
        last
    } else {
        let t = lemma_last_word(s.drop_last());
        assert(s.drop_last().take(t) =~= s.take(t));
        t
    }
}

/// Whether white space stands at `p` and `q`, and other characters before,
/// between and behind.
pub open spec fn parted_twice(s: Seq<char>, i: int, p: int, j: int, q: int, k: int) -> bool {
    &&& 0 <= i < p < j < q < k < s.len()
    &&& !is_white_space(s[i])
    &&& is_white_space(s[p])
    &&& !is_white_space(s[j])
    &&& is_white_space(s[q])
    &&& !is_white_space(s[k])
}

/// A text has three words or more exactly if white space parts it twice.
pub proof fn law_three_words(s: Seq<char>)
    ensures
        words_in(s) >= 3 <==> exists|i: int, p: int, j: int, q: int, k: int|
            parted_twice(s, i, p, j, q, k),
{
    if words_in(s) >= 3 {
        let k = lemma_last_word(s);
        assert(s.take(0) =~= Seq::<char>::empty());
        let t = s.take(k);
        let j = lemma_last_word(t);
        assert(t.take(0) =~= Seq::<char>::empty());
        let i = lemma_last_word(t.take(j));
        assert(parted_twice(s, i, j - 1, j, k - 1, k));
    }
    if exists|i: int, p: int, j: int, q: int, k: int| parted_twice(s, i, p, j, q, k) {
        let (i, p, j, q, k) = choose|i: int, p: int, j: int, q: int, k: int|
            parted_twice(s, i, p, j, q, k);
        let b = s.skip(p + 1);
        assert(s =~= s.take(p).push(s[p]) + b);
        law_words_add_up(s.take(p), s[p], b);
        lemma_some_word(s.take(p), i);
        let r = q - p - 1;
        assert(b =~= b.take(r).push(b[r]) + b.skip(r + 1));
        law_words_add_up(b.take(r), b[r], b.skip(r + 1));
        lemma_some_word(b.take(r), j - p - 1);
        lemma_some_word(b.skip(r + 1), k - q - 1);
    }
}

/// Among the characters of ASCII all that can be seen but letters and digits
/// are punctuation; beyond them just the full-width comma, exclamation mark,
/// colon, semicolon and question mark, and the ideographic full stop.
pub proof fn law_punctuation_marks(c: char)
    ensures
        c as u32 <= 0x7f ==> (is_punctuation(c) <==> c as u32 > 0x20 && c as u32 != 0x7f && !('0'
            <= c <= '9') && !('A' <= c <= 'Z') && !('a' <= c <= 'z')),
        c as u32 > 0x7f ==> (is_punctuation(c) <==> c as u32 == 0xff0c || c as u32 == 0xff01
            || c as u32 == 0xff1a || c as u32 == 0xff1b || c as u32 == 0xff1f || c as u32
            == 0x3002),
{
}

/// A text counts as a sentence exactly if some character of it is
/// punctuation, or if white space parts it twice, however long it is.
pub proof fn law_sentence_by_characters(s: Seq<char>)
    ensures
        reads_as_sentence(s) <==> (exists|i: int|
            0 <= i < s.len() && is_punctuation(#[trigger] s[i])) || (exists|
            i: int,
            p: int,
            j: int,
            q: int,
            k: int,
        |
            parted_twice(s, i, p, j, q, k)),
{
    law_three_words(s);
}

/// A preview of a text with the stretch from `i` to `j`: the stretch itself
/// where it is within the limit, else as much of its beginning as the limit
/// allows, and three dots.
pub proof fn law_preview_of_stretch(s: Seq<char>, max: nat, i: int, j: int)
    requires
        bare_stretch(s, i, j),
    ensures
        j - i <= max ==> previewed(s, max) == s.subrange(i, j),
        j - i > max ==> previewed(s, max) == s.subrange(i, i + max) + seq!['.', '.', '.'],
{
    law_trim_keeps_the_stretch(s, i, j);
    reveal_strlit("...");
    assert("..."@ =~= seq!['.', '.', '.']);
    if j - i > max {
        assert(s.subrange(i, j).take(max as int) =~= s.subrange(i, i + max));
    }
}

/// Whether `pattern` stands in `s` at `i`.
pub open spec fn occurs_at(s: Seq<char>, pattern: Seq<char>, i: int) -> bool {
    0 <= i && i + pattern.len() <= s.len() && s.subrange(i, i + pattern.len()) == pattern
}

/// Where a pattern does not occur its replacement changes nothing.
pub proof fn law_replace_nowhere(s: Seq<char>, from: Seq<char>, to: Seq<char>)
    requires
        from.len() > 0,
        forall|i: int| !#[trigger] occurs_at(s, from, i),
    ensures
        replaced(s, from, to) == s,
    decreases s.len(),
{
    if s.len() >= from.len() {
        assert(!occurs_at(s, from, 0));
        let t = s.skip(1);
        assert forall|i: int| !#[trigger] occurs_at(t, from, i) by {
            if occurs_at(t, from, i) {
                assert(s.subrange(i + 1, i + 1 + from.len()) =~= t.subrange(i, i + from.len()));
                assert(occurs_at(s, from, i + 1));
            }
        }
        law_replace_nowhere(t, from, to);
        assert(seq![s[0]] + t =~= s);
    }
}

/// The first occurrence of a pattern is replaced, what stands before it is
/// kept, and the replacement goes on behind it.
pub proof fn law_replace_first(a: Seq<char>, from: Seq<char>, b: Seq<char>, to: Seq<char>)
    requires
        from.len() > 0,
        forall|i: int| 0 <= i < a.len() ==> !#[trigger] occurs_at(a + from + b, from, i),
    ensures
        replaced(a + from + b, from, to) == a + to + replaced(b, from, to),
    decreases a.len(),
{
    let s = a + from + b;
    if a.len() == 0 {
        assert(s.subrange(0, from.len() as int) =~= from);
        assert(s.skip(from.len() as int) =~= b);
        assert(to + replaced(b, from, to) =~= a + to + replaced(b, from, to));
    } else {
        assert(!occurs_at(s, from, 0));
        let c = a.skip(1);
        assert(s.skip(1) =~= c + from + b);
        assert forall|i: int| 0 <= i < c.len() implies !#[trigger] occurs_at(
            c + from + b,
            from,
            i,
        ) by {
            if occurs_at(c + from + b, from, i) {
                assert(s.subrange(i + 1, i + 1 + from.len()) =~= (c + from + b).subrange(
                    i,
                    i + from.len(),
                ));
                assert(occurs_at(s, from, i + 1));
            }
        }
        law_replace_first(c, from, b, to);
        assert(seq![s[0]] + (c + to + replaced(b, from, to)) =~= a + to + replaced(b, from, to));
    }
}

/// A beginning without the first character of the pattern stays as it is.
pub proof fn law_replace_skips(a: Seq<char>, s: Seq<char>, from: Seq<char>, to: Seq<char>)
    requires
        from.len() > 0,
        !a.contains(from[0]),
    ensures
        replaced(a + s, from, to) == a + replaced(s, from, to),
    decreases a.len(),
{
    if a.len() == 0 {
        assert(a + s =~= s);
        assert(a + replaced(s, from, to) =~= replaced(s, from, to));
    } else {
        let t = a.skip(1);
        assert(a.contains(a[0]));
        assert((a + s)[0] == a[0]);
        assert forall|i: int| 0 <= i < t.len() implies t[i] != from[0] by {
            assert(a.contains(a[i + 1]));
        }
        law_replace_skips(t, s, from, to);
        assert((a + s).skip(1) =~= t + s);
        if (a + s).len() >= from.len() {
            assert(!from.is_prefix_of(a + s));
            assert(seq![a[0]] + (t + replaced(s, from, to)) =~= a + replaced(s, from, to));
        } else {
            assert(a + replaced(s, from, to) =~= a + s);
        }
    }
}

/// A prefix is taken off as often as it stands at the start: once more does
/// not matter, and a text that does not begin with it stays as it is.
pub proof fn law_strip_repeated(s: Seq<char>, prefix: Seq<char>)
    ensures
        prefix.len() > 0 ==> stripped(prefix + s, prefix) == stripped(s, prefix),
        !prefix.is_prefix_of(s) ==> stripped(s, prefix) == s,
{
    if prefix.len() > 0 {
        assert((prefix + s).subrange(0, prefix.len() as int) =~= prefix);
        assert((prefix + s).skip(prefix.len() as int) =~= s);
    }
}

/// A text in which the first character of a pattern does not occur is left
/// alone by the replacement of that pattern.
pub proof fn law_replace_absent(s: Seq<char>, from: Seq<char>, to: Seq<char>)
    requires
        from.len() > 0,
        !s.contains(from[0]),
    ensures
        replaced(s, from, to) == s,
    decreases s.len(),
{
    if s.len() >= from.len() {
        assert(s.contains(s[0]));
        assert(!from.is_prefix_of(s));
        assert forall|i: int| 0 <= i < s.skip(1).len() implies s.skip(1)[i] != from[0] by {
            assert(s.contains(s[i + 1]));
        }
        law_replace_absent(s.skip(1), from, to);
        assert(seq![s[0]] + s.skip(1) =~= s);
    }
}

/// The number that a digit stands for.
pub open spec fn digit_value(c: char) -> nat {
    (c as u32 - 0x30) as nat
}

/// The number that a numeral of base ten denotes.
pub open spec fn numeral_value(s: Seq<char>) -> nat
    decreases s.len(),
{
    if s.len() == 0 {
        0
    } else {
        numeral_value(s.drop_last()) * 10 + digit_value(s.last())
    }
}

proof fn lemma_numeral_value(n: nat)
    ensures
        numeral_value(decimal(n)) == n,
        decimal(n).len() > 0,
        forall|i: int|
            0 <= i < decimal(n).len() ==> 0x30 <= #[trigger] decimal(n)[i] as u32 <= 0x39,
    decreases n,
{
    reveal_with_fuel(numeral_value, 2);
    if n < 10 {
        assert(seq![digit(n)].drop_last() =~= Seq::<char>::empty());
    } else {
        lemma_numeral_value(n / 10);
        assert(decimal(n).drop_last() =~= decimal(n / 10));
    }
}

/// Different numbers have different numerals.
pub proof fn law_decimal_injective(m: nat, n: nat)
    ensures
        decimal(m) == decimal(n) ==> m == n,
{
    lemma_numeral_value(m);
    lemma_numeral_value(n);
}

/// The numeral of a number denotes that number, and begins with a nought only
/// where it is one.
pub proof fn law_decimal_denotes(n: nat)
    ensures
        numeral_value(decimal(n)) == n,
        n > 0 ==> decimal(n)[0] != '0',
    decreases n,
{
    lemma_numeral_value(n);
    if n >= 10 {
        law_decimal_denotes(n / 10);
        lemma_numeral_value(n / 10);
    }
}

/// A numeral consists of one digit or more, and of digits only.
pub proof fn law_decimal_digits(n: nat)
    ensures
        decimal(n).len() > 0,
        forall|i: int|
            0 <= i < decimal(n).len() ==> 0x30 <= #[trigger] decimal(n)[i] as u32 <= 0x39,
{
    lemma_numeral_value(n);
}

} // verus!
