//! Text as sequences of characters: the small set of operations the rest of
//! the library builds its parsers and names from.

use vstd::prelude::*;

verus! {

/// `String::push` appends one character.
pub assume_specification[ String::push ](s: &mut String, c: char)
    ensures
        final(s)@ == old(s)@.push(c),
;

/// The characters of a string slice, in order.
pub fn chars_of(s: &str) -> (r: Vec<char>)
    ensures
        r@ == s@,
{
    let n = s.unicode_len();
    let mut r: Vec<char> = Vec::new();
    let mut i: usize = 0;
    while i < n
        invariant
            n == s@.len(),
            i <= n,
            r@ == s@.take(i as int),
        decreases n - i,
    {
        r.push(s.get_char(i));
        assert(s@.take(i + 1) =~= s@.take(i as int).push(s@[i as int]));
        i += 1;
    }
    assert(s@.take(n as int) =~= s@);
    r
}

/// The string made of the given characters.
pub fn string_of(chars: &Vec<char>) -> (r: String)
    ensures
        r@ == chars@,
{
    let mut r = String::new();
    let mut i: usize = 0;
    while i < chars.len()
        invariant
            i <= chars.len(),
            r@ == chars@.take(i as int),
        decreases chars.len() - i,
    {
        r.push(chars[i]);
        assert(chars@.take(i + 1) =~= chars@.take(i as int).push(chars@[i as int]));
        i += 1;
    }
    assert(chars@.take(chars.len() as int) =~= chars@);
    r
}

/// Whether `pat` stands in `hay` at index `i`.
pub open spec fn occurs_at(hay: Seq<char>, pat: Seq<char>, i: int) -> bool {
    &&& 0 <= i
    &&& i + pat.len() <= hay.len()
    &&& forall|k: int| 0 <= k < pat.len() ==> hay[i + k] == #[trigger] pat[k]
}

/// Whether `hay` begins with `pat`.
pub open spec fn has_prefix(hay: Seq<char>, pat: Seq<char>) -> bool {
    occurs_at(hay, pat, 0)
}

/// Whether `hay` ends with `pat`.
pub open spec fn has_suffix(hay: Seq<char>, pat: Seq<char>) -> bool {
    occurs_at(hay, pat, hay.len() - pat.len())
}

/// Whether `pat` stands anywhere in `hay`.
pub open spec fn contains_text(hay: Seq<char>, pat: Seq<char>) -> bool {
    exists|i: int| occurs_at(hay, pat, i)
}

/// The first index at or after `from` at which `pat` stands in `hay`.
pub open spec fn find_from(hay: Seq<char>, pat: Seq<char>, from: int) -> Option<int>
    decreases hay.len() - from,
{
    if from < 0 || from + pat.len() > hay.len() {
        None
    } else if occurs_at(hay, pat, from) {
        Some(from)
    } else {
        find_from(hay, pat, from + 1)
    }
}

/// `find_from` gives the least index at which the pattern stands, and gives
/// none only where it stands nowhere from `from` on.
pub proof fn find_from_is_first(hay: Seq<char>, pat: Seq<char>, from: int)
    requires
        0 <= from,
    ensures
        match find_from(hay, pat, from) {
            Some(i) => {
                &&& from <= i
                &&& occurs_at(hay, pat, i)
                &&& forall|j: int| from <= j < i ==> !occurs_at(hay, pat, j)
            },
            None => forall|j: int| from <= j ==> !occurs_at(hay, pat, j),
        },
    decreases hay.len() - from,
{
    if from + pat.len() > hay.len() {
    } else if occurs_at(hay, pat, from) {
    } else {
        find_from_is_first(hay, pat, from + 1);
    }
}

/// A text contains a pattern exactly when a search from the start finds it.
pub proof fn contains_is_found(hay: Seq<char>, pat: Seq<char>)
    ensures
        contains_text(hay, pat) <==> find_from(hay, pat, 0) is Some,
{
    find_from_is_first(hay, pat, 0);
    if contains_text(hay, pat) {
        let i = choose|i: int| occurs_at(hay, pat, i);
        assert(occurs_at(hay, pat, i));
    }
}

/// Whether `pat` stands in `hay` at index `i`.
pub fn matches_at(hay: &Vec<char>, pat: &Vec<char>, i: usize) -> (r: bool)
    ensures
        r == occurs_at(hay@, pat@, i as int),
{
    if pat.len() > hay.len() || i > hay.len() - pat.len() {
        return false;
    }
    let mut k: usize = 0;
    while k < pat.len()
        invariant
            k <= pat.len(),
            i + pat.len() <= hay.len(),
            forall|j: int| 0 <= j < k ==> hay@[i + j] == #[trigger] pat@[j],
        decreases pat.len() - k,
    {
        if hay[i + k] != pat[k] {
            return false;
        }
        k += 1;
    }
    true
}

/// Whether `hay` begins with `pat`.
pub fn starts_with(hay: &Vec<char>, pat: &Vec<char>) -> (r: bool)
    ensures
        r == has_prefix(hay@, pat@),
{
    matches_at(hay, pat, 0)
}

/// Whether `hay` ends with `pat`.
pub fn ends_with(hay: &Vec<char>, pat: &Vec<char>) -> (r: bool)
    ensures
        r == has_suffix(hay@, pat@),
{
    if pat.len() > hay.len() {
        return false;
    }
    matches_at(hay, pat, hay.len() - pat.len())
}

/// The first index at or after `from` at which `pat` stands in `hay`.
pub fn find(hay: &Vec<char>, pat: &Vec<char>, from: usize) -> (r: Option<usize>)
    ensures
        match r {
            Some(i) => find_from(hay@, pat@, from as int) == Some(i as int),
            None => find_from(hay@, pat@, from as int) is None,
        },
{
    if pat.len() > hay.len() {
        return None;
    }
    let last = hay.len() - pat.len();
    let mut i: usize = from;
    while i <= last
        invariant
            from <= i,
            last == hay.len() - pat.len(),
            find_from(hay@, pat@, from as int) == find_from(hay@, pat@, i as int),
        decreases last + 1 - i,
    {
        if matches_at(hay, pat, i) {
            return Some(i);
        }
        i += 1;
    }
    None
}

/// Whether `pat` stands anywhere in `hay`.
pub fn contains(hay: &Vec<char>, pat: &Vec<char>) -> (r: bool)
    ensures
        r == contains_text(hay@, pat@),
{
    proof {
        contains_is_found(hay@, pat@);
    }
    find(hay, pat, 0).is_some()
}

/// A copy of the characters of `hay` from `from` up to `to`.
pub fn slice(hay: &Vec<char>, from: usize, to: usize) -> (r: Vec<char>)
    requires
        from <= to <= hay.len(),
    ensures
        r@ == hay@.subrange(from as int, to as int),
{
    let mut r: Vec<char> = Vec::new();
    let mut i: usize = from;
    while i < to
        invariant
            from <= i <= to <= hay.len(),
            r@ == hay@.subrange(from as int, i as int),
        decreases to - i,
    {
        r.push(hay[i]);
        assert(hay@.subrange(from as int, i + 1) =~= hay@.subrange(from as int, i as int).push(
            hay@[i as int],
        ));
        i += 1;
    }
    r
}

/// Appends the characters of `tail` to `text`.
pub fn append(text: &mut Vec<char>, tail: &Vec<char>)
    ensures
        final(text)@ == old(text)@ + tail@,
{
    let mut i: usize = 0;
    while i < tail.len()
        invariant
            i <= tail.len(),
            text@ == old(text)@ + tail@.take(i as int),
        decreases tail.len() - i,
    {
        text.push(tail[i]);
        assert(tail@.take(i + 1) =~= tail@.take(i as int).push(tail@[i as int]));
        assert(old(text)@ + tail@.take(i + 1) =~= (old(text)@ + tail@.take(i as int)).push(
            tail@[i as int],
        ));
        i += 1;
    }
    assert(tail@.take(tail.len() as int) =~= tail@);
}

/// Appends the characters of a string slice to `text`.
pub fn append_str(text: &mut Vec<char>, tail: &str)
    ensures
        final(text)@ == old(text)@ + tail@,
{
    let chars = chars_of(tail);
    append(text, &chars);
}

/// The texts that a vector of character vectors stands for.
pub open spec fn texts(pieces: Seq<Vec<char>>) -> Seq<Seq<char>> {
    Seq::new(pieces.len(), |i: int| pieces[i]@)
}

/// The pieces of `hay` between the occurrences of `sep`. A text without the
/// separator is one piece; a separator at the end leaves an empty last piece.
pub open spec fn split_on(hay: Seq<char>, sep: char) -> Seq<Seq<char>>
    decreases hay.len(),
{
    if hay.len() == 0 {
        seq![Seq::<char>::empty()]
    } else {
        let before = split_on(hay.drop_last(), sep);
        if hay.last() == sep {
            before.push(Seq::<char>::empty())
        } else {
            before.drop_last().push(before.last().push(hay.last()))
        }
    }
}

/// A split always yields at least one piece.
pub proof fn split_on_is_nonempty(hay: Seq<char>, sep: char)
    ensures
        split_on(hay, sep).len() >= 1,
    decreases hay.len(),
{
    if hay.len() > 0 {
        split_on_is_nonempty(hay.drop_last(), sep);
    }
}

/// Splits `hay` at every occurrence of `sep`.
pub fn split(hay: &Vec<char>, sep: char) -> (r: Vec<Vec<char>>)
    ensures
        texts(r@) == split_on(hay@, sep),
{
    let mut done: Vec<Vec<char>> = Vec::new();
    let mut current: Vec<char> = Vec::new();
    let mut i: usize = 0;
    assert(hay@.take(0) =~= Seq::<char>::empty());
    assert(texts(done@).push(current@) =~= seq![Seq::<char>::empty()]);
    while i < hay.len()
        invariant
            i <= hay.len(),
            texts(done@).push(current@) == split_on(hay@.take(i as int), sep),
        decreases hay.len() - i,
    {
        let c = hay[i];
        proof {
            let prefix = hay@.take(i + 1);
            assert(prefix.drop_last() =~= hay@.take(i as int));
            assert(prefix.last() == c);
            let before = texts(done@).push(current@);
            assert(before.drop_last() =~= texts(done@));
            assert(before.last() == current@);
        }
        if c == sep {
            let ghost old_done = done@;
            done.push(current);
            current = Vec::new();
            assert(texts(done@) =~= texts(old_done).push(done@[done@.len() - 1]@));
        } else {
            current.push(c);
        }
        i += 1;
    }
    assert(hay@.take(hay.len() as int) =~= hay@);
    let ghost old_done = done@;
    done.push(current);
    assert(texts(done@) =~= texts(old_done).push(done@[done@.len() - 1]@));
    done
}

/// A name for what `char::is_whitespace` answers: whether a character has the
/// Unicode property White_Space.
pub uninterp spec fn is_white_space(c: char) -> bool;

/// `char::is_whitespace` tells whether a character has the Unicode property
/// White_Space.
pub assume_specification[ char::is_whitespace ](c: char) -> (r: bool)
    ensures
        r == is_white_space(c),
;

/// Whether a trimming rule drops a character: a rule that names a character
/// drops that character, the rule that names none drops white space.
pub open spec fn drops(rule: Option<char>, c: char) -> bool {
    match rule {
        Some(d) => c == d,
        None => is_white_space(c),
    }
}

/// `hay` without the characters at its start that the rule drops.
pub open spec fn trim_start_by(hay: Seq<char>, rule: Option<char>) -> Seq<char>
    decreases hay.len(),
{
    if hay.len() > 0 && drops(rule, hay[0]) {
        trim_start_by(hay.drop_first(), rule)
    } else {
        hay
    }
}

/// `hay` without the characters at its end that the rule drops.
pub open spec fn trim_end_by(hay: Seq<char>, rule: Option<char>) -> Seq<char>
    decreases hay.len(),
{
    if hay.len() > 0 && drops(rule, hay.last()) {
        trim_end_by(hay.drop_last(), rule)
    } else {
        hay
    }
}

/// `hay` without white space at either end.
pub open spec fn trimmed(hay: Seq<char>) -> Seq<char> {
    trim_end_by(trim_start_by(hay, None), None)
}

/// `hay` without the character `c` at its end.
pub open spec fn trimmed_end_of(hay: Seq<char>, c: char) -> Seq<char> {
    trim_end_by(hay, Some(c))
}

/// `hay` without the character `c` at either end.
pub open spec fn trimmed_of(hay: Seq<char>, c: char) -> Seq<char> {
    trim_end_by(trim_start_by(hay, Some(c)), Some(c))
}

fn is_dropped(rule: Option<char>, c: char) -> (r: bool)
    ensures
        r == drops(rule, c),
{
    match rule {
        Some(d) => c == d,
        None => c.is_whitespace(),
    }
}

fn trim_by(hay: &Vec<char>, at_start: bool, rule: Option<char>) -> (r: Vec<char>)
    ensures
        r@ == trim_end_by(
            if at_start {
                trim_start_by(hay@, rule)
            } else {
                hay@
            },
            rule,
        ),
{
    let mut start: usize = 0;
    assert(hay@.skip(0) =~= hay@);
    while at_start && start < hay.len() && is_dropped(rule, hay[start])
        invariant
            start <= hay.len(),
            trim_start_by(hay@, rule) == trim_start_by(hay@.skip(start as int), rule),
            !at_start ==> start == 0,
        decreases hay.len() - start,
    {
        assert(hay@.skip(start as int)[0] == hay@[start as int]);
        assert(hay@.skip(start as int).drop_first() =~= hay@.skip(start + 1));
        start += 1;
    }
    let ghost kept = hay@.skip(start as int);
    proof {
        if at_start && start < hay.len() {
            assert(kept[0] == hay@[start as int]);
        }
        assert(at_start ==> trim_start_by(hay@, rule) == kept);
        assert(!at_start ==> kept =~= hay@);
    }
    let mut end: usize = hay.len();
    assert(hay@.subrange(start as int, end as int) =~= kept);
    while end > start && is_dropped(rule, hay[end - 1])
        invariant
            start <= end <= hay.len(),
            trim_end_by(kept, rule) == trim_end_by(
                hay@.subrange(start as int, end as int),
                rule,
            ),
        decreases end,
    {
        assert(hay@.subrange(start as int, end as int).last() == hay@[end - 1]);
        assert(hay@.subrange(start as int, end as int).drop_last() =~= hay@.subrange(
            start as int,
            end - 1,
        ));
        end -= 1;
    }
    proof {
        if end > start {
            assert(hay@.subrange(start as int, end as int).last() == hay@[end - 1]);
        }
    }
    slice(hay, start, end)
}

/// Removes white space at both ends.
pub fn trim(hay: &Vec<char>) -> (r: Vec<char>)
    ensures
        r@ == trimmed(hay@),
{
    trim_by(hay, true, None)
}

/// Removes every `c` at the end.
pub fn trim_end_matches(hay: &Vec<char>, c: char) -> (r: Vec<char>)
    ensures
        r@ == trimmed_end_of(hay@, c),
{
    trim_by(hay, false, Some(c))
}

/// Removes every `c` at both ends.
pub fn trim_matches(hay: &Vec<char>, c: char) -> (r: Vec<char>)
    ensures
        r@ == trimmed_of(hay@, c),
{
    trim_by(hay, true, Some(c))
}

/// Whether a character is one of the ten decimal digits.
pub open spec fn is_digit(c: char) -> bool {
    48 <= c as u32 <= 57
}

/// The value of a decimal digit.
pub open spec fn digit_value(c: char) -> int {
    c as u32 - 48
}

/// Whether a text consists of decimal digits alone.
pub open spec fn all_digits(s: Seq<char>) -> bool {
    forall|i: int| 0 <= i < s.len() ==> is_digit(#[trigger] s[i])
}

/// The number that a text of decimal digits writes.
pub open spec fn decimal_value(s: Seq<char>) -> int
    decreases s.len(),
{
    if s.len() == 0 {
        0
    } else {
        decimal_value(s.drop_last()) * 10 + digit_value(s.last())
    }
}

/// What a text means as a `u32`: an optional plus sign, then at least one
/// decimal digit and nothing else, the whole no larger than `u32::MAX`.
pub open spec fn parsed_u32(s: Seq<char>) -> Option<u32> {
    let digits = if s.len() > 0 && s[0] == '+' {
        s.drop_first()
    } else {
        s
    };
    if digits.len() == 0 || !all_digits(digits) || decimal_value(digits) > u32::MAX {
        None
    } else {
        Some(decimal_value(digits) as u32)
    }
}

/// A longer text of digits writes no smaller a number than its beginning.
pub proof fn decimal_value_grows(s: Seq<char>, k: int)
    requires
        all_digits(s),
        0 <= k <= s.len(),
    ensures
        0 <= decimal_value(s.take(k)) <= decimal_value(s),
    decreases s.len() - k,
{
    if k == s.len() {
        assert(s.take(k) =~= s);
        decimal_value_is_natural(s);
    } else {
        decimal_value_grows(s, k + 1);
        assert(s.take(k + 1).drop_last() =~= s.take(k));
        assert(is_digit(s[k]));
        assert(s.take(k + 1).last() == s[k]);
        decimal_value_is_natural(s.take(k));
    }
}

/// A text of digits writes a natural number.
pub proof fn decimal_value_is_natural(s: Seq<char>)
    requires
        all_digits(s),
    ensures
        decimal_value(s) >= 0,
    decreases s.len(),
{
    if s.len() > 0 {
        assert(all_digits(s.drop_last())) by {
            assert forall|i: int| 0 <= i < s.drop_last().len() implies is_digit(
                #[trigger] s.drop_last()[i],
            ) by {
                assert(s.drop_last()[i] == s[i]);
            }
        }
        decimal_value_is_natural(s.drop_last());
        assert(is_digit(s.last()));
    }
}

/// Reads a text as a `u32`.
pub fn parse_u32(s: &Vec<char>) -> (r: Option<u32>)
    ensures
        r == parsed_u32(s@),
{
    let start: usize = if s.len() > 0 && s[0] == '+' {
        1
    } else {
        0
    };
    let ghost digits = s@.skip(start as int);
    assert(start == 1 ==> digits =~= s@.drop_first());
    assert(start == 0 ==> digits =~= s@);
    if start == s.len() {
        return None;
    }
    let mut value: u64 = 0;
    let mut i: usize = start;
    assert(digits.take(0) =~= Seq::<char>::empty());
    while i < s.len()
        invariant
            start <= i <= s.len(),
            digits == s@.skip(start as int),
            digits == (if s@.len() > 0 && s@[0] == '+' {
                s@.drop_first()
            } else {
                s@
            }),
            all_digits(digits.take(i - start)),
            value == decimal_value(digits.take(i - start)),
            value <= u32::MAX,
        decreases s.len() - i,
    {
        let c: u32 = s[i] as u32;
        let ghost k = i - start;
        assert(digits[k] == s@[i as int]);
        assert(c == digits[k] as u32);
        if c < 48 || c > 57 {
            assert(!is_digit(digits[k]));
            return None;
        }
        let d: u64 = (c - 48) as u64;
        proof {
            assert(digits.take(k + 1).drop_last() =~= digits.take(k));
            assert(digits.take(k + 1).last() == digits[k]);
            assert forall|j: int| 0 <= j < k + 1 implies is_digit(
                #[trigger] digits.take(k + 1)[j],
            ) by {
                if j < k {
                    assert(digits.take(k)[j] == digits.take(k + 1)[j]);
                }
            }
        }
        let grown: u64 = value * 10 + d;
        if grown > 0xFFFF_FFFF {
            proof {
                if all_digits(digits) {
                    decimal_value_grows(digits, k + 1);
                }
            }
            return None;
        }
        value = grown;
        i += 1;
    }
    assert(digits.take(s.len() - start) =~= digits);
    Some(value as u32)
}

/// The character that writes a digit.
pub open spec fn digit_char(d: int) -> char {
    (48 + d) as char
}

/// The decimal digits that write a number, without leading zeros.
pub open spec fn decimal(n: nat) -> Seq<char>
    decreases n,
{
    if n < 10 {
        seq![digit_char(n as int)]
    } else {
        decimal(n / 10).push(digit_char((n % 10) as int))
    }
}

fn digit(d: u32) -> (c: char)
    requires
        d < 10,
    ensures
        c == digit_char(d as int),
{
    ((48 + d) as u8) as char
}

/// Writes a number in decimal digits.
pub fn decimal_text(n: u32) -> (r: Vec<char>)
    ensures
        r@ == decimal(n as nat),
{
    decimal_text_u64(n as u64)
}

/// Writes a number in decimal digits.
pub fn decimal_text_u64(n: u64) -> (r: Vec<char>)
    ensures
        r@ == decimal(n as nat),
{
    let mut r: Vec<char> = Vec::new();
    r.push(digit((n % 10) as u32));
    let mut m: u64 = n / 10;
    while m > 0
        invariant
            decimal(n as nat) == (if m > 0 {
                decimal(m as nat)
            } else {
                Seq::<char>::empty()
            }) + r@,
        decreases m,
    {
        let ghost before = r@;
        r.insert(0, digit((m % 10) as u32));
        assert(r@ =~= seq![digit_char((m % 10) as int)] + before);
        proof {
            if m < 10 {
                assert(decimal(m as nat) =~= seq![digit_char(m as int)]);
            } else {
                assert(decimal(m as nat) + before =~= decimal((m / 10) as nat) + r@);
            }
        }
        m = m / 10;
    }
    assert(Seq::<char>::empty() + r@ =~= r@);
    r
}

/// A name for what `str::to_lowercase` gives: the lowercase equivalent of a
/// text as Unicode defines it.
pub uninterp spec fn lowercase(s: Seq<char>) -> Seq<char>;

/// Calls `str::to_lowercase`; the result is the lowercase equivalent of the text.
#[verifier::external_body]
pub(crate) fn to_lowercase(s: &str) -> (r: String)
    ensures
        r@ == lowercase(s@),
{
    s.to_lowercase()
}

/// The lowercase equivalent of a text.
pub fn lowercased(s: &Vec<char>) -> (r: Vec<char>)
    ensures
        r@ == lowercase(s@),
{
    let text = string_of(s);
    let lower = to_lowercase(text.as_str());
    chars_of(lower.as_str())
}

/// A line without the carriage return at its end, if it has one.
pub open spec fn strip_cr(line: Seq<char>) -> Seq<char> {
    if line.len() > 0 && line.last() == '\r' {
        line.drop_last()
    } else {
        line
    }
}

/// The lines of a text. A line ends with a line feed, or with a carriage
/// return and a line feed; neither belongs to the line. What follows the last
/// line feed is a line of its own if it is not empty.
pub open spec fn lines_of(hay: Seq<char>) -> Seq<Seq<char>> {
    let parts = split_on(hay, '\n');
    let ended = Seq::new((parts.len() - 1) as nat, |i: int| strip_cr(parts[i]));
    if parts.last().len() == 0 {
        ended
    } else {
        ended.push(parts.last())
    }
}

/// Splits a text into its lines.
pub fn lines(hay: &Vec<char>) -> (r: Vec<Vec<char>>)
    ensures
        texts(r@) == lines_of(hay@),
{
    let parts = split(hay, '\n');
    proof {
        split_on_is_nonempty(hay@, '\n');
    }
    let count = parts.len() - 1;
    let mut r: Vec<Vec<char>> = Vec::new();
    let mut i: usize = 0;
    while i < count
        invariant
            i <= count,
            count == parts.len() - 1,
            r@.len() == i,
            forall|j: int| 0 <= j < i ==> #[trigger] r@[j]@ == strip_cr(parts@[j]@),
        decreases count - i,
    {
        let part = &parts[i];
        let n = part.len();
        let line = if n > 0 && part[n - 1] == '\r' {
            slice(part, 0, n - 1)
        } else {
            slice(part, 0, n)
        };
        assert(line@ =~= strip_cr(part@));
        r.push(line);
        i += 1;
    }
    assert(texts(parts@)[count as int] == parts@[count as int]@);
    assert(texts(parts@).last() == parts@[count as int]@);
    let ghost ended = Seq::new(
        (texts(parts@).len() - 1) as nat,
        |i: int| strip_cr(texts(parts@)[i]),
    );
    assert(texts(r@) =~= ended);
    if parts[count].len() != 0 {
        let last = slice(&parts[count], 0, parts[count].len());
        assert(last@ =~= parts@[count as int]@);
        r.push(last);
        assert(texts(r@) =~= ended.push(parts@[count as int]@));
    }
    r
}

/// `hay` from index `i` on, with `with` in place of every occurrence of `pat`,
/// the occurrences taken from left to right.
pub open spec fn replace_from(hay: Seq<char>, pat: Seq<char>, with: Seq<char>, i: int) -> Seq<
    char,
>
    decreases hay.len() - i,
{
    if pat.len() == 0 || i < 0 || i >= hay.len() {
        hay.skip(i)
    } else if occurs_at(hay, pat, i) {
        with + replace_from(hay, pat, with, i + pat.len())
    } else {
        seq![hay[i]] + replace_from(hay, pat, with, i + 1)
    }
}

/// `with` before every character of `hay` and after the last.
pub open spec fn interleaved(hay: Seq<char>, with: Seq<char>) -> Seq<char>
    decreases hay.len(),
{
    if hay.len() == 0 {
        with
    } else {
        interleaved(hay.drop_last(), with) + seq![hay.last()] + with
    }
}

/// `hay` with `with` in place of every occurrence of `pat`. The empty text
/// occurs before every character and at the end.
pub open spec fn replaced(hay: Seq<char>, pat: Seq<char>, with: Seq<char>) -> Seq<char> {
    if pat.len() == 0 {
        interleaved(hay, with)
    } else {
        replace_from(hay, pat, with, 0)
    }
}

/// Puts `with` in place of every occurrence of `pat` from index `from` on.
pub fn replace_after(hay: &Vec<char>, pat: &Vec<char>, with: &Vec<char>, from: usize) -> (r: Vec<
    char,
>)
    requires
        pat.len() > 0,
        from <= hay.len(),
    ensures
        r@ == replace_from(hay@, pat@, with@, from as int),
{
    let mut r: Vec<char> = Vec::new();
    let mut i: usize = from;
    let ghost whole = replace_from(hay@, pat@, with@, from as int);
    assert(Seq::<char>::empty() + whole =~= whole);
    while i < hay.len()
        invariant
            from <= i <= hay.len(),
            pat.len() > 0,
            whole == r@ + replace_from(hay@, pat@, with@, i as int),
        decreases hay.len() - i,
    {
        let ghost before = r@;
        if matches_at(hay, pat, i) {
            append(&mut r, with);
            assert(before + (with@ + replace_from(hay@, pat@, with@, i + pat.len())) =~= r@
                + replace_from(hay@, pat@, with@, i + pat.len()));
            i += pat.len();
        } else {
            r.push(hay[i]);
            assert(before + (seq![hay@[i as int]] + replace_from(hay@, pat@, with@, i + 1)) =~= r@
                + replace_from(hay@, pat@, with@, i + 1));
            i += 1;
        }
    }
    assert(hay@.skip(i as int) =~= Seq::<char>::empty());
    assert(r@ + Seq::<char>::empty() =~= r@);
    r
}

/// Puts `with` in place of every occurrence of `pat`.
pub fn replace(hay: &Vec<char>, pat: &Vec<char>, with: &Vec<char>) -> (r: Vec<char>)
    ensures
        r@ == replaced(hay@, pat@, with@),
{
    if pat.len() == 0 {
        let mut r: Vec<char> = Vec::new();
        append(&mut r, with);
        let mut i: usize = 0;
        assert(hay@.take(0) =~= Seq::<char>::empty());
        assert(r@ =~= with@);
        while i < hay.len()
            invariant
                i <= hay.len(),
                r@ == interleaved(hay@.take(i as int), with@),
            decreases hay.len() - i,
        {
            proof {
                assert(hay@.take(i + 1).drop_last() =~= hay@.take(i as int));
            }
            let ghost before = r@;
            r.push(hay[i]);
            assert(r@ =~= before + seq![hay@[i as int]]);
            append(&mut r, with);
            i += 1;
        }
        assert(hay@.take(hay.len() as int) =~= hay@);
        r
    } else {
        replace_after(hay, pat, with, 0)
    }
}

/// Whether two texts are the same.
pub fn equal(a: &Vec<char>, b: &Vec<char>) -> (r: bool)
    ensures
        r == (a@ == b@),
{
    if a.len() != b.len() {
        return false;
    }
    let mut i: usize = 0;
    while i < a.len()
        invariant
            i <= a.len(),
            a.len() == b.len(),
            forall|j: int| 0 <= j < i ==> a@[j] == b@[j],
        decreases a.len() - i,
    {
        if a[i] != b[i] {
            return false;
        }
        i += 1;
    }
    assert(a@ =~= b@);
    true
}

/// Whether a string slice holds exactly the given text.
pub fn is_text(s: &str, wanted: &str) -> (r: bool)
    ensures
        r == (s@ == wanted@),
{
    equal(&chars_of(s), &chars_of(wanted))
}

/// The texts of a vector of string slices.
pub open spec fn slices<'a>(parts: Seq<&'a str>) -> Seq<Seq<char>> {
    Seq::new(parts.len(), |i: int| parts[i]@)
}

/// The texts of `pieces`, one after the other.
pub open spec fn concat_all(pieces: Seq<Seq<char>>) -> Seq<char>
    decreases pieces.len(),
{
    if pieces.len() == 0 {
        Seq::<char>::empty()
    } else {
        concat_all(pieces.drop_last()) + pieces.last()
    }
}

/// Puts pieces of text one after the other.
pub fn concat(pieces: &Vec<&str>) -> (r: String)
    ensures
        r@ == concat_all(slices(pieces@)),
{
    let mut text: Vec<char> = Vec::new();
    let mut i: usize = 0;
    assert(slices(pieces@).take(0) =~= Seq::<Seq<char>>::empty());
    while i < pieces.len()
        invariant
            i <= pieces.len(),
            text@ == concat_all(slices(pieces@).take(i as int)),
        decreases pieces.len() - i,
    {
        proof {
            assert(slices(pieces@).take(i + 1).drop_last() =~= slices(pieces@).take(i as int));
        }
        append_str(&mut text, pieces[i]);
        i += 1;
    }
    assert(slices(pieces@).take(pieces.len() as int) =~= slices(pieces@));
    string_of(&text)
}

/// The decimal digits of a number are digits, as many as it takes, and
/// write that number.
pub proof fn decimal_writes_its_number(n: nat)
    ensures
        decimal(n).len() >= 1,
        all_digits(decimal(n)),
        decimal_value(decimal(n)) == n,
    decreases n,
{
    if n < 10 {
        let d = decimal(n);
        assert(d.len() == 1);
        assert(d[0] == digit_char(n as int));
        assert(d.drop_last().len() == 0);
        assert(decimal_value(d.drop_last()) == 0);
    } else {
        decimal_writes_its_number(n / 10);
        let before = decimal(n / 10);
        let d = decimal(n);
        assert(d.drop_last() =~= before);
        assert(d.last() == digit_char((n % 10) as int));
        assert forall|i: int| 0 <= i < d.len() implies is_digit(#[trigger] d[i]) by {
            if i < before.len() {
                assert(d[i] == before[i]);
            }
        }
    }
}

/// A number that is written in decimal and read again is the number it was.
pub proof fn decimal_round_trip(n: u32)
    ensures
        parsed_u32(decimal(n as nat)) == Some(n),
{
    decimal_writes_its_number(n as nat);
    assert(is_digit(decimal(n as nat)[0]));
}

/// Different numbers are written differently.
pub proof fn decimal_is_injective(a: nat, b: nat)
    requires
        decimal(a) == decimal(b),
    ensures
        a == b,
{
    decimal_writes_its_number(a);
    decimal_writes_its_number(b);
}

} // verus!
