//! Character-level text helpers used throughout the installer: splitting on a
//! separator, removing a character, trimming whitespace, substring tests.

use vstd::prelude::*;

verus! {

/// The pieces of `s` between occurrences of `sep`, as `str::split(sep)` yields
/// them: always at least one piece, empty pieces kept.
pub open spec fn split_on(s: Seq<char>, sep: char) -> Seq<Seq<char>>
    decreases s.len(),
{
    if s.len() == 0 {
        seq![Seq::<char>::empty()]
    } else {
        let prev = split_on(s.drop_last(), sep);
        if s.last() == sep {
            prev.push(Seq::<char>::empty())
        } else {
            prev.update(prev.len() - 1, prev.last().push(s.last()))
        }
    }
}

/// The pieces `parts` put back together with `sep` between them.
pub open spec fn join_with(parts: Seq<Seq<char>>, sep: char) -> Seq<char>
    decreases parts.len(),
{
    if parts.len() == 0 {
        Seq::empty()
    } else if parts.len() == 1 {
        parts[0]
    } else {
        join_with(parts.drop_last(), sep) + seq![sep] + parts.last()
    }
}

proof fn lemma_join_extend_last(parts: Seq<Seq<char>>, sep: char, c: char)
    requires
        parts.len() >= 1,
    ensures
        join_with(parts.update(parts.len() - 1, parts.last().push(c)), sep) == join_with(parts, sep).push(c),
{
    let q = parts.update(parts.len() - 1, parts.last().push(c));
    if parts.len() >= 2 {
        assert(q.drop_last() =~= parts.drop_last());
    }
}

/// Splitting at `sep` and joining the pieces again with `sep` gives back the
/// text, and no piece holds `sep`.
pub proof fn lemma_split_join(s: Seq<char>, sep: char)
    ensures
        join_with(split_on(s, sep), sep) == s,
        forall|i: int| 0 <= i < split_on(s, sep).len() ==> !(#[trigger] split_on(s, sep)[i]).contains(sep),
    decreases s.len(),
{
    if s.len() > 0 {
        let prev = split_on(s.drop_last(), sep);
        lemma_split_join(s.drop_last(), sep);
        lemma_split_nonempty(s.drop_last(), sep);
        if s.last() == sep {
            assert(prev.push(Seq::<char>::empty()).drop_last() =~= prev);
            assert(join_with(split_on(s, sep), sep) =~= s);
            assert forall|i: int| 0 <= i < split_on(s, sep).len() implies !(#[trigger] split_on(s, sep)[i]).contains(sep) by {
                if i < prev.len() {
                    assert(split_on(s, sep)[i] == prev[i]);
                } else {
                    assert(split_on(s, sep)[i] =~= Seq::<char>::empty());
                }
            }
        } else {
            lemma_join_extend_last(prev, sep, s.last());
            assert(s.drop_last().push(s.last()) =~= s);
            assert forall|i: int| 0 <= i < split_on(s, sep).len() implies !(#[trigger] split_on(s, sep)[i]).contains(sep) by {
                if i < prev.len() - 1 {
                    assert(split_on(s, sep)[i] == prev[i]);
                } else {
                    let w = prev[prev.len() - 1];
                    assert(split_on(s, sep)[i] == w.push(s.last()));
                    if w.push(s.last()).contains(sep) {
                        let k = choose|k: int| 0 <= k < w.push(s.last()).len() && w.push(s.last())[k] == sep;
                        assert(w[k] == sep);
                    }
                }
            }
        }
    }
}

/// Text without `sep` is a single piece.
pub proof fn lemma_split_single(x: Seq<char>, sep: char)
    requires
        !x.contains(sep),
    ensures
        split_on(x, sep) == seq![x],
    decreases x.len(),
{
    if x.len() > 0 {
        assert(!x.drop_last().contains(sep)) by {
            if x.drop_last().contains(sep) {
                let k = choose|k: int| 0 <= k < x.drop_last().len() && x.drop_last()[k] == sep;
                assert(x[k] == sep);
            }
        }
        lemma_split_single(x.drop_last(), sep);
        assert(x[x.len() - 1] != sep);
        assert(x.drop_last().push(x.last()) =~= x);
    } else {
        assert(x =~= Seq::<char>::empty());
    }
}

/// Text without `sep` in front of `y` joins the first piece of `y`, and the
/// number of pieces stays that of `y`.
pub proof fn lemma_split_prefix(x: Seq<char>, y: Seq<char>, sep: char)
    requires
        !x.contains(sep),
    ensures
        split_on(x + y, sep)[0] == x + split_on(y, sep)[0],
        split_on(x + y, sep).len() == split_on(y, sep).len(),
    decreases y.len(),
{
    if y.len() == 0 {
        lemma_split_single(x, sep);
        assert(x + y =~= x);
        assert(x + Seq::<char>::empty() =~= x);
    } else {
        lemma_split_prefix(x, y.drop_last(), sep);
        assert((x + y).drop_last() =~= x + y.drop_last());
        assert((x + y).last() == y.last());
        lemma_split_nonempty(y.drop_last(), sep);
        let a = split_on(x + y.drop_last(), sep);
        let b = split_on(y.drop_last(), sep);
        if y.last() != sep && b.len() == 1 {
            assert(a[0].push(y.last()) =~= x + b[0].push(y.last()));
        }
    }
}

/// Splitting at an occurrence of `sep` splits the two sides apart.
pub proof fn lemma_split_concat(x: Seq<char>, sep: char, y: Seq<char>)
    ensures
        split_on(x + seq![sep] + y, sep) == split_on(x, sep) + split_on(y, sep),
    decreases y.len(),
{
    let z = x + seq![sep] + y;
    if y.len() == 0 {
        assert(z.drop_last() =~= x);
        assert(z == x + seq![sep]);
        assert(split_on(x, sep) + split_on(y, sep) =~= split_on(x, sep).push(Seq::<char>::empty()));
    } else {
        lemma_split_concat(x, sep, y.drop_last());
        assert(z.drop_last() =~= x + seq![sep] + y.drop_last());
        assert(z.last() == y.last());
        lemma_split_nonempty(y.drop_last(), sep);
        let a = split_on(x, sep);
        let b = split_on(y.drop_last(), sep);
        if y.last() == sep {
            assert((a + b).push(Seq::<char>::empty()) =~= a + b.push(Seq::<char>::empty()));
        } else {
            assert((a + b).update((a + b).len() - 1, (a + b).last().push(y.last()))
                =~= a + b.update(b.len() - 1, b.last().push(y.last())));
        }
    }
}

/// The views of a sequence of strings.
pub open spec fn views(v: Seq<String>) -> Seq<Seq<char>> {
    v.map_values(|p: String| p@)
}

/// Appends one character to a string.
/// Calls `String::push`, which the standard library documents as appending
/// the given char to the end of the string.
#[verifier::external_body]
pub(crate) fn push_char(s: &mut String, c: char)
    ensures
        final(s)@ == old(s)@.push(c),
{
    s.push(c);
}

/// Splitting always gives at least one piece.
pub proof fn lemma_split_nonempty(s: Seq<char>, sep: char)
    ensures
        split_on(s, sep).len() >= 1,
    decreases s.len(),
{
    if s.len() > 0 {
        lemma_split_nonempty(s.drop_last(), sep);
    }
}

/// Splits `s` at every occurrence of `sep`.
pub fn split_chars(s: &str, sep: char) -> (parts: Vec<String>)
    ensures
        views(parts@) == split_on(s@, sep),
{
    let mut done: Vec<String> = Vec::new();
    let mut cur = String::new();
    let ghost mut seen: Seq<char> = Seq::empty();
    for c in iter: s.chars()
        invariant
            seen == s@.take(iter.index() as int),
            iter.seq() == s@,
            views(done@).push(cur@) == split_on(seen, sep),
    {
        proof {
            lemma_split_nonempty(seen, sep);
        }
        let ghost before = seen;
        proof {
            seen = seen.push(c);
            assert(seen.drop_last() == before);
        }
        if c == sep {
            let finished = cur;
            done.push(finished);
            cur = String::new();
            assert(views(done@).push(cur@) =~= views(done@.drop_last()).push(finished@).push(Seq::<char>::empty()));
        } else {
            let ghost old_cur = cur@;
            push_char(&mut cur, c);
            assert(views(done@).push(cur@) =~= views(done@).push(old_cur).update(views(done@).len() as int, old_cur.push(c)));
        }
    }
    assert(seen == s@);
    done.push(cur);
    assert(views(done@) =~= views(done@.drop_last()).push(done@.last()@));
    done
}


/// `s` with every occurrence of `c` taken out, as `str::replace(c, "")` gives.
pub open spec fn remove_all(s: Seq<char>, c: char) -> Seq<char>
    decreases s.len(),
{
    if s.len() == 0 {
        s
    } else if s.last() == c {
        remove_all(s.drop_last(), c)
    } else {
        remove_all(s.drop_last(), c).push(s.last())
    }
}

/// `a` followed by `b`, as a new string.
pub fn concatenate(a: &str, b: &str) -> (res: String)
    ensures
        res@ == a@ + b@,
{
    let mut res = a.to_owned();
    res.append(b);
    res
}

/// Removes every occurrence of `c` from `s`.
pub fn remove_char(s: &str, c: char) -> (res: String)
    ensures
        res@ == remove_all(s@, c),
{
    let mut res = String::new();
    let ghost mut seen: Seq<char> = Seq::empty();
    for x in iter: s.chars()
        invariant
            seen == s@.take(iter.index() as int),
            iter.seq() == s@,
            res@ == remove_all(seen, c),
    {
        let ghost before = seen;
        proof {
            seen = seen.push(x);
            assert(seen.drop_last() == before);
        }
        if x != c {
            push_char(&mut res, x);
        }
    }
    assert(seen == s@);
    res
}

/// The characters of `s`, one per element.
pub fn to_chars(s: &str) -> (v: Vec<char>)
    ensures
        v@ == s@,
{
    let mut v: Vec<char> = Vec::new();
    for x in iter: s.chars()
        invariant
            v@ == s@.take(iter.index() as int),
            iter.seq() == s@,
    {
        v.push(x);
    }
    assert(v@ =~= s@);
    v
}

/// The string made of the characters `v[from..to]`.
pub fn string_of_range(v: &Vec<char>, from: usize, to: usize) -> (res: String)
    requires
        from <= to <= v.len(),
    ensures
        res@ == v@.subrange(from as int, to as int),
{
    let mut res = String::new();
    let mut i = from;
    while i < to
        invariant
            from <= i <= to <= v.len(),
            res@ == v@.subrange(from as int, i as int),
        decreases to - i,
    {
        push_char(&mut res, v[i]);
        assert(v@.subrange(from as int, i + 1) =~= v@.subrange(from as int, i as int).push(v@[i as int]));
        i = i + 1;
    }
    res
}

/// Whether `needle` occurs in `hay` as a contiguous run.
pub open spec fn contains_seq(hay: Seq<char>, needle: Seq<char>) -> bool {
    exists|k: int| 0 <= k && k + needle.len() <= hay.len() && #[trigger] hay.subrange(k, k + needle.len()) == needle
}

/// A run found in `a` is still found once more text follows `a`.
pub proof fn lemma_contains_append_right(a: Seq<char>, b: Seq<char>, needle: Seq<char>)
    requires
        contains_seq(a, needle),
    ensures
        contains_seq(a + b, needle),
{
    let k = choose|k: int| 0 <= k && k + needle.len() <= a.len() && #[trigger] a.subrange(k, k + needle.len()) == needle;
    assert((a + b).subrange(k, k + needle.len()) =~= a.subrange(k, k + needle.len()));
}

/// A run found in `b` is still found once more text precedes `b`.
pub proof fn lemma_contains_append_left(a: Seq<char>, b: Seq<char>, needle: Seq<char>)
    requires
        contains_seq(b, needle),
    ensures
        contains_seq(a + b, needle),
{
    let k = choose|k: int| 0 <= k && k + needle.len() <= b.len() && #[trigger] b.subrange(k, k + needle.len()) == needle;
    assert((a + b).subrange(a.len() + k, a.len() + k + needle.len()) =~= b.subrange(k, k + needle.len()));
}

/// Every text contains itself.
pub proof fn lemma_contains_self(a: Seq<char>)
    ensures
        contains_seq(a, a),
{
    assert(a.subrange(0int, 0int + a.len()) =~= a);
}

/// Whether `hay` ends with `needle`.
pub open spec fn ends_with_seq(hay: Seq<char>, needle: Seq<char>) -> bool {
    needle.len() <= hay.len() && hay.subrange(hay.len() - needle.len(), hay.len() as int) == needle
}

/// Whether `needle` occurs in `hay` starting at position `k`.
pub fn matches_at(hay: &Vec<char>, needle: &Vec<char>, k: usize) -> (res: bool)
    requires
        k <= hay.len(),
    ensures
        res == (k + needle.len() <= hay.len() && hay@.subrange(k as int, k + needle.len()) == needle@),
{
    if needle.len() > hay.len() - k {
        return false;
    }
    let mut j: usize = 0;
    while j < needle.len()
        invariant
            k + needle.len() <= hay.len(),
            j <= needle.len(),
            forall|t: int| 0 <= t < j ==> hay@[k + t] == needle@[t],
        decreases needle.len() - j,
    {
        if hay[k + j] != needle[j] {
            assert(hay@.subrange(k as int, k + needle.len())[j as int] != needle@[j as int]);
            return false;
        }
        j = j + 1;
    }
    assert(hay@.subrange(k as int, k + needle.len()) =~= needle@);
    true
}

/// Whether `needle` occurs anywhere in `hay`, as `str::contains` answers.
pub fn contains_chars(hay: &Vec<char>, needle: &Vec<char>) -> (res: bool)
    ensures
        res == contains_seq(hay@, needle@),
{
    if needle.len() == 0 {
        assert(hay@.subrange(0int, 0int + needle@.len()) =~= needle@);
        return true;
    }
    if needle.len() > hay.len() {
        return false;
    }
    let last = hay.len() - needle.len();
    let mut k: usize = 0;
    while k <= last
        invariant
            needle@.len() >= 1,
            last == hay@.len() - needle@.len(),
            last < usize::MAX,
            k <= last + 1,
            forall|t: int| 0 <= t < k ==> #[trigger] hay@.subrange(t, t + needle@.len()) != needle@,
        decreases last + 1 - k,
    {
        if matches_at(hay, needle, k) {
            return true;
        }
        k = k + 1;
    }
    false
}

/// Whether `hay` ends with `needle`, as `str::ends_with` answers.
pub fn ends_with_chars(hay: &Vec<char>, needle: &Vec<char>) -> (res: bool)
    ensures
        res == ends_with_seq(hay@, needle@),
{
    if needle.len() > hay.len() {
        return false;
    }
    matches_at(hay, needle, hay.len() - needle.len())
}


/// Whether a character has the Unicode `White_Space` property, the set that
/// `char::is_whitespace` tests: tab to carriage return (U+0009 to U+000D),
/// space, U+0085, U+00A0, U+1680, U+2000 to U+200A, U+2028, U+2029, U+202F,
/// U+205F and U+3000.
pub open spec fn is_white_space(c: char) -> bool {
    let u = c as u32;
    ||| 0x9 <= u <= 0xD
    ||| u == 0x20
    ||| u == 0x85
    ||| u == 0xA0
    ||| u == 0x1680
    ||| 0x2000 <= u <= 0x200A
    ||| u == 0x2028
    ||| u == 0x2029
    ||| u == 0x202F
    ||| u == 0x205F
    ||| u == 0x3000
}

/// Whether `c` is white space, as `char::is_whitespace` answers.
pub fn char_is_whitespace(c: char) -> (res: bool)
    ensures
        res == is_white_space(c),
{
    let u = c as u32;
    (0x9 <= u && u <= 0xD) || u == 0x20 || u == 0x85 || u == 0xA0 || u == 0x1680
        || (0x2000 <= u && u <= 0x200A) || u == 0x2028 || u == 0x2029 || u == 0x202F
        || u == 0x205F || u == 0x3000
}

/// `s` without its leading white space.
pub open spec fn trim_start_seq(s: Seq<char>) -> Seq<char>
    decreases s.len(),
{
    if s.len() > 0 && is_white_space(s[0]) {
        trim_start_seq(s.drop_first())
    } else {
        s
    }
}

/// `s` without its trailing white space.
pub open spec fn trim_end_seq(s: Seq<char>) -> Seq<char>
    decreases s.len(),
{
    if s.len() > 0 && is_white_space(s.last()) {
        trim_end_seq(s.drop_last())
    } else {
        s
    }
}

/// `s` without leading and trailing white space, as `str::trim` gives it.
pub open spec fn trim_seq(s: Seq<char>) -> Seq<char> {
    trim_end_seq(trim_start_seq(s))
}

/// Removes leading and trailing white space.
pub fn trim(s: &str) -> (res: String)
    ensures
        res@ == trim_seq(s@),
{
    let v = to_chars(s);
    let n = v.len();
    let mut i: usize = 0;
    assert(v@.subrange(0, n as int) =~= v@);
    while i < n && char_is_whitespace(v[i])
        invariant
            n == v@.len(),
            i <= n,
            trim_start_seq(v@) == trim_start_seq(v@.subrange(i as int, n as int)),
        decreases n - i,
    {
        assert(v@.subrange(i as int, n as int).drop_first() =~= v@.subrange(i + 1, n as int));
        i = i + 1;
    }
    let ghost t = v@.subrange(i as int, n as int);
    assert(trim_start_seq(v@) == t) by {
        if i < n {
            assert(!is_white_space(t[0]));
        } else {
            assert(t.len() == 0);
        }
    }
    let mut j: usize = n;
    while j > i && char_is_whitespace(v[j - 1])
        invariant
            n == v@.len(),
            i <= j <= n,
            t == v@.subrange(i as int, n as int),
            trim_end_seq(t) == trim_end_seq(v@.subrange(i as int, j as int)),
        decreases j,
    {
        assert(v@.subrange(i as int, j as int).drop_last() =~= v@.subrange(i as int, j - 1));
        j = j - 1;
    }
    let ghost u = v@.subrange(i as int, j as int);
    assert(trim_end_seq(u) == u) by {
        if i < j {
            assert(u.last() == v@[j - 1]);
            assert(!is_white_space(u.last()));
        }
    }
    string_of_range(&v, i, j)
}

/// Whether `c` is an ASCII decimal digit.
pub open spec fn is_digit(c: char) -> bool {
    '0' <= c && c <= '9'
}

/// The value of the decimal digit `c`.
pub open spec fn digit_value(c: char) -> int {
    c as int - '0' as int
}

/// Whether every character of `s` is a decimal digit.
pub open spec fn all_digits(s: Seq<char>) -> bool {
    forall|i: int| 0 <= i < s.len() ==> #[trigger] is_digit(s[i])
}

/// The number that the decimal digits `s` spell.
pub open spec fn decimal_value(s: Seq<char>) -> int
    decreases s.len(),
{
    if s.len() == 0 {
        0
    } else {
        10 * decimal_value(s.drop_last()) + digit_value(s.last())
    }
}

/// What `str::parse::<i32>` gives for `s`: an optional `+` or `-`, then one
/// or more decimal digits whose value fits in an `i32`; anything else is
/// refused.
pub open spec fn parse_i32_spec(s: Seq<char>) -> Option<i32> {
    if s.len() == 0 {
        None
    } else {
        let negative = s[0] == '-';
        let digits = if s[0] == '-' || s[0] == '+' { s.drop_first() } else { s };
        if digits.len() == 0 || !all_digits(digits) {
            None
        } else {
            let v = if negative { -decimal_value(digits) } else { decimal_value(digits) };
            if i32::MIN <= v && v <= i32::MAX {
                Some(v as i32)
            } else {
                None
            }
        }
    }
}

proof fn lemma_decimal_value_nonneg(s: Seq<char>)
    requires
        all_digits(s),
    ensures
        decimal_value(s) >= 0,
    decreases s.len(),
{
    if s.len() > 0 {
        assert(all_digits(s.drop_last())) by {
            assert forall|i: int| 0 <= i < s.drop_last().len() implies #[trigger] is_digit(s.drop_last()[i]) by {
                assert(is_digit(s[i]));
            }
        }
        lemma_decimal_value_nonneg(s.drop_last());
        assert(is_digit(s[s.len() - 1]));
    }
}

/// A non-empty run of the digits `0` to `9` (no sign) whose value fits in
/// an `i32` reads as that value.
pub proof fn lemma_parse_i32_digits(s: Seq<char>)
    requires
        s.len() > 0,
        forall|i: int| 0 <= i < s.len() ==> '0' <= #[trigger] s[i] && s[i] <= '9',
        decimal_value(s) <= i32::MAX,
    ensures
        parse_i32_spec(s) == Some(decimal_value(s) as i32),
{
    assert(all_digits(s));
    lemma_decimal_value_nonneg(s);
    assert('0' <= s[0] && s[0] <= '9');
}

/// Every single digit `0` to `9` reads as its value (`'0'` is 48).
pub proof fn lemma_parse_i32_single_digit(c: char)
    requires
        '0' <= c && c <= '9',
    ensures
        parse_i32_spec(seq![c]) == Some((c as int - 48) as i32),
{
    let s = seq![c];
    assert(s.drop_last() =~= Seq::<char>::empty());
    assert(s.last() == c);
    assert(decimal_value(Seq::<char>::empty()) == 0);
    assert(decimal_value(s) == digit_value(c));
    assert(('0' as int) == 48);
    assert forall|i: int| 0 <= i < s.len() implies '0' <= #[trigger] s[i] && s[i] <= '9' by {
        assert(s[i] == c);
    }
    lemma_parse_i32_digits(s);
}

/// Appending a digit to a run of digits multiplies its value by ten and
/// adds the digit, as long as the result fits.
pub proof fn lemma_parse_i32_append_digit(s: Seq<char>, c: char, x: i32)
    requires
        s.len() > 0,
        forall|i: int| 0 <= i < s.len() ==> '0' <= #[trigger] s[i] && s[i] <= '9',
        '0' <= c && c <= '9',
        parse_i32_spec(s) == Some(x),
        10 * x + (c as int - 48) <= i32::MAX,
    ensures
        parse_i32_spec(s.push(c)) == Some((10 * x + (c as int - 48)) as i32),
{
    assert(all_digits(s));
    lemma_decimal_value_nonneg(s);
    lemma_parse_i32_digits(s);
    let t = s.push(c);
    assert(t.drop_last() =~= s);
    assert forall|i: int| 0 <= i < t.len() implies '0' <= #[trigger] t[i] && t[i] <= '9' by {
        if i < s.len() {
            assert(t[i] == s[i]);
        }
    }
    lemma_parse_i32_digits(t);
}

/// A `+` in front changes nothing, and a `-` in front negates.
pub proof fn lemma_parse_i32_sign(s: Seq<char>, x: i32)
    requires
        s.len() > 0,
        forall|i: int| 0 <= i < s.len() ==> '0' <= #[trigger] s[i] && s[i] <= '9',
        parse_i32_spec(s) == Some(x),
    ensures
        parse_i32_spec(seq!['+'] + s) == Some(x),
        parse_i32_spec(seq!['-'] + s) == Some((-x) as i32),
{
    assert(all_digits(s));
    lemma_decimal_value_nonneg(s);
    assert((seq!['+'] + s).drop_first() =~= s);
    assert((seq!['-'] + s).drop_first() =~= s);
    assert('0' <= s[0] && s[0] <= '9');
}

/// The largest accumulated magnitude that `parse_i32` keeps exactly.
const MAGNITUDE_CAP: u64 = 2147483649;

/// Parses a decimal `i32` as `str::parse::<i32>` does.
pub fn parse_i32(s: &str) -> (res: Option<i32>)
    ensures
        res == parse_i32_spec(s@),
{
    let v = to_chars(s);
    let n = v.len();
    if n == 0 {
        return None;
    }
    let negative = v[0] == '-';
    let start: usize = if v[0] == '-' || v[0] == '+' { 1 } else { 0 };
    let ghost digits = if v@[0] == '-' || v@[0] == '+' { v@.drop_first() } else { v@ };
    assert(digits =~= v@.subrange(start as int, n as int));
    if start == n {
        return None;
    }
    let mut acc: u64 = 0;
    let mut i: usize = start;
    while i < n
        invariant
            n == v@.len(),
            v@ == s@,
            negative == (v@[0] == '-'),
            start == (if v@[0] == '-' || v@[0] == '+' { 1int } else { 0int }),
            start <= i <= n,
            digits == v@.subrange(start as int, n as int),
            all_digits(v@.subrange(start as int, i as int)),
            decimal_value(v@.subrange(start as int, i as int)) >= 0,
            acc as int == if decimal_value(v@.subrange(start as int, i as int)) < MAGNITUDE_CAP {
                decimal_value(v@.subrange(start as int, i as int))
            } else {
                MAGNITUDE_CAP as int
            },
        decreases n - i,
    {
        let c = v[i];
        let ghost prefix = v@.subrange(start as int, i as int);
        let ghost next = v@.subrange(start as int, i + 1);
        assert(next.drop_last() =~= prefix);
        assert(next.last() == c);
        if !('0' <= c && c <= '9') {
            assert(digits[i - start] == c);
            assert(!is_digit(digits[i - start]));
            assert(!all_digits(digits));
            assert(parse_i32_spec(s@) == parse_i32_spec(v@));
            return None;
        }
        assert(all_digits(next)) by {
            assert forall|k: int| 0 <= k < next.len() implies #[trigger] is_digit(next[k]) by {
                if k < prefix.len() {
                    assert(next[k] == prefix[k]);
                }
            }
        }
        let d: u64 = (c as u64) - ('0' as u64);
        assert(d as int == digit_value(c));
        if acc >= MAGNITUDE_CAP {
            acc = MAGNITUDE_CAP;
        } else {
            let grown = acc * 10 + d;
            acc = if grown >= MAGNITUDE_CAP { MAGNITUDE_CAP } else { grown };
        }
        i = i + 1;
    }
    assert(v@.subrange(start as int, n as int) == digits);
    if negative {
        if acc <= 2147483648 {
            let m: i64 = acc as i64;
            let r: i64 = -m;
            Some(r as i32)
        } else {
            None
        }
    } else {
        if acc <= 2147483647 {
            Some(acc as i32)
        } else {
            None
        }
    }
}

} // verus!
