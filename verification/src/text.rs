use vstd::prelude::*;

verus! {

broadcast use vstd::string::group_string_axioms;

/// Name for what `char::is_alphanumeric` returns for a character (the Unicode
/// `Alphabetic` or `Numeric` property).
pub uninterp spec fn unicode_alphanumeric(c: char) -> bool;

/// Name for the characters that `char::to_lowercase` yields for a character.
pub uninterp spec fn unicode_lowercase(c: char) -> Seq<char>;

/// Name for what `char::is_whitespace` returns for a character (the Unicode
/// `White_Space` property).
pub uninterp spec fn unicode_whitespace(c: char) -> bool;

/// Name for the characters of the string that `String::from_utf16_lossy` builds.
pub uninterp spec fn utf16_lossy(units: Seq<u16>) -> Seq<char>;

pub open spec fn is_ascii_char(c: char) -> bool {
    (c as u32) < 128
}

pub open spec fn ascii_alphanumeric(c: char) -> bool {
    ||| 48 <= (c as u32) <= 57
    ||| 65 <= (c as u32) <= 90
    ||| 97 <= (c as u32) <= 122
}

pub open spec fn ascii_whitespace(c: char) -> bool {
    9 <= (c as u32) <= 13 || (c as u32) == 32
}

/// `c` with an ASCII capital letter replaced by its small letter.
pub open spec fn ascii_lower(c: char) -> char {
    if 65 <= (c as u32) <= 90 {
        ((c as u32) + 32) as char
    } else {
        c
    }
}

/// `s` with every ASCII capital letter replaced by its small letter.
pub open spec fn ascii_lowercase(s: Seq<char>) -> Seq<char> {
    s.map_values(|c: char| ascii_lower(c))
}

/// A UTF-16 code unit that stands alone for the character of the same number.
pub open spec fn is_bmp_scalar(u: u16) -> bool {
    (u as int) < 0xD800 || 0xE000 <= (u as int)
}

/// `char::is_alphanumeric`: the result is named; on ASCII characters it is the ASCII
/// letters and digits.
#[verifier::external_body]
fn char_is_alphanumeric(c: char) -> (r: bool)
    ensures
        r == unicode_alphanumeric(c),
        is_ascii_char(c) ==> (r == ascii_alphanumeric(c)),
{
    c.is_alphanumeric()
}

/// `char::to_lowercase`, collected: the result is named; an ASCII character gives the one
/// character `ascii_lower(c)`.
#[verifier::external_body]
fn char_to_lowercase(c: char) -> (r: Vec<char>)
    ensures
        r@ == unicode_lowercase(c),
        is_ascii_char(c) ==> (r@ == seq![ascii_lower(c)]),
{
    c.to_lowercase().collect()
}

/// `char::is_whitespace`: the result is named; on ASCII characters it is tab, line feed,
/// vertical tab, form feed, carriage return and space.
#[verifier::external_body]
fn char_is_whitespace(c: char) -> (r: bool)
    ensures
        r == unicode_whitespace(c),
        is_ascii_char(c) ==> (r == ascii_whitespace(c)),
{
    c.is_whitespace()
}

/// `String::from_iter` over characters: the string holds exactly these characters.
#[verifier::external_body]
pub(crate) fn string_from_chars(chars: &[char]) -> (r: String)
    ensures
        r@ == chars@,
{
    chars.iter().collect()
}

/// `String::from_utf16_lossy`: the result is named; code units that each stand for a
/// character of their own decode to those characters.
#[verifier::external_body]
pub(crate) fn string_from_utf16_lossy(units: &[u16]) -> (r: String)
    ensures
        r@ == utf16_lossy(units@),
        (forall|i: int| 0 <= i < units@.len() ==> is_bmp_scalar(#[trigger] units@[i])) ==> r@
            == units@.map_values(|u: u16| u as char),
{
    String::from_utf16_lossy(units)
}

/// The characters of a string slice, in order.
pub fn str_chars(s: &str) -> (r: Vec<char>)
    ensures
        r@ == s@,
{
    let mut out: Vec<char> = Vec::new();
    for c in it: s.chars()
        invariant
            out@ == it.seq().take(it.index()),
            it.seq() == s@,
    {
        out.push(c);
    }
    out
}

/// `ascii_lower` on one character.
pub fn char_ascii_lower(c: char) -> (r: char)
    ensures
        r == ascii_lower(c),
{
    let code: u32 = c as u32;
    if 65 <= code && code <= 90 {
        let lowered: u8 = (code + 32) as u8;
        lowered as char
    } else {
        c
    }
}

/// The characters of `s` with ASCII capitals lowered (`str::to_ascii_lowercase`).
pub fn chars_ascii_lowercase(s: &[char]) -> (r: Vec<char>)
    ensures
        r@ == ascii_lowercase(s@),
{
    let mut out: Vec<char> = Vec::new();
    let mut i: usize = 0;
    while i < s.len()
        invariant
            i <= s@.len(),
            out@ == ascii_lowercase(s@.take(i as int)),
        decreases s@.len() - i,
    {
        out.push(char_ascii_lower(s[i]));
        assert(s@.take(i as int + 1) == s@.take(i as int).push(s@[i as int]));
        i += 1;
    }
    assert(s@.take(s@.len() as int) == s@);
    out
}

/// `needle` stands in `hay` from position `i` on.
pub open spec fn occurs_at(hay: Seq<char>, needle: Seq<char>, i: int) -> bool {
    0 <= i && i + needle.len() <= hay.len() && hay.subrange(i, i + needle.len()) == needle
}

/// `needle` is a substring of `hay` (`str::contains`); the empty sequence is a substring of
/// every sequence.
pub open spec fn has_substring(hay: Seq<char>, needle: Seq<char>) -> bool {
    exists|i: int| occurs_at(hay, needle, i)
}

fn occurs_at_exec(hay: &[char], needle: &[char], i: usize) -> (r: bool)
    requires
        i + needle@.len() <= hay@.len(),
    ensures
        r == occurs_at(hay@, needle@, i as int),
{
    let n: usize = hay.len();
    let mut j: usize = 0;
    while j < needle.len()
        invariant
            n == hay@.len(),
            i + needle@.len() <= hay@.len(),
            j <= needle@.len(),
            forall|k: int| 0 <= k < j ==> hay@[i + k] == needle@[k],
        decreases needle@.len() - j,
    {
        if hay[i + j] != needle[j] {
            assert(hay@.subrange(i as int, i + needle@.len())[j as int] != needle@[j as int]);
            return false;
        }
        j += 1;
    }
    assert(hay@.subrange(i as int, i + needle@.len()) =~= needle@);
    true
}

/// Whether `needle` is a substring of `hay`.
pub fn chars_contain(hay: &[char], needle: &[char]) -> (r: bool)
    ensures
        r == has_substring(hay@, needle@),
{
    if needle.len() == 0 {
        assert(hay@.subrange(0, 0) =~= needle@);
        assert(occurs_at(hay@, needle@, 0));
        return true;
    }
    if needle.len() > hay.len() {
        assert forall|i: int| !occurs_at(hay@, needle@, i) by {}
        return false;
    }
    let n: usize = hay.len();
    let last: usize = n - needle.len();
    let mut i: usize = 0;
    while i <= last
        invariant
            n == hay@.len(),
            last + needle@.len() == hay@.len(),
            needle@.len() >= 1,
            i <= last + 1,
            forall|k: int| 0 <= k < i ==> !occurs_at(hay@, needle@, k),
        decreases last + 1 - i,
    {
        if occurs_at_exec(hay, needle, i) {
            return true;
        }
        i += 1;
    }
    assert forall|k: int| !occurs_at(hay@, needle@, k) by {
        if 0 <= k < i {
        }
    }
    false
}

/// The characters that `normalize` keeps: each alphanumeric character of `s`, lowered by
/// `char::to_lowercase`, in order.
pub open spec fn normalized(s: Seq<char>) -> Seq<char>
    decreases s.len(),
{
    if s.len() == 0 {
        seq![]
    } else {
        normalized(s.drop_last()) + (if unicode_alphanumeric(s.last()) {
            unicode_lowercase(s.last())
        } else {
            seq![]
        })
    }
}

/// Alphanumeric characters of `s`, lowercased.
pub fn normalize_chars(s: &[char]) -> (r: Vec<char>)
    ensures
        r@ == normalized(s@),
{
    let mut out: Vec<char> = Vec::new();
    let mut i: usize = 0;
    while i < s.len()
        invariant
            i <= s@.len(),
            out@ == normalized(s@.take(i as int)),
        decreases s@.len() - i,
    {
        let c: char = s[i];
        assert(s@.take(i as int + 1).drop_last() == s@.take(i as int));
        if char_is_alphanumeric(c) {
            let mut lowered: Vec<char> = char_to_lowercase(c);
            out.append(&mut lowered);
        }
        i += 1;
    }
    assert(s@.take(s@.len() as int) == s@);
    out
}

/// Keeps the alphanumeric characters of `value`, lowercased, so that titles and artists
/// compare without regard to case, spacing and punctuation.
pub fn normalize(value: &str) -> (r: String)
    ensures
        r@ == normalized(value@),
{
    let chars: Vec<char> = str_chars(value);
    let kept: Vec<char> = normalize_chars(chars.as_slice());
    string_from_chars(kept.as_slice())
}

/// `s` without its leading whitespace.
pub open spec fn trim_start(s: Seq<char>) -> Seq<char>
    decreases s.len(),
{
    if s.len() > 0 && unicode_whitespace(s[0]) {
        trim_start(s.drop_first())
    } else {
        s
    }
}

/// `s` without its trailing whitespace.
pub open spec fn trim_end(s: Seq<char>) -> Seq<char>
    decreases s.len(),
{
    if s.len() > 0 && unicode_whitespace(s.last()) {
        trim_end(s.drop_last())
    } else {
        s
    }
}

/// `s` without leading and trailing whitespace (`str::trim`).
pub open spec fn trimmed(s: Seq<char>) -> Seq<char> {
    trim_end(trim_start(s))
}

/// `s` with leading and trailing whitespace removed.
pub fn trim_chars(s: &[char]) -> (r: Vec<char>)
    ensures
        r@ == trimmed(s@),
{
    let n: usize = s.len();
    let mut start: usize = 0;
    assert(s@.subrange(0, n as int) =~= s@);
    while start < n && char_is_whitespace(s[start])
        invariant
            n == s@.len(),
            start <= n,
            trim_start(s@) == trim_start(s@.subrange(start as int, n as int)),
        decreases n - start,
    {
        assert(s@.subrange(start as int, n as int).drop_first() =~= s@.subrange(
            start + 1,
            n as int,
        ));
        start += 1;
    }
    assert(trim_start(s@) == s@.subrange(start as int, n as int));
    let mut end: usize = n;
    while end > start && char_is_whitespace(s[end - 1])
        invariant
            n == s@.len(),
            start <= end <= n,
            trim_start(s@) == s@.subrange(start as int, n as int),
            trimmed(s@) == trim_end(s@.subrange(start as int, end as int)),
        decreases end - start,
    {
        assert(s@.subrange(start as int, end as int).drop_last() =~= s@.subrange(
            start as int,
            end - 1,
        ));
        end -= 1;
    }
    let mut out: Vec<char> = Vec::new();
    let mut k: usize = start;
    while k < end
        invariant
            n == s@.len(),
            start <= k <= end <= n,
            out@ == s@.subrange(start as int, k as int),
        decreases end - k,
    {
        out.push(s[k]);
        assert(s@.subrange(start as int, k + 1) =~= s@.subrange(start as int, k as int).push(
            s@[k as int],
        ));
        k += 1;
    }
    out
}

/// Whether `s` holds nothing but whitespace (`s.trim().is_empty()`).
pub fn is_blank(s: &str) -> (r: bool)
    ensures
        r == (trimmed(s@).len() == 0),
{
    let chars: Vec<char> = str_chars(s);
    let t: Vec<char> = trim_chars(chars.as_slice());
    t.len() == 0
}

/// The parts written one after another with `sep` between each two (`join`).
pub open spec fn joined(parts: Seq<Seq<char>>, sep: Seq<char>) -> Seq<char>
    decreases parts.len(),
{
    if parts.len() == 0 {
        seq![]
    } else if parts.len() == 1 {
        parts[0]
    } else {
        joined(parts.drop_last(), sep) + sep + parts.last()
    }
}

/// The views of a list of strings.
pub open spec fn string_views(parts: Seq<String>) -> Seq<Seq<char>> {
    parts.map_values(|p: String| p@)
}

/// Joins strings with a separator.
pub fn join_strings(parts: &Vec<String>, sep: &str) -> (r: String)
    ensures
        r@ == joined(string_views(parts@), sep@),
{
    let sep_chars: Vec<char> = str_chars(sep);
    let mut out: Vec<char> = Vec::new();
    let mut i: usize = 0;
    while i < parts.len()
        invariant
            i <= parts@.len(),
            sep_chars@ == sep@,
            out@ == joined(string_views(parts@).take(i as int), sep@),
        decreases parts@.len() - i,
    {
        let mut piece: Vec<char> = str_chars(parts[i].as_str());
        assert(string_views(parts@).take(i + 1).drop_last() =~= string_views(parts@).take(
            i as int,
        ));
        if i > 0 {
            let mut s: Vec<char> = sep_chars.clone();
            out.append(&mut s);
        }
        out.append(&mut piece);
        i += 1;
    }
    assert(string_views(parts@).take(parts@.len() as int) =~= string_views(parts@));
    string_from_chars(out.as_slice())
}

/// `s` with every occurrence of `from` replaced by `to`, matches taken left to right
/// without overlap (`str::replace`, for a non-empty `from`).
pub open spec fn replaced(s: Seq<char>, from: Seq<char>, to: Seq<char>) -> Seq<char>
    decreases s.len(),
{
    if s.len() == 0 || from.len() == 0 {
        s
    } else if from.len() <= s.len() && s.subrange(0, from.len() as int) == from {
        to + replaced(s.subrange(from.len() as int, s.len() as int), from, to)
    } else {
        seq![s[0]] + replaced(s.subrange(1, s.len() as int), from, to)
    }
}

/// Replaces every occurrence of `from` in `s` by `to`.
pub fn replace_chars(s: &[char], from: &[char], to: &[char]) -> (r: Vec<char>)
    requires
        from@.len() > 0,
    ensures
        r@ == replaced(s@, from@, to@),
{
    let n: usize = s.len();
    let mut out: Vec<char> = Vec::new();
    let mut i: usize = 0;
    assert(s@.subrange(0, n as int) =~= s@);
    while i < n
        invariant
            n == s@.len(),
            i <= n,
            from@.len() > 0,
            out@ + replaced(s@.subrange(i as int, n as int), from@, to@) == replaced(
                s@,
                from@,
                to@,
            ),
        decreases n - i,
    {
        let ghost rest: Seq<char> = s@.subrange(i as int, n as int);
        if from.len() <= n - i && occurs_at_exec(s, from, i) {
            assert(rest.subrange(0, from@.len() as int) =~= s@.subrange(
                i as int,
                i + from@.len(),
            ));
            assert(rest.subrange(from@.len() as int, rest.len() as int) =~= s@.subrange(
                i + from@.len(),
                n as int,
            ));
            let mut piece: Vec<char> = Vec::new();
            let mut k: usize = 0;
            while k < to.len()
                invariant
                    k <= to@.len(),
                    piece@ == to@.take(k as int),
                decreases to@.len() - k,
            {
                piece.push(to[k]);
                assert(to@.take(k + 1) =~= to@.take(k as int).push(to@[k as int]));
                k += 1;
            }
            assert(to@.take(to@.len() as int) =~= to@);
            assert(out@ + piece@ + replaced(s@.subrange(i + from@.len(), n as int), from@, to@)
                =~= out@ + replaced(rest, from@, to@));
            out.append(&mut piece);
            i = i + from.len();
        } else {
            proof {
                if from@.len() <= rest.len() {
                    assert(rest.subrange(0, from@.len() as int) =~= s@.subrange(
                        i as int,
                        i + from@.len(),
                    ));
                }
            }
            assert(rest.subrange(1, rest.len() as int) =~= s@.subrange(i + 1, n as int));
            assert(out@.push(s@[i as int]) + replaced(s@.subrange(i + 1, n as int), from@, to@)
                =~= out@ + replaced(rest, from@, to@));
            out.push(s[i]);
            i += 1;
        }
    }
    assert(s@.subrange(n as int, n as int) =~= Seq::<char>::empty());
    assert(out@ + Seq::<char>::empty() =~= out@);
    out
}

/// Whether two character sequences agree once ASCII capitals are lowered
/// (`str::eq_ignore_ascii_case`).
pub fn chars_eq_ignore_ascii_case(a: &[char], b: &[char]) -> (r: bool)
    ensures
        r == (ascii_lowercase(a@) == ascii_lowercase(b@)),
{
    if a.len() != b.len() {
        assert(ascii_lowercase(a@).len() != ascii_lowercase(b@).len());
        return false;
    }
    let mut i: usize = 0;
    while i < a.len()
        invariant
            a@.len() == b@.len(),
            i <= a@.len(),
            forall|k: int| 0 <= k < i ==> ascii_lower(a@[k]) == ascii_lower(b@[k]),
        decreases a@.len() - i,
    {
        if char_ascii_lower(a[i]) != char_ascii_lower(b[i]) {
            assert(ascii_lowercase(a@)[i as int] != ascii_lowercase(b@)[i as int]);
            return false;
        }
        i += 1;
    }
    assert(ascii_lowercase(a@) =~= ascii_lowercase(b@));
    true
}

pub open spec fn is_ascii_digit(c: char) -> bool {
    48 <= (c as u32) <= 57
}

/// `s` is non-empty and made of ASCII digits only.
pub open spec fn is_digit_string(s: Seq<char>) -> bool {
    s.len() > 0 && forall|i: int| 0 <= i < s.len() ==> is_ascii_digit(#[trigger] s[i])
}

/// Whether `s` is non-empty and made of ASCII digits only.
pub fn is_digits(s: &str) -> (r: bool)
    ensures
        r == is_digit_string(s@),
{
    let chars: Vec<char> = str_chars(s);
    if chars.len() == 0 {
        return false;
    }
    let mut i: usize = 0;
    while i < chars.len()
        invariant
            chars@ == s@,
            i <= chars@.len(),
            forall|k: int| 0 <= k < i ==> is_ascii_digit(#[trigger] chars@[k]),
        decreases chars@.len() - i,
    {
        let code: u32 = chars[i] as u32;
        if code < 48 || code > 57 {
            assert(!is_ascii_digit(s@[i as int]));
            return false;
        }
        i += 1;
    }
    true
}

/// The decimal digit character for `d` (`0 <= d < 10`).
pub open spec fn digit_char(d: nat) -> char {
    (48 + d) as char
}

/// The decimal digits of `n`, most significant first, without leading zeros.
pub open spec fn decimal_digits(n: nat) -> Seq<char>
    decreases n,
{
    if n < 10 {
        seq![digit_char(n)]
    } else {
        decimal_digits(n / 10) + seq![digit_char(n % 10)]
    }
}

/// The decimal form of an integer, as `i64::to_string` writes it.
pub open spec fn decimal(n: int) -> Seq<char> {
    if n < 0 {
        seq!['-'] + decimal_digits((-n) as nat)
    } else {
        decimal_digits(n as nat)
    }
}

fn digit(d: u64) -> (r: char)
    requires
        d < 10,
    ensures
        r == digit_char(d as nat),
{
    let code: u8 = 48 + (d as u8);
    code as char
}

/// Writes an integer in decimal.
pub fn i64_to_decimal(n: i64) -> (r: String)
    ensures
        r@ == decimal(n as int),
{
    let magnitude: u64 = if n < 0 {
        ((-(n + 1)) as u64) + 1
    } else {
        n as u64
    };
    let mut cur: u64 = magnitude;
    let mut acc: Vec<char> = Vec::new();
    while cur >= 10
        invariant
            decimal_digits(magnitude as nat) == decimal_digits(cur as nat) + acc@,
        decreases cur,
    {
        let d: char = digit(cur % 10);
        assert(decimal_digits(cur as nat) == decimal_digits((cur / 10) as nat) + seq![d]);
        assert(decimal_digits((cur / 10) as nat) + seq![d] + acc@ =~= decimal_digits(
            (cur / 10) as nat,
        ) + acc@.insert(0, d));
        acc.insert(0, d);
        cur = cur / 10;
    }
    let first: char = digit(cur);
    acc.insert(0, first);
    assert(decimal_digits(cur as nat) == seq![first]);
    assert(seq![first] + (acc@.subrange(1, acc@.len() as int)) =~= acc@);
    if n < 0 {
        acc.insert(0, '-');
        assert(acc@ =~= seq!['-'] + decimal_digits(magnitude as nat));
    }
    string_from_chars(acc.as_slice())
}

/// Whether two character sequences are equal.
pub fn chars_equal(a: &[char], b: &[char]) -> (r: bool)
    ensures
        r == (a@ == b@),
{
    if a.len() != b.len() {
        return false;
    }
    let mut i: usize = 0;
    while i < a.len()
        invariant
            a@.len() == b@.len(),
            i <= a@.len(),
            forall|k: int| 0 <= k < i ==> a@[k] == b@[k],
        decreases a@.len() - i,
    {
        if a[i] != b[i] {
            return false;
        }
        i += 1;
    }
    assert(a@ =~= b@);
    true
}

/// Whether two string slices hold the same characters.
pub fn str_eq(a: &str, b: &str) -> (r: bool)
    ensures
        r == (a@ == b@),
{
    let x: Vec<char> = str_chars(a);
    let y: Vec<char> = str_chars(b);
    chars_equal(x.as_slice(), y.as_slice())
}

/// A string holding the characters of a string slice (`str::to_string`).
pub fn owned(s: &str) -> (r: String)
    ensures
        r@ == s@,
{
    s.to_string()
}

/// Lowering ASCII capitals twice is lowering them once.
pub proof fn lemma_ascii_lowercase_idempotent(s: Seq<char>)
    ensures
        ascii_lowercase(ascii_lowercase(s)) == ascii_lowercase(s),
{
    assert forall|i: int| 0 <= i < s.len() implies #[trigger] ascii_lower(ascii_lower(s[i]))
        == ascii_lower(s[i]) by {
        let c = s[i];
        if 65 <= (c as u32) <= 90 {
            assert((((c as u32) + 32) as char) as u32 == (c as u32) + 32);
        }
    }
    assert(ascii_lowercase(ascii_lowercase(s)) =~= ascii_lowercase(s));
}

} // verus!
