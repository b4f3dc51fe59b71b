//! Character-level helpers on strings, each with an exact contract.
//!
//! Strings are modelled by their view, the sequence of their characters.
use vstd::prelude::*;

verus! {

/// Specifies `String::push` (std): it appends the one character `ch` at the end of the
/// string, as its documentation says. Taken on trust.
pub assume_specification[ String::push ](string: &mut String, ch: char)
    ensures
        final(string)@ == old(string)@.push(ch),
;

/// Specifies `String::push_str` (std): it appends the characters of `other` at the end
/// of the string, as its documentation says. Taken on trust.
pub assume_specification[ String::push_str ](string: &mut String, other: &str)
    ensures
        final(string)@ == old(string)@ + other@,
;

/// The characters of `s`, in order.
pub fn chars_of(s: &str) -> (v: Vec<char>)
    ensures
        v@ == s@,
{
    let mut v: Vec<char> = Vec::new();
    for c in it: s.chars()
        invariant
            v@ == it.seq().take(it.index() as int),
            it.seq() == s@,
    {
        v.push(c);
    }
    v
}

/// Whether two strings hold the same characters.
pub fn str_eq(a: &str, b: &str) -> (r: bool)
    ensures
        r == (a@ == b@),
{
    let va = chars_of(a);
    let vb = chars_of(b);
    if va.len() != vb.len() {
        return false;
    }
    let n = va.len();
    let mut i: usize = 0;
    while i < n
        invariant
            n == va@.len(),
            n == vb@.len(),
            va@ == a@,
            vb@ == b@,
            i <= n,
            forall|k: int| 0 <= k < i ==> va@[k] == vb@[k],
        decreases n - i,
    {
        if va[i] != vb[i] {
            return false;
        }
        i = i + 1;
    }
    assert(va@ =~= vb@);
    true
}

/// `s` with its first `prefix.len()` characters removed, when it starts with `prefix`.
pub fn strip_prefix<'a>(s: &'a str, prefix: &str) -> (r: Option<&'a str>)
    ensures
        r is Some <==> prefix@.is_prefix_of(s@),
        r matches Some(t) ==> t@ == s@.skip(prefix@.len() as int),
{
    let vs = chars_of(s);
    let vp = chars_of(prefix);
    let n = vp.len();
    if n > vs.len() {
        return None;
    }
    let mut i: usize = 0;
    while i < n
        invariant
            n == vp@.len(),
            n <= vs@.len(),
            vs@ == s@,
            vp@ == prefix@,
            i <= n,
            forall|k: int| 0 <= k < i ==> vp@[k] == vs@[k],
        decreases n - i,
    {
        if vp[i] != vs[i] {
            return None;
        }
        i = i + 1;
    }
    Some(s.substring_char(n, vs.len()))
}

/// ASCII digit characters `'0'` to `'9'`.
pub open spec fn is_digit_char(c: char) -> bool {
    48 <= (c as u32) <= 57
}

/// The decimal value of a string of digits.
pub open spec fn digits_value(d: Seq<char>) -> nat
    decreases d.len(),
{
    if d.len() == 0 {
        0
    } else {
        10 * digits_value(d.drop_last()) + ((d.last() as u32) - 48) as nat
    }
}

/// The digits that an unsigned integer literal holds: an optional leading `'+'` is dropped.
pub open spec fn unsigned_digits(s: Seq<char>) -> Seq<char> {
    if s.len() > 0 && s[0] == '+' {
        s.drop_first()
    } else {
        s
    }
}

/// What `str::parse::<u16>` gives: an optional `'+'`, then one or more ASCII digits whose
/// value fits in 16 bits.
pub open spec fn u16_of_text(s: Seq<char>) -> Option<u16> {
    let d = unsigned_digits(s);
    if d.len() > 0 && (forall|i: int| 0 <= i < d.len() ==> is_digit_char(#[trigger] d[i]))
        && digits_value(d) <= 65535 {
        Some(digits_value(d) as u16)
    } else {
        None
    }
}

/// Parses an unsigned 16-bit decimal number as `str::parse::<u16>` does.
pub fn parse_u16(s: &str) -> (r: Option<u16>)
    ensures
        r == u16_of_text(s@),
{
    let v = chars_of(s);
    let n = v.len();
    let start: usize = if n > 0 && v[0] == '+' { 1 } else { 0 };
    let ghost d = unsigned_digits(s@);
    assert(d =~= v@.skip(start as int));
    if start >= n {
        return None;
    }
    // `acc` is the value of the digits read so far, held at 65536 once it is larger.
    let mut acc: u32 = 0;
    let mut i: usize = start;
    while i < n
        invariant
            v@ == s@,
            n == v@.len(),
            d =~= v@.skip(start as int),
            d == unsigned_digits(s@),
            start <= i <= n,
            forall|k: int| 0 <= k < i - start ==> is_digit_char(#[trigger] d[k]),
            acc == if digits_value(d.take(i - start)) <= 65536 {
                digits_value(d.take(i - start))
            } else {
                65536
            },
        decreases n - i,
    {
        let c = v[i];
        let code = c as u32;
        if code < 48 || code > 57 {
            assert(!is_digit_char(d[i - start]));
            return None;
        }
        let ghost prev = d.take(i - start);
        assert(d.take(i - start + 1).drop_last() =~= prev);
        assert(d.take(i - start + 1).last() == c);
        let next = acc * 10 + (code - 48);
        acc = if next > 65536 { 65536 } else { next };
        i = i + 1;
    }
    assert(d.take(n - start) =~= d);
    if acc > 65535 {
        None
    } else {
        Some(acc as u16)
    }
}

/// The character of a decimal digit.
pub open spec fn digit_char(d: nat) -> char {
    (48 + d) as char
}

/// The shortest decimal representation of `n`, as `u16::to_string` writes it.
pub open spec fn decimal_chars(n: nat) -> Seq<char>
    decreases n,
{
    if n < 10 {
        seq![digit_char(n)]
    } else {
        decimal_chars(n / 10).push(digit_char(n % 10))
    }
}

/// Appends the decimal representation of `n`.
pub fn push_decimal(out: &mut String, n: u16)
    ensures
        final(out)@ == old(out)@ + decimal_chars(n as nat),
    decreases n,
{
    if n >= 10 {
        push_decimal(out, n / 10);
    }
    let d: u8 = (n % 10) as u8;
    let c = (48u8 + d) as char;
    assert(c == digit_char((n % 10) as nat));
    out.push(c);
    proof {
        if n >= 10 {
            assert(decimal_chars(n as nat) == decimal_chars((n / 10) as nat).push(c));
        } else {
            assert(decimal_chars(n as nat) == seq![c]);
        }
    }
}

/// Decimal text of a number never starts with `'+'` and is made of digits that give it back.
pub proof fn lemma_decimal_chars(n: nat)
    ensures
        decimal_chars(n).len() > 0,
        forall|i: int| 0 <= i < decimal_chars(n).len() ==> is_digit_char(#[trigger] decimal_chars(n)[i]),
        digits_value(decimal_chars(n)) == n,
    decreases n,
{
    if n >= 10 {
        lemma_decimal_chars(n / 10);
        let prev = decimal_chars(n / 10);
        assert(decimal_chars(n).drop_last() =~= prev);
        assert((digit_char(n % 10) as u32) == 48 + n % 10);
        assert(decimal_chars(n).last() == digit_char(n % 10));
        assert(digits_value(decimal_chars(n)) == 10 * digits_value(prev) + n % 10);
        assert forall|i: int| 0 <= i < decimal_chars(n).len() implies is_digit_char(#[trigger] decimal_chars(n)[i]) by {
            if i < prev.len() {
                assert(decimal_chars(n)[i] == prev[i]);
            }
        }
    } else {
        assert(decimal_chars(n).drop_last() =~= Seq::<char>::empty());
        assert((digit_char(n) as u32) == 48 + n);
        assert(digits_value(Seq::<char>::empty()) == 0);
    }
}

/// Reading back the decimal text of a 16-bit number gives the number.
pub proof fn lemma_parse_u16_of_decimal(n: u16)
    ensures
        u16_of_text(decimal_chars(n as nat)) == Some(n),
{
    lemma_decimal_chars(n as nat);
    let s = decimal_chars(n as nat);
    assert(is_digit_char(s[0]));
    assert(unsigned_digits(s) == s);
}

/// The characters that `char::is_whitespace` accepts: those with the Unicode
/// `White_Space` property.
pub open spec fn is_whitespace_char(c: char) -> bool {
    let u = c as u32;
    ||| 0x9 <= u <= 0xD
    ||| u == 0x20
    ||| u == 0x85
    ||| u == 0xA0
    ||| u == 0x1680
    ||| 0x2000 <= u <= 0x200A
    ||| u == 0x2028
    ||| u == 0x2029
    ||| u == 0x202F
    ||| u == 0x205F
    ||| u == 0x3000
}

/// Which characters a trim removes.
#[derive(Clone, Copy)]
pub enum TrimSet {
    /// Unicode white space, as `str::trim` removes it.
    Whitespace,
    /// One given character, as `str::trim_matches(c)` removes it.
    Char(char),
}

impl TrimSet {
    pub open spec fn holds(self, c: char) -> bool {
        match self {
            TrimSet::Whitespace => is_whitespace_char(c),
            TrimSet::Char(t) => c == t,
        }
    }

    pub fn contains(&self, c: char) -> (r: bool)
        ensures
            r == self.holds(c),
    {
        match self {
            TrimSet::Whitespace => {
                let u = c as u32;
                (0x9 <= u && u <= 0xD) || u == 0x20 || u == 0x85 || u == 0xA0 || u == 0x1680 || (
                0x2000 <= u && u <= 0x200A) || u == 0x2028 || u == 0x2029 || u == 0x202F || u
                    == 0x205F || u == 0x3000
            },
            TrimSet::Char(t) => c == *t,
        }
    }
}

/// How many characters at the front of `s` are in the set.
pub open spec fn leading_count(s: Seq<char>, t: TrimSet) -> nat
    decreases s.len(),
{
    if s.len() == 0 {
        0
    } else if t.holds(s[0]) {
        1 + leading_count(s.drop_first(), t)
    } else {
        0
    }
}

/// How many characters at the end of `s` are in the set.
pub open spec fn trailing_count(s: Seq<char>, t: TrimSet) -> nat
    decreases s.len(),
{
    if s.len() == 0 {
        0
    } else if t.holds(s.last()) {
        1 + trailing_count(s.drop_last(), t)
    } else {
        0
    }
}

/// `s` without the characters of the set at its front.
pub open spec fn trim_start_seq(s: Seq<char>, t: TrimSet) -> Seq<char> {
    s.skip(leading_count(s, t) as int)
}

/// `s` without the characters of the set at its end.
pub open spec fn trim_end_seq(s: Seq<char>, t: TrimSet) -> Seq<char> {
    s.take(s.len() - trailing_count(s, t))
}

/// `s` without the characters of the set at either end.
pub open spec fn trim_seq(s: Seq<char>, t: TrimSet) -> Seq<char> {
    trim_end_seq(trim_start_seq(s, t), t)
}

/// How many characters at the front of `v` are in the set.
fn count_leading(v: &Vec<char>, set: TrimSet) -> (i: usize)
    ensures
        i == leading_count(v@, set),
        i <= v@.len(),
{
    let n = v.len();
    let mut i: usize = 0;
    assert(v@.skip(0) =~= v@);
    while i < n && set.contains(v[i])
        invariant
            n == v@.len(),
            i <= n,
            leading_count(v@, set) == i + leading_count(v@.skip(i as int), set),
        decreases n - i,
    {
        assert(v@.skip(i as int).drop_first() =~= v@.skip(i + 1));
        i = i + 1;
    }
    if i < n {
        assert(v@.skip(i as int)[0] == v@[i as int]);
    }
    i
}

/// The end of `v` once the characters of the set are removed from the end of `v[lo..]`.
fn trimmed_end(v: &Vec<char>, lo: usize, set: TrimSet) -> (j: usize)
    requires
        lo <= v@.len(),
    ensures
        lo <= j <= v@.len(),
        j == lo + trim_end_seq(v@.skip(lo as int), set).len(),
        trim_end_seq(v@.skip(lo as int), set) =~= v@.subrange(lo as int, j as int),
{
    let n = v.len();
    let ghost rest = v@.skip(lo as int);
    let mut j: usize = n;
    assert(rest.take(n - lo) =~= rest);
    while j > lo && set.contains(v[j - 1])
        invariant
            n == v@.len(),
            lo <= j <= n,
            rest == v@.skip(lo as int),
            trailing_count(rest, set) == (n - j) + trailing_count(rest.take(j - lo), set),
        decreases j,
    {
        assert(rest.take(j - lo).drop_last() =~= rest.take(j - lo - 1));
        assert(rest.take(j - lo).last() == v@[j - 1]);
        j = j - 1;
    }
    if j > lo {
        assert(rest.take(j - lo).last() == v@[j - 1]);
    }
    j
}

/// `s` with the characters of `set` removed from both ends.
pub fn trim_in<'a>(s: &'a str, set: TrimSet) -> (r: &'a str)
    ensures
        r@ == trim_seq(s@, set),
{
    let v = chars_of(s);
    let i = count_leading(&v, set);
    let j = trimmed_end(&v, i, set);
    s.substring_char(i, j)
}

/// `str::trim`: white space removed from both ends.
pub fn trim<'a>(s: &'a str) -> (r: &'a str)
    ensures
        r@ == trim_seq(s@, TrimSet::Whitespace),
{
    trim_in(s, TrimSet::Whitespace)
}

/// The pieces of `s` between occurrences of `sep`, as `str::split(sep)` yields them:
/// one more piece than there are separators, empty pieces included.
pub open spec fn split_seq(s: Seq<char>, sep: char) -> Seq<Seq<char>>
    decreases s.len(),
{
    if s.len() == 0 {
        seq![Seq::<char>::empty()]
    } else {
        let prev = split_seq(s.drop_last(), sep);
        if s.last() == sep {
            prev.push(Seq::<char>::empty())
        } else {
            prev.update(prev.len() - 1, prev.last().push(s.last()))
        }
    }
}

/// The views of a list of strings.
pub open spec fn views_of(v: Seq<String>) -> Seq<Seq<char>> {
    v.map_values(|p: String| p@)
}

/// `s.split(sep)`, each piece as an owned string.
pub fn split_char(s: &str, sep: char) -> (parts: Vec<String>)
    ensures
        views_of(parts@) == split_seq(s@, sep),
{
    let v = chars_of(s);
    let n = v.len();
    let mut parts: Vec<String> = Vec::new();
    let mut start: usize = 0;
    let mut i: usize = 0;
    assert(s@.take(0) =~= Seq::<char>::empty());
    assert(views_of(parts@) =~= Seq::<Seq<char>>::empty());
    assert(s@.subrange(0, 0) =~= Seq::<char>::empty());
    while i < n
        invariant
            v@ == s@,
            n == v@.len(),
            start <= i <= n,
            split_seq(s@.take(i as int), sep) == views_of(parts@).push(s@.subrange(start as int, i as int)),
        decreases n - i,
    {
        let ghost before = views_of(parts@);
        assert(s@.take(i + 1).drop_last() =~= s@.take(i as int));
        assert(s@.take(i + 1).last() == v@[i as int]);
        if v[i] == sep {
            let piece = s.substring_char(start, i).to_owned();
            parts.push(piece);
            assert(views_of(parts@) =~= before.push(s@.subrange(start as int, i as int)));
            start = i + 1;
            assert(s@.subrange(start as int, i + 1) =~= Seq::<char>::empty());
        } else {
            assert(s@.subrange(start as int, i as int).push(v@[i as int]) =~= s@.subrange(
                start as int,
                i + 1,
            ));
            assert(before.push(s@.subrange(start as int, i as int)).update(
                before.len() as int,
                s@.subrange(start as int, i + 1),
            ) =~= before.push(s@.subrange(start as int, i + 1)));
        }
        i = i + 1;
    }
    let last = s.substring_char(start, n).to_owned();
    let ghost before = views_of(parts@);
    parts.push(last);
    assert(views_of(parts@) =~= before.push(s@.subrange(start as int, n as int)));
    assert(s@.take(n as int) =~= s@);
    parts
}

/// ASCII letters folded to lower case; every other character left as it is.
pub open spec fn ascii_lower(c: char) -> u32 {
    let u = c as u32;
    if 65 <= u <= 90 {
        (u + 32) as u32
    } else {
        u
    }
}

/// What `str::eq_ignore_ascii_case` decides: the same characters up to the case of
/// ASCII letters.
pub open spec fn eq_ignore_ascii_case_spec(a: Seq<char>, b: Seq<char>) -> bool {
    &&& a.len() == b.len()
    &&& forall|i: int| 0 <= i < a.len() ==> ascii_lower(#[trigger] a[i]) == ascii_lower(b[i])
}

fn ascii_lower_code(c: char) -> (r: u32)
    ensures
        r == ascii_lower(c),
{
    let u = c as u32;
    if 65 <= u && u <= 90 {
        u + 32
    } else {
        u
    }
}

/// `str::eq_ignore_ascii_case`.
pub fn eq_ignore_ascii_case(a: &str, b: &str) -> (r: bool)
    ensures
        r == eq_ignore_ascii_case_spec(a@, b@),
{
    let va = chars_of(a);
    let vb = chars_of(b);
    if va.len() != vb.len() {
        return false;
    }
    let n = va.len();
    let mut i: usize = 0;
    while i < n
        invariant
            n == va@.len(),
            n == vb@.len(),
            va@ == a@,
            vb@ == b@,
            i <= n,
            forall|k: int| 0 <= k < i ==> ascii_lower(#[trigger] va@[k]) == ascii_lower(vb@[k]),
        decreases n - i,
    {
        if ascii_lower_code(va[i]) != ascii_lower_code(vb[i]) {
            return false;
        }
        i = i + 1;
    }
    true
}

} // verus!

verus! {

proof fn lemma_split_seq_nonempty(s: Seq<char>, sep: char)
    ensures
        split_seq(s, sep).len() >= 1,
    decreases s.len(),
{
    if s.len() > 0 {
        lemma_split_seq_nonempty(s.drop_last(), sep);
    }
}

/// A separator closes the last piece and opens an empty one.
pub proof fn lemma_split_push_separator(p: Seq<char>, sep: char)
    ensures
        split_seq(p.push(sep), sep) == split_seq(p, sep).push(Seq::<char>::empty()),
{
    assert(p.push(sep).drop_last() =~= p);
}

/// Text without the separator extends the last piece.
pub proof fn lemma_split_append_text(p: Seq<char>, t: Seq<char>, sep: char)
    requires
        forall|i: int| 0 <= i < t.len() ==> t[i] != sep,
    ensures
        split_seq(p + t, sep).len() == split_seq(p, sep).len(),
        split_seq(p + t, sep) == split_seq(p, sep).update(
            split_seq(p, sep).len() - 1,
            split_seq(p, sep).last() + t,
        ),
    decreases t.len(),
{
    lemma_split_seq_nonempty(p, sep);
    if t.len() == 0 {
        assert(p + t =~= p);
        assert(split_seq(p, sep).last() + t =~= split_seq(p, sep).last());
        assert(split_seq(p, sep).update(split_seq(p, sep).len() - 1, split_seq(p, sep).last())
            =~= split_seq(p, sep));
    } else {
        let t0 = t.drop_last();
        lemma_split_append_text(p, t0, sep);
        assert((p + t).drop_last() =~= p + t0);
        assert((p + t).last() == t.last());
        let prev = split_seq(p + t0, sep);
        let base = split_seq(p, sep);
        assert(prev.last() == base.last() + t0);
        assert(prev.last().push(t.last()) =~= base.last() + t);
        assert(prev.update(prev.len() - 1, prev.last().push(t.last())) =~= base.update(
            base.len() - 1,
            base.last() + t,
        ));
    }
}

/// Text whose first and last characters are not white space is left as it is by `trim`.
pub proof fn lemma_trim_keeps_unpadded(s: Seq<char>)
    requires
        s.len() > 0,
        !is_whitespace_char(s[0]),
        !is_whitespace_char(s.last()),
    ensures
        trim_seq(s, TrimSet::Whitespace) == s,
{
    assert(s.skip(0) =~= s);
    assert(s.take(s.len() as int) =~= s);
}

/// Every text that `parse_u16` accepts is an optional `+` and one or more ASCII digits
/// whose decimal value is the number read.
pub proof fn lemma_parsed_text_shape(s: Seq<char>, n: u16)
    requires
        u16_of_text(s) == Some(n),
    ensures
        forall|i: int| 0 <= i < s.len() ==> is_digit_char(#[trigger] s[i]) || (i == 0 && s[i] == '+'),
        exists|i: int| 0 <= i < s.len() && is_digit_char(#[trigger] s[i]),
        digits_value(unsigned_digits(s)) == n,
{
    let d = unsigned_digits(s);
    if s.len() > 0 && s[0] == '+' {
        assert forall|i: int| 0 <= i < s.len() implies is_digit_char(#[trigger] s[i]) || (i == 0
            && s[i] == '+') by {
            if i > 0 {
                assert(s[i] == d[i - 1]);
            }
        }
        assert(s[1] == d[0]);
    } else {
        assert(is_digit_char(s[0]));
    }
}

} // verus!
