//! Character-level text handling for command lines: trimming, tokenizing,
//! searching, integer parsing and output assembly.

use vstd::prelude::*;

verus! {

/// Whitespace as `char::is_whitespace` defines it (the Unicode `White_Space` property).
pub open spec fn is_ws(c: char) -> bool {
    c == ' ' || ('\t' <= c && c <= '\r') || c == '\u{85}' || c == '\u{a0}' || c == '\u{1680}'
        || ('\u{2000}' <= c && c <= '\u{200a}') || c == '\u{2028}' || c == '\u{2029}'
        || c == '\u{202f}' || c == '\u{205f}' || c == '\u{3000}'
}

/// Executable form of `is_ws`.
pub fn char_is_ws(c: char) -> (r: bool)
    ensures
        r == is_ws(c),
{
    c == ' ' || ('\t' <= c && c <= '\r') || c == '\u{85}' || c == '\u{a0}' || c == '\u{1680}'
        || ('\u{2000}' <= c && c <= '\u{200a}') || c == '\u{2028}' || c == '\u{2029}'
        || c == '\u{202f}' || c == '\u{205f}' || c == '\u{3000}'
}

/// `s` with leading whitespace removed.
pub open spec fn trim_start(s: Seq<char>) -> Seq<char>
    decreases s.len(),
{
    if s.len() > 0 && is_ws(s[0]) {
        trim_start(s.drop_first())
    } else {
        s
    }
}

/// `s` with trailing whitespace removed.
pub open spec fn trim_end(s: Seq<char>) -> Seq<char>
    decreases s.len(),
{
    if s.len() > 0 && is_ws(s.last()) {
        trim_end(s.drop_last())
    } else {
        s
    }
}

/// `s` with whitespace removed at both ends.
pub open spec fn trim(s: Seq<char>) -> Seq<char> {
    trim_end(trim_start(s))
}

/// The whitespace-separated words of `s`, in order, none empty.
pub open spec fn words(s: Seq<char>) -> Seq<Seq<char>>
    decreases s.len(),
{
    if s.len() == 0 {
        seq![]
    } else {
        let p = s.drop_last();
        let w = words(p);
        let c = s.last();
        if is_ws(c) {
            w
        } else if p.len() > 0 && !is_ws(p.last()) {
            w.drop_last().push(w.last().push(c))
        } else {
            w.push(seq![c])
        }
    }
}

/// The pieces of `s` between occurrences of `sep` (always at least one piece).
pub open spec fn fields(s: Seq<char>, sep: char) -> Seq<Seq<char>>
    decreases s.len(),
{
    if s.len() == 0 {
        seq![seq![]]
    } else {
        let f = fields(s.drop_last(), sep);
        if s.last() == sep {
            f.push(seq![])
        } else {
            f.drop_last().push(f.last().push(s.last()))
        }
    }
}

pub proof fn lemma_fields_nonempty(s: Seq<char>, sep: char)
    ensures
        fields(s, sep).len() >= 1,
    decreases s.len(),
{
    if s.len() > 0 {
        lemma_fields_nonempty(s.drop_last(), sep);
    }
}

pub open spec fn starts_with(s: Seq<char>, p: Seq<char>) -> bool {
    p.len() <= s.len() && s.take(p.len() as int) == p
}

/// `p` occurs in `s` at position `i`.
pub open spec fn occurs_at(s: Seq<char>, p: Seq<char>, i: int) -> bool {
    0 <= i && i + p.len() <= s.len() && s.subrange(i, i + p.len()) == p
}

/// The first position at or after `i` where `p` occurs in `s`.
pub open spec fn find_from(s: Seq<char>, p: Seq<char>, i: int) -> Option<int>
    decreases s.len() + 1 - i,
{
    if i < 0 || i + p.len() > s.len() {
        None
    } else if s.subrange(i, i + p.len()) == p {
        Some(i)
    } else {
        find_from(s, p, i + 1)
    }
}

/// What a search from `j` that succeeds at `i` tells.
pub proof fn lemma_find_from_found(s: Seq<char>, p: Seq<char>, j: int, i: int)
    requires
        find_from(s, p, j) == Some(i),
    ensures
        j <= i,
        occurs_at(s, p, i),
    decreases s.len() + 1 - j,
{
    if j < 0 || j + p.len() > s.len() {
    } else if s.subrange(j, j + p.len()) == p {
    } else {
        lemma_find_from_found(s, p, j + 1, i);
    }
}

/// The first position where `p` occurs in `s`.
pub open spec fn find(s: Seq<char>, p: Seq<char>) -> Option<int> {
    find_from(s, p, 0)
}

pub open spec fn contains(s: Seq<char>, p: Seq<char>) -> bool {
    find(s, p) is Some
}

pub open spec fn contains_char(s: Seq<char>, c: char) -> bool {
    exists|i: int| 0 <= i < s.len() && s[i] == c
}

/// `s` with its first `n` characters removed (all of them if `n` is larger).
pub open spec fn after(s: Seq<char>, n: nat) -> Seq<char> {
    if n <= s.len() {
        s.subrange(n as int, s.len() as int)
    } else {
        seq![]
    }
}

pub open spec fn is_digit(c: char) -> bool {
    '0' <= c && c <= '9'
}

pub open spec fn digit_val(c: char) -> nat {
    (c as nat - '0' as nat) as nat
}

pub open spec fn all_digits(s: Seq<char>) -> bool {
    forall|i: int| 0 <= i < s.len() ==> is_digit(#[trigger] s[i])
}

/// The number written by the decimal digits `s`.
pub open spec fn digits_value(s: Seq<char>) -> nat
    decreases s.len(),
{
    if s.len() == 0 {
        0
    } else {
        digits_value(s.drop_last()) * 10 + digit_val(s.last())
    }
}

/// The digits of `s` after an optional leading `+`, as unsigned integer parsing reads them.
pub open spec fn unsigned_body(s: Seq<char>) -> Seq<char> {
    if s.len() > 0 && s[0] == '+' {
        s.drop_first()
    } else {
        s
    }
}

/// What `str::parse` gives for an unsigned integer type whose largest value is `max`.
pub open spec fn parse_unsigned(s: Seq<char>, max: nat) -> Option<nat> {
    let b = unsigned_body(s);
    if b.len() > 0 && all_digits(b) && digits_value(b) <= max {
        Some(digits_value(b))
    } else {
        None
    }
}

/// The decimal notation of `n`.
pub open spec fn dec(n: nat) -> Seq<char>
    decreases n,
{
    if n < 10 {
        seq![digit_char(n)]
    } else {
        dec(n / 10).push(digit_char(n % 10))
    }
}

pub open spec fn digit_char(d: nat) -> char {
    if d == 0 { '0' }
    else if d == 1 { '1' }
    else if d == 2 { '2' }
    else if d == 3 { '3' }
    else if d == 4 { '4' }
    else if d == 5 { '5' }
    else if d == 6 { '6' }
    else if d == 7 { '7' }
    else if d == 8 { '8' }
    else { '9' }
}

/// `s` followed by spaces up to `w` characters (left-aligned field of width `w`).
pub open spec fn pad(s: Seq<char>, w: nat) -> Seq<char> {
    if s.len() < w {
        s + Seq::new((w - s.len()) as nat, |i: int| ' ')
    } else {
        s
    }
}

/// `s` preceded by zeros up to `w` characters.
pub open spec fn zero_pad(s: Seq<char>, w: nat) -> Seq<char> {
    if s.len() < w {
        Seq::new((w - s.len()) as nat, |i: int| '0') + s
    } else {
        s
    }
}

pub open spec fn is_upper(c: char) -> bool {
    'A' <= c && c <= 'Z'
}

/// The two characters are equal once ASCII upper-case letters are lowered.
pub open spec fn char_eq_ic(a: char, b: char) -> bool {
    a == b || (is_upper(a) && a as u32 + 32 == b as u32) || (is_upper(b) && b as u32 + 32 == a as u32)
}

/// Equality up to ASCII case, as `str::eq_ignore_ascii_case` compares.
pub open spec fn eq_ignore_case(a: Seq<char>, b: Seq<char>) -> bool {
    a.len() == b.len() && forall|i: int| 0 <= i < a.len() ==> char_eq_ic(#[trigger] a[i], b[i])
}

/// The views of a sequence of character vectors.
pub open spec fn views(v: Seq<Vec<char>>) -> Seq<Seq<char>> {
    v.map_values(|t: Vec<char>| t@)
}

/// The words joined without any separator.
pub open spec fn concat_all(ws: Seq<Seq<char>>) -> Seq<char>
    decreases ws.len(),
{
    if ws.len() == 0 {
        seq![]
    } else {
        concat_all(ws.drop_last()) + ws.last()
    }
}

/// The words joined with `sep` between neighbours.
pub open spec fn join(ws: Seq<Seq<char>>, sep: Seq<char>) -> Seq<char>
    decreases ws.len(),
{
    if ws.len() == 0 {
        seq![]
    } else if ws.len() == 1 {
        ws[0]
    } else {
        join(ws.drop_last(), sep) + sep + ws.last()
    }
}

proof fn lemma_digit_char(d: nat)
    requires
        d < 10,
    ensures
        is_digit(digit_char(d)),
        digit_val(digit_char(d)) == d,
        !is_ws(digit_char(d)),
{
}

/// The decimal notation of `n` is a non-empty string of digits that reads back as `n`.
pub proof fn lemma_dec(n: nat)
    ensures
        dec(n).len() >= 1,
        all_digits(dec(n)),
        digits_value(dec(n)) == n,
    decreases n,
{
    if n < 10 {
        lemma_digit_char(n);
        assert(dec(n).drop_last() =~= seq![]);
        assert(digits_value(dec(n).drop_last()) == 0);
        assert(digits_value(dec(n)) == digits_value(dec(n).drop_last()) * 10 + digit_val(dec(n).last()));
    } else {
        lemma_dec(n / 10);
        lemma_digit_char(n % 10);
        let s = dec(n);
        assert(s.drop_last() =~= dec(n / 10));
        assert(s.last() == digit_char(n % 10));
        assert((n / 10) * 10 + n % 10 == n) by (nonlinear_arith);
        assert(digits_value(s) == digits_value(s.drop_last()) * 10 + digit_val(s.last()));
        assert forall|i: int| 0 <= i < s.len() implies is_digit(#[trigger] s[i]) by {
            if i < s.len() - 1 {
                assert(s[i] == dec(n / 10)[i]);
            }
        }
    }
}

/// A non-empty string of digits is its own trimmed form.
pub proof fn lemma_trim_digits(s: Seq<char>)
    requires
        s.len() >= 1,
        all_digits(s),
    ensures
        trim(s) == s,
{
    assert(is_digit(s[0]) && is_digit(s.last()));
    assert(trim_start(s) == s);
}

/// `dec(n)` parses back to `n`.
pub proof fn lemma_parse_dec(n: nat, max: nat)
    requires
        n <= max,
    ensures
        parse_unsigned(dec(n), max) == Some(n),
        trim(dec(n)) == dec(n),
{
    lemma_dec(n);
    assert(is_digit(dec(n)[0]));
    assert(unsigned_body(dec(n)) == dec(n));
    lemma_trim_digits(dec(n));
}

/// Where no character from `j` on starts `p`, no search from `j` finds it.
pub proof fn lemma_find_none(s: Seq<char>, p: Seq<char>, j: int)
    requires
        p.len() > 0,
        0 <= j,
        forall|i: int| j <= i < s.len() ==> s[i] != p[0],
    ensures
        find_from(s, p, j) is None,
    decreases s.len() + 1 - j,
{
    if j + p.len() <= s.len() {
        assert(s.subrange(j, j + p.len())[0] != p[0]);
        lemma_find_none(s, p, j + 1);
    }
}

/// Where the character at offset `m` of `p` never occurs from `j` on, no search from `j` finds `p`.
pub proof fn lemma_find_none_at(s: Seq<char>, p: Seq<char>, j: int, m: int)
    requires
        0 <= m < p.len(),
        0 <= j,
        forall|i: int| j <= i < s.len() ==> s[i] != p[m],
    ensures
        find_from(s, p, j) is None,
    decreases s.len() + 1 - j,
{
    if j + p.len() <= s.len() {
        assert(s.subrange(j, j + p.len())[m] != p[m]);
        lemma_find_none_at(s, p, j + 1, m);
    }
}

/// Appending a word after whitespace (or at the start) adds it as the next word.
pub proof fn lemma_words_append(s: Seq<char>, t: Seq<char>)
    requires
        t.len() >= 1,
        forall|i: int| 0 <= i < t.len() ==> !is_ws(t[i]),
        s.len() == 0 || is_ws(s.last()),
    ensures
        words(s + t) == words(s).push(t),
    decreases t.len(),
{
    let u = t.drop_last();
    assert((s + t).drop_last() =~= s + u);
    assert((s + t).last() == t.last());
    if u.len() == 0 {
        assert(s + u =~= s);
        assert(seq![t.last()] =~= t);
    } else {
        lemma_words_append(s, u);
        assert((s + u).last() == u.last());
        assert(words(s).push(u).drop_last() =~= words(s));
        assert(u.push(t.last()) =~= t);
    }
}

/// Appending whitespace adds no word.
pub proof fn lemma_words_space(s: Seq<char>, c: char)
    requires
        is_ws(c),
    ensures
        words(s.push(c)) == words(s),
{
    assert(s.push(c).drop_last() =~= s);
}

/// A text that equals or starts with `p` agrees with `p` on its first `n` characters.
pub proof fn lemma_lit_head(c: Seq<char>, p: Seq<char>, n: int)
    requires
        0 <= n <= p.len(),
        starts_with(c, p) || c == p,
    ensures
        n <= c.len(),
        forall|j: int| 0 <= j < n ==> c[j] == p[j],
{
    if starts_with(c, p) {
        assert forall|j: int| 0 <= j < n implies c[j] == p[j] by {
            assert(c.take(p.len() as int)[j] == c[j]);
        }
    }
}

/// Two texts that differ at position `k` neither equal nor start one another.
pub proof fn lemma_mismatch(c: Seq<char>, p: Seq<char>, k: int)
    requires
        0 <= k < p.len(),
        k < c.len(),
        c[k] != p[k],
    ensures
        !starts_with(c, p),
        c != p,
{
    if starts_with(c, p) {
        assert(c.take(p.len() as int)[k] == c[k]);
    }
}

/// Positions that cannot start `p` are skipped over.
pub proof fn lemma_find_skip(s: Seq<char>, p: Seq<char>, j: int, k: int)
    requires
        p.len() > 0,
        0 <= j <= k,
        k + p.len() <= s.len(),
        forall|i: int| j <= i < k ==> s[i] != p[0],
    ensures
        find_from(s, p, j) == find_from(s, p, k),
    decreases k - j,
{
    if j < k {
        assert(s.subrange(j, j + p.len())[0] != p[0]);
        lemma_find_skip(s, p, j + 1, k);
    }
}

/// Appending characters other than `sep` extends the last piece.
pub proof fn lemma_fields_append(s: Seq<char>, t: Seq<char>, sep: char)
    requires
        forall|i: int| 0 <= i < t.len() ==> t[i] != sep,
    ensures
        fields(s + t, sep) == fields(s, sep).drop_last().push(fields(s, sep).last() + t),
    decreases t.len(),
{
    lemma_fields_nonempty(s, sep);
    if t.len() == 0 {
        assert(s + t =~= s);
        assert(fields(s, sep).last() + t =~= fields(s, sep).last());
        assert(fields(s, sep).drop_last().push(fields(s, sep).last()) =~= fields(s, sep));
    } else {
        let u = t.drop_last();
        lemma_fields_append(s, u, sep);
        assert((s + t).drop_last() =~= s + u);
        assert((s + t).last() == t.last());
        assert(fields(s, sep).last() + u + seq![t.last()] =~= fields(s, sep).last() + t);
        assert((fields(s, sep).last() + u).push(t.last()) =~= fields(s, sep).last() + t);
    }
}

/// Bytes that the UTF-8 encoding of `c` takes.
pub open spec fn utf8_width(c: char) -> nat {
    if (c as u32) < 0x80 {
        1
    } else if (c as u32) < 0x800 {
        2
    } else if (c as u32) < 0x10000 {
        3
    } else {
        4
    }
}

/// Length in bytes of the UTF-8 encoding of `s`.
pub open spec fn utf8_len(s: Seq<char>) -> nat
    decreases s.len(),
{
    if s.len() == 0 {
        0
    } else {
        utf8_len(s.drop_last()) + utf8_width(s.last())
    }
}

proof fn lemma_utf8_len_prefix(s: Seq<char>, k: int)
    requires
        0 <= k <= s.len(),
    ensures
        utf8_len(s.take(k)) <= utf8_len(s),
    decreases s.len(),
{
    if k < s.len() {
        assert(s.drop_last().take(k) =~= s.take(k));
        lemma_utf8_len_prefix(s.drop_last(), k);
    } else {
        assert(s.take(k) =~= s);
    }
}

/// Whether the UTF-8 encoding of `s` is longer than `limit` bytes.
pub fn utf8_longer_than(s: &Vec<char>, limit: u64) -> (r: bool)
    requires
        limit <= 0xffff_ffff,
    ensures
        r == (utf8_len(s@) > limit),
{
    let mut n: u64 = 0;
    let mut i: usize = 0;
    while i < s.len()
        invariant
            i <= s@.len(),
            n as nat == utf8_len(s@.take(i as int)),
            n <= limit,
            limit <= 0xffff_ffff,
        decreases s.len() - i,
    {
        let c = s[i];
        let w: u64 = if (c as u32) < 0x80 { 1 } else if (c as u32) < 0x800 { 2 } else if (c as u32) < 0x10000 { 3 } else { 4 };
        assert(s@.take(i + 1).drop_last() =~= s@.take(i as int));
        n = n + w;
        i = i + 1;
        if n > limit {
            proof { lemma_utf8_len_prefix(s@, i as int); }
            return true;
        }
    }
    assert(s@.take(i as int) =~= s@);
    false
}

/// Name for what `char::is_alphanumeric` returns: the Unicode `Alphabetic` or `Numeric` property.
pub uninterp spec fn is_alnum(c: char) -> bool;

/// Relies on `char::is_alphanumeric`: a property of the character alone.
#[verifier::external_body]
pub(crate) fn char_alnum(c: char) -> (r: bool)
    ensures
        r == is_alnum(c),
{
    c.is_alphanumeric()
}

/// Name for what `str::to_lowercase` returns: the full Unicode lower-case mapping.
pub uninterp spec fn lower_of(s: Seq<char>) -> Seq<char>;

/// Relies on `str::to_lowercase`: the result depends on the characters alone.
#[verifier::external_body]
pub(crate) fn lowercase(s: &str) -> (r: String)
    ensures
        r@ == lower_of(s@),
{
    s.to_lowercase()
}

/// Relies on `String::push`: appends one character.
#[verifier::external_body]
pub(crate) fn push_char(s: &mut String, c: char)
    ensures
        final(s)@ == old(s)@.push(c),
{
    s.push(c)
}

/// The characters of `s`.
pub fn chars_of(s: &str) -> (r: Vec<char>)
    ensures
        r@ == s@,
{
    let n = s.unicode_len();
    let mut r: Vec<char> = Vec::new();
    let mut i: usize = 0;
    while i < n
        invariant
            n == s@.len(),
            i <= n,
            r@ == s@.take(i as int),
        decreases n - i,
    {
        r.push(s.get_char(i));
        i = i + 1;
        assert(r@ =~= s@.take(i as int));
    }
    assert(r@ =~= s@);
    r
}

/// Appends the characters of `t`.
pub fn append_chars(out: &mut String, t: &Vec<char>)
    ensures
        final(out)@ == old(out)@ + t@,
{
    let mut i: usize = 0;
    while i < t.len()
        invariant
            i <= t@.len(),
            out@ == old(out)@ + t@.take(i as int),
        decreases t.len() - i,
    {
        push_char(out, t[i]);
        i = i + 1;
        assert(out@ =~= old(out)@ + t@.take(i as int));
    }
    assert(t@.take(t@.len() as int) =~= t@);
}

/// A string holding the characters of `t`.
pub fn string_of(t: &Vec<char>) -> (r: String)
    ensures
        r@ == t@,
{
    let mut r = String::new();
    append_chars(&mut r, t);
    assert(r@ =~= t@);
    r
}

/// Appends the literal `t`.
pub fn append_str(out: &mut String, t: &str)
    ensures
        final(out)@ == old(out)@ + t@,
{
    out.append(t);
}

/// The characters `s[a..b]`.
pub fn copy_range(s: &Vec<char>, a: usize, b: usize) -> (r: Vec<char>)
    requires
        a <= b <= s@.len(),
    ensures
        r@ == s@.subrange(a as int, b as int),
{
    let mut r: Vec<char> = Vec::new();
    let mut i: usize = a;
    while i < b
        invariant
            a <= i <= b,
            b <= s@.len(),
            r@ == s@.subrange(a as int, i as int),
        decreases b - i,
    {
        r.push(s[i]);
        i = i + 1;
        assert(r@ =~= s@.subrange(a as int, i as int));
    }
    r
}

/// `s` with whitespace removed at both ends.
pub fn trim_chars(s: &Vec<char>) -> (r: Vec<char>)
    ensures
        r@ == trim(s@),
{
    let n = s.len();
    let mut i: usize = 0;
    assert(s@.subrange(0, n as int) =~= s@);
    while i < n && char_is_ws(s[i])
        invariant
            i <= n,
            n == s@.len(),
            trim_start(s@) == trim_start(s@.subrange(i as int, n as int)),
        decreases n - i,
    {
        assert(s@.subrange(i as int, n as int).drop_first() =~= s@.subrange(i + 1, n as int));
        i = i + 1;
    }
    assert(trim_start(s@) == s@.subrange(i as int, n as int));
    let mut j: usize = n;
    while j > i && char_is_ws(s[j - 1])
        invariant
            i <= j <= n,
            n == s@.len(),
            trim(s@) == trim_end(s@.subrange(i as int, j as int)),
        decreases j,
    {
        assert(s@.subrange(i as int, j as int).drop_last() =~= s@.subrange(i as int, j - 1));
        j = j - 1;
    }
    copy_range(s, i, j)
}

/// The whitespace-separated words of `s`.
pub fn split_ws(s: &Vec<char>) -> (r: Vec<Vec<char>>)
    ensures
        views(r@) == words(s@),
{
    let mut toks: Vec<Vec<char>> = Vec::new();
    let mut cur: Vec<char> = Vec::new();
    let mut in_word = false;
    let n = s.len();
    let mut i: usize = 0;
    while i < n
        invariant
            i <= n,
            n == s@.len(),
            words(s@.take(i as int)) == (if in_word { views(toks@).push(cur@) } else { views(toks@) }),
            in_word ==> i > 0 && !is_ws(s@[i - 1]),
            !in_word ==> (i == 0 || is_ws(s@[i - 1])) && cur@.len() == 0,
        decreases n - i,
    {
        let c = s[i];
        let ghost p = s@.take(i + 1);
        assert(p.drop_last() =~= s@.take(i as int));
        assert(p.last() == c);
        if char_is_ws(c) {
            if in_word {
                let ghost old_toks = toks@;
                toks.push(cur);
                assert(views(toks@) =~= views(old_toks).push(cur@));
                cur = Vec::new();
                in_word = false;
            }
        } else {
            let ghost old_cur = cur@;
            cur.push(c);
            if !in_word {
                assert(cur@ =~= seq![c]);
            }
            assert(words(p) =~= views(toks@).push(cur@));
            in_word = true;
        }
        i = i + 1;
    }
    assert(s@.take(n as int) =~= s@);
    if in_word {
        let ghost old_toks = toks@;
        toks.push(cur);
        assert(views(toks@) =~= views(old_toks).push(cur@));
    }
    toks
}

/// The pieces of `s` between occurrences of `sep`.
pub fn split_char(s: &Vec<char>, sep: char) -> (r: Vec<Vec<char>>)
    ensures
        views(r@) == fields(s@, sep),
{
    let mut toks: Vec<Vec<char>> = Vec::new();
    let mut cur: Vec<char> = Vec::new();
    let n = s.len();
    let mut i: usize = 0;
    assert(fields(s@.take(0), sep) =~= views(toks@).push(cur@));
    while i < n
        invariant
            i <= n,
            n == s@.len(),
            fields(s@.take(i as int), sep) == views(toks@).push(cur@),
        decreases n - i,
    {
        let c = s[i];
        assert(s@.take(i + 1).drop_last() =~= s@.take(i as int));
        let ghost old_toks = toks@;
        let ghost old_cur = cur@;
        if c == sep {
            toks.push(cur);
            cur = Vec::new();
            assert(views(toks@) =~= views(old_toks).push(old_cur));
        } else {
            cur.push(c);
        }
        i = i + 1;
        assert(fields(s@.take(i as int), sep) =~= views(toks@).push(cur@));
    }
    assert(s@.take(n as int) =~= s@);
    let ghost old_toks = toks@;
    toks.push(cur);
    assert(views(toks@) =~= views(old_toks).push(cur@));
    toks
}

/// `p` occurs in `s` at position `i`.
pub fn matches_at(s: &Vec<char>, p: &Vec<char>, i: usize) -> (r: bool)
    requires
        i <= s@.len(),
    ensures
        r == (i + p@.len() <= s@.len() && s@.subrange(i as int, i + p@.len()) == p@),
{
    if p.len() > s.len() - i {
        return false;
    }
    let mut k: usize = 0;
    while k < p.len()
        invariant
            k <= p@.len(),
            i + p@.len() <= s@.len() <= usize::MAX,
            s@.subrange(i as int, i + k) == p@.take(k as int),
        decreases p.len() - k,
    {
        if s[i + k] != p[k] {
            assert(s@.subrange(i as int, i + p@.len())[k as int] != p@[k as int]);
            return false;
        }
        k = k + 1;
        assert(s@.subrange(i as int, i + k) =~= p@.take(k as int));
    }
    assert(p@.take(k as int) =~= p@);
    true
}

/// Whether `s` begins with the literal `p`.
pub fn has_prefix(s: &Vec<char>, p: &str) -> (r: bool)
    ensures
        r == starts_with(s@, p@),
{
    let pv = chars_of(p);
    let r = matches_at(s, &pv, 0);
    assert(s@.take(p@.len() as int) =~= s@.subrange(0, p@.len() as int));
    r
}

/// Whether `s` is exactly the literal `p`.
pub fn is_lit(s: &Vec<char>, p: &str) -> (r: bool)
    ensures
        r == (s@ == p@),
{
    let pv = chars_of(p);
    if pv.len() != s.len() {
        return false;
    }
    let r = matches_at(s, &pv, 0);
    assert(s@.subrange(0, s@.len() as int) =~= s@);
    r
}

/// `n` copies of `c`.
pub open spec fn repeat(c: char, n: nat) -> Seq<char> {
    Seq::new(n, |i: int| c)
}

/// Appends `n` copies of `c`.
pub fn push_repeat(out: &mut String, c: char, n: usize)
    ensures
        final(out)@ == old(out)@ + repeat(c, n as nat),
{
    let mut k: usize = 0;
    while k < n
        invariant
            k <= n,
            out@ == old(out)@ + repeat(c, k as nat),
        decreases n - k,
    {
        push_char(out, c);
        k = k + 1;
        assert(out@ =~= old(out)@ + repeat(c, k as nat));
    }
}

/// The first position where the literal `p` occurs in `s`.
pub fn find_str(s: &Vec<char>, p: &str) -> (r: Option<usize>)
    ensures
        match r {
            Some(i) => find(s@, p@) == Some(i as int) && i + p@.len() <= s@.len(),
            None => find(s@, p@) is None,
        },
{
    let pv = chars_of(p);
    let n = s.len();
    if pv.len() > n {
        return None;
    }
    let last = n - pv.len();
    let mut i: usize = 0;
    loop
        invariant
            i <= last,
            last + pv@.len() == n,
            n == s@.len(),
            pv@ == p@,
            find(s@, p@) == find_from(s@, p@, i as int),
        decreases last - i,
    {
        if matches_at(s, &pv, i) {
            return Some(i);
        }
        if i == last {
            assert(find_from(s@, p@, i + 1) is None);
            return None;
        }
        i = i + 1;
    }
}

/// Whether the literal `p` occurs in `s`.
pub fn has_sub(s: &Vec<char>, p: &str) -> (r: bool)
    ensures
        r == contains(s@, p@),
{
    find_str(s, p).is_some()
}

/// Whether `c` occurs in `s`.
pub fn has_char(s: &Vec<char>, c: char) -> (r: bool)
    ensures
        r == contains_char(s@, c),
{
    let mut i: usize = 0;
    while i < s.len()
        invariant
            i <= s@.len(),
            forall|k: int| 0 <= k < i ==> s@[k] != c,
        decreases s.len() - i,
    {
        if s[i] == c {
            return true;
        }
        i = i + 1;
    }
    false
}

/// `s` without its first `n` characters.
pub fn after_chars(s: &Vec<char>, n: usize) -> (r: Vec<char>)
    ensures
        r@ == after(s@, n as nat),
{
    if n <= s.len() {
        copy_range(s, n, s.len())
    } else {
        Vec::new()
    }
}

proof fn lemma_digits_value_prefix(b: Seq<char>, k: int)
    requires
        0 <= k <= b.len(),
        all_digits(b),
    ensures
        digits_value(b) >= digits_value(b.take(k)),
    decreases b.len(),
{
    if k < b.len() {
        assert(b.drop_last().take(k) =~= b.take(k));
        assert(all_digits(b.drop_last()));
        lemma_digits_value_prefix(b.drop_last(), k);
    } else {
        assert(b.take(k) =~= b);
    }
}

/// Parses an unsigned integer no larger than `max`, as `str::parse` does for unsigned types.
pub fn parse_uint(s: &Vec<char>, max: u64) -> (r: Option<u64>)
    requires
        max <= 0xffff_ffff,
    ensures
        parse_unsigned(s@, max as nat) == match r {
            Some(v) => Some(v as nat),
            None => None::<nat>,
        },
{
    let n = s.len();
    let start: usize = if n > 0 && s[0] == '+' { 1 } else { 0 };
    let ghost b = unsigned_body(s@);
    assert(b =~= s@.subrange(start as int, n as int));
    if start == n {
        return None;
    }
    let mut v: u64 = 0;
    let mut i: usize = start;
    while i < n
        invariant
            start <= i <= n,
            n == s@.len(),
            b == s@.subrange(start as int, n as int),
            b == unsigned_body(s@),
            max <= 0xffff_ffff,
            v <= max,
            all_digits(b.take(i - start)),
            v as nat == digits_value(b.take(i - start)),
        decreases n - i,
    {
        let c = s[i];
        let ghost k = i - start;
        assert(b[k] == c);
        if !('0' <= c && c <= '9') {
            assert(!is_digit(b[k]));
            assert(!all_digits(b));
            return None;
        }
        let d = (c as u32 - '0' as u32) as u64;
        let ghost q = b.take(k + 1);
        assert(q.drop_last() =~= b.take(k));
        assert(q.last() == c);
        v = v * 10 + d;
        i = i + 1;
        assert(v as nat == digits_value(q));
        assert(all_digits(q)) by {
            assert forall|j: int| 0 <= j < q.len() implies is_digit(#[trigger] q[j]) by {
                if j < k {
                    assert(q[j] == b.take(k)[j]);
                }
            }
        }
        if v > max {
            proof {
                if all_digits(b) {
                    lemma_digits_value_prefix(b, k + 1);
                }
            }
            return None;
        }
    }
    assert(b.take(n - start) =~= b);
    Some(v)
}

/// The decimal digits of `n`.
pub fn dec_chars(n: u64) -> (r: Vec<char>)
    ensures
        r@ == dec(n as nat),
    decreases n,
{
    let d = n % 10;
    let c = if d == 0 { '0' } else if d == 1 { '1' } else if d == 2 { '2' } else if d == 3 { '3' }
        else if d == 4 { '4' } else if d == 5 { '5' } else if d == 6 { '6' } else if d == 7 { '7' }
        else if d == 8 { '8' } else { '9' };
    if n < 10 {
        let mut r: Vec<char> = Vec::new();
        r.push(c);
        assert(r@ =~= seq![c]);
        r
    } else {
        let mut r = dec_chars(n / 10);
        r.push(c);
        r
    }
}

/// Appends the decimal notation of `n`.
pub fn push_dec(out: &mut String, n: u64)
    ensures
        final(out)@ == old(out)@ + dec(n as nat),
{
    let d = dec_chars(n);
    append_chars(out, &d);
}

/// Appends `t` left-aligned in a field of width `w`.
pub fn push_padded(out: &mut String, t: &Vec<char>, w: usize)
    ensures
        final(out)@ == old(out)@ + pad(t@, w as nat),
{
    append_chars(out, t);
    let mut k: usize = t.len();
    let ghost base = out@;
    while k < w
        invariant
            t@.len() <= k,
            t@.len() < w ==> k <= w,
            t@.len() >= w ==> k == t@.len(),
            out@ == base + Seq::new((k - t@.len()) as nat, |i: int| ' '),
        decreases w - k,
    {
        push_char(out, ' ');
        k = k + 1;
        assert(out@ =~= base + Seq::new((k - t@.len()) as nat, |i: int| ' '));
    }
    assert(out@ =~= old(out)@ + pad(t@, w as nat));
}

/// Appends the literal `t` left-aligned in a field of width `w`.
pub fn push_padded_str(out: &mut String, t: &str, w: usize)
    ensures
        final(out)@ == old(out)@ + pad(t@, w as nat),
{
    let tv = chars_of(t);
    push_padded(out, &tv, w);
}

/// Appends `t` preceded by zeros up to width `w`.
pub fn push_zero_padded(out: &mut String, t: &Vec<char>, w: usize)
    ensures
        final(out)@ == old(out)@ + zero_pad(t@, w as nat),
{
    let mut k: usize = t.len();
    while k < w
        invariant
            t@.len() <= k,
            t@.len() < w ==> k <= w,
            t@.len() >= w ==> k == t@.len(),
            out@ == old(out)@ + Seq::new((k - t@.len()) as nat, |i: int| '0'),
        decreases w - k,
    {
        push_char(out, '0');
        k = k + 1;
        assert(out@ =~= old(out)@ + Seq::new((k - t@.len()) as nat, |i: int| '0'));
    }
    append_chars(out, t);
    assert(out@ =~= old(out)@ + zero_pad(t@, w as nat));
}

/// Whether `a` and `b` are equal up to ASCII case.
pub fn eq_ic(a: &Vec<char>, b: &Vec<char>) -> (r: bool)
    ensures
        r == eq_ignore_case(a@, b@),
{
    if a.len() != b.len() {
        return false;
    }
    let mut i: usize = 0;
    while i < a.len()
        invariant
            i <= a@.len(),
            a@.len() == b@.len(),
            forall|k: int| 0 <= k < i ==> char_eq_ic(#[trigger] a@[k], b@[k]),
        decreases a.len() - i,
    {
        let x = a[i];
        let y = b[i];
        let ok = x == y || ('A' <= x && x <= 'Z' && x as u32 + 32 == y as u32) || ('A' <= y && y
            <= 'Z' && y as u32 + 32 == x as u32);
        if !ok {
            return false;
        }
        i = i + 1;
    }
    true
}

/// The words `ws[from..]` run together without separators.
pub fn concat_from(ws: &Vec<Vec<char>>, from: usize) -> (r: Vec<char>)
    requires
        from <= ws@.len(),
    ensures
        r@ == concat_all(views(ws@).subrange(from as int, ws@.len() as int)),
{
    let mut r: Vec<char> = Vec::new();
    let mut i: usize = from;
    while i < ws.len()
        invariant
            from <= i <= ws@.len(),
            r@ == concat_all(views(ws@).subrange(from as int, i as int)),
        decreases ws.len() - i,
    {
        let ghost before = r@;
        let w = &ws[i];
        let mut k: usize = 0;
        while k < w.len()
            invariant
                k <= w@.len(),
                r@ == before + w@.take(k as int),
            decreases w.len() - k,
        {
            r.push(w[k]);
            k = k + 1;
            assert(r@ =~= before + w@.take(k as int));
        }
        assert(w@.take(k as int) =~= w@);
        assert(views(ws@).subrange(from as int, i + 1).drop_last() =~= views(ws@).subrange(from as int, i as int));
        i = i + 1;
    }
    r
}

/// Appends the words `ws[from..]` with the literal `sep` between neighbours.
pub fn push_join(out: &mut String, ws: &Vec<Vec<char>>, from: usize, sep: &str)
    requires
        from <= ws@.len(),
    ensures
        final(out)@ == old(out)@ + join(views(ws@).subrange(from as int, ws@.len() as int), sep@),
{
    let mut i: usize = from;
    while i < ws.len()
        invariant
            from <= i <= ws@.len(),
            out@ == old(out)@ + join(views(ws@).subrange(from as int, i as int), sep@),
        decreases ws.len() - i,
    {
        let ghost before = out@;
        if i > from {
            append_str(out, sep);
        }
        append_chars(out, &ws[i]);
        let ghost sub = views(ws@).subrange(from as int, i + 1);
        assert(sub.drop_last() =~= views(ws@).subrange(from as int, i as int));
        i = i + 1;
        assert(out@ =~= old(out)@ + join(views(ws@).subrange(from as int, i as int), sep@));
    }
}

} // verus!
