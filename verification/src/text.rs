//! Character-level text helpers shared by the rest of the library.
use vstd::prelude::*;

verus! {

/// Unicode `White_Space` code points, the set that `char::is_whitespace`
/// and `str::trim` use.
pub open spec fn is_white_space(c: char) -> bool {
    let v = c as u32;
    ||| 0x09 <= v <= 0x0d
    ||| v == 0x20
    ||| v == 0x85
    ||| v == 0xa0
    ||| v == 0x1680
    ||| 0x2000 <= v <= 0x200a
    ||| v == 0x2028
    ||| v == 0x2029
    ||| v == 0x202f
    ||| v == 0x205f
    ||| v == 0x3000
}

/// `s` without its leading white space.
pub open spec fn trim_start_ws(s: Seq<char>) -> Seq<char>
    decreases s.len(),
{
    if s.len() > 0 && is_white_space(s[0]) {
        trim_start_ws(s.drop_first())
    } else {
        s
    }
}

/// `s` without its trailing white space.
pub open spec fn trim_end_ws(s: Seq<char>) -> Seq<char>
    decreases s.len(),
{
    if s.len() > 0 && is_white_space(s.last()) {
        trim_end_ws(s.drop_last())
    } else {
        s
    }
}

/// `s` without leading and trailing white space (`str::trim`).
pub open spec fn trim_ws(s: Seq<char>) -> Seq<char> {
    trim_end_ws(trim_start_ws(s))
}

/// `s` with every trailing `c` removed (`str::trim_end_matches` with a char).
pub open spec fn strip_end_char(s: Seq<char>, c: char) -> Seq<char>
    decreases s.len(),
{
    if s.len() > 0 && s.last() == c {
        strip_end_char(s.drop_last(), c)
    } else {
        s
    }
}

/// The part of `s` after its last `c`; all of `s` when it holds no `c`
/// (the first item of `str::rsplit`).
pub open spec fn after_last(s: Seq<char>, c: char) -> Seq<char>
    decreases s.len(),
{
    if s.len() == 0 {
        s
    } else if s.last() == c {
        Seq::empty()
    } else {
        after_last(s.drop_last(), c).push(s.last())
    }
}

/// The part of `s` before its first `c`; all of `s` when it holds no `c`
/// (the first item of `str::split`).
pub open spec fn before_first(s: Seq<char>, c: char) -> Seq<char>
    decreases s.len(),
{
    if s.len() == 0 {
        s
    } else if s[0] == c {
        Seq::empty()
    } else {
        seq![s[0]] + before_first(s.drop_first(), c)
    }
}

/// Whether `s` ends with `suffix`.
pub open spec fn ends_with(s: Seq<char>, suffix: Seq<char>) -> bool {
    s.len() >= suffix.len() && s.subrange(s.len() - suffix.len(), s.len() as int) == suffix
}

/// Whether `s` starts with `prefix`.
pub open spec fn starts_with(s: Seq<char>, prefix: Seq<char>) -> bool {
    s.len() >= prefix.len() && s.subrange(0, prefix.len() as int) == prefix
}

/// `s` with every trailing copy of a non-empty `suffix` removed
/// (`str::trim_end_matches` with a string).
pub open spec fn strip_end_seq(s: Seq<char>, suffix: Seq<char>) -> Seq<char>
    decreases s.len(),
{
    if suffix.len() > 0 && ends_with(s, suffix) {
        strip_end_seq(s.subrange(0, s.len() - suffix.len()), suffix)
    } else {
        s
    }
}

/// Executable counterpart of [`is_white_space`] (`char::is_whitespace`).
pub fn white_space(c: char) -> (r: bool)
    ensures
        r == is_white_space(c),
{
    let v = c as u32;
    (0x09 <= v && v <= 0x0d) || v == 0x20 || v == 0x85 || v == 0xa0 || v == 0x1680 || (0x2000
        <= v && v <= 0x200a) || v == 0x2028 || v == 0x2029 || v == 0x202f || v == 0x205f || v
        == 0x3000
}

/// The characters of `s`, in order.
pub fn chars_of(s: &str) -> (r: Vec<char>)
    ensures
        r@ == s@,
{
    let mut r: Vec<char> = Vec::new();
    for c in it: s.chars()
        invariant
            r@ == it.seq().take(it.index() as int),
            it.seq() == s@,
    {
        r.push(c);
    }
    r
}

/// Appends one character to a string: calls `String::push`, which the
/// standard library documents as appending `c` to the end.
#[verifier::external_body]
fn push_char(s: &mut String, c: char)
    ensures
        final(s)@ == old(s)@.push(c),
{
    s.push(c);
}

/// The string made of `v[lo..hi]`.
pub fn string_of(v: &Vec<char>, lo: usize, hi: usize) -> (r: String)
    requires
        lo <= hi <= v.len(),
    ensures
        r@ == v@.subrange(lo as int, hi as int),
{
    let mut r = String::new();
    let mut i = lo;
    while i < hi
        invariant
            lo <= i <= hi <= v.len(),
            r@ == v@.subrange(lo as int, i as int),
        decreases hi - i,
    {
        push_char(&mut r, v[i]);
        assert(v@.subrange(lo as int, i + 1) =~= v@.subrange(lo as int, i as int).push(v@[i as int]));
        i = i + 1;
    }
    r
}

/// The bounds of `v[lo..hi]` once leading and trailing white space is gone.
pub fn trim_bounds(v: &Vec<char>, lo: usize, hi: usize) -> (r: (usize, usize))
    requires
        lo <= hi <= v.len(),
    ensures
        lo <= r.0 <= r.1 <= hi,
        v@.subrange(r.0 as int, r.1 as int) == trim_ws(v@.subrange(lo as int, hi as int)),
{
    let a = skip_white_space(v, lo, hi);
    let mut b = hi;
    while b > a && white_space(v[b - 1])
        invariant
            lo <= a <= b <= hi <= v.len(),
            trim_end_ws(v@.subrange(a as int, hi as int)) == trim_end_ws(
                v@.subrange(a as int, b as int),
            ),
        decreases b,
    {
        assert(v@.subrange(a as int, b as int).drop_last() =~= v@.subrange(a as int, b - 1));
        b = b - 1;
    }
    (a, b)
}

/// `s` without leading and trailing white space, as a new string.
pub fn trim(s: &str) -> (r: String)
    ensures
        r@ == trim_ws(s@),
{
    let v = chars_of(s);
    let (a, b) = trim_bounds(&v, 0, v.len());
    assert(v@.subrange(0, v@.len() as int) =~= v@);
    string_of(&v, a, b)
}

/// The bound that drops every trailing `c` from `v[lo..hi]`.
pub fn strip_end_char_bound(v: &Vec<char>, lo: usize, hi: usize, c: char) -> (r: usize)
    requires
        lo <= hi <= v.len(),
    ensures
        lo <= r <= hi,
        v@.subrange(lo as int, r as int) == strip_end_char(v@.subrange(lo as int, hi as int), c),
{
    let mut b = hi;
    while b > lo && v[b - 1] == c
        invariant
            lo <= b <= hi <= v.len(),
            strip_end_char(v@.subrange(lo as int, hi as int), c) == strip_end_char(
                v@.subrange(lo as int, b as int),
                c,
            ),
        decreases b,
    {
        assert(v@.subrange(lo as int, b as int).drop_last() =~= v@.subrange(lo as int, b - 1));
        b = b - 1;
    }
    b
}

/// The start of the part of `v[lo..hi]` after its last `c`.
pub fn after_last_bound(v: &Vec<char>, lo: usize, hi: usize, c: char) -> (r: usize)
    requires
        lo <= hi <= v.len(),
    ensures
        lo <= r <= hi,
        v@.subrange(r as int, hi as int) == after_last(v@.subrange(lo as int, hi as int), c),
{
    let mut j = hi;
    while j > lo && v[j - 1] != c
        invariant
            lo <= j <= hi <= v.len(),
            after_last(v@.subrange(lo as int, hi as int), c) == after_last(
                v@.subrange(lo as int, j as int),
                c,
            ) + v@.subrange(j as int, hi as int),
        decreases j,
    {
        let ghost s = v@.subrange(lo as int, j as int);
        assert(s.drop_last() =~= v@.subrange(lo as int, j - 1));
        assert(after_last(s, c) == after_last(s.drop_last(), c).push(s.last()));
        assert(after_last(s.drop_last(), c).push(s.last()) + v@.subrange(j as int, hi as int)
            =~= after_last(s.drop_last(), c) + v@.subrange(j - 1, hi as int));
        j = j - 1;
    }
    assert(after_last(v@.subrange(lo as int, j as int), c) =~= Seq::<char>::empty());
    assert(Seq::<char>::empty() + v@.subrange(j as int, hi as int) =~= v@.subrange(
        j as int,
        hi as int,
    ));
    j
}

/// The bound that drops every trailing copy of `suffix` from `v[lo..hi]`.
pub fn strip_end_seq_bound(v: &Vec<char>, lo: usize, hi: usize, suffix: &Vec<char>) -> (r: usize)
    requires
        lo <= hi <= v.len(),
        suffix.len() > 0,
    ensures
        lo <= r <= hi,
        v@.subrange(lo as int, r as int) == strip_end_seq(v@.subrange(lo as int, hi as int), suffix@),
{
    let n = suffix.len();
    let mut b = hi;
    loop
        invariant
            lo <= b <= hi <= v.len(),
            n == suffix.len() > 0,
            strip_end_seq(v@.subrange(lo as int, hi as int), suffix@) == strip_end_seq(
                v@.subrange(lo as int, b as int),
                suffix@,
            ),
        decreases b,
    {
        let ghost s = v@.subrange(lo as int, b as int);
        if b - lo < n {
            return b;
        }
        let start = b - n;
        let mut k: usize = 0;
        while k < n && v[start + k] == suffix[k]
            invariant
                lo <= start,
                start + n == b <= v.len(),
                n == suffix.len(),
                0 <= k <= n,
                forall|i: int| 0 <= i < k ==> v@[start + i] == suffix@[i],
            decreases n - k,
        {
            k = k + 1;
        }
        if k < n {
            assert(s.subrange(s.len() - n, s.len() as int)[k as int] != suffix@[k as int]);
            assert(!ends_with(s, suffix@));
            return b;
        }
        assert(s.subrange(s.len() - n, s.len() as int) =~= suffix@);
        assert(s.subrange(0, s.len() - n) =~= v@.subrange(lo as int, start as int));
        b = start;
    }
}

/// Whether `v[lo..hi]` starts with `prefix`.
pub fn starts_with_at(v: &Vec<char>, lo: usize, hi: usize, prefix: &Vec<char>) -> (r: bool)
    requires
        lo <= hi <= v.len(),
    ensures
        r == starts_with(v@.subrange(lo as int, hi as int), prefix@),
{
    let n = prefix.len();
    if hi - lo < n {
        return false;
    }
    let mut k: usize = 0;
    while k < n && v[lo + k] == prefix[k]
        invariant
            lo + n <= hi <= v.len(),
            n == prefix.len(),
            0 <= k <= n,
            forall|i: int| 0 <= i < k ==> v@[lo + i] == prefix@[i],
        decreases n - k,
    {
        k = k + 1;
    }
    let ghost s = v@.subrange(lo as int, hi as int);
    if k < n {
        assert(s.subrange(0, n as int)[k as int] != prefix@[k as int]);
        false
    } else {
        assert(s.subrange(0, n as int) =~= prefix@);
        true
    }
}

/// Whether two strings hold the same characters (`==` on `str`).
pub fn same_text(a: &str, b: &str) -> (r: bool)
    ensures
        r == (a@ == b@),
{
    let x = chars_of(a);
    let y = chars_of(b);
    if x.len() != y.len() {
        return false;
    }
    let mut k: usize = 0;
    while k < x.len() && x[k] == y[k]
        invariant
            x.len() == y.len(),
            0 <= k <= x.len(),
            forall|i: int| 0 <= i < k ==> x@[i] == y@[i],
        decreases x.len() - k,
    {
        k = k + 1;
    }
    if k < x.len() {
        assert(x@[k as int] != y@[k as int]);
        false
    } else {
        assert(x@ =~= y@);
        true
    }
}

/// `a` followed by `b`, as a new string.
pub fn concat(a: &str, b: &str) -> (r: String)
    ensures
        r@ == a@ + b@,
{
    let mut r = a.to_owned();
    r.append(b);
    r
}

/// `a`, `b` and `c`, one after the other, as a new string.
pub fn concat3(a: &str, b: &str, c: &str) -> (r: String)
    ensures
        r@ == a@ + b@ + c@,
{
    let mut r = a.to_owned();
    r.append(b);
    r.append(c);
    r
}

/// The first run of non-white-space characters of `s`.
pub open spec fn take_word(s: Seq<char>) -> Seq<char>
    decreases s.len(),
{
    if s.len() == 0 || is_white_space(s[0]) {
        Seq::empty()
    } else {
        seq![s[0]] + take_word(s.drop_first())
    }
}

/// The first white-space separated word of `s`, if any
/// (the first item of `str::split_whitespace`).
pub open spec fn first_word(s: Seq<char>) -> Option<Seq<char>> {
    let t = trim_start_ws(s);
    if t.len() == 0 {
        None
    } else {
        Some(take_word(t))
    }
}

/// The start of `v[lo..hi]` once leading white space is gone.
pub fn skip_white_space(v: &Vec<char>, lo: usize, hi: usize) -> (r: usize)
    requires
        lo <= hi <= v.len(),
    ensures
        lo <= r <= hi,
        v@.subrange(r as int, hi as int) == trim_start_ws(v@.subrange(lo as int, hi as int)),
{
    let mut a = lo;
    while a < hi && white_space(v[a])
        invariant
            lo <= a <= hi <= v.len(),
            trim_start_ws(v@.subrange(lo as int, hi as int)) == trim_start_ws(
                v@.subrange(a as int, hi as int),
            ),
        decreases hi - a,
    {
        assert(v@.subrange(a as int, hi as int).drop_first() =~= v@.subrange(a + 1, hi as int));
        a = a + 1;
    }
    a
}

/// The end of the first word that starts at `lo` in `v[lo..hi]`.
pub fn word_end(v: &Vec<char>, lo: usize, hi: usize) -> (r: usize)
    requires
        lo <= hi <= v.len(),
    ensures
        lo <= r <= hi,
        v@.subrange(lo as int, r as int) == take_word(v@.subrange(lo as int, hi as int)),
{
    let mut j = lo;
    while j < hi && !white_space(v[j])
        invariant
            lo <= j <= hi <= v.len(),
            take_word(v@.subrange(lo as int, hi as int)) == v@.subrange(lo as int, j as int)
                + take_word(v@.subrange(j as int, hi as int)),
        decreases hi - j,
    {
        let ghost t = v@.subrange(j as int, hi as int);
        assert(t.drop_first() =~= v@.subrange(j + 1, hi as int));
        assert(v@.subrange(lo as int, j as int) + (seq![t[0]] + take_word(t.drop_first()))
            =~= v@.subrange(lo as int, j + 1) + take_word(v@.subrange(j + 1, hi as int)));
        j = j + 1;
    }
    assert(take_word(v@.subrange(j as int, hi as int)) =~= Seq::<char>::empty());
    assert(v@.subrange(lo as int, j as int) + Seq::<char>::empty() =~= v@.subrange(
        lo as int,
        j as int,
    ));
    j
}

/// The end of the part of `v[lo..hi]` before its first `c`.
pub fn before_first_bound(v: &Vec<char>, lo: usize, hi: usize, c: char) -> (r: usize)
    requires
        lo <= hi <= v.len(),
    ensures
        lo <= r <= hi,
        v@.subrange(lo as int, r as int) == before_first(v@.subrange(lo as int, hi as int), c),
{
    let mut j = lo;
    while j < hi && v[j] != c
        invariant
            lo <= j <= hi <= v.len(),
            before_first(v@.subrange(lo as int, hi as int), c) == v@.subrange(lo as int, j as int)
                + before_first(v@.subrange(j as int, hi as int), c),
        decreases hi - j,
    {
        let ghost t = v@.subrange(j as int, hi as int);
        assert(t.drop_first() =~= v@.subrange(j + 1, hi as int));
        assert(v@.subrange(lo as int, j as int) + (seq![t[0]] + before_first(t.drop_first(), c))
            =~= v@.subrange(lo as int, j + 1) + before_first(v@.subrange(j + 1, hi as int), c));
        j = j + 1;
    }
    assert(before_first(v@.subrange(j as int, hi as int), c) =~= Seq::<char>::empty());
    assert(v@.subrange(lo as int, j as int) + Seq::<char>::empty() =~= v@.subrange(
        lo as int,
        j as int,
    ));
    j
}

/// Code-point lexicographic order on character sequences, which is the
/// order `Ord` gives `str` (UTF-8 keeps code-point order byte for byte).
pub open spec fn lex_lt(a: Seq<char>, b: Seq<char>) -> bool
    decreases a.len(),
{
    if a.len() == 0 {
        b.len() > 0
    } else if b.len() == 0 {
        false
    } else if a[0] != b[0] {
        (a[0] as u32) < (b[0] as u32)
    } else {
        lex_lt(a.drop_first(), b.drop_first())
    }
}

/// [`lex_lt`] is transitive.
pub proof fn lemma_lex_lt_transitive(a: Seq<char>, b: Seq<char>, c: Seq<char>)
    requires
        lex_lt(a, b),
        lex_lt(b, c),
    ensures
        lex_lt(a, c),
    decreases a.len(),
{
    if a.len() > 0 && b.len() > 0 && c.len() > 0 && a[0] == b[0] && b[0] == c[0] {
        lemma_lex_lt_transitive(a.drop_first(), b.drop_first(), c.drop_first());
    }
}

/// Law: [`lex_lt`] is the order of code points: a proper prefix comes
/// first, otherwise the first position where the two differ decides, the
/// smaller code point first; and no text comes before itself.
pub proof fn lex_order_is_by_code_points(a: Seq<char>, b: Seq<char>)
    ensures
        !lex_lt(a, a),
        a.len() < b.len() && b.subrange(0, a.len() as int) == a ==> lex_lt(a, b),
        forall|i: int|
            0 <= i < a.len() && i < b.len() && a.subrange(0, i) == b.subrange(0, i) && a[i] != b[i]
                ==> (lex_lt(a, b) <==> (#[trigger] a[i] as u32) < (b[i] as u32)),
    decreases a.len(),
{
    if a.len() > 0 {
        lex_order_is_by_code_points(a.drop_first(), a.drop_first());
        if b.len() > 0 {
            lex_order_is_by_code_points(a.drop_first(), b.drop_first());
            if a.len() < b.len() && b.subrange(0, a.len() as int) == a {
                assert(a[0] == b[0]);
                assert(b.drop_first().subrange(0, a.len() - 1) =~= a.drop_first());
            }
            assert forall|i: int|
                0 <= i < a.len() && i < b.len() && a.subrange(0, i) == b.subrange(0, i) && a[i]
                    != b[i] implies (lex_lt(a, b) <==> (#[trigger] a[i] as u32) < (b[i] as u32)) by {
                if i > 0 {
                    assert(a[0] == a.subrange(0, i)[0]);
                    assert(a.drop_first().subrange(0, i - 1) =~= b.drop_first().subrange(0, i - 1)) by {
                        assert forall|k: int| 0 <= k < i - 1 implies a.drop_first()[k] == b.drop_first()[k] by {
                            assert(a.subrange(0, i)[k + 1] == b.subrange(0, i)[k + 1]);
                        }
                    }
                    assert(a.drop_first()[i - 1] == a[i]);
                    assert(b.drop_first()[i - 1] == b[i]);
                }
            }
        }
    }
}

/// Whether `a` comes strictly before `b` in [`lex_lt`] order.
pub fn lex_less(a: &Vec<char>, b: &Vec<char>) -> (r: bool)
    ensures
        r == lex_lt(a@, b@),
{
    let mut i: usize = 0;
    assert(a@.skip(0) =~= a@);
    assert(b@.skip(0) =~= b@);
    while i < a.len() && i < b.len() && a[i] == b[i]
        invariant
            0 <= i <= a.len(),
            i <= b.len(),
            lex_lt(a@, b@) == lex_lt(a@.skip(i as int), b@.skip(i as int)),
        decreases a.len() - i,
    {
        assert(a@.skip(i as int).drop_first() =~= a@.skip(i + 1));
        assert(b@.skip(i as int).drop_first() =~= b@.skip(i + 1));
        i = i + 1;
    }
    if i == a.len() {
        i < b.len()
    } else if i == b.len() {
        false
    } else {
        (a[i] as u32) < (b[i] as u32)
    }
}

/// The decimal digit character for `d` (`0 <= d < 10`).
pub open spec fn digit_char(d: nat) -> char {
    ((d + 48) as u32) as char
}

/// The decimal numeral of `n`, without leading zeros.
pub open spec fn decimal(n: nat) -> Seq<char>
    decreases n,
{
    if n < 10 {
        seq![digit_char(n)]
    } else {
        decimal(n / 10).push(digit_char(n % 10))
    }
}

/// The decimal numeral of `i`, with a leading `-` when negative
/// (what `Display` prints for a signed integer).
pub open spec fn signed_decimal(i: int) -> Seq<char> {
    if i < 0 {
        seq!['-'] + decimal((-i) as nat)
    } else {
        decimal(i as nat)
    }
}

fn digit(d: u64) -> (r: char)
    requires
        d < 10,
    ensures
        r == digit_char(d as nat),
{
    ((d as u8) + 48) as char
}

/// The decimal numeral of `n`.
pub fn decimal_string(n: u64) -> (r: String)
    ensures
        r@ == decimal(n as nat),
    decreases n,
{
    if n < 10 {
        let mut r = String::new();
        push_char(&mut r, digit(n));
        r
    } else {
        let mut r = decimal_string(n / 10);
        push_char(&mut r, digit(n % 10));
        r
    }
}

/// The decimal numeral of `i`, with a leading `-` when negative.
pub fn signed_decimal_string(i: i64) -> (r: String)
    ensures
        r@ == signed_decimal(i as int),
{
    if i < 0 {
        let magnitude: u64 = if i == i64::MIN {
            9223372036854775808u64
        } else {
            (-i) as u64
        };
        let digits = decimal_string(magnitude);
        let mut r = String::new();
        push_char(&mut r, '-');
        r.append(digits.as_str());
        r
    } else {
        decimal_string(i as u64)
    }
}

proof fn lemma_trim_start_shape(s: Seq<char>)
    ensures
        trim_start_ws(s).len() <= s.len(),
        trim_start_ws(s) == s.subrange(s.len() - trim_start_ws(s).len(), s.len() as int),
        forall|k: int| 0 <= k < s.len() - trim_start_ws(s).len() ==> is_white_space(#[trigger] s[k]),
        trim_start_ws(s).len() > 0 ==> !is_white_space(trim_start_ws(s)[0]),
    decreases s.len(),
{
    if s.len() > 0 && is_white_space(s[0]) {
        lemma_trim_start_shape(s.drop_first());
        let t = trim_start_ws(s);
        assert(s.drop_first().subrange(s.len() - 1 - t.len(), s.len() - 1) =~= s.subrange(
            s.len() - t.len(),
            s.len() as int,
        ));
        assert forall|k: int| 0 <= k < s.len() - t.len() implies is_white_space(#[trigger] s[k]) by {
            if k > 0 {
                assert(s[k] == s.drop_first()[k - 1]);
            }
        }
    } else {
        assert(s.subrange(0, s.len() as int) =~= s);
    }
}

proof fn lemma_trim_end_shape(s: Seq<char>)
    ensures
        trim_end_ws(s).len() <= s.len(),
        trim_end_ws(s) == s.subrange(0, trim_end_ws(s).len() as int),
        forall|k: int| trim_end_ws(s).len() <= k < s.len() ==> is_white_space(#[trigger] s[k]),
        trim_end_ws(s).len() > 0 ==> !is_white_space(trim_end_ws(s).last()),
    decreases s.len(),
{
    if s.len() > 0 && is_white_space(s.last()) {
        lemma_trim_end_shape(s.drop_last());
        let t = trim_end_ws(s);
        assert(s.drop_last().subrange(0, t.len() as int) =~= s.subrange(0, t.len() as int));
        assert forall|k: int| t.len() <= k < s.len() implies is_white_space(#[trigger] s[k]) by {
            if k < s.len() - 1 {
                assert(s[k] == s.drop_last()[k]);
            }
        }
    } else {
        assert(s.subrange(0, s.len() as int) =~= s);
    }
}

proof fn lemma_take_word_shape(s: Seq<char>)
    ensures
        take_word(s).len() <= s.len(),
        take_word(s) == s.subrange(0, take_word(s).len() as int),
        forall|k: int| 0 <= k < take_word(s).len() ==> !is_white_space(#[trigger] take_word(s)[k]),
        take_word(s).len() < s.len() ==> is_white_space(s[take_word(s).len() as int]),
    decreases s.len(),
{
    if s.len() == 0 || is_white_space(s[0]) {
        assert(s.subrange(0, 0) =~= Seq::<char>::empty());
    } else {
        lemma_take_word_shape(s.drop_first());
        let w = take_word(s.drop_first());
        assert(s.subrange(0, w.len() as int + 1) =~= seq![s[0]] + w);
        assert forall|k: int| 0 <= k < w.len() + 1 implies !is_white_space(
            #[trigger] (seq![s[0]] + w)[k],
        ) by {
            if k > 0 {
                assert((seq![s[0]] + w)[k] == w[k - 1]);
            }
        }
        assert(w.len() < s.len() - 1 ==> s[w.len() as int + 1] == s.drop_first()[w.len() as int]);
    }
}

/// Law: trimming removes white space from both ends and nothing else: what
/// is left is a stretch of `s` that neither starts nor ends with white
/// space, and everything cut away is white space.
pub proof fn trim_removes_only_surrounding_white_space(s: Seq<char>)
    ensures
        exists|i: int, j: int|
            0 <= i <= j <= s.len() && trim_ws(s) == #[trigger] s.subrange(i, j) && (forall|k: int|
                0 <= k < i ==> is_white_space(#[trigger] s[k])) && (forall|k: int|
                j <= k < s.len() ==> is_white_space(#[trigger] s[k])),
        trim_ws(s).len() > 0 ==> !is_white_space(trim_ws(s)[0]) && !is_white_space(
            trim_ws(s).last(),
        ),
{
    let u = trim_start_ws(s);
    lemma_trim_start_shape(s);
    lemma_trim_end_shape(u);
    let t = trim_ws(s);
    let i = s.len() - u.len();
    let j = i + t.len();
    assert(t =~= s.subrange(i, j));
    assert forall|k: int| j <= k < s.len() implies is_white_space(#[trigger] s[k]) by {
        assert(s[k] == u[k - i]);
    }
    if t.len() > 0 {
        assert(t[0] == u[0]);
    }
}

/// Law: the first word is the first stretch of characters that are not
/// white space, preceded only by white space and followed by white space or
/// the end; there is none exactly when `s` is all white space.
pub proof fn first_word_is_the_leading_word(s: Seq<char>)
    ensures
        first_word(s) is None <==> (forall|k: int| 0 <= k < s.len() ==> is_white_space(#[trigger] s[k])),
        first_word(s) matches Some(w) ==> {
            &&& w.len() > 0
            &&& forall|k: int| 0 <= k < w.len() ==> !is_white_space(#[trigger] w[k])
            &&& exists|i: int|
                0 <= i && i + w.len() <= s.len() && (forall|k: int|
                    0 <= k < i ==> is_white_space(#[trigger] s[k])) && #[trigger] s.subrange(
                    i,
                    i + w.len(),
                ) == w && (i + w.len() == s.len() || is_white_space(s[i + w.len()]))
        },
{
    let t = trim_start_ws(s);
    lemma_trim_start_shape(s);
    let i = s.len() - t.len();
    if t.len() == 0 {
        assert(first_word(s) is None);
    } else {
        assert(!is_white_space(s[i]));
        lemma_take_word_shape(t);
        let w = take_word(t);
        assert(w.len() > 0);
        assert(s.subrange(i, i + w.len()) =~= w);
        if i + w.len() < s.len() {
            assert(s[i + w.len()] == t[w.len() as int]);
        }
    }
}

/// Whether `c` is one of the ASCII digits `0` to `9`.
pub open spec fn is_ascii_digit(c: char) -> bool {
    '0' <= c && c <= '9'
}

/// The number that the ASCII digits `s` spell, most significant first.
pub open spec fn numeral_value(s: Seq<char>) -> int
    decreases s.len(),
{
    if s.len() == 0 {
        0
    } else {
        numeral_value(s.drop_last()) * 10 + ((s.last() as u32) - 48)
    }
}

/// Whether `s` is a canonical numeral: one or more ASCII digits, with no
/// leading zero unless it is `0` itself.
pub open spec fn is_canonical_numeral(s: Seq<char>) -> bool {
    &&& s.len() > 0
    &&& forall|i: int| 0 <= i < s.len() ==> is_ascii_digit(#[trigger] s[i])
    &&& (s.len() > 1 ==> s[0] != '0')
}

/// Law: [`decimal`] writes `n` as a canonical numeral that reads back as
/// `n`.
pub proof fn decimal_reads_back(n: nat)
    ensures
        is_canonical_numeral(decimal(n)),
        numeral_value(decimal(n)) == n,
        decimal(n)[0] == '0' <==> n == 0,
    decreases n,
{
    if n < 10 {
        assert(digit_char(n) as u32 == n + 48);
        assert(decimal(n).drop_last() =~= Seq::<char>::empty());
        assert(numeral_value(Seq::<char>::empty()) == 0);
        assert(numeral_value(decimal(n)) == numeral_value(decimal(n).drop_last()) * 10 + (
        decimal(n).last() as u32 - 48));
    } else {
        let m = n / 10;
        decimal_reads_back(m);
        let d = decimal(m);
        assert(decimal(n) == d.push(digit_char(n % 10)));
        assert(d.push(digit_char(n % 10)).drop_last() =~= d);
        assert(n == m * 10 + n % 10);
        assert(digit_char(n % 10) as u32 == n % 10 + 48);
        assert(numeral_value(decimal(n)) == numeral_value(d) * 10 + (decimal(n).last() as u32 - 48));
        assert forall|i: int| 0 <= i < decimal(n).len() implies is_ascii_digit(
            #[trigger] decimal(n)[i],
        ) by {
            if i < d.len() {
                assert(decimal(n)[i] == d[i]);
            }
        }
        assert(decimal(n)[0] == d[0]);
    }
}

/// Law: [`signed_decimal`] writes `i` as a canonical numeral of its
/// magnitude, behind a `-` exactly when `i` is negative.
pub proof fn signed_decimal_reads_back(i: int)
    ensures
        i < 0 ==> signed_decimal(i)[0] == '-' && is_canonical_numeral(signed_decimal(i).drop_first())
            && numeral_value(signed_decimal(i).drop_first()) == -i,
        i >= 0 ==> is_canonical_numeral(signed_decimal(i)) && numeral_value(signed_decimal(i)) == i,
{
    if i < 0 {
        decimal_reads_back((-i) as nat);
        assert((seq!['-'] + decimal((-i) as nat)).drop_first() =~= decimal((-i) as nat));
    } else {
        decimal_reads_back(i as nat);
    }
}

/// A name for what `String::from_utf8_lossy` decodes from `bytes`: UTF-8
/// decoding where each invalid sequence becomes U+FFFD.
pub uninterp spec fn utf8_lossy(bytes: Seq<u8>) -> Seq<char>;

/// Decodes bytes as UTF-8, replacing invalid sequences: calls
/// `String::from_utf8_lossy` and claims only that the result is
/// [`utf8_lossy`] of the bytes.
#[verifier::external_body]
pub(crate) fn decode_lossy(bytes: &[u8]) -> (r: String)
    ensures
        r@ == utf8_lossy(bytes@),
{
    String::from_utf8_lossy(bytes).into_owned()
}

/// A name for what `str::to_lowercase` gives for `s`: the Unicode
/// lowercase mapping of each character, with final-sigma handling.
pub uninterp spec fn lowercase(s: Seq<char>) -> Seq<char>;

/// Lowercases a string: calls `str::to_lowercase` and claims only that the
/// result is [`lowercase`] of the input.
#[verifier::external_body]
pub(crate) fn lowercase_of(s: &str) -> (r: String)
    ensures
        r@ == lowercase(s@),
{
    s.to_lowercase()
}

} // verus!
