//! Character-level text utilities shared by the rest of the library.

use vstd::prelude::*;

verus! {

/// `String::push`: appends one character.
#[verifier::external_body]
pub(crate) fn string_push(s: &mut String, c: char)
    ensures
        final(s)@ == old(s)@.push(c),
{
    s.push(c);
}

/// The characters of a string slice, in order.
pub fn chars_of(s: &str) -> (v: Vec<char>)
    ensures
        v@ == s@,
{
    let mut v: Vec<char> = Vec::new();
    let n = s.unicode_len();
    let mut i: usize = 0;
    while i < n
        invariant
            n == s@.len(),
            i <= n,
            v@ == s@.take(i as int),
        decreases n - i,
    {
        let c = s.get_char(i);
        v.push(c);
        i = i + 1;
        assert(v@ =~= s@.take(i as int));
    }
    assert(v@ =~= s@);
    v
}

/// A string holding exactly the given characters.
pub fn string_of(v: &Vec<char>) -> (s: String)
    ensures
        s@ == v@,
{
    let mut s = String::new();
    let mut i: usize = 0;
    while i < v.len()
        invariant
            i <= v.len(),
            s@ == v@.take(i as int),
        decreases v.len() - i,
    {
        string_push(&mut s, v[i]);
        i = i + 1;
        assert(s@ =~= v@.take(i as int));
    }
    assert(s@ =~= v@);
    s
}

/// Unicode `White_Space`, the property that `char::is_whitespace`,
/// `str::trim` and `str::split_whitespace` go by.
pub open spec fn is_ws(c: char) -> bool {
    let u = c as u32;
    ||| 0x9 <= u <= 0xD
    ||| u == 0x20
    ||| u == 0x85
    ||| u == 0xA0
    ||| u == 0x1680
    ||| 0x2000 <= u <= 0x200A
    ||| u == 0x2028
    ||| u == 0x2029
    ||| u == 0x202F
    ||| u == 0x205F
    ||| u == 0x3000
}

/// Whether `c` is Unicode white space.
pub fn is_whitespace_char(c: char) -> (r: bool)
    ensures
        r == is_ws(c),
{
    let u = c as u32;
    (0x9 <= u && u <= 0xD) || u == 0x20 || u == 0x85 || u == 0xA0 || u == 0x1680
        || (0x2000 <= u && u <= 0x200A) || u == 0x2028 || u == 0x2029 || u == 0x202F
        || u == 0x205F || u == 0x3000
}

/// `s` without its leading white space.
pub open spec fn trim_start(s: Seq<char>) -> Seq<char>
    decreases s.len(),
{
    if s.len() > 0 && is_ws(s[0]) {
        trim_start(s.drop_first())
    } else {
        s
    }
}

/// `s` without its trailing white space.
pub open spec fn trim_end(s: Seq<char>) -> Seq<char>
    decreases s.len(),
{
    if s.len() > 0 && is_ws(s.last()) {
        trim_end(s.drop_last())
    } else {
        s
    }
}

/// `s` without leading and trailing white space (`str::trim`).
pub open spec fn trim(s: Seq<char>) -> Seq<char> {
    trim_end(trim_start(s))
}

proof fn lemma_trim_start_skip(s: Seq<char>, k: int)
    requires
        0 <= k <= s.len(),
        forall|j: int| 0 <= j < k ==> is_ws(#[trigger] s[j]),
        k == s.len() || !is_ws(s[k]),
    ensures
        trim_start(s) == s.skip(k),
    decreases k,
{
    if k == 0 {
        assert(s.skip(0) =~= s);
    } else {
        let t = s.drop_first();
        assert forall|j: int| 0 <= j < k - 1 implies is_ws(#[trigger] t[j]) by {
            assert(t[j] == s[j + 1]);
        }
        if k < s.len() {
            assert(t[k - 1] == s[k]);
        }
        lemma_trim_start_skip(t, k - 1);
        assert(t.skip(k - 1) =~= s.skip(k));
    }
}

proof fn lemma_trim_end_take(s: Seq<char>, k: int)
    requires
        0 <= k <= s.len(),
        forall|j: int| k <= j < s.len() ==> is_ws(#[trigger] s[j]),
        k == 0 || !is_ws(s[k - 1]),
    ensures
        trim_end(s) == s.take(k),
    decreases s.len() - k,
{
    if k == s.len() {
        assert(s.take(k) =~= s);
    } else {
        let t = s.drop_last();
        assert forall|j: int| k <= j < t.len() implies is_ws(#[trigger] t[j]) by {
            assert(t[j] == s[j]);
        }
        if k > 0 {
            assert(t[k - 1] == s[k - 1]);
        }
        lemma_trim_end_take(t, k);
        assert(t.take(k) =~= s.take(k));
    }
}

/// The characters of `s` without leading and trailing white space.
pub fn trim_chars(s: &Vec<char>) -> (r: Vec<char>)
    ensures
        r@ == trim(s@),
{
    let n = s.len();
    let mut a: usize = 0;
    while a < n && is_whitespace_char(s[a])
        invariant
            n == s.len(),
            a <= n,
            forall|j: int| 0 <= j < a ==> is_ws(#[trigger] s@[j]),
        decreases n - a,
    {
        a = a + 1;
    }
    proof {
        lemma_trim_start_skip(s@, a as int);
    }
    let mut b: usize = n;
    while b > a && is_whitespace_char(s[b - 1])
        invariant
            n == s.len(),
            a <= b <= n,
            forall|j: int| b <= j < n ==> is_ws(#[trigger] s@[j]),
        decreases b,
    {
        b = b - 1;
    }
    let ghost t = s@.skip(a as int);
    proof {
        assert forall|j: int| b - a <= j < t.len() implies is_ws(#[trigger] t[j]) by {
            assert(t[j] == s@[j + a]);
        }
        if b > a {
            assert(t[b - a - 1] == s@[b - 1]);
        }
        lemma_trim_end_take(t, (b - a) as int);
    }
    let mut r: Vec<char> = Vec::new();
    let mut i: usize = a;
    while i < b
        invariant
            n == s.len(),
            a <= i <= b <= n,
            r@ == s@.subrange(a as int, i as int),
        decreases b - i,
    {
        r.push(s[i]);
        i = i + 1;
        assert(r@ =~= s@.subrange(a as int, i as int));
    }
    assert(r@ =~= t.take((b - a) as int));
    r
}

/// The maximal runs of non-white-space characters of `s`, in order
/// (what `str::split_whitespace` yields).
pub open spec fn words(s: Seq<char>) -> Seq<Seq<char>>
    decreases s.len(),
{
    if s.len() == 0 {
        seq![]
    } else {
        let w = words(s.drop_last());
        let c = s.last();
        if is_ws(c) {
            w
        } else if s.len() >= 2 && !is_ws(s[s.len() - 2]) {
            w.drop_last().push(w.last().push(c))
        } else {
            w.push(seq![c])
        }
    }
}

/// The pieces of `ws` with `sep` between each two (`[T]::join`).
pub open spec fn join(ws: Seq<Seq<char>>, sep: Seq<char>) -> Seq<char>
    decreases ws.len(),
{
    if ws.len() == 0 {
        seq![]
    } else if ws.len() == 1 {
        ws[0]
    } else {
        join(ws.drop_last(), sep) + sep + ws.last()
    }
}

/// The words of `s` separated by single spaces.
pub open spec fn collapse_ws(s: Seq<char>) -> Seq<char> {
    join(words(s), seq![' '])
}

/// Every word is a non-empty run of non-white-space characters, and the
/// last character of `s` ends the last word when it is not white space.
pub proof fn lemma_words_shape(s: Seq<char>)
    ensures
        forall|k: int| 0 <= k < words(s).len() ==> (#[trigger] words(s)[k]).len() > 0,
        forall|k: int, j: int|
            0 <= k < words(s).len() && 0 <= j < words(s)[k].len() ==> !is_ws(
                #[trigger] words(s)[k][j],
            ),
        s.len() > 0 && !is_ws(s.last()) ==> words(s).len() > 0,
    decreases s.len(),
{
    if s.len() > 0 {
        lemma_words_shape(s.drop_last());
        let w = words(s.drop_last());
        let c = s.last();
        if !is_ws(c) && s.len() >= 2 && !is_ws(s[s.len() - 2]) {
            assert(s.drop_last().last() == s[s.len() - 2]);
            let v = w.drop_last().push(w.last().push(c));
            assert forall|k: int, j: int|
                0 <= k < v.len() && 0 <= j < v[k].len() implies !is_ws(#[trigger] v[k][j]) by {
                if k < v.len() - 1 {
                    assert(v[k] == w[k]);
                } else {
                    assert(v[k] == w[w.len() - 1].push(c));
                    if j < w[w.len() - 1].len() {
                        assert(v[k][j] == w[w.len() - 1][j]);
                    }
                }
            }
            assert forall|k: int| 0 <= k < v.len() implies (#[trigger] v[k]).len() > 0 by {
                if k < v.len() - 1 {
                    assert(v[k] == w[k]);
                }
            }
        } else if !is_ws(c) {
            let v = w.push(seq![c]);
            assert forall|k: int, j: int|
                0 <= k < v.len() && 0 <= j < v[k].len() implies !is_ws(#[trigger] v[k][j]) by {
                if k < v.len() - 1 {
                    assert(v[k] == w[k]);
                }
            }
            assert forall|k: int| 0 <= k < v.len() implies (#[trigger] v[k]).len() > 0 by {
                if k < v.len() - 1 {
                    assert(v[k] == w[k]);
                }
            }
        }
    }
}

pub proof fn lemma_join_push(ws: Seq<Seq<char>>, x: Seq<char>, sep: Seq<char>)
    ensures
        join(ws.push(x), sep) == if ws.len() == 0 {
            x
        } else {
            join(ws, sep) + sep + x
        },
{
    assert(ws.push(x).drop_last() =~= ws);
}

proof fn lemma_join_empty(ws: Seq<Seq<char>>, sep: Seq<char>)
    requires
        forall|k: int| 0 <= k < ws.len() ==> (#[trigger] ws[k]).len() > 0,
    ensures
        join(ws, sep).len() == 0 <==> ws.len() == 0,
    decreases ws.len(),
{
    if ws.len() > 1 {
        assert(ws.last().len() > 0);
    } else if ws.len() == 1 {
        assert(ws[0].len() > 0);
    }
}

/// The characters of `s` with white space collapsed (`split_whitespace`
/// then `join(" ")`).
pub fn collapse_ws_chars(s: &Vec<char>) -> (r: Vec<char>)
    ensures
        r@ == collapse_ws(s@),
{
    let mut r: Vec<char> = Vec::new();
    let mut i: usize = 0;
    assert(s@.take(0) =~= Seq::<char>::empty());
    while i < s.len()
        invariant
            i <= s.len(),
            r@ == collapse_ws(s@.take(i as int)),
        decreases s.len() - i,
    {
        let ghost p = s@.take(i as int);
        let ghost q = s@.take(i as int + 1);
        let c = s[i];
        assert(q.drop_last() =~= p);
        assert(q.last() == c);
        proof {
            lemma_words_shape(p);
            lemma_join_empty(words(p), seq![' ']);
        }
        if is_whitespace_char(c) {
        } else if i > 0 && !is_whitespace_char(s[i - 1]) {
            proof {
                assert(q[q.len() - 2] == s@[i - 1]);
                assert(p.last() == s@[i - 1]);
                let w = words(p);
                let wl = w.last();
                lemma_join_push(w.drop_last(), wl.push(c), seq![' ']);
                lemma_join_push(w.drop_last(), wl, seq![' ']);
                assert(w.drop_last().push(wl) =~= w);
            }
            r.push(c);
            assert(r@ =~= collapse_ws(q));
        } else {
            proof {
                lemma_join_push(words(p), seq![c], seq![' ']);
                if i > 0 {
                    assert(q[q.len() - 2] == s@[i - 1]);
                }
            }
            if r.len() > 0 {
                r.push(' ');
            }
            r.push(c);
            assert(r@ =~= collapse_ws(q));
        }
        i = i + 1;
    }
    assert(s@.take(s.len() as int) =~= s@);
    r
}

/// Whether `needle` occurs in `hay` as a contiguous run (`str::contains`).
pub open spec fn contains(hay: Seq<char>, needle: Seq<char>) -> bool {
    exists|i: int|
        0 <= i <= hay.len() - needle.len() && #[trigger] hay.subrange(i, i + needle.len())
            == needle
}

fn matches_at(hay: &Vec<char>, needle: &Vec<char>, i: usize) -> (r: bool)
    requires
        i + needle.len() <= hay.len(),
    ensures
        r == (hay@.subrange(i as int, i + needle.len()) == needle@),
{
    let mut j: usize = 0;
    while j < needle.len()
        invariant
            i + needle.len() <= hay.len(),
            j <= needle.len(),
            forall|m: int| 0 <= m < j ==> hay@[i + m] == needle@[m],
        decreases needle.len() - j,
    {
        if hay[i + j] != needle[j] {
            assert(hay@.subrange(i as int, i + needle.len())[j as int] != needle@[j as int]);
            return false;
        }
        j = j + 1;
    }
    assert(hay@.subrange(i as int, i + needle.len()) =~= needle@);
    true
}

/// Whether `needle` occurs in `hay`.
pub fn contains_chars(hay: &Vec<char>, needle: &Vec<char>) -> (r: bool)
    ensures
        r == contains(hay@, needle@),
{
    if needle.len() > hay.len() {
        return false;
    }
    if needle.len() == 0 {
        assert(hay@.subrange(0, 0 + needle.len()) =~= needle@);
        return true;
    }
    let mut i: usize = 0;
    while i <= hay.len() - needle.len()
        invariant
            0 < needle.len() <= hay.len(),
            i <= hay.len() - needle.len() + 1,
            forall|k: int| 0 <= k < i ==> #[trigger] hay@.subrange(k, k + needle.len()) != needle@,
        decreases hay.len() - i,
    {
        if matches_at(hay, needle, i) {
            return true;
        }
        i = i + 1;
    }
    false
}

/// Whether `needle` occurs in `hay`, for string slices.
pub fn str_contains(hay: &str, needle: &str) -> (r: bool)
    ensures
        r == contains(hay@, needle@),
{
    let h = chars_of(hay);
    let n = chars_of(needle);
    contains_chars(&h, &n)
}

/// What `str::to_lowercase` returns for the characters `s`: the lower case
/// of each character by the Unicode `Lowercase` mapping, with the final-sigma
/// rule of the standard library.
pub uninterp spec fn lowercase(s: Seq<char>) -> Seq<char>;

/// Whether every character of `s` is ASCII.
pub open spec fn is_ascii_text(s: Seq<char>) -> bool {
    forall|i: int| 0 <= i < s.len() ==> (#[trigger] s[i] as u32) < 128
}

/// The ASCII lower case of a character: `A` to `Z` become `a` to `z`,
/// every other character stays.
pub open spec fn ascii_lower(c: char) -> char {
    if 0x41 <= (c as u32) <= 0x5A {
        ((c as u32) + 32) as char
    } else {
        c
    }
}

/// The ASCII lower case of each character of `s`.
pub open spec fn ascii_lowercase(s: Seq<char>) -> Seq<char> {
    s.map_values(|c: char| ascii_lower(c))
}

/// `str::to_lowercase`; its result is named by `lowercase`. For ASCII text
/// the Unicode mapping turns `A` to `Z` into `a` to `z` and keeps every
/// other character, which is claimed too.
#[verifier::external_body]
pub(crate) fn to_lowercase(s: &str) -> (r: String)
    ensures
        r@ == lowercase(s@),
        is_ascii_text(s@) ==> r@ == ascii_lowercase(s@),
{
    s.to_lowercase()
}

/// The character of a decimal digit.
pub open spec fn digit_char(d: int) -> char {
    if d == 0 {
        '0'
    } else if d == 1 {
        '1'
    } else if d == 2 {
        '2'
    } else if d == 3 {
        '3'
    } else if d == 4 {
        '4'
    } else if d == 5 {
        '5'
    } else if d == 6 {
        '6'
    } else if d == 7 {
        '7'
    } else if d == 8 {
        '8'
    } else {
        '9'
    }
}

/// The decimal digits of `n`, without leading zeros (`Display` of an
/// unsigned integer).
pub open spec fn decimal(n: nat) -> Seq<char>
    decreases n,
{
    if n < 10 {
        seq![digit_char(n as int)]
    } else {
        decimal(n / 10).push(digit_char((n % 10) as int))
    }
}

/// `Display` of a signed integer: a minus sign before the digits of a
/// negative number.
pub open spec fn int_decimal(n: int) -> Seq<char> {
    if n < 0 {
        seq!['-'] + decimal((-n) as nat)
    } else {
        decimal(n as nat)
    }
}

fn digit(d: u64) -> (c: char)
    requires
        d < 10,
    ensures
        c == digit_char(d as int),
{
    if d == 0 {
        '0'
    } else if d == 1 {
        '1'
    } else if d == 2 {
        '2'
    } else if d == 3 {
        '3'
    } else if d == 4 {
        '4'
    } else if d == 5 {
        '5'
    } else if d == 6 {
        '6'
    } else if d == 7 {
        '7'
    } else if d == 8 {
        '8'
    } else {
        '9'
    }
}

/// The decimal digits of `n`.
pub fn decimal_u64(n: u64) -> (r: Vec<char>)
    ensures
        r@ == decimal(n as nat),
    decreases n,
{
    if n < 10 {
        let mut v: Vec<char> = Vec::new();
        v.push(digit(n));
        assert(v@ =~= seq![digit_char(n as int)]);
        v
    } else {
        let mut v = decimal_u64(n / 10);
        v.push(digit(n % 10));
        v
    }
}

/// The decimal text of a signed integer.
pub fn decimal_i64(n: i64) -> (r: Vec<char>)
    ensures
        r@ == int_decimal(n as int),
{
    if n < 0 {
        let m: u64 = if n == i64::MIN {
            9223372036854775808u64
        } else {
            (-n) as u64
        };
        let d = decimal_u64(m);
        let mut v: Vec<char> = Vec::new();
        v.push('-');
        let mut i: usize = 0;
        while i < d.len()
            invariant
                i <= d.len(),
                v@ == seq!['-'] + d@.take(i as int),
            decreases d.len() - i,
        {
            v.push(d[i]);
            i = i + 1;
            assert(v@ =~= seq!['-'] + d@.take(i as int));
        }
        assert(d@.take(d.len() as int) =~= d@);
        v
    } else {
        decimal_u64(n as u64)
    }
}

/// `a` followed by `b`.
pub fn append_chars(a: &mut Vec<char>, b: &Vec<char>)
    ensures
        final(a)@ == old(a)@ + b@,
{
    let mut i: usize = 0;
    let ghost a0 = a@;
    while i < b.len()
        invariant
            i <= b.len(),
            a@ == a0 + b@.take(i as int),
        decreases b.len() - i,
    {
        a.push(b[i]);
        i = i + 1;
        assert(a@ =~= a0 + b@.take(i as int));
    }
    assert(b@.take(b.len() as int) =~= b@);
}

/// `s` followed by the characters of `t`.
pub fn push_str(s: &mut Vec<char>, t: &str)
    ensures
        final(s)@ == old(s)@ + t@,
{
    let tc = chars_of(t);
    append_chars(s, &tc);
}

/// Whether two character sequences are equal.
pub fn chars_eq(a: &Vec<char>, b: &Vec<char>) -> (r: bool)
    ensures
        r == (a@ == b@),
{
    if a.len() != b.len() {
        return false;
    }
    let mut i: usize = 0;
    while i < a.len()
        invariant
            a.len() == b.len(),
            i <= a.len(),
            forall|j: int| 0 <= j < i ==> a@[j] == b@[j],
        decreases a.len() - i,
    {
        if a[i] != b[i] {
            return false;
        }
        i = i + 1;
    }
    assert(a@ =~= b@);
    true
}

/// Whether two string slices hold the same characters.
pub fn str_eq(a: &str, b: &str) -> (r: bool)
    ensures
        r == (a@ == b@),
{
    let ac = chars_of(a);
    let bc = chars_of(b);
    chars_eq(&ac, &bc)
}

proof fn lemma_words_append_word(p: Seq<char>, q: Seq<char>)
    requires
        q.len() > 0,
        forall|j: int| 0 <= j < q.len() ==> !is_ws(#[trigger] q[j]),
        p.len() == 0 || is_ws(p.last()),
    ensures
        words(p + q) == words(p).push(q),
    decreases q.len(),
{
    let s = p + q;
    assert(s.drop_last() =~= p + q.drop_last());
    assert(s.last() == q.last());
    if q.len() == 1 {
        assert(p + q.drop_last() =~= p);
        if s.len() >= 2 {
            assert(s[s.len() - 2] == p.last());
        }
        assert(q =~= seq![q[0]]);
    } else {
        let q1 = q.drop_last();
        assert forall|j: int| 0 <= j < q1.len() implies !is_ws(#[trigger] q1[j]) by {
            assert(q1[j] == q[j]);
        }
        lemma_words_append_word(p, q1);
        assert(s[s.len() - 2] == q[q.len() - 2]);
        assert(words(p).push(q1).drop_last() =~= words(p));
        assert(q1.push(q.last()) =~= q);
    }
}

proof fn lemma_words_of_join(ws: Seq<Seq<char>>)
    requires
        forall|k: int| 0 <= k < ws.len() ==> (#[trigger] ws[k]).len() > 0,
        forall|k: int, j: int|
            0 <= k < ws.len() && 0 <= j < ws[k].len() ==> !is_ws(#[trigger] ws[k][j]),
    ensures
        words(join(ws, seq![' '])) == ws,
    decreases ws.len(),
{
    if ws.len() == 0 {
        assert(words(Seq::<char>::empty()) =~= ws);
    } else {
        let init = ws.drop_last();
        let x = ws.last();
        assert forall|j: int| 0 <= j < x.len() implies !is_ws(#[trigger] x[j]) by {
            assert(x[j] == ws[ws.len() - 1][j]);
        }
        if ws.len() == 1 {
            lemma_words_append_word(Seq::<char>::empty(), x);
            assert(Seq::<char>::empty() + x =~= x);
            assert(words(Seq::<char>::empty()) =~= Seq::<Seq<char>>::empty());
            assert(Seq::<Seq<char>>::empty().push(x) =~= ws);
        } else {
            assert forall|k: int| 0 <= k < init.len() implies (#[trigger] init[k]).len() > 0 by {
                assert(init[k] == ws[k]);
            }
            assert forall|k: int, j: int|
                0 <= k < init.len() && 0 <= j < init[k].len() implies !is_ws(
                    #[trigger] init[k][j],
                ) by {
                assert(init[k] == ws[k]);
            }
            lemma_words_of_join(init);
            let a = join(init, seq![' ']);
            let b = a + seq![' '];
            assert(b.drop_last() =~= a);
            assert(b.last() == ' ');
            assert(words(b) == words(a));
            lemma_words_append_word(b, x);
            assert(join(ws, seq![' ']) == b + x);
            assert(init.push(x) =~= ws);
        }
    }
}

proof fn lemma_trim_start_shape(s: Seq<char>)
    ensures
        trim_start(s).len() == 0 || !is_ws(trim_start(s)[0]),
    decreases s.len(),
{
    if s.len() > 0 && is_ws(s[0]) {
        lemma_trim_start_shape(s.drop_first());
    }
}

proof fn lemma_trim_end_shape(s: Seq<char>)
    ensures
        trim_end(s).len() <= s.len(),
        trim_end(s) == s.take(trim_end(s).len() as int),
        trim_end(s).len() == 0 || !is_ws(trim_end(s).last()),
    decreases s.len(),
{
    if s.len() > 0 && is_ws(s.last()) {
        lemma_trim_end_shape(s.drop_last());
        let t = trim_end(s.drop_last());
        assert(s.drop_last().take(t.len() as int) =~= s.take(t.len() as int));
    } else {
        assert(s.take(s.len() as int) =~= s);
    }
}

/// Trimming twice gives what trimming once gives; a trimmed text is empty
/// or starts and ends with a character that is not white space.
pub proof fn law_trim_idempotent(s: Seq<char>)
    ensures
        trim(trim(s)) == trim(s),
        trim(s).len() == 0 || (!is_ws(trim(s)[0]) && !is_ws(trim(s).last())),
{
    let u = trim_start(s);
    lemma_trim_start_shape(s);
    lemma_trim_end_shape(u);
    let t = trim(s);
    if t.len() > 0 {
        assert(t[0] == u[0]);
    }
}

/// The shape of words joined by single spaces: no white space at either
/// end, no white space but the space, and never two white-space characters
/// in a row.
pub open spec fn single_spaced(r: Seq<char>) -> bool {
    &&& r.len() > 0 ==> !is_ws(r[0]) && !is_ws(r.last())
    &&& forall|i: int| 0 <= i < r.len() && is_ws(#[trigger] r[i]) ==> r[i] == ' '
    &&& forall|i: int| 0 <= i < r.len() - 1 && is_ws(#[trigger] r[i]) ==> !is_ws(r[i + 1])
}

proof fn lemma_join_single_spaced(ws: Seq<Seq<char>>)
    requires
        forall|k: int| 0 <= k < ws.len() ==> (#[trigger] ws[k]).len() > 0,
        forall|k: int, j: int|
            0 <= k < ws.len() && 0 <= j < ws[k].len() ==> !is_ws(#[trigger] ws[k][j]),
    ensures
        single_spaced(join(ws, seq![' '])),
        ws.len() > 0 ==> join(ws, seq![' ']).len() > 0,
    decreases ws.len(),
{
    if ws.len() == 1 {
        let x = ws[0];
        assert forall|i: int| 0 <= i < x.len() implies !is_ws(#[trigger] x[i]) by {
            assert(ws[0][i] == x[i]);
        }
    } else if ws.len() > 1 {
        let init = ws.drop_last();
        let x = ws.last();
        assert forall|k: int| 0 <= k < init.len() implies (#[trigger] init[k]).len() > 0 by {
            assert(init[k] == ws[k]);
        }
        assert forall|k: int, j: int|
            0 <= k < init.len() && 0 <= j < init[k].len() implies !is_ws(#[trigger] init[k][j]) by {
            assert(init[k] == ws[k]);
        }
        assert forall|j: int| 0 <= j < x.len() implies !is_ws(#[trigger] x[j]) by {
            assert(x[j] == ws[ws.len() - 1][j]);
        }
        lemma_join_single_spaced(init);
        let a = join(init, seq![' ']);
        let r = join(ws, seq![' ']);
        assert(r == a + seq![' '] + x);
        let n = a.len();
        assert forall|i: int| 0 <= i < r.len() implies (is_ws(#[trigger] r[i]) ==> r[i] == ' ') && (
        i < r.len() - 1 && is_ws(r[i]) ==> !is_ws(r[i + 1])) by {
            if i < n {
                assert(r[i] == a[i]);
                if i + 1 < n {
                    assert(r[i + 1] == a[i + 1]);
                } else {
                    assert(r[i + 1] == ' ');
                    assert(a[i] == a.last());
                }
            } else if i == n {
                assert(r[i + 1] == x[0]);
            } else {
                assert(r[i] == x[i - n - 1]);
                if i + 1 < r.len() {
                    assert(r[i + 1] == x[i - n]);
                }
            }
        }
        assert(r[0] == a[0]);
        assert(r.last() == x.last());
        assert(x.last() == x[x.len() - 1]);
    }
}

/// Collapsing white space keeps the words of the text, in order, and
/// gives single-spaced text; collapsing it again changes nothing.
pub proof fn law_collapse_ws_shape(s: Seq<char>)
    ensures
        words(collapse_ws(s)) == words(s),
        single_spaced(collapse_ws(s)),
        collapse_ws(collapse_ws(s)) == collapse_ws(s),
{
    lemma_words_shape(s);
    lemma_words_of_join(words(s));
    lemma_join_single_spaced(words(s));
}

/// Joined pieces start with the first piece and end with the last.
pub proof fn lemma_join_ends(ws: Seq<Seq<char>>, sep: Seq<char>)
    requires
        ws.len() > 0,
    ensures
        join(ws, sep).len() >= ws[0].len(),
        join(ws, sep).len() >= ws.last().len(),
        join(ws, sep).take(ws[0].len() as int) == ws[0],
        join(ws, sep).skip(join(ws, sep).len() - ws.last().len()) == ws.last(),
    decreases ws.len(),
{
    let r = join(ws, sep);
    if ws.len() == 1 {
        assert(r.take(ws[0].len() as int) =~= ws[0]);
        assert(r.skip(0) =~= ws[0]);
    } else {
        let init = ws.drop_last();
        lemma_join_ends(init, sep);
        let a = join(init, sep);
        assert(init[0] == ws[0]);
        assert(r == a + sep + ws.last());
        assert(r.take(ws[0].len() as int) =~= a.take(ws[0].len() as int));
        assert(r.skip(r.len() - ws.last().len()) =~= ws.last());
    }
}

/// A text that contains `needle` contains every run of `needle`.
pub proof fn lemma_contains_part(hay: Seq<char>, needle: Seq<char>, from: int, to: int)
    requires
        contains(hay, needle),
        0 <= from <= to <= needle.len(),
    ensures
        contains(hay, needle.subrange(from, to)),
{
    let i = choose|i: int|
        0 <= i <= hay.len() - needle.len() && #[trigger] hay.subrange(i, i + needle.len())
            == needle;
    let part = needle.subrange(from, to);
    assert(hay.subrange(i + from, i + from + part.len()) =~= part) by {
        assert forall|j: int| 0 <= j < part.len() implies hay.subrange(
            i + from,
            i + from + part.len(),
        )[j] == part[j] by {
            assert(hay.subrange(i, i + needle.len())[from + j] == needle[from + j]);
        }
    }
}

} // verus!
