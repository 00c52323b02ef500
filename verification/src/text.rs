//! Character-level string helpers with exact specifications.
use vstd::prelude::*;
use vstd::string::*;
use vstd::utf8::*;

verus! {

/// Unicode `White_Space` property, as used by `str::trim`.
pub open spec fn is_white_space(c: char) -> bool {
    let u = c as u32;
    ||| 0x9 <= u <= 0xD
    ||| u == 0x20
    ||| u == 0x85
    ||| u == 0xA0
    ||| u == 0x1680
    ||| 0x2000 <= u <= 0x200A
    ||| u == 0x2028
    ||| u == 0x2029
    ||| u == 0x202F
    ||| u == 0x205F
    ||| u == 0x3000
}

pub fn is_white_space_char(c: char) -> (r: bool)
    ensures
        r == is_white_space(c),
{
    let u = c as u32;
    (0x9 <= u && u <= 0xD) || u == 0x20 || u == 0x85 || u == 0xA0 || u == 0x1680 || (0x2000 <= u
        && u <= 0x200A) || u == 0x2028 || u == 0x2029 || u == 0x202F || u == 0x205F || u == 0x3000
}

/// Number of leading whitespace characters.
pub open spec fn leading_ws(s: Seq<char>) -> nat
    decreases s.len(),
{
    if s.len() > 0 && is_white_space(s[0]) {
        1 + leading_ws(s.drop_first())
    } else {
        0
    }
}

/// Number of trailing whitespace characters.
pub open spec fn trailing_ws(s: Seq<char>) -> nat
    decreases s.len(),
{
    if s.len() > 0 && is_white_space(s.last()) {
        1 + trailing_ws(s.drop_last())
    } else {
        0
    }
}

/// `str::trim`: leading and trailing whitespace removed.
pub open spec fn trim_seq(s: Seq<char>) -> Seq<char> {
    let t = s.skip(leading_ws(s) as int);
    t.take(t.len() - trailing_ws(t))
}

pub proof fn lemma_leading_ws(s: Seq<char>, i: int)
    requires
        0 <= i <= s.len(),
        forall|j: int| 0 <= j < i ==> is_white_space(#[trigger] s[j]),
        i < s.len() ==> !is_white_space(s[i]),
    ensures
        leading_ws(s) == i,
    decreases i,
{
    if i > 0 {
        let t = s.drop_first();
        assert forall|j: int| 0 <= j < i - 1 implies is_white_space(#[trigger] t[j]) by {
            assert(t[j] == s[j + 1]);
        }
        if i - 1 < t.len() {
            assert(t[i - 1] == s[i]);
        }
        lemma_leading_ws(t, i - 1);
    }
}

pub proof fn lemma_trailing_ws(s: Seq<char>, k: int)
    requires
        0 <= k <= s.len(),
        forall|j: int| s.len() - k <= j < s.len() ==> is_white_space(#[trigger] s[j]),
        k < s.len() ==> !is_white_space(s[s.len() - k - 1]),
    ensures
        trailing_ws(s) == k,
    decreases k,
{
    if k > 0 {
        let t = s.drop_last();
        assert forall|j: int| t.len() - (k - 1) <= j < t.len() implies is_white_space(
            #[trigger] t[j],
        ) by {
            assert(t[j] == s[j]);
        }
        if k - 1 < t.len() {
            assert(t[t.len() - (k - 1) - 1] == s[s.len() - k - 1]);
        }
        lemma_trailing_ws(t, k - 1);
    }
}

/// `str::trim_start`: leading whitespace removed.
pub open spec fn trim_start_seq(s: Seq<char>) -> Seq<char> {
    s.skip(leading_ws(s) as int)
}

/// Index of the first non-whitespace character of `v` at or after `from`.
pub fn skip_white_space(v: &Vec<char>, from: usize) -> (r: usize)
    requires
        from <= v@.len(),
    ensures
        from <= r <= v@.len(),
        r - from == leading_ws(v@.skip(from as int)),
{
    let mut a: usize = from;
    while a < v.len() && is_white_space_char(v[a])
        invariant
            from <= a <= v@.len(),
            forall|j: int| from <= j < a ==> is_white_space(#[trigger] v@[j]),
        decreases v@.len() - a,
    {
        a = a + 1;
    }
    proof {
        let t = v@.skip(from as int);
        assert forall|j: int| 0 <= j < a - from implies is_white_space(#[trigger] t[j]) by {
            assert(t[j] == v@[j + from]);
        }
        if a - from < t.len() {
            assert(t[a - from] == v@[a as int]);
        }
        lemma_leading_ws(t, a - from);
    }
    a
}

/// The characters of a string slice, in order.
pub fn chars_of(s: &str) -> (v: Vec<char>)
    ensures
        v@ == s@,
{
    let n = s.unicode_len();
    let mut v: Vec<char> = Vec::new();
    let mut i: usize = 0;
    while i < n
        invariant
            n == s@.len(),
            i <= n,
            v@ == s@.take(i as int),
        decreases n - i,
    {
        let c = s.get_char(i);
        v.push(c);
        i = i + 1;
        assert(v@ =~= s@.take(i as int));
    }
    assert(v@ =~= s@);
    v
}

/// `String::push`: appends the character to the end of the string.
pub assume_specification[ String::push ](s: &mut String, ch: char)
    ensures
        final(s)@ == old(s)@.push(ch),
;

/// A `String` holding the given characters.
pub fn string_of(v: &Vec<char>) -> (s: String)
    ensures
        s@ == v@,
{
    let mut s = String::new();
    let mut i: usize = 0;
    while i < v.len()
        invariant
            i <= v.len(),
            s@ == v@.take(i as int),
        decreases v.len() - i,
    {
        s.push(v[i]);
        i = i + 1;
        assert(s@ =~= v@.take(i as int));
    }
    assert(v@.take(v@.len() as int) =~= v@);
    s
}

/// `str::trim` on a string slice.
pub fn trim(s: &str) -> (r: String)
    ensures
        r@ == trim_seq(s@),
{
    let v = chars_of(s);
    let n = v.len();
    let mut a: usize = 0;
    while a < n && is_white_space_char(v[a])
        invariant
            n == v@.len(),
            a <= n,
            forall|j: int| 0 <= j < a ==> is_white_space(#[trigger] v@[j]),
        decreases n - a,
    {
        a = a + 1;
    }
    proof {
        lemma_leading_ws(v@, a as int);
    }
    let ghost t = v@.skip(a as int);
    let mut b: usize = n;
    while b > a && is_white_space_char(v[b - 1])
        invariant
            n == v@.len(),
            a <= b <= n,
            t == v@.skip(a as int),
            forall|j: int| b <= j < n ==> is_white_space(#[trigger] v@[j]),
        decreases b - a,
    {
        b = b - 1;
    }
    proof {
        assert forall|j: int| t.len() - (n - b) <= j < t.len() implies is_white_space(
            #[trigger] t[j],
        ) by {
            assert(t[j] == v@[j + a]);
        }
        if n - b < t.len() {
            assert(t[t.len() - (n - b) - 1] == v@[b - 1]);
        }
        lemma_trailing_ws(t, (n - b) as int);
    }
    let mut out: Vec<char> = Vec::new();
    let mut i: usize = a;
    while i < b
        invariant
            a <= i <= b <= n,
            n == v@.len(),
            out@ == v@.subrange(a as int, i as int),
        decreases b - i,
    {
        out.push(v[i]);
        i = i + 1;
        assert(out@ =~= v@.subrange(a as int, i as int));
    }
    assert(out@ =~= t.take(t.len() - trailing_ws(t)));
    string_of(&out)
}


/// `c` lowercased as by `char::to_ascii_lowercase`.
pub open spec fn ascii_lower(c: char) -> char {
    if 'A' <= c <= 'Z' {
        ((c as u32) + 32) as char
    } else {
        c
    }
}

/// `str::to_ascii_lowercase` on a character sequence.
pub open spec fn ascii_lower_seq(s: Seq<char>) -> Seq<char> {
    s.map_values(|c: char| ascii_lower(c))
}

pub fn ascii_lower_char(c: char) -> (r: char)
    ensures
        r == ascii_lower(c),
{
    if 'A' <= c && c <= 'Z' {
        let b = c as u8;
        (b + 32) as char
    } else {
        c
    }
}

/// `str::to_ascii_lowercase`.
pub fn to_ascii_lowercase(s: &str) -> (r: String)
    ensures
        r@ == ascii_lower_seq(s@),
{
    let v = chars_of(s);
    let mut out: Vec<char> = Vec::new();
    let mut i: usize = 0;
    while i < v.len()
        invariant
            i <= v.len(),
            out@ == ascii_lower_seq(v@.take(i as int)),
        decreases v.len() - i,
    {
        out.push(ascii_lower_char(v[i]));
        i = i + 1;
        assert(out@ =~= ascii_lower_seq(v@.take(i as int)));
    }
    assert(v@.take(v@.len() as int) =~= v@);
    string_of(&out)
}

/// Number of leading copies of `ch`.
pub open spec fn leading_char(s: Seq<char>, ch: char) -> nat
    decreases s.len(),
{
    if s.len() > 0 && s[0] == ch {
        1 + leading_char(s.drop_first(), ch)
    } else {
        0
    }
}

/// `str::trim_start_matches(ch)`.
pub open spec fn trim_start_char_seq(s: Seq<char>, ch: char) -> Seq<char> {
    s.skip(leading_char(s, ch) as int)
}

pub proof fn lemma_leading_char(s: Seq<char>, ch: char, i: int)
    requires
        0 <= i <= s.len(),
        forall|j: int| 0 <= j < i ==> #[trigger] s[j] == ch,
        i < s.len() ==> s[i] != ch,
    ensures
        leading_char(s, ch) == i,
    decreases i,
{
    if i > 0 {
        let t = s.drop_first();
        assert forall|j: int| 0 <= j < i - 1 implies #[trigger] t[j] == ch by {
            assert(t[j] == s[j + 1]);
        }
        if i - 1 < t.len() {
            assert(t[i - 1] == s[i]);
        }
        lemma_leading_char(t, ch, i - 1);
    }
}

/// `str::trim_start_matches` with a single character pattern.
pub fn trim_start_char(s: &str, ch: char) -> (r: String)
    ensures
        r@ == trim_start_char_seq(s@, ch),
{
    let v = chars_of(s);
    let n = v.len();
    let mut a: usize = 0;
    while a < n && v[a] == ch
        invariant
            n == v@.len(),
            a <= n,
            forall|j: int| 0 <= j < a ==> #[trigger] v@[j] == ch,
        decreases n - a,
    {
        a = a + 1;
    }
    proof {
        lemma_leading_char(v@, ch, a as int);
    }
    let mut out: Vec<char> = Vec::new();
    let mut i: usize = a;
    while i < n
        invariant
            a <= i <= n,
            n == v@.len(),
            out@ == v@.subrange(a as int, i as int),
        decreases n - i,
    {
        out.push(v[i]);
        i = i + 1;
        assert(out@ =~= v@.subrange(a as int, i as int));
    }
    assert(out@ =~= v@.skip(a as int));
    string_of(&out)
}

/// Whether `p` occurs in `s` at character position `i`.
pub open spec fn occurs_at(s: Seq<char>, p: Seq<char>, i: int) -> bool {
    0 <= i && i + p.len() <= s.len() && s.subrange(i, i + p.len()) == p
}

/// Position of the first occurrence of `p` in `s`, as `str::find` gives it, counted in characters.
pub open spec fn find_seq(s: Seq<char>, p: Seq<char>) -> Option<int>
    decreases s.len(),
{
    if p.is_prefix_of(s) {
        Some(0)
    } else if s.len() == 0 {
        None
    } else {
        match find_seq(s.drop_first(), p) {
            Some(i) => Some(i + 1),
            None => None,
        }
    }
}

pub proof fn lemma_prefix_occurs(s: Seq<char>, p: Seq<char>, i: int)
    requires
        0 <= i <= s.len(),
    ensures
        p.is_prefix_of(s.skip(i)) <==> occurs_at(s, p, i),
{
    if p.is_prefix_of(s.skip(i)) {
        assert(s.subrange(i, i + p.len()) =~= p);
    }
    if occurs_at(s, p, i) {
        assert forall|k: int| 0 <= k < p.len() implies p[k] == s.skip(i)[k] by {
            assert(s.subrange(i, i + p.len())[k] == s[i + k]);
        }
    }
}

pub proof fn lemma_find_none_short(s: Seq<char>, p: Seq<char>)
    requires
        s.len() < p.len(),
    ensures
        find_seq(s, p) is None,
    decreases s.len(),
{
    if s.len() > 0 {
        lemma_find_none_short(s.drop_first(), p);
    }
}

pub proof fn lemma_find_skip(s: Seq<char>, p: Seq<char>, i: int)
    requires
        0 <= i <= s.len(),
        forall|j: int| 0 <= j < i ==> !occurs_at(s, p, j),
    ensures
        find_seq(s, p) == (match find_seq(s.skip(i), p) {
            Some(k) => Some(k + i),
            None => None::<int>,
        }),
    decreases i,
{
    if i > 0 {
        lemma_prefix_occurs(s, p, 0);
        assert(s.skip(0) =~= s);
        let t = s.drop_first();
        assert forall|j: int| 0 <= j < i - 1 implies !occurs_at(t, p, j) by {
            if occurs_at(t, p, j) {
                assert(t.subrange(j, j + p.len()) =~= s.subrange(j + 1, j + 1 + p.len()));
                assert(occurs_at(s, p, j + 1));
            }
        }
        lemma_find_skip(t, p, i - 1);
        assert(t.skip(i - 1) =~= s.skip(i));
    } else {
        assert(s.skip(0) =~= s);
    }
}

pub proof fn lemma_find_some_occurs(s: Seq<char>, p: Seq<char>)
    ensures
        find_seq(s, p) matches Some(i) ==> occurs_at(s, p, i),
    decreases s.len(),
{
    if p.is_prefix_of(s) {
        lemma_prefix_occurs(s, p, 0);
        assert(s.skip(0) =~= s);
    } else if s.len() > 0 {
        let t = s.drop_first();
        lemma_find_some_occurs(t, p);
        if let Some(i) = find_seq(t, p) {
            assert(t.subrange(i, i + p.len()) =~= s.subrange(i + 1, i + 1 + p.len()));
        }
    }
}

/// Whether `p` occurs in `s` at position `i` (computed).
pub fn occurs_at_exec(s: &Vec<char>, p: &Vec<char>, i: usize) -> (r: bool)
    requires
        i <= s@.len(),
    ensures
        r == occurs_at(s@, p@, i as int),
{
    if p.len() > s.len() - i {
        return false;
    }
    let mut k: usize = 0;
    while k < p.len()
        invariant
            i + p@.len() <= s@.len(),
            s@.len() <= usize::MAX,
            k <= p@.len(),
            forall|m: int| 0 <= m < k ==> s@[i + m] == p@[m],
        decreases p@.len() - k,
    {
        if s[i + k] != p[k] {
            assert(s@.subrange(i as int, i + p@.len())[k as int] != p@[k as int]);
            return false;
        }
        k = k + 1;
    }
    assert(s@.subrange(i as int, i + p@.len()) =~= p@);
    true
}

pub fn is_prefix_chars(p: &Vec<char>, s: &Vec<char>) -> (r: bool)
    ensures
        r == p@.is_prefix_of(s@),
{
    if p.len() > s.len() {
        return false;
    }
    let r = occurs_at_exec(s, p, 0);
    proof {
        lemma_prefix_occurs(s@, p@, 0);
        assert(s@.skip(0) =~= s@);
    }
    r
}

/// `str::starts_with` with a string pattern.
pub fn starts_with_str(s: &str, p: &str) -> (r: bool)
    ensures
        r == p@.is_prefix_of(s@),
{
    let sv = chars_of(s);
    let pv = chars_of(p);
    is_prefix_chars(&pv, &sv)
}

/// String equality by characters.
pub fn str_eq(a: &str, b: &str) -> (r: bool)
    ensures
        r == (a@ == b@),
{
    let av = chars_of(a);
    let bv = chars_of(b);
    if av.len() != bv.len() {
        return false;
    }
    let r = is_prefix_chars(&av, &bv);
    if r {
        assert(av@ =~= bv@);
    }
    r
}

/// Lexicographic order of character sequences (the order of `str::cmp`).
pub open spec fn lex_lt(a: Seq<char>, b: Seq<char>) -> bool
    decreases a.len(),
{
    if a.len() == 0 {
        b.len() > 0
    } else if b.len() == 0 {
        false
    } else if a[0] != b[0] {
        (a[0] as u32) < (b[0] as u32)
    } else {
        lex_lt(a.drop_first(), b.drop_first())
    }
}

pub proof fn lemma_lex_irreflexive(a: Seq<char>)
    ensures
        !lex_lt(a, a),
    decreases a.len(),
{
    if a.len() > 0 {
        lemma_lex_irreflexive(a.drop_first());
    }
}

pub proof fn lemma_lex_transitive(a: Seq<char>, b: Seq<char>, c: Seq<char>)
    requires
        lex_lt(a, b),
        lex_lt(b, c),
    ensures
        lex_lt(a, c),
    decreases a.len(),
{
    if a.len() > 0 && b.len() > 0 && c.len() > 0 && a[0] == b[0] && b[0] == c[0] {
        lemma_lex_transitive(a.drop_first(), b.drop_first(), c.drop_first());
    }
}

pub proof fn lemma_lex_total(a: Seq<char>, b: Seq<char>)
    ensures
        lex_lt(a, b) || a == b || lex_lt(b, a),
    decreases a.len(),
{
    if a.len() == 0 && b.len() == 0 {
        assert(a =~= b);
    } else if a.len() > 0 && b.len() > 0 && a[0] == b[0] {
        lemma_lex_total(a.drop_first(), b.drop_first());
        if a.drop_first() == b.drop_first() {
            assert(a.drop_first().len() == b.drop_first().len());
            assert(a.len() == b.len());
            assert forall|k: int| 0 <= k < a.len() implies a[k] == b[k] by {
                if k > 0 {
                    assert(a[k] == a.drop_first()[k - 1]);
                    assert(b[k] == b.drop_first()[k - 1]);
                }
            }
            assert(a =~= b);
        }
    } else if a.len() > 0 && b.len() > 0 {
        let x = a[0] as u32;
        let y = b[0] as u32;
        assert(x != y) by {
            vstd::utf8::char_u32_cast(a[0], x);
            vstd::utf8::char_u32_cast(b[0], y);
        }
    }
}

/// `a < b` in the order of `str::cmp`.
pub fn str_lt(a: &str, b: &str) -> (r: bool)
    ensures
        r == lex_lt(a@, b@),
{
    let av = chars_of(a);
    let bv = chars_of(b);
    assert(a@.skip(0) =~= a@);
    assert(b@.skip(0) =~= b@);
    let mut i: usize = 0;
    while i < av.len() && i < bv.len() && av[i] == bv[i]
        invariant
            av@ == a@,
            bv@ == b@,
            i <= av@.len(),
            i <= bv@.len(),
            lex_lt(a@, b@) == lex_lt(a@.skip(i as int), b@.skip(i as int)),
        decreases av@.len() - i,
    {
        assert(a@.skip(i as int).drop_first() =~= a@.skip(i + 1));
        assert(b@.skip(i as int).drop_first() =~= b@.skip(i + 1));
        i = i + 1;
    }
    if i == av.len() {
        i < bv.len()
    } else if i == bv.len() {
        false
    } else {
        assert(a@.skip(i as int)[0] == av@[i as int]);
        assert(b@.skip(i as int)[0] == bv@[i as int]);
        (av[i] as u32) < (bv[i] as u32)
    }
}

/// `str::find` with a string pattern, as a character position.
pub fn find_chars(s: &Vec<char>, p: &Vec<char>) -> (r: Option<usize>)
    ensures
        match r {
            Some(i) => find_seq(s@, p@) == Some(i as int),
            None => find_seq(s@, p@) is None,
        },
{
    let mut i: usize = 0;
    while i < s.len()
        invariant
            i <= s@.len(),
            forall|j: int| 0 <= j < i ==> !occurs_at(s@, p@, j),
        decreases s@.len() - i,
    {
        if occurs_at_exec(s, p, i) {
            proof {
                lemma_find_skip(s@, p@, i as int);
                lemma_prefix_occurs(s@, p@, i as int);
            }
            return Some(i);
        }
        i = i + 1;
    }
    proof {
        lemma_find_skip(s@, p@, i as int);
        lemma_prefix_occurs(s@, p@, i as int);
    }
    if occurs_at_exec(s, p, i) {
        Some(i)
    } else {
        proof {
            if p@.len() > 0 {
                lemma_find_none_short(s@.skip(i as int), p@);
            }
        }
        None
    }
}


/// Length in bytes of the UTF-8 encoding of `s`.
pub open spec fn utf8_len(s: Seq<char>) -> int {
    encode_utf8(s).len() as int
}

pub proof fn lemma_utf8_concat(a: Seq<char>, b: Seq<char>)
    ensures
        encode_utf8(a + b) == encode_utf8(a) + encode_utf8(b),
    decreases a.len(),
{
    if a.len() == 0 {
        assert(a + b =~= b);
        assert(encode_utf8(a) =~= Seq::<u8>::empty());
        assert(encode_utf8(a) + encode_utf8(b) =~= encode_utf8(b));
    } else {
        assert((a + b).drop_first() =~= a.drop_first() + b);
        assert((a + b)[0] == a[0]);
        lemma_utf8_concat(a.drop_first(), b);
        assert(encode_utf8(a + b) =~= encode_utf8(a) + encode_utf8(b));
    }
}

/// Bytes in the UTF-8 encoding of one character.
pub fn char_utf8_width(c: char) -> (r: usize)
    ensures
        r == encode_scalar(c as u32).len(),
{
    let v = c as u32;
    if v <= 0x7F {
        1
    } else if v <= 0x7FF {
        2
    } else if v <= 0xFFFF {
        3
    } else {
        4
    }
}

pub proof fn lemma_utf8_take_step(s: Seq<char>, i: int)
    requires
        0 <= i < s.len(),
    ensures
        utf8_len(s.take(i + 1)) == utf8_len(s.take(i)) + encode_scalar(s[i] as u32).len(),
{
    let one = seq![s[i]];
    assert(s.take(i + 1) =~= s.take(i) + one);
    lemma_utf8_concat(s.take(i), one);
    assert(one.drop_first() =~= Seq::<char>::empty());
    assert(encode_utf8(one.drop_first()) =~= Seq::<u8>::empty());
    assert(encode_utf8(one) =~= encode_scalar(one[0] as u32) + encode_utf8(one.drop_first()));
    assert(encode_utf8(one) =~= encode_scalar(s[i] as u32));
}

/// Whether `s` encodes in at most `bound` bytes of UTF-8.
pub fn utf8_len_within(s: &str, bound: usize) -> (r: bool)
    ensures
        r == (utf8_len(s@) <= bound),
{
    let v = chars_of(s);
    let mut total: usize = 0;
    let mut i: usize = 0;
    assert(v@.take(0) =~= Seq::<char>::empty());
    while i < v.len()
        invariant
            v@ == s@,
            i <= v@.len(),
            total == utf8_len(v@.take(i as int)),
            total <= bound,
        decreases v@.len() - i,
    {
        proof {
            lemma_utf8_take_step(v@, i as int);
        }
        let w = char_utf8_width(v[i]);
        if w > bound - total {
            proof {
                lemma_utf8_subrange_le(v@, 0, i + 1);
                assert(v@.subrange(0, i + 1) =~= v@.take(i + 1));
            }
            return false;
        }
        total = total + w;
        i = i + 1;
    }
    assert(v@.take(v@.len() as int) =~= v@);
    true
}

pub proof fn lemma_utf8_len_ge(s: Seq<char>)
    ensures
        utf8_len(s) >= s.len(),
    decreases s.len(),
{
    if s.len() > 0 {
        lemma_utf8_len_ge(s.drop_first());
    }
}

pub proof fn lemma_utf8_subrange_le(s: Seq<char>, i: int, j: int)
    requires
        0 <= i <= j <= s.len(),
    ensures
        utf8_len(s.subrange(i, j)) <= utf8_len(s),
{
    assert(s =~= s.take(i) + (s.subrange(i, j) + s.skip(j)));
    lemma_utf8_concat(s.take(i), s.subrange(i, j) + s.skip(j));
    lemma_utf8_concat(s.subrange(i, j), s.skip(j));
}

pub proof fn lemma_utf8_lower(s: Seq<char>)
    ensures
        utf8_len(ascii_lower_seq(s)) == utf8_len(s),
    decreases s.len(),
{
    if s.len() > 0 {
        assert(ascii_lower_seq(s).drop_first() =~= ascii_lower_seq(s.drop_first()));
        lemma_utf8_lower(s.drop_first());
        let c = s[0];
        if 'A' <= c <= 'Z' {
            assert(ascii_lower(c) as u32 == c as u32 + 32);
        }
    }
}

pub proof fn lemma_trim_subrange(s: Seq<char>)
    ensures
        utf8_len(trim_seq(s)) <= utf8_len(s),
{
    let a = leading_ws(s) as int;
    assert(leading_ws(s) <= s.len()) by {
        lemma_leading_ws_le(s);
    }
    let t = s.skip(a);
    assert(trailing_ws(t) <= t.len()) by {
        lemma_trailing_ws_le(t);
    }
    assert(trim_seq(s) =~= s.subrange(a, a + t.len() - trailing_ws(t)));
    lemma_utf8_subrange_le(s, a, a + t.len() - trailing_ws(t));
}

pub proof fn lemma_leading_ws_le(s: Seq<char>)
    ensures
        leading_ws(s) <= s.len(),
    decreases s.len(),
{
    if s.len() > 0 {
        lemma_leading_ws_le(s.drop_first());
    }
}

pub proof fn lemma_trailing_ws_le(s: Seq<char>)
    ensures
        trailing_ws(s) <= s.len(),
    decreases s.len(),
{
    if s.len() > 0 {
        lemma_trailing_ws_le(s.drop_last());
    }
}

pub proof fn lemma_leading_char_le(s: Seq<char>, ch: char)
    ensures
        leading_char(s, ch) <= s.len(),
    decreases s.len(),
{
    if s.len() > 0 {
        lemma_leading_char_le(s.drop_first(), ch);
    }
}

pub proof fn lemma_trim_start_char_len(s: Seq<char>, ch: char)
    ensures
        utf8_len(trim_start_char_seq(s, ch)) <= utf8_len(s),
{
    lemma_leading_char_le(s, ch);
    let a = leading_char(s, ch) as int;
    assert(s.skip(a) =~= s.subrange(a, s.len() as int));
    lemma_utf8_subrange_le(s, a, s.len() as int);
}

/// `char::to_ascii_uppercase`.
pub open spec fn ascii_upper(c: char) -> char {
    if 'a' <= c <= 'z' {
        ((c as u32) - 32) as char
    } else {
        c
    }
}

/// `str::to_ascii_uppercase` on a character sequence.
pub open spec fn ascii_upper_seq(s: Seq<char>) -> Seq<char> {
    s.map_values(|c: char| ascii_upper(c))
}

pub proof fn lemma_ascii_upper_char(c: char)
    ensures
        ascii_lower(ascii_upper(c)) == ascii_lower(c),
        is_white_space(ascii_upper(c)) == is_white_space(c),
        (ascii_upper(c) == '/') == (c == '/'),
{
    if 'a' <= c <= 'z' {
        assert(ascii_upper(c) as u32 == c as u32 - 32);
        assert(ascii_lower(ascii_upper(c)) as u32 == c as u32);
    }
}

pub proof fn lemma_leading_ws_upper(s: Seq<char>)
    ensures
        leading_ws(ascii_upper_seq(s)) == leading_ws(s),
    decreases s.len(),
{
    if s.len() > 0 {
        lemma_ascii_upper_char(s[0]);
        assert(ascii_upper_seq(s).drop_first() =~= ascii_upper_seq(s.drop_first()));
        lemma_leading_ws_upper(s.drop_first());
    }
}

pub proof fn lemma_trailing_ws_upper(s: Seq<char>)
    ensures
        trailing_ws(ascii_upper_seq(s)) == trailing_ws(s),
    decreases s.len(),
{
    if s.len() > 0 {
        lemma_ascii_upper_char(s.last());
        assert(ascii_upper_seq(s).drop_last() =~= ascii_upper_seq(s.drop_last()));
        lemma_trailing_ws_upper(s.drop_last());
    }
}

pub proof fn lemma_leading_char_upper(s: Seq<char>)
    ensures
        leading_char(ascii_upper_seq(s), '/') == leading_char(s, '/'),
    decreases s.len(),
{
    if s.len() > 0 {
        lemma_ascii_upper_char(s[0]);
        assert(ascii_upper_seq(s).drop_first() =~= ascii_upper_seq(s.drop_first()));
        lemma_leading_char_upper(s.drop_first());
    }
}

/// Lower-casing forgets an earlier upper-casing.
pub proof fn lemma_lower_upper(s: Seq<char>)
    ensures
        ascii_lower_seq(ascii_upper_seq(s)) == ascii_lower_seq(s),
{
    assert forall|i: int| 0 <= i < s.len() implies ascii_lower_seq(ascii_upper_seq(s))[i]
        == ascii_lower_seq(s)[i] by {
        lemma_ascii_upper_char(s[i]);
    }
    assert(ascii_lower_seq(ascii_upper_seq(s)) =~= ascii_lower_seq(s));
}

/// Trimming and upper-casing commute.
pub proof fn lemma_trim_upper(s: Seq<char>)
    ensures
        trim_seq(ascii_upper_seq(s)) == ascii_upper_seq(trim_seq(s)),
{
    lemma_leading_ws_upper(s);
    let a = leading_ws(s) as int;
    lemma_leading_ws_le(s);
    let t = s.skip(a);
    assert(ascii_upper_seq(s).skip(a) =~= ascii_upper_seq(t));
    lemma_trailing_ws_upper(t);
    lemma_trailing_ws_le(t);
    assert(ascii_upper_seq(t).take(t.len() - trailing_ws(t)) =~= ascii_upper_seq(
        t.take(t.len() - trailing_ws(t)),
    ));
}

/// Removing leading slashes and upper-casing commute.
pub proof fn lemma_trim_slash_upper(s: Seq<char>)
    ensures
        trim_start_char_seq(ascii_upper_seq(s), '/') == ascii_upper_seq(trim_start_char_seq(s, '/')),
{
    lemma_leading_char_upper(s);
    lemma_leading_char_le(s, '/');
    assert(ascii_upper_seq(s).skip(leading_char(s, '/') as int) =~= ascii_upper_seq(
        s.skip(leading_char(s, '/') as int),
    ));
}

proof fn lemma_leading_ws_push(s: Seq<char>, c: char)
    requires
        is_white_space(c),
    ensures
        leading_ws(s.push(c)) == if leading_ws(s) < s.len() {
            leading_ws(s)
        } else {
            s.len() + 1
        },
    decreases s.len(),
{
    lemma_leading_ws_le(s);
    if s.len() == 0 {
        assert(s.push(c).drop_first() =~= Seq::<char>::empty());
        assert(leading_ws(Seq::<char>::empty()) == 0);
        assert(s.push(c)[0] == c);
        assert(leading_ws(s.push(c)) == 1 + leading_ws(s.push(c).drop_first()));
    } else {
        assert(s.push(c)[0] == s[0]);
        assert(s.push(c).drop_first() =~= s.drop_first().push(c));
        lemma_leading_ws_push(s.drop_first(), c);
        lemma_leading_ws_le(s.drop_first());
        if is_white_space(s[0]) {
            assert(leading_ws(s) == 1 + leading_ws(s.drop_first()));
            assert(leading_ws(s.push(c)) == 1 + leading_ws(s.drop_first().push(c)));
        } else {
            assert(leading_ws(s) == 0);
            assert(leading_ws(s.push(c)) == 0);
        }
    }
}

/// Whitespace before the text does not change its trimmed form.
pub proof fn lemma_trim_ws_front(s: Seq<char>, c: char)
    requires
        is_white_space(c),
    ensures
        trim_seq(seq![c] + s) == trim_seq(s),
{
    let t = seq![c] + s;
    assert(t[0] == c);
    assert(t.drop_first() =~= s);
    lemma_leading_ws_le(s);
    assert(t.skip(leading_ws(t) as int) =~= s.skip(leading_ws(s) as int));
}

/// Whitespace after the text does not change its trimmed form.
pub proof fn lemma_trim_ws_back(s: Seq<char>, c: char)
    requires
        is_white_space(c),
    ensures
        trim_seq(s.push(c)) == trim_seq(s),
{
    lemma_leading_ws_push(s, c);
    lemma_leading_ws_le(s);
    let a = leading_ws(s) as int;
    if a < s.len() {
        let t = s.skip(a);
        let t2 = s.push(c).skip(a);
        assert(t2 =~= t.push(c));
        assert(t2.last() == c);
        assert(t2.drop_last() =~= t);
        lemma_trailing_ws_le(t);
        assert(t2.take(t2.len() - trailing_ws(t2)) =~= t.take(t.len() - trailing_ws(t)));
    } else {
        assert(s.push(c).skip(s.len() + 1int) =~= Seq::<char>::empty());
        assert(s.skip(a) =~= Seq::<char>::empty());
        assert(trailing_ws(Seq::<char>::empty()) == 0);
    }
}

} // verus!
