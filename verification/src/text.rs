//! Text helpers on `char` sequences, each proved against a spec function.
use vstd::prelude::*;

verus! {

/// `String::push` appends one character.
pub assume_specification[ String::push ](s: &mut String, ch: char)
    ensures
        final(s)@ == old(s)@.push(ch),
;

/// The characters of `s`, in order.
pub fn chars_of(s: &str) -> (v: Vec<char>)
    ensures
        v@ == s@,
{
    let mut v: Vec<char> = Vec::new();
    for c in it: s.chars()
        invariant
            v@ == it.seq().take(it.index() as int),
    {
        v.push(c);
    }
    v
}

/// A `String` holding the characters of `v`.
pub fn string_of(v: &Vec<char>) -> (s: String)
    ensures
        s@ == v@,
{
    let mut s = String::new();
    let mut i: usize = 0;
    while i < v.len()
        invariant
            i <= v.len(),
            s@ == v@.take(i as int),
        decreases v.len() - i,
    {
        s.push(v[i]);
        proof {
            assert(v@.take(i + 1) =~= v@.take(i as int).push(v@[i as int]));
        }
        i = i + 1;
    }
    proof {
        assert(v@.take(v.len() as int) =~= v@);
    }
    s
}

} // verus!

verus! {

/// `char::from_u32` gives the character with that scalar value, or `None`
/// for a surrogate or a value above U+10FFFF.
pub assume_specification[ char::from_u32 ](i: u32) -> (r: Option<char>)
    ensures
        vstd::utf8::is_scalar(i) ==> r == Some(i as char),
        !vstd::utf8::is_scalar(i) ==> r is None,
;

pub open spec fn is_high_surrogate(u: u16) -> bool {
    0xD800 <= u <= 0xDBFF
}

pub open spec fn is_low_surrogate(u: u16) -> bool {
    0xDC00 <= u <= 0xDFFF
}

/// UTF-16 code units of one character.
pub open spec fn utf16_of_char(c: char) -> Seq<u16> {
    let v = c as u32;
    if v < 0x10000 {
        seq![v as u16]
    } else {
        seq![(0xD800 + (v - 0x10000) / 1024) as u16, (0xDC00 + (v - 0x10000) % 1024) as u16]
    }
}

/// UTF-16 encoding of a character sequence.
pub open spec fn utf16_encode(s: Seq<char>) -> Seq<u16>
    decreases s.len(),
{
    if s.len() == 0 {
        seq![]
    } else {
        utf16_of_char(s[0]) + utf16_encode(s.drop_first())
    }
}

/// Lossy UTF-16 decoding: every unpaired surrogate becomes U+FFFD.
pub open spec fn utf16_decode_lossy(w: Seq<u16>) -> Seq<char>
    decreases w.len(),
{
    if w.len() == 0 {
        seq![]
    } else if is_high_surrogate(w[0]) && w.len() >= 2 && is_low_surrogate(w[1]) {
        seq![(0x10000 + (w[0] - 0xD800) * 1024 + (w[1] - 0xDC00)) as char]
            + utf16_decode_lossy(w.subrange(2, w.len() as int))
    } else if is_high_surrogate(w[0]) || is_low_surrogate(w[0]) {
        seq!['\u{FFFD}'] + utf16_decode_lossy(w.drop_first())
    } else {
        seq![w[0] as char] + utf16_decode_lossy(w.drop_first())
    }
}

} // verus!

verus! {

pub proof fn lemma_utf16_encode_append(a: Seq<char>, b: Seq<char>)
    ensures
        utf16_encode(a + b) == utf16_encode(a) + utf16_encode(b),
    decreases a.len(),
{
    if a.len() == 0 {
        assert(a + b =~= b);
    } else {
        assert((a + b).drop_first() =~= a.drop_first() + b);
        lemma_utf16_encode_append(a.drop_first(), b);
    }
}

proof fn lemma_utf16_encode_take_step(s: Seq<char>, i: int)
    requires
        0 <= i < s.len(),
    ensures
        utf16_encode(s.take(i + 1)) == utf16_encode(s.take(i)) + utf16_of_char(s[i]),
{
    assert(s.take(i + 1) =~= s.take(i) + seq![s[i]]);
    lemma_utf16_encode_append(s.take(i), seq![s[i]]);
    assert(seq![s[i]].drop_first() =~= Seq::<char>::empty());
    reveal_with_fuel(utf16_encode, 2);
    assert(utf16_encode(seq![s[i]]) =~= utf16_of_char(s[i]));
}

/// Null-terminated UTF-16 form of `s`, as the Windows API takes it.
pub fn to_wide(s: &str) -> (w: Vec<u16>)
    ensures
        w@ == utf16_encode(s@).push(0u16),
{
    let cs = chars_of(s);
    let mut w: Vec<u16> = Vec::new();
    let mut i: usize = 0;
    while i < cs.len()
        invariant
            i <= cs.len(),
            cs@ == s@,
            w@ == utf16_encode(cs@.take(i as int)),
        decreases cs.len() - i,
    {
        let c = cs[i];
        proof {
            vstd::utf8::char_is_scalar(c);
        }
        let v: u32 = c as u32;
        proof {
            lemma_utf16_encode_take_step(cs@, i as int);
        }
        if v < 0x10000 {
            w.push(v as u16);
        } else {
            let d: u32 = v - 0x10000;
            w.push((0xD800 + d / 1024) as u16);
            w.push((0xDC00 + d % 1024) as u16);
        }
        proof {
            assert(w@ =~= utf16_encode(cs@.take(i as int)) + utf16_of_char(cs@[i as int]));
        }
        i = i + 1;
    }
    proof {
        assert(cs@.take(cs.len() as int) =~= cs@);
    }
    w.push(0u16);
    w
}

/// Index of the first NUL unit of `w`, or its length when there is none.
pub open spec fn nul_end(w: Seq<u16>) -> int
    decreases w.len(),
{
    if w.len() == 0 {
        0
    } else if w[0] == 0 {
        0
    } else {
        1 + nul_end(w.drop_first())
    }
}

pub proof fn lemma_nul_end_bounds(w: Seq<u16>)
    ensures
        0 <= nul_end(w) <= w.len(),
        forall|j: int| 0 <= j < nul_end(w) ==> w[j] != 0,
        nul_end(w) < w.len() ==> w[nul_end(w)] == 0,
    decreases w.len(),
{
    if w.len() > 0 && w[0] != 0 {
        lemma_nul_end_bounds(w.drop_first());
        assert forall|j: int| 0 <= j < nul_end(w) implies w[j] != 0 by {
            if j > 0 {
                assert(w[j] == w.drop_first()[j - 1]);
            }
        }
    }
}

/// The characters that a (possibly NUL-terminated) UTF-16 buffer holds:
/// the units before the first NUL, decoded with U+FFFD for unpaired surrogates.
pub open spec fn wide_text(w: Seq<u16>) -> Seq<char> {
    utf16_decode_lossy(w.take(nul_end(w)))
}

/// Decodes the UTF-16 text of `w` up to its first NUL, replacing unpaired
/// surrogates with U+FFFD.
pub fn wide_to_string(w: &[u16]) -> (s: String)
    ensures
        s@ == wide_text(w@),
{
    let mut n: usize = 0;
    while n < w.len() && w[n] != 0
        invariant
            n <= w.len(),
            forall|j: int| 0 <= j < n ==> w@[j] != 0,
        decreases w.len() - n,
    {
        n = n + 1;
    }
    proof {
        lemma_nul_end_bounds(w@);
        if nul_end(w@) < n {
            assert(w@[nul_end(w@)] != 0);
        }
        if (n as int) < nul_end(w@) {
            assert(w@[n as int] == 0);
        }
        assert(nul_end(w@) == n);
    }
    proof {
        assert(w@.subrange(0, n as int) =~= w@.take(n as int));
    }
    utf16_to_string_lossy(&w[0..n])
}

/// Decodes UTF-16 units, replacing unpaired surrogates with U+FFFD.
pub fn utf16_to_string_lossy(w: &[u16]) -> (s: String)
    ensures
        s@ == utf16_decode_lossy(w@),
{
    let n = w.len();
    let ghost body = w@;
    proof {
        assert(body.subrange(0, n as int) =~= body);
        assert(Seq::<char>::empty() + utf16_decode_lossy(body) =~= utf16_decode_lossy(body));
    }
    let mut out: Vec<char> = Vec::new();
    let mut i: usize = 0;
    while i < n
        invariant
            i <= n <= w.len(),
            body == w@,
            n == w.len(),
            utf16_decode_lossy(body) == out@ + utf16_decode_lossy(body.subrange(i as int, n as int)),
        decreases n - i,
    {
        let ghost rest = body.subrange(i as int, n as int);
        let u = w[i];
        assert(rest[0] == u);
        if 0xD800 <= u && u <= 0xDBFF && i + 1 < n && 0xDC00 <= w[i + 1] && w[i + 1] <= 0xDFFF {
            let hi = u as u32;
            let lo = w[i + 1] as u32;
            let v: u32 = 0x10000 + (hi - 0xD800) * 1024 + (lo - 0xDC00);
            let c = char::from_u32(v).unwrap();
            proof {
                assert(rest[1] == w@[i + 1]);
                assert(rest.subrange(2, rest.len() as int) =~= body.subrange(i + 2, n as int));
                assert(c == (0x10000 + (rest[0] - 0xD800) * 1024 + (rest[1] - 0xDC00)) as char);
            }
            out.push(c);
            proof {
                assert(out@ + utf16_decode_lossy(body.subrange(i + 2, n as int)) =~= out@.drop_last() + utf16_decode_lossy(rest));
            }
            i = i + 2;
        } else if 0xD800 <= u && u <= 0xDFFF {
            out.push('\u{FFFD}');
            proof {
                assert(rest.drop_first() =~= body.subrange(i + 1, n as int));
                assert(out@ + utf16_decode_lossy(body.subrange(i + 1, n as int)) =~= out@.drop_last() + utf16_decode_lossy(rest));
            }
            i = i + 1;
        } else {
            let c = char::from_u32(u as u32).unwrap();
            proof {
                assert(c == rest[0] as char);
            }
            out.push(c);
            proof {
                assert(rest.drop_first() =~= body.subrange(i + 1, n as int));
                assert(out@ + utf16_decode_lossy(body.subrange(i + 1, n as int)) =~= out@.drop_last() + utf16_decode_lossy(rest));
            }
            i = i + 1;
        }
    }
    proof {
        assert(body.subrange(n as int, n as int) =~= Seq::<u16>::empty());
        assert(out@ + Seq::<char>::empty() =~= out@);
    }
    string_of(&out)
}

} // verus!

verus! {

proof fn lemma_decode_char_then(c: char, tail: Seq<u16>)
    ensures
        utf16_decode_lossy(utf16_of_char(c) + tail) == seq![c] + utf16_decode_lossy(tail),
{
    vstd::utf8::char_is_scalar(c);
    let v = c as u32;
    vstd::utf8::char_u32_cast(c, v);
    let w = utf16_of_char(c) + tail;
    if v < 0x10000 {
        assert(w[0] == v as u16);
        assert(w.drop_first() =~= tail);
        assert((w[0] as char) == (v as char));
    } else {
        let d = (v - 0x10000) as int;
        assert(d == 1024 * (d / 1024) + d % 1024) by (nonlinear_arith);
        assert(0 <= d % 1024 < 1024) by (nonlinear_arith);
        assert(0 <= d / 1024 < 1024) by (nonlinear_arith)
            requires
                0 <= d <= 0xFFFFF,
        ;
        assert(w[0] == (0xD800 + d / 1024) as u16);
        assert(w[1] == (0xDC00 + d % 1024) as u16);
        assert(w.subrange(2, w.len() as int) =~= tail);
        assert((0x10000 + (w[0] - 0xD800) * 1024 + (w[1] - 0xDC00)) == v as int);
    }
}

/// Decoding what `utf16_encode` produced gives the characters back.
pub proof fn lemma_utf16_roundtrip(s: Seq<char>)
    ensures
        utf16_decode_lossy(utf16_encode(s)) == s,
    decreases s.len(),
{
    if s.len() > 0 {
        lemma_utf16_roundtrip(s.drop_first());
        lemma_decode_char_then(s[0], utf16_encode(s.drop_first()));
        assert(seq![s[0]] + s.drop_first() =~= s);
    }
}

} // verus!

verus! {

proof fn lemma_encode_no_nul(s: Seq<char>)
    requires
        !s.contains('\0'),
    ensures
        forall|j: int| 0 <= j < utf16_encode(s).len() ==> utf16_encode(s)[j] != 0,
    decreases s.len(),
{
    if s.len() > 0 {
        assert(!s.drop_first().contains('\0')) by {
            if s.drop_first().contains('\0') {
                let k = choose|k: int| 0 <= k < s.drop_first().len() && s.drop_first()[k] == '\0';
                assert(s[k + 1] == '\0');
            }
        }
        lemma_encode_no_nul(s.drop_first());
        vstd::utf8::char_is_scalar(s[0]);
        vstd::utf8::char_u32_cast(s[0], s[0] as u32);
        assert(s[0] != '\0') by {
            assert(s[0] == s[0]);
            if s[0] == '\0' {
                assert(s.contains('\0'));
            }
        }
        assert((s[0] as u32) != 0) by {
            if (s[0] as u32) == 0 {
                assert(((s[0] as u32) as char) == s[0]);
                assert((0u32 as char) == '\0');
            }
        }
        let u = utf16_of_char(s[0]);
        let r = utf16_encode(s.drop_first());
        assert(utf16_encode(s) == u + r);
        assert forall|j: int| 0 <= j < u.len() implies u[j] != 0 by {
            let d = (s[0] as u32 - 0x10000) as int;
            if (s[0] as u32) >= 0x10000 {
                assert(0 <= d / 1024 < 1024) by (nonlinear_arith)
                    requires
                        0 <= d <= 0xFFFFF,
                ;
                assert(0 <= d % 1024 < 1024) by (nonlinear_arith);
            }
        }
        assert forall|j: int| 0 <= j < utf16_encode(s).len() implies utf16_encode(s)[j] != 0 by {
            if j < u.len() {
                assert(utf16_encode(s)[j] == u[j]);
            } else {
                assert(utf16_encode(s)[j] == r[j - u.len()]);
            }
        }
    }
}

/// A NUL-terminated UTF-16 buffer made from text without NUL reads back as that text.
pub proof fn lemma_wide_roundtrip(s: Seq<char>)
    requires
        !s.contains('\0'),
    ensures
        wide_text(utf16_encode(s).push(0u16)) == s,
{
    let e = utf16_encode(s);
    let w = e.push(0u16);
    lemma_encode_no_nul(s);
    lemma_nul_end_bounds(w);
    if nul_end(w) < e.len() {
        assert(w[nul_end(w)] == e[nul_end(w)]);
    }
    if nul_end(w) > e.len() {
        assert(w[e.len() as int] == 0u16);
    }
    assert(nul_end(w) == e.len());
    assert(w.take(e.len() as int) =~= e);
    lemma_utf16_roundtrip(s);
}

} // verus!

verus! {

/// Unicode `White_Space`, the property that `char::is_whitespace` and `str::trim` use.
pub open spec fn is_ws(c: char) -> bool {
    let v = c as u32;
    ||| 0x09 <= v <= 0x0D
    ||| v == 0x20
    ||| v == 0x85
    ||| v == 0xA0
    ||| v == 0x1680
    ||| 0x2000 <= v <= 0x200A
    ||| v == 0x2028
    ||| v == 0x2029
    ||| v == 0x202F
    ||| v == 0x205F
    ||| v == 0x3000
}

pub fn is_whitespace(c: char) -> (b: bool)
    ensures
        b == is_ws(c),
{
    let v = c as u32;
    (0x09 <= v && v <= 0x0D) || v == 0x20 || v == 0x85 || v == 0xA0 || v == 0x1680 || (0x2000 <= v
        && v <= 0x200A) || v == 0x2028 || v == 0x2029 || v == 0x202F || v == 0x205F || v == 0x3000
}

/// `s` without its leading whitespace.
pub open spec fn trim_start(s: Seq<char>) -> Seq<char>
    decreases s.len(),
{
    if s.len() > 0 && is_ws(s[0]) {
        trim_start(s.drop_first())
    } else {
        s
    }
}

/// `s` without its trailing whitespace.
pub open spec fn trim_end(s: Seq<char>) -> Seq<char>
    decreases s.len(),
{
    if s.len() > 0 && is_ws(s.last()) {
        trim_end(s.drop_last())
    } else {
        s
    }
}

/// What `str::trim` leaves of `s`.
pub open spec fn trim(s: Seq<char>) -> Seq<char> {
    trim_end(trim_start(s))
}

/// Every character of `s` is whitespace.
pub open spec fn all_ws(s: Seq<char>) -> bool {
    forall|i: int| 0 <= i < s.len() ==> is_ws(#[trigger] s[i])
}

proof fn lemma_trim_start_skip(s: Seq<char>, i: int)
    requires
        0 <= i <= s.len(),
        forall|j: int| 0 <= j < i ==> is_ws(#[trigger] s[j]),
    ensures
        trim_start(s) == trim_start(s.subrange(i, s.len() as int)),
    decreases i,
{
    if i > 0 {
        assert(is_ws(s[0]));
        assert forall|j: int| 0 <= j < i - 1 implies is_ws(#[trigger] s.drop_first()[j]) by {
            assert(s.drop_first()[j] == s[j + 1]);
        }
        lemma_trim_start_skip(s.drop_first(), i - 1);
        assert(s.drop_first().subrange(i - 1, s.len() - 1) =~= s.subrange(i, s.len() as int));
    } else {
        assert(s.subrange(0, s.len() as int) =~= s);
    }
}

proof fn lemma_trim_end_cut(s: Seq<char>, k: int)
    requires
        0 <= k <= s.len(),
        forall|j: int| k <= j < s.len() ==> is_ws(#[trigger] s[j]),
    ensures
        trim_end(s) == trim_end(s.take(k)),
    decreases s.len() - k,
{
    if k < s.len() {
        assert(is_ws(s.last()));
        assert forall|j: int| k <= j < s.len() - 1 implies is_ws(#[trigger] s.drop_last()[j]) by {
            assert(s.drop_last()[j] == s[j]);
        }
        lemma_trim_end_cut(s.drop_last(), k);
        assert(s.drop_last().take(k) =~= s.take(k));
    } else {
        assert(s.take(k) =~= s);
    }
}

/// The whitespace-trimmed characters of `s`, with their bounds.
fn trim_bounds(v: &Vec<char>) -> (r: (usize, usize))
    ensures
        r.0 <= r.1 <= v.len(),
        v@.subrange(r.0 as int, r.1 as int) == trim(v@),
{
    let mut a: usize = 0;
    while a < v.len() && is_whitespace(v[a])
        invariant
            a <= v.len(),
            forall|j: int| 0 <= j < a ==> is_ws(#[trigger] v@[j]),
        decreases v.len() - a,
    {
        a = a + 1;
    }
    proof {
        lemma_trim_start_skip(v@, a as int);
    }
    let ghost t = v@.subrange(a as int, v.len() as int);
    proof {
        if t.len() > 0 {
            assert(!is_ws(t[0]));
        }
        assert(trim_start(t) == t);
    }
    let mut b: usize = v.len();
    while b > a && is_whitespace(v[b - 1])
        invariant
            a <= b <= v.len(),
            forall|j: int| b <= j < v.len() ==> is_ws(#[trigger] v@[j]),
        decreases b - a,
    {
        b = b - 1;
    }
    proof {
        let k = (b - a) as int;
        assert forall|j: int| k <= j < t.len() implies is_ws(#[trigger] t[j]) by {
            assert(t[j] == v@[j + a]);
        }
        lemma_trim_end_cut(t, k);
        let u = t.take(k);
        assert(u =~= v@.subrange(a as int, b as int));
        if u.len() > 0 {
            assert(u.last() == v@[b - 1]);
            assert(!is_ws(u.last()));
        }
        assert(trim_end(u) == u);
    }
    (a, b)
}

/// `str::trim`: `s` without leading and trailing whitespace.
pub fn trim_str(s: &str) -> (r: String)
    ensures
        r@ == trim(s@),
{
    let v = chars_of(s);
    let (a, b) = trim_bounds(&v);
    let mut out: Vec<char> = Vec::new();
    let mut i = a;
    while i < b
        invariant
            a <= i <= b <= v.len(),
            out@ == v@.subrange(a as int, i as int),
        decreases b - i,
    {
        out.push(v[i]);
        proof {
            assert(v@.subrange(a as int, i + 1) =~= v@.subrange(a as int, i as int).push(v@[i as int]));
        }
        i = i + 1;
    }
    string_of(&out)
}

pub proof fn lemma_trim_empty_iff_all_ws(s: Seq<char>)
    ensures
        trim(s).len() == 0 <==> all_ws(s),
{
    lemma_trim_start_prefix(s);
    let k = s.len() - trim_start(s).len();
    let t = trim_start(s);
    if trim(s).len() == 0 {
        if t.len() > 0 {
            lemma_trim_end_all(t);
        }
        assert forall|i: int| 0 <= i < s.len() implies is_ws(#[trigger] s[i]) by {
            if i >= k {
                assert(s[i] == t[i - k]);
            }
        }
    } else {
        if all_ws(s) {
            assert forall|j: int| 0 <= j < s.len() implies is_ws(#[trigger] s[j]) by {}
            lemma_trim_start_skip(s, s.len() as int);
            assert(s.subrange(s.len() as int, s.len() as int) =~= Seq::<char>::empty());
        }
    }
}

proof fn lemma_trim_start_prefix(s: Seq<char>)
    ensures
        trim_start(s).len() <= s.len(),
        trim_start(s) == s.subrange(s.len() - trim_start(s).len(), s.len() as int),
        forall|j: int| 0 <= j < s.len() - trim_start(s).len() ==> is_ws(#[trigger] s[j]),
    decreases s.len(),
{
    if s.len() > 0 && is_ws(s[0]) {
        lemma_trim_start_prefix(s.drop_first());
        let t = trim_start(s.drop_first());
        assert(s.drop_first().subrange(s.len() - 1 - t.len(), s.len() - 1) =~= s.subrange(s.len() - t.len(), s.len() as int));
        assert forall|j: int| 0 <= j < s.len() - trim_start(s).len() implies is_ws(#[trigger] s[j]) by {
            if j > 0 {
                assert(s[j] == s.drop_first()[j - 1]);
            }
        }
    } else {
        assert(s.subrange(0, s.len() as int) =~= s);
    }
}

proof fn lemma_trim_end_all(t: Seq<char>)
    requires
        trim_end(t).len() == 0,
    ensures
        all_ws(t),
    decreases t.len(),
{
    if t.len() > 0 {
        assert(is_ws(t.last()));
        lemma_trim_end_all(t.drop_last());
        assert forall|i: int| 0 <= i < t.len() implies is_ws(#[trigger] t[i]) by {
            if i < t.len() - 1 {
                assert(t[i] == t.drop_last()[i]);
            }
        }
    }
}

/// `s.trim().is_empty()`: `s` is empty or all whitespace.
pub fn is_blank(s: &str) -> (b: bool)
    ensures
        b == (trim(s@).len() == 0),
        b == all_ws(s@),
{
    let v = chars_of(s);
    let (a, b) = trim_bounds(&v);
    proof {
        lemma_trim_empty_iff_all_ws(s@);
    }
    a == b
}

} // verus!

verus! {

/// Index of the first `c` in `s`, or `-1`.
pub open spec fn find_first(s: Seq<char>, c: char) -> int
    decreases s.len(),
{
    if s.len() == 0 {
        -1
    } else if s[0] == c {
        0
    } else {
        let r = find_first(s.drop_first(), c);
        if r < 0 { -1 } else { r + 1 }
    }
}

pub proof fn lemma_find_first(s: Seq<char>, c: char)
    ensures
        -1 <= find_first(s, c) < s.len(),
        find_first(s, c) >= 0 ==> s[find_first(s, c)] == c,
        forall|j: int| 0 <= j < s.len() && (find_first(s, c) < 0 || j < find_first(s, c)) ==> s[j] != c,
        find_first(s, c) >= 0 <==> s.contains(c),
    decreases s.len(),
{
    if s.len() > 0 {
        lemma_find_first(s.drop_first(), c);
        assert forall|j: int| 0 <= j < s.len() && (find_first(s, c) < 0 || j < find_first(s, c)) implies s[j] != c by {
            if j > 0 {
                assert(s[j] == s.drop_first()[j - 1]);
            }
        }
        if s.drop_first().contains(c) {
            let k = choose|k: int| 0 <= k < s.drop_first().len() && s.drop_first()[k] == c;
            assert(s[k + 1] == c);
        }
        if s.contains(c) && s[0] != c {
            let k = choose|k: int| 0 <= k < s.len() && s[k] == c;
            assert(s.drop_first()[k - 1] == c);
        }
    }
}

/// Position of the first `c` in `v`.
pub fn find_char(v: &Vec<char>, c: char) -> (r: Option<usize>)
    ensures
        match r {
            Some(i) => i as int == find_first(v@, c),
            None => find_first(v@, c) == -1,
        },
{
    proof {
        lemma_find_first(v@, c);
    }
    let mut i: usize = 0;
    while i < v.len()
        invariant
            i <= v.len(),
            forall|j: int| 0 <= j < i ==> v@[j] != c,
        decreases v.len() - i,
    {
        if v[i] == c {
            proof {
                lemma_find_first(v@, c);
                let f = find_first(v@, c);
                if f < 0 || f > i {
                    assert(v@[i as int] != c);
                }
                if 0 <= f < i {
                    assert(v@[f] == c);
                }
            }
            return Some(i);
        }
        i = i + 1;
    }
    proof {
        lemma_find_first(v@, c);
        let f = find_first(v@, c);
        if f >= 0 {
            assert(v@[f] == c);
        }
    }
    None
}

/// `str::contains` for one character.
pub fn contains_char(s: &str, c: char) -> (b: bool)
    ensures
        b == s@.contains(c),
{
    let v = chars_of(s);
    proof {
        lemma_find_first(v@, c);
    }
    find_char(&v, c).is_some()
}

/// The characters of `v` from `a` to `b`, as a `String`.
pub fn slice_string(v: &Vec<char>, a: usize, b: usize) -> (s: String)
    requires
        a <= b <= v.len(),
    ensures
        s@ == v@.subrange(a as int, b as int),
{
    let mut out: Vec<char> = Vec::new();
    let mut i = a;
    while i < b
        invariant
            a <= i <= b <= v.len(),
            out@ == v@.subrange(a as int, i as int),
        decreases b - i,
    {
        out.push(v[i]);
        proof {
            assert(v@.subrange(a as int, i + 1) =~= v@.subrange(a as int, i as int).push(v@[i as int]));
        }
        i = i + 1;
    }
    string_of(&out)
}

/// Two texts are equal.
pub fn same_text(a: &str, b: &str) -> (r: bool)
    ensures
        r == (a@ == b@),
{
    let x = chars_of(a);
    let y = chars_of(b);
    if x.len() != y.len() {
        return false;
    }
    let mut i: usize = 0;
    while i < x.len()
        invariant
            x.len() == y.len(),
            x@ == a@,
            y@ == b@,
            i <= x.len(),
            forall|j: int| 0 <= j < i ==> x@[j] == y@[j],
        decreases x.len() - i,
    {
        if x[i] != y[i] {
            return false;
        }
        i = i + 1;
    }
    proof {
        assert(x@ =~= y@);
    }
    true
}

/// `p` occurs in `s` starting at `i`.
pub open spec fn occurs_at(s: Seq<char>, p: Seq<char>, i: int) -> bool {
    0 <= i && i + p.len() <= s.len() && s.subrange(i, i + p.len()) == p
}

/// `str::contains` for a pattern.
pub open spec fn contains_text(s: Seq<char>, p: Seq<char>) -> bool {
    exists|i: int| occurs_at(s, p, i)
}

/// `s.contains(p)` for a text pattern.
pub fn contains_str(s: &str, p: &str) -> (b: bool)
    ensures
        b == contains_text(s@, p@),
{
    let v = chars_of(s);
    let q = chars_of(p);
    if q.len() > v.len() {
        proof {
            assert forall|i: int| !occurs_at(s@, p@, i) by {}
        }
        return false;
    }
    let mut i: usize = 0;
    while i <= v.len() - q.len()
        invariant
            v@ == s@,
            q@ == p@,
            q.len() <= v.len(),
            i <= v.len() - q.len() + 1,
            forall|k: int| 0 <= k < i ==> !occurs_at(s@, p@, k),
        decreases v.len() - i,
    {
        let mut j: usize = 0;
        let mut ok = true;
        while j < q.len()
            invariant
                i + q.len() <= v.len(),
                j <= q.len(),
                ok ==> forall|t: int| 0 <= t < j ==> v@[i + t] == q@[t],
                !ok ==> exists|t: int| 0 <= t < q.len() && v@[i + t] != q@[t],
            decreases q.len() - j,
        {
            if v[i + j] != q[j] {
                ok = false;
            }
            j = j + 1;
        }
        if ok {
            proof {
                assert(v@.subrange(i as int, i + q.len()) =~= q@);
                assert(occurs_at(s@, p@, i as int));
            }
            return true;
        }
        proof {
            let t = choose|t: int| 0 <= t < q.len() && v@[i + t] != q@[t];
            assert(v@.subrange(i as int, i + q.len())[t] != q@[t]);
        }
        i = i + 1;
    }
    proof {
        assert forall|k: int| !occurs_at(s@, p@, k) by {
            if occurs_at(s@, p@, k) {
                assert(k < i);
            }
        }
    }
    false
}

} // verus!

verus! {

/// The ASCII digit for `d` (`d < 10`).
pub open spec fn digit_char(d: int) -> char {
    (48 + d) as char
}

/// Decimal notation of `n`, as `{}` formats an unsigned integer.
pub open spec fn decimal(n: nat) -> Seq<char>
    decreases n,
{
    if n < 10 {
        seq![digit_char(n as int)]
    } else {
        decimal(n / 10).push(digit_char((n % 10) as int))
    }
}

fn digit(d: u64) -> (c: char)
    requires
        d < 10,
    ensures
        c == digit_char(d as int),
{
    char::from_u32(48 + d as u32).unwrap()
}

/// `n.to_string()` for an unsigned integer.
pub fn u64_to_decimal(n: u64) -> (s: String)
    ensures
        s@ == decimal(n as nat),
{
    let mut m = n;
    let mut rev: Vec<char> = Vec::new();
    while m >= 10
        invariant
            decimal(n as nat) == decimal(m as nat) + rev@.reverse(),
        decreases m,
    {
        let d = digit(m % 10);
        proof {
            assert(decimal(m as nat) == decimal((m / 10) as nat).push(digit_char((m % 10) as int)));
            assert(rev@.push(d).reverse() =~= seq![d] + rev@.reverse());
            assert(decimal((m / 10) as nat).push(d) + rev@.reverse() =~= decimal((m / 10) as nat) + (seq![d] + rev@.reverse()));
        }
        rev.push(d);
        m = m / 10;
    }
    let d = digit(m);
    proof {
        assert(rev@.push(d).reverse() =~= seq![d] + rev@.reverse());
    }
    rev.push(d);
    let mut out: Vec<char> = Vec::new();
    let mut i: usize = rev.len();
    while i > 0
        invariant
            i <= rev.len(),
            out@ == rev@.subrange(i as int, rev.len() as int).reverse(),
        decreases i,
    {
        i = i - 1;
        proof {
            assert(rev@.subrange(i as int, rev.len() as int).reverse() =~= rev@.subrange(i + 1, rev.len() as int).reverse().push(rev@[i as int]));
        }
        out.push(rev[i]);
    }
    proof {
        assert(rev@.subrange(0, rev.len() as int) =~= rev@);
    }
    string_of(&out)
}

/// `n.to_string()` for a `u32`.
pub fn u32_to_decimal(n: u32) -> (s: String)
    ensures
        s@ == decimal(n as nat),
{
    u64_to_decimal(n as u64)
}

pub open spec fn is_digit(c: char) -> bool {
    48 <= c as u32 <= 57
}

pub open spec fn digits_value(d: Seq<char>) -> nat
    decreases d.len(),
{
    if d.len() == 0 {
        0
    } else {
        digits_value(d.drop_last()) * 10 + (d.last() as u32 - 48) as nat
    }
}

/// What `FromStr` for an unsigned integer reads: an optional `+`, then one
/// or more ASCII digits.
pub open spec fn parse_decimal(s: Seq<char>) -> Option<nat> {
    if digits_only(unsigned_body(s)) {
        Some(digits_value(unsigned_body(s)))
    } else {
        None
    }
}

/// `s` without one leading `+`.
pub open spec fn unsigned_body(s: Seq<char>) -> Seq<char> {
    if s.len() > 0 && s[0] == '+' {
        s.drop_first()
    } else {
        s
    }
}

/// `d` is one or more ASCII digits.
pub open spec fn digits_only(d: Seq<char>) -> bool {
    d.len() > 0 && forall|i: int| 0 <= i < d.len() ==> is_digit(#[trigger] d[i])
}

/// `s.parse::<u64>().ok()`.
pub fn parse_u64(s: &str) -> (r: Option<u64>)
    ensures
        r == (match parse_decimal(s@) {
            Some(v) => if v <= u64::MAX { Some(v as u64) } else { None },
            None => None,
        }),
{
    let v = chars_of(s);
    let start: usize = if v.len() > 0 && v[0] == '+' { 1 } else { 0 };
    let ghost d = unsigned_body(s@);
    proof {
        assert(d =~= v@.subrange(start as int, v.len() as int));
    }
    if start >= v.len() {
        return None;
    }
    let mut acc: u64 = 0;
    let mut overflow = false;
    let mut i = start;
    while i < v.len()
        invariant
            start <= i <= v.len(),
            v@ == s@,
            d == unsigned_body(s@),
            d == v@.subrange(start as int, v.len() as int),
            forall|k: int| start <= k < i ==> is_digit(#[trigger] v@[k]),
            !overflow ==> acc as nat == digits_value(v@.subrange(start as int, i as int)),
            overflow ==> digits_value(v@.subrange(start as int, i as int)) > u64::MAX,
        decreases v.len() - i,
    {
        let c = v[i];
        proof {
            vstd::utf8::char_is_scalar(c);
        }
        let cv = c as u32;
        if cv < 48 || cv > 57 {
            proof {
                assert(d[i - start] == c);
                assert(!is_digit(d[i - start]));
                assert(!digits_only(d));
            }
            return None;
        }
        let dv = (cv - 48) as u64;
        let ghost prev = v@.subrange(start as int, i as int);
        proof {
            assert(v@.subrange(start as int, i + 1).drop_last() =~= prev);
            assert(v@.subrange(start as int, i + 1).last() == c);
        }
        if !overflow {
            if acc > (u64::MAX - dv) / 10 {
                overflow = true;
                proof {
                    assert(digits_value(prev) * 10 + dv > u64::MAX) by (nonlinear_arith)
                        requires
                            digits_value(prev) == acc,
                            acc > (u64::MAX - dv) / 10,
                            dv < 10,
                    ;
                }
            } else {
                proof {
                    assert(acc * 10 + dv <= u64::MAX) by (nonlinear_arith)
                        requires
                            acc <= (u64::MAX - dv) / 10,
                            dv < 10,
                    ;
                }
                acc = acc * 10 + dv;
            }
        } else {
            proof {
                assert(digits_value(prev) * 10 + dv > u64::MAX) by (nonlinear_arith)
                    requires
                        digits_value(prev) > u64::MAX,
                ;
            }
        }
        i = i + 1;
    }
    proof {
        assert(v@.subrange(start as int, v.len() as int) == d);
        assert forall|k: int| 0 <= k < d.len() implies is_digit(#[trigger] d[k]) by {
            assert(d[k] == v@[k + start]);
        }
    }
    if overflow {
        None
    } else {
        Some(acc)
    }
}

/// `s.parse::<u32>().ok()`.
pub fn parse_u32(s: &str) -> (r: Option<u32>)
    ensures
        r == (match parse_decimal(s@) {
            Some(v) => if v <= u32::MAX { Some(v as u32) } else { None },
            None => None,
        }),
{
    match parse_u64(s) {
        Some(v) => {
            if v <= u32::MAX as u64 {
                Some(v as u32)
            } else {
                None
            }
        },
        None => None,
    }
}

proof fn lemma_decimal_digits(n: nat)
    ensures
        decimal(n).len() > 0,
        forall|i: int| 0 <= i < decimal(n).len() ==> is_digit(#[trigger] decimal(n)[i]),
        digits_value(decimal(n)) == n,
    decreases n,
{
    if n >= 10 {
        lemma_decimal_digits(n / 10);
        let d = decimal(n);
        assert(d.drop_last() =~= decimal(n / 10));
        assert(d.last() == digit_char((n % 10) as int));
        assert((d.last() as u32 - 48) as nat == n % 10);
        assert(digits_value(d) == digits_value(decimal(n / 10)) * 10 + n % 10);
        assert(n == (n / 10) * 10 + n % 10) by (nonlinear_arith);
        assert forall|i: int| 0 <= i < d.len() implies is_digit(#[trigger] d[i]) by {
            if i < d.len() - 1 {
                assert(d[i] == decimal(n / 10)[i]);
            }
        }
    } else {
        let d = decimal(n);
        assert(d.drop_last() =~= Seq::<char>::empty());
        assert(digits_value(d.drop_last()) == 0);
        assert((d.last() as u32 - 48) as nat == n);
    }
}

/// Reading back the decimal notation of `n` gives `n`.
pub proof fn lemma_decimal_roundtrip(n: nat)
    ensures
        parse_decimal(decimal(n)) == Some(n),
{
    lemma_decimal_digits(n);
    let s = decimal(n);
    assert(s[0] != '+') by {
        assert(is_digit(s[0]));
    }
}

/// The uppercase hex digit for `d` (`d < 16`).
pub open spec fn hex_char(d: int) -> char {
    if d < 10 {
        (48 + d) as char
    } else {
        (55 + d) as char
    }
}

/// The last `k` uppercase hex digits of `n`, most significant first.
pub open spec fn hex_digits(n: nat, k: nat) -> Seq<char>
    decreases k,
{
    if k == 0 {
        seq![]
    } else {
        hex_digits(n / 16, (k - 1) as nat).push(hex_char((n % 16) as int))
    }
}

/// `format!("{:08X}", n)` for a `u32`.
pub fn hex8(n: u32) -> (s: String)
    ensures
        s@ == hex_digits(n as nat, 8),
{
    let mut rev: Vec<char> = Vec::new();
    let mut m = n;
    let mut k: u32 = 0;
    while k < 8
        invariant
            k <= 8,
            hex_digits(n as nat, 8) == hex_digits(m as nat, (8 - k) as nat) + rev@.reverse(),
        decreases 8 - k,
    {
        let d = m % 16;
        let c = if d < 10 {
            char::from_u32(48 + d).unwrap()
        } else {
            char::from_u32(55 + d).unwrap()
        };
        proof {
            assert(hex_digits(m as nat, (8 - k) as nat) == hex_digits((m / 16) as nat, (8 - k - 1) as nat).push(hex_char(d as int)));
            assert(rev@.push(c).reverse() =~= seq![c] + rev@.reverse());
            assert(hex_digits((m / 16) as nat, (8 - k - 1) as nat).push(c) + rev@.reverse() =~= hex_digits((m / 16) as nat, (8 - k - 1) as nat) + (seq![c] + rev@.reverse()));
        }
        rev.push(c);
        m = m / 16;
        k = k + 1;
    }
    proof {
        assert(hex_digits(m as nat, 0) =~= Seq::<char>::empty());
        assert(Seq::<char>::empty() + rev@.reverse() =~= rev@.reverse());
    }
    let mut out: Vec<char> = Vec::new();
    let mut i: usize = rev.len();
    while i > 0
        invariant
            i <= rev.len(),
            out@ == rev@.subrange(i as int, rev.len() as int).reverse(),
        decreases i,
    {
        i = i - 1;
        proof {
            assert(rev@.subrange(i as int, rev.len() as int).reverse() =~= rev@.subrange(i + 1, rev.len() as int).reverse().push(rev@[i as int]));
        }
        out.push(rev[i]);
    }
    proof {
        assert(rev@.subrange(0, rev.len() as int) =~= rev@);
    }
    string_of(&out)
}

/// What `str::to_lowercase` returns for `s` (Unicode case mapping).
pub uninterp spec fn lowercase(s: Seq<char>) -> Seq<char>;

/// `str::to_lowercase`: the Unicode lower-case form of `s`, named `lowercase`.
#[verifier::external_body]
pub(crate) fn to_lowercase(s: &str) -> (r: String)
    ensures
        r@ == lowercase(s@),
{
    s.to_lowercase()
}

/// ASCII lower-casing of one character, as `eq_ignore_ascii_case` compares.
pub open spec fn ascii_lower(c: char) -> char {
    if 65 <= c as u32 <= 90 {
        ((c as u32) + 32) as char
    } else {
        c
    }
}

/// `str::eq_ignore_ascii_case`.
pub open spec fn eq_ignore_ascii_case(a: Seq<char>, b: Seq<char>) -> bool {
    a.len() == b.len() && forall|i: int| 0 <= i < a.len() ==> ascii_lower(#[trigger] a[i]) == ascii_lower(b[i])
}

fn ascii_lower_char(c: char) -> (r: char)
    ensures
        r == ascii_lower(c),
{
    let v = c as u32;
    if 65 <= v && v <= 90 {
        char::from_u32(v + 32).unwrap()
    } else {
        c
    }
}

pub fn eq_ignore_ascii_case_str(a: &str, b: &str) -> (r: bool)
    ensures
        r == eq_ignore_ascii_case(a@, b@),
{
    let x = chars_of(a);
    let y = chars_of(b);
    if x.len() != y.len() {
        return false;
    }
    let mut i: usize = 0;
    while i < x.len()
        invariant
            x@ == a@,
            y@ == b@,
            x.len() == y.len(),
            i <= x.len(),
            forall|j: int| 0 <= j < i ==> ascii_lower(#[trigger] x@[j]) == ascii_lower(y@[j]),
        decreases x.len() - i,
    {
        if ascii_lower_char(x[i]) != ascii_lower_char(y[i]) {
            return false;
        }
        i = i + 1;
    }
    true
}

} // verus!

verus! {

/// `str::split` on one character: the pieces between the occurrences of
/// `c` (always at least one piece).
pub open spec fn split_on(s: Seq<char>, c: char) -> Seq<Seq<char>>
    decreases s.len(),
{
    if s.len() == 0 {
        seq![Seq::<char>::empty()]
    } else {
        let r = split_on(s.drop_last(), c);
        if s.last() == c {
            r.push(Seq::<char>::empty())
        } else {
            r.update(r.len() - 1, r.last().push(s.last()))
        }
    }
}

pub proof fn lemma_split_on_nonempty(s: Seq<char>, c: char)
    ensures
        split_on(s, c).len() >= 1,
    decreases s.len(),
{
    if s.len() > 0 {
        lemma_split_on_nonempty(s.drop_last(), c);
    }
}

/// The pieces of `s` between the occurrences of `c`.
pub fn split_char(s: &str, c: char) -> (parts: Vec<String>)
    ensures
        parts@.map_values(|p: String| p@) == split_on(s@, c),
        parts.len() >= 1,
{
    let v = chars_of(s);
    let mut parts: Vec<String> = Vec::new();
    let mut cur: Vec<char> = Vec::new();
    let mut i: usize = 0;
    while i < v.len()
        invariant
            i <= v.len(),
            v@ == s@,
            parts@.map_values(|p: String| p@).push(cur@) == split_on(v@.take(i as int), c),
        decreases v.len() - i,
    {
        let ch = v[i];
        proof {
            assert(v@.take(i + 1).drop_last() =~= v@.take(i as int));
            assert(v@.take(i + 1).last() == ch);
            lemma_split_on_nonempty(v@.take(i as int), c);
        }
        let ghost before = parts@.map_values(|p: String| p@).push(cur@);
        if ch == c {
            let piece = string_of(&cur);
            parts.push(piece);
            cur = Vec::new();
            proof {
                assert(parts@.map_values(|p: String| p@).push(cur@) =~= before.push(Seq::<char>::empty()));
            }
        } else {
            cur.push(ch);
            proof {
                assert(parts@.map_values(|p: String| p@).push(cur@) =~= before.update(before.len() - 1, before.last().push(ch)));
            }
        }
        i = i + 1;
    }
    proof {
        assert(v@.take(v.len() as int) =~= v@);
    }
    let last = string_of(&cur);
    let ghost before = parts@.map_values(|p: String| p@);
    parts.push(last);
    proof {
        assert(parts@.map_values(|p: String| p@) =~= before.push(cur@));
    }
    parts
}

/// `s` with every `from` replaced by `to`.
pub open spec fn replace_char(s: Seq<char>, from: char, to: char) -> Seq<char> {
    s.map_values(|ch: char| if ch == from { to } else { ch })
}

/// `str::replace` of one character by another.
pub fn replace_char_str(s: &str, from: char, to: char) -> (r: String)
    ensures
        r@ == replace_char(s@, from, to),
{
    let v = chars_of(s);
    let mut out: Vec<char> = Vec::new();
    let mut i: usize = 0;
    while i < v.len()
        invariant
            i <= v.len(),
            v@ == s@,
            out@ == replace_char(v@.take(i as int), from, to),
        decreases v.len() - i,
    {
        let ch = v[i];
        if ch == from {
            out.push(to);
        } else {
            out.push(ch);
        }
        proof {
            assert(replace_char(v@.take(i + 1), from, to) =~= replace_char(v@.take(i as int), from, to).push(
                if ch == from { to } else { ch },
            ));
        }
        i = i + 1;
    }
    proof {
        assert(v@.take(v.len() as int) =~= v@);
    }
    string_of(&out)
}

// ─── Shapes of generated identifiers and timestamps ───────────────

/// A lower-case hexadecimal digit.
pub open spec fn is_lower_hex(c: char) -> bool {
    is_digit(c) || 97 <= c as u32 <= 102
}

/// The 128 bits of a version-4 (random) UUID: version nibble 4, variant bits `10`.
pub open spec fn uuid_v4_bits(n: u128) -> bool {
    &&& (n >> 76u128) & 0xFu128 == 4u128
    &&& (n >> 62u128) & 0x3u128 == 2u128
}

/// The hyphenated, lower-case text of a version-4 UUID:
/// `xxxxxxxx-xxxx-4xxx-Yxxx-xxxxxxxxxxxx` with `Y` one of `8 9 a b`.
pub open spec fn uuid_v4_text(s: Seq<char>) -> bool {
    &&& s.len() == 36
    &&& forall|i: int|
        0 <= i < 36 ==> (if i == 8 || i == 13 || i == 18 || i == 23 {
            #[trigger] s[i] == '-'
        } else {
            is_lower_hex(s[i])
        })
    &&& s[14] == '4'
    &&& (s[19] == '8' || s[19] == '9' || s[19] == 'a' || s[19] == 'b')
}

/// Two ASCII digits at `i` and `i + 1`.
pub open spec fn two_digits(s: Seq<char>, i: int) -> bool {
    is_digit(s[i]) && is_digit(s[i + 1])
}

/// A year as RFC 3339 text holds it: four digits, or a sign and at least four
/// digits outside 0000..9999.
pub open spec fn year_text(t: Seq<char>) -> bool {
    ||| t.len() == 4 && forall|i: int| 0 <= i < 4 ==> is_digit(#[trigger] t[i])
    ||| t.len() >= 5 && (t[0] == '+' || t[0] == '-') && forall|i: int| 1 <= i < t.len() ==> is_digit(#[trigger] t[i])
}

/// `s` is `YEAR-MM-DDTHH:MM:SS`, a fraction of `f - 1` digits after a dot
/// (`f` is 0, 4, 7 or 10), and an offset `±HH:MM`; the year takes `y`
/// characters.
pub open spec fn rfc3339_parts(s: Seq<char>, y: int, f: int) -> bool {
    let o = y + 15 + f;
    &&& y >= 4
    &&& (f == 0 || f == 4 || f == 7 || f == 10)
    &&& s.len() == o + 6
    &&& year_text(s.take(y))
    &&& s[y] == '-' && two_digits(s, y + 1) && s[y + 3] == '-' && two_digits(s, y + 4)
    &&& s[y + 6] == 'T' && two_digits(s, y + 7) && s[y + 9] == ':' && two_digits(s, y + 10)
    &&& s[y + 12] == ':' && two_digits(s, y + 13)
    &&& (f > 0 ==> s[y + 15] == '.' && forall|i: int| y + 16 <= i < o ==> is_digit(#[trigger] s[i]))
    &&& (s[o] == '+' || s[o] == '-') && two_digits(s, o + 1) && s[o + 3] == ':' && two_digits(s, o + 4)
}

/// An RFC 3339 date and time as chrono's `to_rfc3339` writes it.
pub open spec fn rfc3339_text(s: Seq<char>) -> bool {
    exists|y: int, f: int| #[trigger] rfc3339_parts(s, y, f)
}

/// An RFC 3339 date and time in UTC: its offset is `+00:00`.
pub open spec fn rfc3339_utc_text(s: Seq<char>) -> bool {
    rfc3339_text(s) && s.len() >= 6 && s.subrange(s.len() - 6, s.len() as int) == "+00:00"@
}

} // verus!
