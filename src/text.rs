//! Character-level text handling: ANSI stripping, trimming, searching.
use vstd::prelude::*;

verus! {

/// The escape character that opens an ANSI/VT control sequence.
pub const ESC: char = '\x1b';

/// The byte-order mark that some tools write in front of their output.
pub const BOM: char = '\u{feff}';

/// Final bytes of a CSI sequence lie in `@` ..= `~`.
pub open spec fn is_csi_final(c: char) -> bool {
    '@' <= c && c <= '~'
}

/// What survives of `s[i..]` when the scan stands at `i`; `in_csi` says whether
/// the scan is inside a CSI sequence (after `ESC [`, before its final byte).
/// An escape not followed by `[` consumes the one character after it.
pub open spec fn strip_from(s: Seq<char>, i: int, in_csi: bool) -> Seq<char>
    decreases s.len() + 1 - i,
{
    if i < 0 || i >= s.len() {
        Seq::empty()
    } else if in_csi {
        strip_from(s, i + 1, !is_csi_final(s[i]))
    } else if s[i] == ESC {
        if i + 1 < s.len() && s[i + 1] == '[' {
            strip_from(s, i + 2, true)
        } else {
            strip_from(s, i + 2, false)
        }
    } else {
        seq![s[i]] + strip_from(s, i + 1, false)
    }
}

/// `s` with its ANSI control sequences removed.
pub open spec fn strip_ansi(s: Seq<char>) -> Seq<char> {
    strip_from(s, 0, false)
}

/// Whether `c` has the Unicode `White_Space` property: tab through carriage
/// return, space, next line, no-break space, ogham space mark, the spaces
/// from en quad to hair space, line and paragraph separators, narrow no-break
/// space, medium mathematical space and ideographic space.
pub open spec fn is_white_space(c: char) -> bool {
    ('\u{9}' <= c && c <= '\u{d}') || c == ' ' || c == '\u{85}' || c == '\u{a0}' || c == '\u{1680}'
        || ('\u{2000}' <= c && c <= '\u{200a}') || c == '\u{2028}' || c == '\u{2029}' || c
        == '\u{202f}' || c == '\u{205f}' || c == '\u{3000}'
}

/// The first index at or after `i` that does not hold a white-space character.
pub open spec fn skip_ws_fwd(s: Seq<char>, i: int) -> int
    decreases s.len() - i,
{
    if 0 <= i < s.len() && is_white_space(s[i]) {
        skip_ws_fwd(s, i + 1)
    } else {
        i
    }
}

/// The end of `s[lo..j]` once white space at its end is dropped.
pub open spec fn skip_ws_back(s: Seq<char>, j: int, lo: int) -> int
    decreases j - lo,
{
    if lo < j <= s.len() && is_white_space(s[j - 1]) {
        skip_ws_back(s, j - 1, lo)
    } else {
        j
    }
}

/// `s` without leading and trailing white space.
pub open spec fn trim(s: Seq<char>) -> Seq<char> {
    let a = skip_ws_fwd(s, 0);
    s.subrange(a, skip_ws_back(s, s.len() as int, a))
}

/// The first index at or after `i` that does not hold `c`.
pub open spec fn skip_char(s: Seq<char>, i: int, c: char) -> int
    decreases s.len() - i,
{
    if 0 <= i < s.len() && s[i] == c {
        skip_char(s, i + 1, c)
    } else {
        i
    }
}

/// `s` without the copies of `c` at its start.
pub open spec fn trim_start_char(s: Seq<char>, c: char) -> Seq<char> {
    s.subrange(skip_char(s, 0, c), s.len() as int)
}

/// Whether `n` occurs in `h` starting at index `i`.
pub open spec fn occurs_at(h: Seq<char>, n: Seq<char>, i: int) -> bool {
    0 <= i && i + n.len() <= h.len() && h.subrange(i, i + n.len()) == n
}

/// Whether `n` occurs in `h`.
pub open spec fn contains(h: Seq<char>, n: Seq<char>) -> bool {
    exists|i: int| occurs_at(h, n, i)
}

/// Whether `h` ends with `n`.
pub open spec fn ends_with(h: Seq<char>, n: Seq<char>) -> bool {
    occurs_at(h, n, h.len() - n.len())
}

/// Whether `h` starts with `c`.
pub open spec fn starts_with_char(h: Seq<char>, c: char) -> bool {
    h.len() > 0 && h[0] == c
}

/// The last index before `j` that holds `c`.
pub open spec fn rfind_before(s: Seq<char>, c: char, j: int) -> Option<int>
    decreases j,
{
    if j <= 0 || j > s.len() {
        None
    } else if s[j - 1] == c {
        Some(j - 1)
    } else {
        rfind_before(s, c, j - 1)
    }
}

/// The lines of `s[start..]` where the scan stands at `i`, a line being what
/// lies between two `\n` (no empty line after a final `\n`).
pub open spec fn lines_from(s: Seq<char>, start: int, i: int) -> Seq<Seq<char>>
    decreases s.len() - i,
{
    if i < 0 || i >= s.len() {
        if 0 <= start < s.len() {
            seq![s.subrange(start, s.len() as int)]
        } else {
            Seq::empty()
        }
    } else if s[i] == '\n' {
        seq![s.subrange(start, i)] + lines_from(s, i + 1, i + 1)
    } else {
        lines_from(s, start, i + 1)
    }
}

/// The lines of `s`.
pub open spec fn lines(s: Seq<char>) -> Seq<Seq<char>> {
    lines_from(s, 0, 0)
}

/// The text of each string.
pub open spec fn texts(ls: Seq<String>) -> Seq<Seq<char>> {
    ls.map_values(|l: String| l@)
}

/// The views of a sequence of character vectors.
pub open spec fn views(v: Seq<Vec<char>>) -> Seq<Seq<char>> {
    v.map_values(|l: Vec<char>| l@)
}

/// Whether `c` has the Unicode `White_Space` property.
pub fn char_is_whitespace(c: char) -> (r: bool)
    ensures
        r == is_white_space(c),
{
    ('\u{9}' <= c && c <= '\u{d}') || c == ' ' || c == '\u{85}' || c == '\u{a0}' || c == '\u{1680}'
        || ('\u{2000}' <= c && c <= '\u{200a}') || c == '\u{2028}' || c == '\u{2029}' || c
        == '\u{202f}' || c == '\u{205f}' || c == '\u{3000}'
}

/// Relies on `String::push`: appends one character.
#[verifier::external_body]
pub(crate) fn push_char(s: &mut String, c: char)
    ensures
        final(s)@ == old(s)@.push(c),
{
    s.push(c);
}

/// The characters of `s`, in order.
pub fn chars_of(s: &str) -> (r: Vec<char>)
    ensures
        r@ == s@,
{
    let mut r: Vec<char> = Vec::new();
    for c in it: s.chars()
        invariant
            r@ == it.seq().take(it.index() as int),
    {
        r.push(c);
    }
    proof { assert(r@ =~= s@); }
    r
}

/// The string whose characters are `v`, in order.
pub fn string_of(v: &Vec<char>) -> (r: String)
    ensures
        r@ == v@,
{
    let mut r = String::new();
    let mut i: usize = 0;
    while i < v.len()
        invariant
            i <= v.len(),
            r@ == v@.take(i as int),
        decreases v.len() - i,
    {
        push_char(&mut r, v[i]);
        i = i + 1;
        proof { assert(r@ =~= v@.take(i as int)); }
    }
    proof { assert(r@ =~= v@); }
    r
}

/// Removes ANSI/VT control sequences: `ESC [` up to and including the next
/// character in `@` ..= `~`, and any other escape with the one character
/// after it. Everything else is kept, in order.
pub fn strip_ansi_codes(s: &str) -> (r: String)
    ensures
        r@ == strip_ansi(s@),
{
    let v = chars_of(s);
    let n = v.len();
    let mut out: Vec<char> = Vec::new();
    let mut i: usize = 0;
    let mut in_csi = false;
    while i < n
        invariant
            n == v@.len(),
            v@ == s@,
            i <= n,
            out@ + strip_from(v@, i as int, in_csi) == strip_ansi(v@),
        decreases n - i,
    {
        let c = v[i];
        if in_csi {
            in_csi = !('@' <= c && c <= '~');
            i = i + 1;
        } else if c == ESC {
            if i + 1 < n {
                in_csi = v[i + 1] == '[';
                i = i + 2;
            } else {
                proof {
                    assert(strip_from(v@, i + 2, false) =~= Seq::<char>::empty());
                    assert(strip_from(v@, n as int, false) =~= Seq::<char>::empty());
                }
                i = n;
            }
        } else {
            proof {
                assert(out@.push(c) + strip_from(v@, i + 1, false) =~= out@ + strip_from(
                    v@,
                    i as int,
                    false,
                ));
            }
            out.push(c);
            i = i + 1;
        }
    }
    proof {
        assert(strip_from(v@, i as int, in_csi) =~= Seq::<char>::empty());
        assert(out@ + Seq::<char>::empty() =~= out@);
    }
    string_of(&out)
}

/// `v[a..b]` as a vector of its own.
pub fn slice_chars(v: &Vec<char>, a: usize, b: usize) -> (r: Vec<char>)
    requires
        a <= b <= v.len(),
    ensures
        r@ == v@.subrange(a as int, b as int),
{
    let mut r: Vec<char> = Vec::new();
    let mut i: usize = a;
    while i < b
        invariant
            a <= i <= b,
            b <= v.len(),
            r@ == v@.subrange(a as int, i as int),
        decreases b - i,
    {
        r.push(v[i]);
        i = i + 1;
        proof { assert(r@ =~= v@.subrange(a as int, i as int)); }
    }
    r
}

/// `v` without leading and trailing white space.
pub fn trim_chars(v: &Vec<char>) -> (r: Vec<char>)
    ensures
        r@ == trim(v@),
{
    let n = v.len();
    let mut a: usize = 0;
    while a < n && char_is_whitespace(v[a])
        invariant
            a <= n == v@.len(),
            skip_ws_fwd(v@, a as int) == skip_ws_fwd(v@, 0),
        decreases n - a,
    {
        a = a + 1;
    }
    let mut b: usize = n;
    while b > a && char_is_whitespace(v[b - 1])
        invariant
            a <= b <= n == v@.len(),
            a == skip_ws_fwd(v@, 0),
            skip_ws_back(v@, b as int, a as int) == skip_ws_back(v@, n as int, a as int),
        decreases b - a,
    {
        b = b - 1;
    }
    slice_chars(v, a, b)
}

/// `v` without the copies of `c` at its start.
pub fn trim_start_char_chars(v: &Vec<char>, c: char) -> (r: Vec<char>)
    ensures
        r@ == trim_start_char(v@, c),
{
    let n = v.len();
    let mut a: usize = 0;
    while a < n && v[a] == c
        invariant
            a <= n == v@.len(),
            skip_char(v@, a as int, c) == skip_char(v@, 0, c),
        decreases n - a,
    {
        a = a + 1;
    }
    slice_chars(v, a, n)
}

/// Whether `n` occurs in `h` at index `i`.
pub fn occurs_at_chars(h: &Vec<char>, n: &Vec<char>, i: usize) -> (r: bool)
    ensures
        r == occurs_at(h@, n@, i as int),
{
    if i > h.len() || n.len() > h.len() - i {
        return false;
    }
    let mut k: usize = 0;
    while k < n.len()
        invariant
            i + n.len() <= h.len(),
            k <= n.len(),
            forall|j: int| 0 <= j < k ==> h@[i + j] == n@[j],
        decreases n.len() - k,
    {
        if h[i + k] != n[k] {
            proof {
                assert(h@.subrange(i as int, i + n.len())[k as int] != n@[k as int]);
            }
            return false;
        }
        k = k + 1;
    }
    proof { assert(h@.subrange(i as int, i + n.len()) =~= n@); }
    true
}

/// Whether `n` occurs in `h`.
pub fn contains_chars(h: &Vec<char>, n: &str) -> (r: bool)
    ensures
        r == contains(h@, n@),
{
    let nv = chars_of(n);
    if nv.len() > h.len() {
        return false;
    }
    if nv.len() == 0 {
        proof {
            assert(h@.subrange(0, 0) =~= n@);
            assert(occurs_at(h@, n@, 0));
        }
        return true;
    }
    let last = h.len() - nv.len();
    let mut i: usize = 0;
    while i <= last
        invariant
            last == h.len() - nv.len(),
            last < h.len(),
            i <= last + 1,
            nv@ == n@,
            forall|j: int| 0 <= j < i ==> !occurs_at(h@, n@, j),
        decreases last + 1 - i,
    {
        if occurs_at_chars(h, &nv, i) {
            return true;
        }
        i = i + 1;
    }
    false
}

/// Whether `h` ends with `n`.
pub fn ends_with_chars(h: &Vec<char>, n: &Vec<char>) -> (r: bool)
    ensures
        r == ends_with(h@, n@),
{
    if n.len() > h.len() {
        return false;
    }
    occurs_at_chars(h, n, h.len() - n.len())
}

/// The last index of `c` in `v`.
pub fn rfind_char(v: &Vec<char>, c: char) -> (r: Option<usize>)
    ensures
        r matches Some(i) ==> rfind_before(v@, c, v@.len() as int) == Some(i as int) && i < v@.len(),
        r is None ==> rfind_before(v@, c, v@.len() as int) is None,
{
    let mut j: usize = v.len();
    while j > 0
        invariant
            j <= v.len(),
            rfind_before(v@, c, j as int) == rfind_before(v@, c, v@.len() as int),
        decreases j,
    {
        if v[j - 1] == c {
            return Some(j - 1);
        }
        j = j - 1;
    }
    None
}

/// The lines of `v`.
pub fn split_lines(v: &Vec<char>) -> (r: Vec<Vec<char>>)
    ensures
        views(r@) == lines(v@),
{
    let n = v.len();
    let mut out: Vec<Vec<char>> = Vec::new();
    let mut start: usize = 0;
    let mut i: usize = 0;
    while i < n
        invariant
            n == v@.len(),
            start <= i <= n,
            views(out@) + lines_from(v@, start as int, i as int) == lines(v@),
        decreases n - i,
    {
        if v[i] == '\n' {
            let line = slice_chars(v, start, i);
            proof {
                assert(views(out@.push(line)) =~= views(out@).push(line@));
                assert(views(out@.push(line)) + lines_from(v@, i + 1, i + 1) =~= views(out@)
                    + lines_from(v@, start as int, i as int));
            }
            out.push(line);
            start = i + 1;
        }
        i = i + 1;
    }
    if start < n {
        let line = slice_chars(v, start, n);
        proof {
            assert(views(out@.push(line)) =~= views(out@).push(line@));
            assert(views(out@.push(line)) =~= views(out@) + lines_from(
                v@,
                start as int,
                n as int,
            ));
        }
        out.push(line);
    } else {
        proof {
            assert(views(out@) =~= views(out@) + lines_from(v@, start as int, n as int));
        }
    }
    out
}

/// Whether `s` holds no escape character.
pub open spec fn no_escape(s: Seq<char>) -> bool {
    forall|k: int| 0 <= k < s.len() ==> s[k] != ESC
}

/// Text without escapes passes the scan unchanged from `i` on.
proof fn lemma_strip_from_plain(s: Seq<char>, i: int)
    requires
        0 <= i <= s.len(),
        forall|k: int| i <= k < s.len() ==> s[k] != ESC,
    ensures
        strip_from(s, i, false) == s.subrange(i, s.len() as int),
    decreases s.len() - i,
{
    if i < s.len() {
        lemma_strip_from_plain(s, i + 1);
        assert(seq![s[i]] + s.subrange(i + 1, s.len() as int) =~= s.subrange(i, s.len() as int));
    } else {
        assert(s.subrange(i, s.len() as int) =~= Seq::<char>::empty());
    }
}

/// What the scan keeps holds no escape.
proof fn lemma_strip_from_no_escape(s: Seq<char>, i: int, in_csi: bool)
    ensures
        no_escape(strip_from(s, i, in_csi)),
    decreases s.len() + 1 - i,
{
    if 0 <= i < s.len() {
        if in_csi {
            lemma_strip_from_no_escape(s, i + 1, !is_csi_final(s[i]));
        } else if s[i] == ESC {
            if i + 1 < s.len() && s[i + 1] == '[' {
                lemma_strip_from_no_escape(s, i + 2, true);
            } else {
                lemma_strip_from_no_escape(s, i + 2, false);
            }
        } else {
            lemma_strip_from_no_escape(s, i + 1, false);
            let rest = strip_from(s, i + 1, false);
            assert forall|k: int| 0 <= k < (seq![s[i]] + rest).len() implies (seq![s[i]]
                + rest)[k] != ESC by {
                if k > 0 {
                    assert((seq![s[i]] + rest)[k] == rest[k - 1]);
                }
            }
        }
    }
}

/// Text without escapes is already clean: stripping leaves it unchanged.
pub proof fn lemma_strip_ansi_plain(s: Seq<char>)
    requires
        no_escape(s),
    ensures
        strip_ansi(s) == s,
{
    lemma_strip_from_plain(s, 0);
    assert(s.subrange(0, s.len() as int) =~= s);
}

/// Stripping twice is stripping once.
pub proof fn lemma_strip_ansi_idempotent(s: Seq<char>)
    ensures
        strip_ansi(strip_ansi(s)) == strip_ansi(s),
{
    lemma_strip_from_no_escape(s, 0, false);
    lemma_strip_ansi_plain(strip_ansi(s));
}

/// Inside a CSI sequence, parameter characters are skipped up to the final
/// character at `end`.
proof fn lemma_csi_skips(s: Seq<char>, j: int, end: int)
    requires
        0 <= j <= end < s.len(),
        is_csi_final(s[end]),
        forall|k: int| j <= k < end ==> !is_csi_final(s[k]),
    ensures
        strip_from(s, j, true) == strip_from(s, end + 1, false),
    decreases end - j,
{
    if j < end {
        lemma_csi_skips(s, j + 1, end);
    }
}

/// A color sequence `ESC [ params m` in front of plain text leaves exactly
/// the text.
pub proof fn lemma_strip_color_prefix(params: Seq<char>, text: Seq<char>)
    requires
        forall|k: int| 0 <= k < params.len() ==> !is_csi_final(#[trigger] params[k]),
        no_escape(text),
    ensures
        strip_ansi(seq![ESC, '['] + params + seq!['m'] + text) == text,
{
    let s = seq![ESC, '['] + params + seq!['m'] + text;
    let end = (params.len() + 2) as int;
    assert(s[0] == ESC);
    assert(s[1] == '[');
    assert(s[end] == 'm');
    assert forall|k: int| 2 <= k < end implies !is_csi_final(s[k]) by {
        assert(s[k] == params[k - 2]);
    }
    lemma_csi_skips(s, 2, end);
    assert forall|k: int| end + 1 <= k < s.len() implies s[k] != ESC by {
        assert(s[k] == text[k - end - 1]);
    }
    lemma_strip_from_plain(s, end + 1);
    assert(s.subrange(end + 1, s.len() as int) =~= text);
}

/// What the forward skip passes over is white space.
pub proof fn lemma_skip_ws_fwd(s: Seq<char>, i: int)
    requires
        0 <= i <= s.len(),
    ensures
        i <= skip_ws_fwd(s, i) <= s.len(),
        forall|k: int| i <= k < skip_ws_fwd(s, i) ==> is_white_space(s[k]),
    decreases s.len() - i,
{
    if i < s.len() && is_white_space(s[i]) {
        lemma_skip_ws_fwd(s, i + 1);
    }
}

/// What the backward skip passes over is white space.
pub proof fn lemma_skip_ws_back(s: Seq<char>, j: int, lo: int)
    requires
        0 <= lo <= j <= s.len(),
    ensures
        lo <= skip_ws_back(s, j, lo) <= j,
        forall|k: int| skip_ws_back(s, j, lo) <= k < j ==> is_white_space(s[k]),
    decreases j - lo,
{
    if lo < j && is_white_space(s[j - 1]) {
        lemma_skip_ws_back(s, j - 1, lo);
    }
}

/// What skipping copies of `c` passes over is `c`.
pub proof fn lemma_skip_char(s: Seq<char>, i: int, c: char)
    requires
        0 <= i <= s.len(),
    ensures
        i <= skip_char(s, i, c) <= s.len(),
        forall|k: int| i <= k < skip_char(s, i, c) ==> s[k] == c,
    decreases s.len() - i,
{
    if i < s.len() && s[i] == c {
        lemma_skip_char(s, i + 1, c);
    }
}

/// Text that trims to nothing but byte-order marks holds no escape.
pub proof fn lemma_blank_has_no_escape(s: Seq<char>)
    requires
        trim_start_char(trim(s), BOM).len() == 0,
    ensures
        no_escape(s),
        strip_ansi(s) == s,
{
    let a = skip_ws_fwd(s, 0);
    lemma_skip_ws_fwd(s, 0);
    let b = skip_ws_back(s, s.len() as int, a);
    lemma_skip_ws_back(s, s.len() as int, a);
    let t = trim(s);
    assert(t == s.subrange(a, b));
    lemma_skip_char(t, 0, BOM);
    assert forall|k: int| 0 <= k < s.len() implies s[k] != ESC by {
        if a <= k < b {
            assert(t[k - a] == s[k]);
            assert(t[k - a] == BOM);
        }
    }
    lemma_strip_ansi_plain(s);
}

} // verus!
