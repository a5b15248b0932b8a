//! Text utilities for the frame renderer: line-ending normalization
//! and the table of default-ignorable code points.
//!
//! The table is parsed from the Unicode character-database text
//! format: one entry per line, a code point or a `..` range of code
//! points, a `;`, a property name, and optionally a `#` comment.  The
//! caller reads the file; this module parses its bytes, with the
//! whole parse pinned down by specification functions.

use vstd::prelude::*;

verus! {

/// Line endings normalized: a `\r\n` pair becomes one `\n`, a lone
/// `\r` becomes `\n`, everything else stays.
pub open spec fn spec_normalize_from(s: Seq<char>, i: int) -> Seq<char>
    decreases s.len() - i,
{
    if i < 0 || i >= s.len() {
        Seq::<char>::empty()
    } else if s[i] == '\r' && i + 1 < s.len() && s[i + 1] == '\n' {
        spec_normalize_from(s, i + 1)
    } else if s[i] == '\r' {
        seq!['\n'] + spec_normalize_from(s, i + 1)
    } else {
        seq![s[i]] + spec_normalize_from(s, i + 1)
    }
}

/// The whole text with its line endings normalized.
pub open spec fn spec_normalize(s: Seq<char>) -> Seq<char> {
    spec_normalize_from(s, 0)
}

/// Normalizes line endings: `\r\n` and lone `\r` both become `\n`.
pub fn normalize_line_endings(input: &Vec<char>) -> (out: Vec<char>)
    ensures
        out@ == spec_normalize(input@),
{
    let ghost total = spec_normalize(input@);
    let n = input.len();
    let mut out: Vec<char> = Vec::new();
    let mut i: usize = 0;
    while i < n
        invariant
            n == input@.len(),
            i <= n,
            total == spec_normalize(input@),
            out@ + spec_normalize_from(input@, i as int) == total,
        decreases n - i,
    {
        let ghost before = out@;
        let c = input[i];
        if c == '\r' && i + 1 < n && input[i + 1] == '\n' {
            // the \n of the pair is kept by the next iteration
        } else if c == '\r' {
            out.push('\n');
            proof {
                assert(out@ =~= before + seq!['\n']);
                assert(before + (seq!['\n'] + spec_normalize_from(input@, i as int + 1)) =~= out@
                    + spec_normalize_from(input@, i as int + 1));
            }
        } else {
            out.push(c);
            proof {
                assert(out@ =~= before + seq![input@[i as int]]);
                assert(before + (seq![input@[i as int]] + spec_normalize_from(input@, i as int + 1))
                    =~= out@ + spec_normalize_from(input@, i as int + 1));
            }
        }
        i = i + 1;
    }
    proof {
        assert(spec_normalize_from(input@, i as int) =~= Seq::<char>::empty());
        assert(out@ =~= total);
    }
    out
}

/// ASCII whitespace, as trimming sees it.
pub open spec fn spec_is_space(b: u8) -> bool {
    b == 32 || b == 9 || b == 10 || b == 11 || b == 12 || b == 13
}

/// The first position at or after `i` holding byte `b`.
pub open spec fn spec_find_from(s: Seq<u8>, b: u8, i: int) -> Option<int>
    decreases s.len() - i,
{
    if i < 0 || i >= s.len() {
        None
    } else if s[i] == b {
        Some(i)
    } else {
        spec_find_from(s, b, i + 1)
    }
}

/// The bytes with trailing whitespace removed.
pub open spec fn spec_trim_end(s: Seq<u8>) -> Seq<u8>
    decreases s.len(),
{
    if s.len() == 0 {
        s
    } else if spec_is_space(s[s.len() - 1]) {
        spec_trim_end(s.drop_last())
    } else {
        s
    }
}

/// The bytes with leading whitespace removed.
pub open spec fn spec_trim_start(s: Seq<u8>) -> Seq<u8>
    decreases s.len(),
{
    if s.len() == 0 {
        s
    } else if spec_is_space(s[0]) {
        spec_trim_start(s.skip(1))
    } else {
        s
    }
}

/// The bytes with whitespace removed from both ends.
pub open spec fn spec_trim(s: Seq<u8>) -> Seq<u8> {
    spec_trim_start(spec_trim_end(s))
}

/// The value of one hexadecimal digit.
pub open spec fn spec_hex_digit(b: u8) -> Option<u32> {
    if 48 <= b <= 57 {
        Some((b - 48) as u32)
    } else if 97 <= b <= 102 {
        Some((b - 87) as u32)
    } else if 65 <= b <= 70 {
        Some((b - 55) as u32)
    } else {
        None
    }
}

/// The hexadecimal value of `s[i..]` continuing from `acc`; nothing
/// on a non-digit or on overflow.
pub open spec fn spec_parse_hex_from(s: Seq<u8>, i: int, acc: u32) -> Option<u32>
    decreases s.len() - i,
{
    if i < 0 || i >= s.len() {
        Some(acc)
    } else {
        match spec_hex_digit(s[i]) {
            Some(d) => if acc * 16 + d > u32::MAX {
                None
            } else {
                spec_parse_hex_from(s, i + 1, (acc * 16 + d) as u32)
            },
            None => None,
        }
    }
}

/// The value of a bare hexadecimal numeral; nothing if `s` is empty,
/// holds a non-digit, or overflows.
pub open spec fn spec_parse_hex(s: Seq<u8>) -> Option<u32> {
    if s.len() == 0 {
        None
    } else {
        spec_parse_hex_from(s, 0, 0)
    }
}

/// A scalar value: below the surrogates or between them and the last
/// code point.
pub open spec fn spec_codepoint_valid(cp: u32) -> bool {
    cp < 0xD800 || (0xE000 <= cp && cp <= 0x10FFFF)
}

/// The first position at or after `i` where `..` starts.
pub open spec fn spec_find_dots(s: Seq<u8>, i: int) -> Option<int>
    decreases s.len() - i,
{
    if i < 0 || i + 1 >= s.len() {
        None
    } else if s[i] == 46 && s[i + 1] == 46 {
        Some(i)
    } else {
        spec_find_dots(s, i + 1)
    }
}

/// The property name the table keeps, as bytes:
/// `Default_Ignorable_Code_Point`.
pub open spec fn spec_keyword() -> Seq<u8> {
    seq![
        68u8, 101u8, 102u8, 97u8, 117u8, 108u8, 116u8, 95u8, 73u8, 103u8, 110u8, 111u8, 114u8,
        97u8, 98u8, 108u8, 101u8, 95u8, 67u8, 111u8, 100u8, 101u8, 95u8, 80u8, 111u8, 105u8,
        110u8, 116u8,
    ]
}

/// The code-point range one line contributes, if any: the line is cut
/// at its comment, trimmed, split at its single `;`, kept only for
/// the right property name, and its code points must be valid scalar
/// values.
pub open spec fn spec_line_range(line: Seq<u8>) -> Option<(u32, u32)> {
    let cut = match spec_find_from(line, 35, 0) {
        Some(p) => line.take(p),
        None => line,
    };
    let l = spec_trim_end(cut);
    if l.len() == 0 {
        None
    } else {
        match spec_find_from(l, 59, 0) {
            None => None,
            Some(p) => if spec_find_from(l, 59, p + 1) is Some {
                None
            } else {
                let f0 = spec_trim(l.take(p));
                let f1 = spec_trim(l.skip(p + 1));
                if f1 != spec_keyword() {
                    None
                } else {
                    match spec_find_dots(f0, 0) {
                        Some(q) => {
                            let a = spec_parse_hex(f0.take(q));
                            let b = spec_parse_hex(f0.skip(q + 2));
                            if a is Some && b is Some && spec_codepoint_valid(a->0)
                                && spec_codepoint_valid(b->0) {
                                Some((a->0, b->0))
                            } else {
                                None
                            }
                        },
                        None => match spec_parse_hex(f0) {
                            Some(a) => if spec_codepoint_valid(a) {
                                Some((a, a))
                            } else {
                                None
                            },
                            None => None,
                        },
                    }
                }
            },
        }
    }
}

/// A line's contribution as a sequence of ranges.
pub open spec fn spec_line_ranges(line: Seq<u8>) -> Seq<(u32, u32)> {
    match spec_line_range(line) {
        Some(r) => seq![r],
        None => Seq::<(u32, u32)>::empty(),
    }
}

/// The ranges contributed by the lines of `data[i..]`, split at every
/// newline.
pub open spec fn spec_ranges_from(data: Seq<u8>, i: int) -> Seq<(u32, u32)>
    decreases data.len() - i + 1,
{
    if i < 0 || i > data.len() {
        Seq::<(u32, u32)>::empty()
    } else {
        match spec_find_from(data, 10, i) {
            Some(p) => {
                let q = if p < i {
                    i
                } else if p > data.len() {
                    data.len() as int
                } else {
                    p
                };
                spec_line_ranges(data.subrange(i, q)) + spec_ranges_from(data, q + 1)
            },
            None => spec_line_ranges(data.subrange(i, data.len() as int)),
        }
    }
}

/// All ranges the table's text contributes.
pub open spec fn spec_parse_ignorable(data: Seq<u8>) -> Seq<(u32, u32)> {
    spec_ranges_from(data, 0)
}

/// Whether a code point falls in one of the ranges.
pub open spec fn spec_in_ranges(rs: Seq<(u32, u32)>, cp: u32) -> bool {
    exists|k: int| 0 <= k < rs.len() && (#[trigger] rs[k]).0 <= cp <= rs[k].1
}

/// The first position at or after `from` holding `b`; matches
/// `spec_find_from`.
fn find_byte(s: &Vec<u8>, b: u8, from: usize) -> (r: Option<usize>)
    requires
        from <= s@.len(),
    ensures
        match r {
            Some(p) => spec_find_from(s@, b, from as int) == Some(p as int) && from <= p
                < s@.len(),
            None => spec_find_from(s@, b, from as int) is None,
        },
{
    let n = s.len();
    let mut j: usize = from;
    while j < n
        invariant
            n == s@.len(),
            from <= j <= n,
            spec_find_from(s@, b, from as int) == spec_find_from(s@, b, j as int),
        decreases n - j,
    {
        if s[j] == b {
            return Some(j);
        }
        j = j + 1;
    }
    None
}

/// A copy of `s[a..b]`.
fn copy_range(s: &Vec<u8>, a: usize, b: usize) -> (r: Vec<u8>)
    requires
        a <= b <= s@.len(),
    ensures
        r@ == s@.subrange(a as int, b as int),
{
    let mut r: Vec<u8> = Vec::new();
    let mut j: usize = a;
    while j < b
        invariant
            a <= j <= b <= s@.len(),
            r@.len() == j - a,
            forall|m: int| 0 <= m < r@.len() ==> r@[m] == s@[a + m],
        decreases b - j,
    {
        r.push(s[j]);
        j = j + 1;
    }
    proof {
        assert(r@ =~= s@.subrange(a as int, b as int));
    }
    r
}

/// If everything from `e` on is whitespace and position `e - 1` (when
/// it exists) is not, the trim keeps exactly the first `e` bytes.
proof fn lemma_trim_end_take(s: Seq<u8>, e: int)
    requires
        0 <= e <= s.len(),
        forall|m: int| e <= m < s.len() ==> spec_is_space(#[trigger] s[m]),
        e > 0 ==> !spec_is_space(s[e - 1]),
    ensures
        spec_trim_end(s) == s.take(e),
    decreases s.len(),
{
    if s.len() == 0 {
        assert(s.take(e) =~= s);
    } else if e == s.len() {
        assert(s.take(e) =~= s);
    } else {
        assert(spec_is_space(s[s.len() - 1]));
        lemma_trim_end_take(s.drop_last(), e);
        assert(s.drop_last().take(e) =~= s.take(e));
    }
}

/// If everything before `a` is whitespace and position `a` (when it
/// exists) is not, the trim drops exactly the first `a` bytes.
proof fn lemma_trim_start_skip(s: Seq<u8>, a: int)
    requires
        0 <= a <= s.len(),
        forall|m: int| 0 <= m < a ==> spec_is_space(#[trigger] s[m]),
        a < s.len() ==> !spec_is_space(s[a]),
    ensures
        spec_trim_start(s) == s.skip(a),
    decreases a,
{
    if a == 0 {
        assert(s.skip(0) =~= s);
        if s.len() > 0 {
        }
    } else {
        assert(spec_is_space(s[0]));
        lemma_trim_start_skip(s.skip(1), a - 1);
        assert(s.skip(1).skip(a - 1) =~= s.skip(a));
    }
}

/// Whether `b` is the whitespace trimming removes.
fn is_space(b: u8) -> (r: bool)
    ensures
        r == spec_is_space(b),
{
    b == 32 || b == 9 || b == 10 || b == 11 || b == 12 || b == 13
}

/// A copy of `s` with trailing whitespace removed; matches
/// `spec_trim_end`.
fn trim_end_vec(s: &Vec<u8>) -> (r: Vec<u8>)
    ensures
        r@ == spec_trim_end(s@),
{
    let mut e = s.len();
    while e > 0
        invariant
            e <= s@.len(),
            forall|m: int| e <= m < s@.len() ==> spec_is_space(#[trigger] s@[m]),
        ensures
            e <= s@.len(),
            forall|m: int| e <= m < s@.len() ==> spec_is_space(#[trigger] s@[m]),
            e > 0 ==> !spec_is_space(s@[e - 1]),
        decreases e,
    {
        if !is_space(s[e - 1]) {
            break ;
        }
        e = e - 1;
    }
    proof {
        lemma_trim_end_take(s@, e as int);
    }
    copy_range(s, 0, e)
}

/// A copy of `s` with whitespace removed from both ends; matches
/// `spec_trim`.
fn trim_vec(s: &Vec<u8>) -> (r: Vec<u8>)
    ensures
        r@ == spec_trim(s@),
{
    let t = trim_end_vec(s);
    let n = t.len();
    let mut a: usize = 0;
    while a < n
        invariant
            n == t@.len(),
            a <= n,
            forall|m: int| 0 <= m < a ==> spec_is_space(#[trigger] t@[m]),
        ensures
            n == t@.len(),
            a <= n,
            forall|m: int| 0 <= m < a ==> spec_is_space(#[trigger] t@[m]),
            a < n ==> !spec_is_space(t@[a as int]),
        decreases n - a,
    {
        if !is_space(t[a]) {
            break ;
        }
        a = a + 1;
    }
    proof {
        lemma_trim_start_skip(t@, a as int);
    }
    let r = copy_range(&t, a, n);
    proof {
        assert(t@.subrange(a as int, n as int) =~= t@.skip(a as int));
    }
    r
}

/// Whether `s` is exactly the kept property name; matches comparison
/// with `spec_keyword`.
fn eq_keyword(s: &Vec<u8>) -> (r: bool)
    ensures
        r == (s@ == spec_keyword()),
{
    let kw: Vec<u8> = vec![
        68u8, 101u8, 102u8, 97u8, 117u8, 108u8, 116u8, 95u8, 73u8, 103u8, 110u8, 111u8, 114u8,
        97u8, 98u8, 108u8, 101u8, 95u8, 67u8, 111u8, 100u8, 101u8, 95u8, 80u8, 111u8, 105u8,
        110u8, 116u8,
    ];
    proof {
        assert(kw@ =~= spec_keyword());
    }
    if s.len() != kw.len() {
        proof {
            if s@ == spec_keyword() {
                assert(s@.len() == kw@.len());
            }
        }
        return false;
    }
    let n = s.len();
    let mut j: usize = 0;
    while j < n
        invariant
            n == s@.len(),
            n == kw@.len(),
            kw@ == spec_keyword(),
            j <= n,
            forall|m: int| 0 <= m < j ==> s@[m] == kw@[m],
        decreases n - j,
    {
        if s[j] != kw[j] {
            proof {
                if s@ == spec_keyword() {
                    assert(s@[j as int] == kw@[j as int]);
                }
            }
            return false;
        }
        j = j + 1;
    }
    proof {
        assert(s@ =~= kw@);
    }
    true
}

/// The value of one hexadecimal digit; matches `spec_hex_digit`.
fn hex_digit(b: u8) -> (r: Option<u32>)
    ensures
        r == spec_hex_digit(b),
{
    if 48 <= b && b <= 57 {
        Some((b - 48) as u32)
    } else if 97 <= b && b <= 102 {
        Some((b - 87) as u32)
    } else if 65 <= b && b <= 70 {
        Some((b - 55) as u32)
    } else {
        None
    }
}

/// The value of a bare hexadecimal numeral; matches `spec_parse_hex`.
fn parse_hex_vec(s: &Vec<u8>) -> (r: Option<u32>)
    ensures
        r == spec_parse_hex(s@),
{
    let n = s.len();
    if n == 0 {
        return None;
    }
    let mut acc: u32 = 0;
    let mut j: usize = 0;
    while j < n
        invariant
            n == s@.len(),
            j <= n,
            spec_parse_hex_from(s@, 0, 0) == spec_parse_hex_from(s@, j as int, acc),
        decreases n - j,
    {
        match hex_digit(s[j]) {
            None => {
                return None;
            },
            Some(d) => {
                if acc as u64 * 16 + d as u64 > u32::MAX as u64 {
                    return None;
                }
                acc = acc * 16 + d;
            },
        }
        j = j + 1;
    }
    Some(acc)
}

/// The first `..` in `s`; matches `spec_find_dots`.
fn find_dots(s: &Vec<u8>) -> (r: Option<usize>)
    ensures
        match r {
            Some(q) => spec_find_dots(s@, 0) == Some(q as int) && q + 1 < s@.len(),
            None => spec_find_dots(s@, 0) is None,
        },
{
    let n = s.len();
    if n < 2 {
        return None;
    }
    let mut j: usize = 0;
    while j + 1 < n
        invariant
            n == s@.len(),
            j + 1 <= n,
            spec_find_dots(s@, 0) == spec_find_dots(s@, j as int),
        decreases n - j,
    {
        if s[j] == 46 && s[j + 1] == 46 {
            return Some(j);
        }
        j = j + 1;
    }
    None
}

/// The range one line contributes; matches `spec_line_range`.
fn process_line(line: &Vec<u8>) -> (r: Option<(u32, u32)>)
    ensures
        r == spec_line_range(line@),
{
    let cut_end = match find_byte(line, 35, 0) {
        Some(p) => p,
        None => line.len(),
    };
    let cut = copy_range(line, 0, cut_end);
    proof {
        match spec_find_from(line@, 35, 0) {
            Some(p) => {
                assert(cut@ =~= line@.take(p));
            },
            None => {
                assert(cut@ =~= line@);
            },
        }
    }
    let l = trim_end_vec(&cut);
    if l.len() == 0 {
        return None;
    }
    let p = match find_byte(&l, 59, 0) {
        Some(p) => p,
        None => {
            return None;
        },
    };
    if p + 1 <= l.len() {
        if let Some(_) = find_byte(&l, 59, p + 1) {
            return None;
        }
    }
    let head = copy_range(&l, 0, p);
    let tail = copy_range(&l, p + 1, l.len());
    proof {
        assert(head@ =~= l@.take(p as int));
        assert(tail@ =~= l@.skip(p as int + 1));
    }
    let f0 = trim_vec(&head);
    let f1 = trim_vec(&tail);
    if !eq_keyword(&f1) {
        return None;
    }
    match find_dots(&f0) {
        Some(q) => {
            let from_part = copy_range(&f0, 0, q);
            let to_part = copy_range(&f0, q + 2, f0.len());
            proof {
                assert(from_part@ =~= f0@.take(q as int));
                assert(to_part@ =~= f0@.skip(q as int + 2));
            }
            let a = parse_hex_vec(&from_part);
            let b = parse_hex_vec(&to_part);
            match (a, b) {
                (Some(a), Some(b)) => {
                    if codepoint_valid(a) && codepoint_valid(b) {
                        Some((a, b))
                    } else {
                        None
                    }
                },
                _ => None,
            }
        },
        None => {
            match parse_hex_vec(&f0) {
                Some(a) => if codepoint_valid(a) {
                    Some((a, a))
                } else {
                    None
                },
                None => None,
            }
        },
    }
}

/// Whether a code point is a scalar value; matches
/// `spec_codepoint_valid`.
fn codepoint_valid(cp: u32) -> (r: bool)
    ensures
        r == spec_codepoint_valid(cp),
{
    cp < 0xD800 || (0xE000 <= cp && cp <= 0x10FFFF)
}

/// The table of default-ignorable code points, as the ranges parsed
/// from the character database text.
pub struct IgnorableDatabase {
    pub ranges: Vec<(u32, u32)>,
}

impl View for IgnorableDatabase {
    type V = Seq<(u32, u32)>;

    open spec fn view(&self) -> Seq<(u32, u32)> {
        self.ranges@
    }
}

impl IgnorableDatabase {
    /// Parses the character database text handed in as bytes; every
    /// line carrying the kept property contributes its code-point
    /// range, and malformed lines are skipped.
    pub fn load(data: &Vec<u8>) -> (db: IgnorableDatabase)
        ensures
            db@ == spec_parse_ignorable(data@),
    {
        let ghost total = spec_parse_ignorable(data@);
        let n = data.len();
        let mut ranges: Vec<(u32, u32)> = Vec::new();
        let mut i: usize = 0;
        loop
            invariant_except_break
                ranges@ + spec_ranges_from(data@, i as int) == total,
            invariant
                n == data@.len(),
                i <= n,
                total == spec_parse_ignorable(data@),
            ensures
                ranges@ == total,
            decreases n - i,
        {
            let ghost before = ranges@;
            match find_byte(data, 10, i) {
                Some(p) => {
                    let line = copy_range(data, i, p);
                    if let Some(r) = process_line(&line) {
                        ranges.push(r);
                    }
                    proof {
                        assert(ranges@ =~= before + spec_line_ranges(
                            data@.subrange(i as int, p as int),
                        ));
                        assert(ranges@ + spec_ranges_from(data@, p as int + 1) =~= total);
                    }
                    i = p + 1;
                },
                None => {
                    let line = copy_range(data, i, n);
                    if let Some(r) = process_line(&line) {
                        ranges.push(r);
                    }
                    proof {
                        assert(ranges@ =~= before + spec_line_ranges(
                            data@.subrange(i as int, n as int),
                        ));
                        assert(ranges@ =~= total);
                    }
                    break ;
                },
            }
        }
        IgnorableDatabase { ranges }
    }

    /// Whether `c` is a default-ignorable code point: whether it
    /// falls in one of the parsed ranges.
    pub fn is_char_default_ignorable(&self, c: char) -> (r: bool)
        ensures
            r == spec_in_ranges(self@, c as u32),
    {
        let cp = c as u32;
        let n = self.ranges.len();
        let mut k: usize = 0;
        while k < n
            invariant
                cp == c as u32,
                n == self@.len(),
                k <= n,
                forall|m: int|
                    0 <= m < k ==> !((#[trigger] self@[m]).0 <= cp <= self@[m].1),
            decreases n - k,
        {
            let (lo, hi) = self.ranges[k];
            if lo <= cp && cp <= hi {
                proof {
                    assert(spec_in_ranges(self@, cp)) by {
                        assert(0 <= k < self@.len() && (self@[k as int]).0 <= cp <= (
                        self@[k as int]).1);
                    }
                }
                return true;
            }
            k = k + 1;
        }
        false
    }
}

} // verus!
