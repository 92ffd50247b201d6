//! Splitting game text into plain runs and markup: rich-text tags such as `<size=16>` that
//! have a matching closing tag, and template expressions such as `$(name)`.

use vstd::prelude::*;
use vstd::string::StringSliceAdditionalSpecFns;
use crate::text::{chars_of, seq_starts_with, str_starts_with};

verus! {

/// Where the scanner stands inside one section.
#[derive(Clone, Copy, Debug, PartialEq, Eq, Structural)]
pub struct ScanFlags {
    pub in_tag: bool,
    pub in_closing_tag: bool,
    pub expecting_tag_name: bool,
    pub expecting_expr_open: bool,
    pub in_expression: bool,
    /// Byte index of the `<` that opened the current tag.
    pub tag_start: usize,
}

/// Flags at the start of a section.
pub open spec fn initial_flags() -> ScanFlags {
    ScanFlags {
        in_tag: false,
        in_closing_tag: false,
        expecting_tag_name: false,
        expecting_expr_open: false,
        in_expression: false,
        tag_start: 0,
    }
}

/// Bytes that count as white space when read as Latin-1 characters.
pub open spec fn is_space_byte(b: u8) -> bool {
    (9 <= b <= 13) || b == 32 || b == 0x85 || b == 0xA0
}

/// ASCII letters.
pub open spec fn is_alpha_byte(b: u8) -> bool {
    (65 <= b <= 90) || (97 <= b <= 122)
}

/// First index at or after `j` that is the end of `s` or a byte that is not white space.
pub open spec fn skip_spaces(s: Seq<u8>, j: int) -> int
    decreases s.len() - j,
{
    if j < 0 || j >= s.len() || !is_space_byte(s[j]) { j } else { skip_spaces(s, j + 1) }
}

/// Whether `needle` occurs in `hay`.
pub open spec fn bytes_contain(hay: Seq<u8>, needle: Seq<u8>) -> bool {
    exists|k: int| 0 <= k && k + needle.len() <= hay.len() && #[trigger] hay.subrange(k, k + needle.len()) == needle
}

/// The closing tag `</name>` for the tag whose `<` is at `tag_start` and whose name ends
/// before `i`.
pub open spec fn closing_tag(s: Seq<u8>, tag_start: int, i: int) -> Seq<u8> {
    seq![60u8, 47u8] + s.subrange(tag_start + 1, i) + seq![62u8]
}

/// End of the section that began at `start`, scanning on from byte `i` with `f`, and
/// whether the section is plain text (to be broken into words) rather than markup.
///
/// Inside a tag, the tag ends at `>` (taking the white space after it); a name that is not
/// made of letters, a `/` anywhere but right after `<`, a closing tag with anything after
/// its name, or an opening tag whose `</name>` does not follow, turns the tag back into
/// plain text. An expression `$(...)` ends at `)` (taking the white space after it). Plain
/// text ends before a `<` or before a `$` that opens an expression, or at the end.
pub open spec fn scan(s: Seq<u8>, start: int, i: int, f: ScanFlags) -> (int, bool)
    decreases s.len() - i,
{
    if i < 0 || i >= s.len() {
        (i, true)
    } else {
        let c = s[i];
        if f.in_tag {
            if c == 62u8 || c == 61u8 || c == 32u8 {
                if f.expecting_tag_name && !f.in_closing_tag && f.tag_start < i
                    && !bytes_contain(s.skip(i), closing_tag(s, f.tag_start as int, i)) {
                    scan(s, start, i + 1, ScanFlags { in_tag: false, ..f })
                } else if c == 62u8 {
                    (skip_spaces(s, i + 1), false)
                } else if f.in_closing_tag {
                    scan(s, start, i + 1, ScanFlags { in_tag: false, expecting_tag_name: false, ..f })
                } else {
                    scan(s, start, i + 1, ScanFlags { expecting_tag_name: false, ..f })
                }
            } else if c == 47u8 {
                if i == f.tag_start + 1 {
                    scan(s, start, i + 1, ScanFlags { in_closing_tag: true, ..f })
                } else if f.expecting_tag_name {
                    scan(s, start, i + 1, ScanFlags { in_tag: false, ..f })
                } else {
                    scan(s, start, i + 1, f)
                }
            } else if f.expecting_tag_name && !is_alpha_byte(c) {
                scan(s, start, i + 1, ScanFlags { in_tag: false, ..f })
            } else {
                scan(s, start, i + 1, f)
            }
        } else if f.in_expression {
            if c == 41u8 {
                (skip_spaces(s, i + 1), false)
            } else {
                scan(s, start, i + 1, f)
            }
        } else if c == 60u8 {
            if start == i {
                scan(s, start, i + 1, ScanFlags { in_tag: true, expecting_tag_name: true, tag_start: i as usize, ..f })
            } else {
                (i, true)
            }
        } else if c == 36u8 {
            scan(s, start, i + 1, ScanFlags { expecting_expr_open: true, ..f })
        } else if c == 40u8 {
            if f.expecting_expr_open {
                if i != start + 1 {
                    (i - 1, true)
                } else {
                    scan(s, start, i + 1, ScanFlags { in_expression: true, expecting_expr_open: false, ..f })
                }
            } else {
                scan(s, start, i + 1, f)
            }
        } else if f.expecting_expr_open {
            scan(s, start, i + 1, ScanFlags { expecting_expr_open: false, ..f })
        } else {
            scan(s, start, i + 1, f)
        }
    }
}

/// What the scanner keeps between sections: the text's bytes and where the next section
/// begins.
pub struct IsolateTags {
    pub bytes: Vec<u8>,
    pub i: usize,
}

/// Scanner flags that may stand at byte `i` of a section that began at `start`.
pub open spec fn flags_ok(s: Seq<u8>, start: int, i: int, f: ScanFlags) -> bool {
    &&& (f.in_tag ==> start <= f.tag_start < i && s[f.tag_start as int] == 60u8)
    &&& (f.expecting_expr_open ==> start < i && s[i - 1] == 36u8)
    &&& !(f.in_tag && f.in_expression)
    &&& (f.in_tag ==> !f.expecting_expr_open)
    &&& (f.in_expression ==> !f.expecting_expr_open)
}

impl IsolateTags {
    /// Starts splitting `s` at its first byte.
    pub fn new(s: &str) -> (r: Self)
        ensures r.bytes@ == s.spec_bytes(), r.i == 0,
    {
        let b = s.as_bytes();
        let mut bytes: Vec<u8> = Vec::new();
        let mut k: usize = 0;
        while k < b.len()
            invariant
                k <= b@.len(),
                bytes@ == b@.take(k as int),
            decreases b.len() - k,
        {
            bytes.push(b[k]);
            proof {
                assert(b@.take(k + 1) == b@.take(k as int).push(b@[k as int]));
            }
            k = k + 1;
        }
        proof {
            assert(b@.take(b@.len() as int) == b@);
        }
        IsolateTags { bytes, i: 0 }
    }

    fn skip_spaces_from(&self, j: usize) -> (r: usize)
        requires j <= self.bytes@.len(),
        ensures r == skip_spaces(self.bytes@, j as int), j <= r <= self.bytes@.len(),
    {
        let mut k = j;
        while k < self.bytes.len()
            invariant
                j <= k <= self.bytes@.len(),
                skip_spaces(self.bytes@, k as int) == skip_spaces(self.bytes@, j as int),
            decreases self.bytes.len() - k,
        {
            let b = self.bytes[k];
            if !((9 <= b && b <= 13) || b == 32 || b == 0x85 || b == 0xA0) {
                return k;
            }
            k = k + 1;
        }
        k
    }

    /// Whether `</name>`, for the tag name `bytes[name_start..name_end]`, occurs at or after
    /// byte `from`.
    fn closing_tag_follows(&self, name_start: usize, name_end: usize, from: usize) -> (r: bool)
        requires
            0 < name_start <= name_end <= from <= self.bytes@.len(),
        ensures
            r == bytes_contain(self.bytes@.skip(from as int), closing_tag(self.bytes@, name_start - 1, name_end as int)),
    {
        let ghost s = self.bytes@;
        let mut needle: Vec<u8> = Vec::new();
        needle.push(60u8);
        needle.push(47u8);
        let mut k = name_start;
        while k < name_end
            invariant
                name_start <= k <= name_end <= s.len(),
                s == self.bytes@,
                needle@ == seq![60u8, 47u8] + s.subrange(name_start as int, k as int),
            decreases name_end - k,
        {
            needle.push(self.bytes[k]);
            proof {
                assert(s.subrange(name_start as int, k + 1) == s.subrange(name_start as int, k as int).push(s[k as int]));
            }
            k = k + 1;
        }
        needle.push(62u8);
        proof {
            assert(needle@ == closing_tag(s, name_start - 1, name_end as int));
        }
        let ghost hay = s.skip(from as int);
        let m = needle.len();
        let n = self.bytes.len() - from;
        if m > n {
            proof {
                assert forall|p: int| !(0 <= p && p + needle@.len() <= hay.len()
                    && #[trigger] hay.subrange(p, p + needle@.len()) == needle@) by {}
            }
            return false;
        }
        let mut p: usize = 0;
        while p <= n - m
            invariant
                s == self.bytes@,
                hay == s.skip(from as int),
                n == hay.len(),
                m == needle@.len(),
                m <= n,
                from + n == s.len(),
                s.len() == self.bytes.len(),
                needle@ == closing_tag(s, name_start - 1, name_end as int),
                forall|q: int| 0 <= q < p ==> !(#[trigger] hay.subrange(q, q + m) == needle@),
            decreases n - m + 1 - p,
        {
            let mut t: usize = 0;
            let mut same = true;
            while t < m
                invariant
                    s == self.bytes@,
                    hay == s.skip(from as int),
                    p + m <= n,
                    n == hay.len(),
                    from + n == s.len(),
                    s.len() == self.bytes.len(),
                    m == needle@.len(),
                    t <= m,
                    same == (forall|x: int| 0 <= x < t ==> hay[p + x] == needle@[x]),
                decreases m - t,
            {
                if self.bytes[from + p + t] != needle[t] {
                    same = false;
                }
                t = t + 1;
            }
            if same {
                proof {
                    assert(hay.subrange(p as int, p + m) == needle@);
                }
                return true;
            }
            proof {
                assert(!same);
                let x = choose|x: int| 0 <= x < m && hay[p + x] != needle@[x];
                assert(hay.subrange(p as int, p + m)[x] != needle@[x]);
            }
            p = p + 1;
        }
        proof {
            assert forall|q: int| !(0 <= q && q + needle@.len() <= hay.len()
                && #[trigger] hay.subrange(q, q + needle@.len()) == needle@) by {
                if 0 <= q && q + m <= n {
                    assert(q < p);
                }
            }
        }
        false
    }

    /// The next section: its byte range and whether it is plain text to be broken into
    /// words (`false` for a tag or an expression, which stay whole). The sections follow
    /// one another and cover the whole text; `None` once the text is used up.
    pub fn next_section(&mut self) -> (r: Option<(usize, usize, bool)>)
        requires old(self).i <= old(self).bytes@.len(),
        ensures
            final(self).bytes == old(self).bytes,
            final(self).i <= final(self).bytes@.len(),
            old(self).i == old(self).bytes@.len() ==> r is None && final(self).i == old(self).i,
            old(self).i < old(self).bytes@.len() ==> (r matches Some((start, end, plain)) && {
                &&& start == old(self).i
                &&& start < end <= old(self).bytes@.len()
                &&& final(self).i == end
                &&& (end as int, plain) == scan(old(self).bytes@, start as int, start as int, initial_flags())
            }),
    {
        let n = self.bytes.len();
        if self.i >= n {
            return None;
        }
        let ghost s = self.bytes@;
        let start = self.i;
        let mut f = ScanFlags {
            in_tag: false,
            in_closing_tag: false,
            expecting_tag_name: false,
            expecting_expr_open: false,
            in_expression: false,
            tag_start: 0,
        };
        let mut i = start;
        while i < n
            invariant
                s == self.bytes@,
                n == s.len(),
                start < n,
                start <= i <= n,
                flags_ok(s, start as int, i as int, f),
                scan(s, start as int, i as int, f) == scan(s, start as int, start as int, initial_flags()),
                self.i == start,
                start == old(self).i,
                self.bytes == old(self).bytes,
                i == start ==> f == initial_flags(),
            decreases n - i,
        {
            let c = self.bytes[i];
            if f.in_tag {
                if c == 62u8 || c == 61u8 || c == 32u8 {
                    let mut missing = false;
                    if f.expecting_tag_name && !f.in_closing_tag && f.tag_start < i {
                        missing = !self.closing_tag_follows(f.tag_start + 1, i, i);
                    }
                    if missing {
                        f = ScanFlags { in_tag: false, ..f };
                    } else if c == 62u8 {
                        let end = self.skip_spaces_from(i + 1);
                        self.i = end;
                        return Some((start, end, false));
                    } else if f.in_closing_tag {
                        f = ScanFlags { in_tag: false, expecting_tag_name: false, ..f };
                    } else {
                        f = ScanFlags { expecting_tag_name: false, ..f };
                    }
                } else if c == 47u8 {
                    if i == f.tag_start + 1 {
                        f = ScanFlags { in_closing_tag: true, ..f };
                    } else if f.expecting_tag_name {
                        f = ScanFlags { in_tag: false, ..f };
                    }
                } else if f.expecting_tag_name && !((65 <= c && c <= 90) || (97 <= c && c <= 122)) {
                    f = ScanFlags { in_tag: false, ..f };
                }
            } else if f.in_expression {
                if c == 41u8 {
                    let end = self.skip_spaces_from(i + 1);
                    self.i = end;
                    return Some((start, end, false));
                }
            } else if c == 60u8 {
                if start == i {
                    f = ScanFlags { in_tag: true, expecting_tag_name: true, tag_start: i, ..f };
                } else {
                    self.i = i;
                    return Some((start, i, true));
                }
            } else if c == 36u8 {
                f = ScanFlags { expecting_expr_open: true, ..f };
            } else if c == 40u8 {
                if f.expecting_expr_open {
                    if i != start + 1 {
                        self.i = i - 1;
                        return Some((start, i - 1, true));
                    }
                    f = ScanFlags { in_expression: true, expecting_expr_open: false, ..f };
                }
            } else if f.expecting_expr_open {
                f = ScanFlags { expecting_expr_open: false, ..f };
            }
            i = i + 1;
        }
        self.i = i;
        Some((start, i, true))
    }
}

/// Whether `w` ends with `suffix`.
pub open spec fn seq_ends_with(w: Seq<char>, suffix: Seq<char>) -> bool {
    suffix.len() <= w.len() && w.skip(w.len() - suffix.len()) == suffix
}

/// Whether a word is markup that takes no room on a line: a tag `<...>` or an expression
/// `$(...)`.
pub open spec fn spec_is_markup_word(w: Seq<char>) -> bool {
    (seq_starts_with(w, "<"@) && seq_ends_with(w, ">"@)) || (seq_starts_with(w, "$("@) && seq_ends_with(w, ")"@))
}

fn ends_with_char(w: &Vec<char>, c: char) -> (r: bool)
    ensures r == seq_ends_with(w@, seq![c]),
{
    if w.len() == 0 {
        return false;
    }
    let r = w[w.len() - 1] == c;
    proof {
        assert(w@.skip(w@.len() - 1) =~= seq![w@[w@.len() - 1]]);
        if r {
            assert(w@.skip(w@.len() - 1) =~= seq![c]);
        } else {
            assert(w@.skip(w@.len() - 1)[0] != seq![c][0]);
        }
    }
    r
}

/// Whether the word is markup that wrapping leaves out of its width computations.
pub fn is_markup_word(word: &str) -> (r: bool)
    ensures r == spec_is_markup_word(word@),
{
    let w = chars_of(word);
    proof {
        reveal_strlit("<");
        reveal_strlit(">");
        reveal_strlit("$(");
        reveal_strlit(")");
        assert(">"@ =~= seq!['>']);
        assert(")"@ =~= seq![')']);
    }
    (str_starts_with(word, "<") && ends_with_char(&w, '>')) || (str_starts_with(word, "$(") && ends_with_char(&w, ')'))
}

/// Plain (non-markup) words among the first `w` words.
pub open spec fn plain_count(is_markup: Seq<bool>, w: int) -> nat
    decreases w,
{
    if w <= 0 { 0 } else if is_markup[w - 1] { plain_count(is_markup, w - 1) } else { plain_count(is_markup, w - 1) + 1 }
}

/// First word index at or after `w` before which `c` plain words stand (the number of
/// words when there is none).
pub open spec fn pos_from(is_markup: Seq<bool>, c: int, w: int) -> int
    decreases is_markup.len() - w,
{
    if w < 0 || w >= is_markup.len() {
        is_markup.len() as int
    } else if plain_count(is_markup, w) >= c {
        w
    } else {
        pos_from(is_markup, c, w + 1)
    }
}

/// Word index where the line starting with plain word number `c` begins: markup words
/// before that plain word belong to the line before.
pub open spec fn line_pos(is_markup: Seq<bool>, c: int) -> int {
    pos_from(is_markup, c, 0)
}

/// Plain words in the first `j` wrapped lines.
pub open spec fn lines_before(lens: Seq<usize>, j: int) -> nat
    decreases j,
{
    if j <= 0 { 0 } else { lines_before(lens, j - 1) + lens[j - 1] as nat }
}

/// The word range of wrapped line `j` once the markup words are put back: from where its
/// first plain word's line begins to where the next line begins, the last line running to
/// the end.
pub open spec fn restored_line(is_markup: Seq<bool>, lens: Seq<usize>, j: int) -> (int, int) {
    (line_pos(is_markup, lines_before(lens, j) as int), if j == lens.len() - 1 {
        is_markup.len() as int
    } else {
        line_pos(is_markup, lines_before(lens, j + 1) as int)
    })
}

proof fn lemma_plain_count_step(m: Seq<bool>, w: int)
    requires 0 <= w < m.len(),
    ensures plain_count(m, w + 1) == plain_count(m, w) + (if m[w] { 0int } else { 1int }),
{
}

proof fn lemma_plain_count_bound(m: Seq<bool>, w: int)
    requires 0 <= w,
    ensures plain_count(m, w) <= w,
    decreases w,
{
    if w > 0 {
        lemma_plain_count_bound(m, w - 1);
    }
}

proof fn lemma_pos_from_skip(m: Seq<bool>, c: int, w: int, v: int)
    requires
        0 <= w <= v <= m.len(),
        forall|x: int| w <= x < v ==> plain_count(m, x) < c,
    ensures pos_from(m, c, w) == pos_from(m, c, v),
    decreases v - w,
{
    if w < v {
        lemma_pos_from_skip(m, c, w + 1, v);
    }
}

/// Puts markup words back into lines that were wrapped without them. `is_markup[i]` tells
/// whether word `i` is markup; `clean_line_lens[j]` is how many plain words wrapped line
/// `j` holds. Markup words go with the plain word after them, except that those after the
/// last line's first plain word stay on the last line. Answers the word range of each line.
pub fn restore_markup_lines(is_markup: &Vec<bool>, clean_line_lens: &Vec<usize>) -> (r: Vec<(usize, usize)>)
    requires
        lines_before(clean_line_lens@, clean_line_lens@.len() as int) == plain_count(is_markup@, is_markup@.len() as int),
    ensures
        r@.len() == clean_line_lens@.len(),
        forall|j: int| 0 <= j < r@.len() ==> (#[trigger] r@[j].0 as int, r@[j].1 as int) == restored_line(is_markup@, clean_line_lens@, j),
{
    let n = is_markup.len();
    let k = clean_line_lens.len();
    let ghost m = is_markup@;
    let ghost lens = clean_line_lens@;
    let mut lines: Vec<(usize, usize)> = Vec::new();
    let mut w: usize = 0;
    let mut plain: usize = 0;
    let mut target: usize = 0;
    let mut j: usize = 0;
    proof {
        lemma_plain_count_bound(m, n as int);
    }
    while j < k
        invariant
            m == is_markup@,
            lens == clean_line_lens@,
            n == m.len(),
            k == lens.len(),
            j <= k,
            lines_before(lens, k as int) == plain_count(m, n as int),
            plain_count(m, n as int) <= n,
            target == lines_before(lens, j as int),
            target <= plain_count(m, n as int),
            w <= n,
            plain == plain_count(m, w as int),
            j < k ==> w as int == line_pos(m, target as int),
            forall|x: int| 0 <= x < w ==> plain_count(m, x) < target,
            lines@.len() == j,
            forall|x: int| 0 <= x < j ==> (#[trigger] lines@[x].0 as int, lines@[x].1 as int) == restored_line(m, lens, x),
        decreases k - j,
    {
        let start = w;
        proof {
            lemma_lines_before_bound(lens, j as int + 1, k as int);
        }
        let next_target = target + clean_line_lens[j];
        let end;
        if j == k - 1 {
            end = n;
        } else {
            while w < n && plain < next_target
                invariant
                    m == is_markup@,
                    n == m.len(),
                    w <= n,
                    start <= w,
                    plain == plain_count(m, w as int),
                    pos_from(m, next_target as int, start as int) == pos_from(m, next_target as int, w as int),
                    forall|x: int| start <= x < w ==> plain_count(m, x) < next_target,
                    forall|x: int| 0 <= x < start ==> plain_count(m, x) < next_target,
                decreases n - w,
            {
                proof {
                    lemma_plain_count_step(m, w as int);
                }
                if !is_markup[w] {
                    plain = plain + 1;
                }
                w = w + 1;
            }
            end = w;
            proof {
                lemma_pos_from_skip(m, next_target as int, 0, start as int);
                assert(lines_before(lens, j + 1) == target + lens[j as int]);
                assert(w as int == line_pos(m, next_target as int));
            }
        }
        proof {
            assert(lines_before(lens, j + 1) == target + lens[j as int]);
        }
        lines.push((start, end));
        target = next_target;
        j = j + 1;
    }
    lines
}

proof fn lemma_lines_before_bound(lens: Seq<usize>, j: int, k: int)
    requires 0 <= j <= k <= lens.len(),
    ensures lines_before(lens, j) <= lines_before(lens, k),
    decreases k - j,
{
    if j < k {
        lemma_lines_before_bound(lens, j, k - 1);
    }
}

/// Restored lines follow one another without gap or overlap: the first begins at the
/// first word, each ends where the next begins, and the last ends at the last word.
pub proof fn law_restored_lines_partition(is_markup: Seq<bool>, lens: Seq<usize>)
    requires lens.len() > 0,
    ensures
        restored_line(is_markup, lens, 0).0 == 0,
        restored_line(is_markup, lens, lens.len() - 1).1 == is_markup.len(),
        forall|j: int| 0 <= j < lens.len() - 1 ==> #[trigger] restored_line(is_markup, lens, j).1
            == restored_line(is_markup, lens, j + 1).0,
{
    assert(lines_before(lens, 0) == 0);
    if is_markup.len() > 0 {
        assert(plain_count(is_markup, 0) == 0);
    }
}

proof fn lemma_scan_tag_name(s: Seq<u8>, start: int, i: int, end: int, f: ScanFlags)
    requires
        0 <= i <= end <= s.len(),
        f.in_tag,
        f.expecting_tag_name,
        forall|k: int| i <= k < end ==> is_alpha_byte(#[trigger] s[k]),
    ensures scan(s, start, i, f) == scan(s, start, end, f),
    decreases end - i,
{
    if i < end {
        assert(is_alpha_byte(s[i]));
        lemma_scan_tag_name(s, start, i + 1, end, f);
    }
}

proof fn lemma_scan_tag_value(s: Seq<u8>, start: int, i: int, end: int, f: ScanFlags)
    requires
        0 <= i <= end <= s.len(),
        f.in_tag,
        !f.expecting_tag_name,
        !f.in_closing_tag,
        f.tag_start + 1 < i,
        forall|k: int| i <= k < end ==> #[trigger] s[k] != 62u8,
    ensures scan(s, start, i, f) == scan(s, start, end, f),
    decreases end - i,
{
    if i < end {
        assert(s[i] != 62u8);
        assert(ScanFlags { expecting_tag_name: false, ..f } == f);
        lemma_scan_tag_value(s, start, i + 1, end, f);
    }
}

/// A rich-text tag with a value, `<name=value>`, whose closing tag `</name>` follows later,
/// is one markup section from its `<` to its `>` (with the white space after it), whatever
/// bytes other than `>` the value holds; the text before it plays no part.
pub proof fn law_tag_with_value_is_markup(pre: Seq<u8>, name: Seq<u8>, value: Seq<u8>, rest: Seq<u8>)
    requires
        name.len() > 0,
        forall|k: int| 0 <= k < name.len() ==> is_alpha_byte(#[trigger] name[k]),
        forall|k: int| 0 <= k < value.len() ==> #[trigger] value[k] != 62u8,
        bytes_contain(rest, seq![60u8, 47u8] + name + seq![62u8]),
        pre.len() + name.len() + value.len() + rest.len() + 3 <= usize::MAX,
    ensures ({
        let s = pre + seq![60u8] + name + seq![61u8] + value + seq![62u8] + rest;
        let gt = pre.len() + 1 + name.len() + 1 + value.len() as int;
        scan(s, pre.len() as int, pre.len() as int, initial_flags()) == (skip_spaces(s, (gt + 1) as int), false)
    }),
{
    let s = pre + seq![60u8] + name + seq![61u8] + value + seq![62u8] + rest;
    let a = pre.len() as int;
    let p = a + 1 + name.len();
    let q = p + 1 + value.len();
    let tail = seq![61u8] + value + seq![62u8] + rest;
    assert(s =~= pre + seq![60u8] + name + tail);
    assert(s[a] == 60u8);
    assert(s[p] == 61u8);
    assert(s[q] == 62u8);
    let f0 = ScanFlags { in_tag: true, expecting_tag_name: true, tag_start: a as usize, ..initial_flags() };
    assert(scan(s, a, a, initial_flags()) == scan(s, a, a + 1, f0));
    assert forall|k: int| a + 1 <= k < p implies is_alpha_byte(#[trigger] s[k]) by {
        assert(s[k] == name[k - a - 1]);
    }
    lemma_scan_tag_name(s, a, a + 1, p, f0);
    let closing = seq![60u8, 47u8] + name + seq![62u8];
    assert(s.subrange(a + 1, p) =~= name);
    assert(closing_tag(s, a, p) =~= closing);
    let kr = choose|kr: int| 0 <= kr && kr + closing.len() <= rest.len()
        && #[trigger] rest.subrange(kr, kr + closing.len()) == closing;
    let ks = kr + value.len() + 2;
    assert(s.skip(p).subrange(ks, ks + closing.len()) =~= rest.subrange(kr, kr + closing.len()));
    assert(bytes_contain(s.skip(p), closing_tag(s, a, p)));
    let f1 = ScanFlags { expecting_tag_name: false, ..f0 };
    assert(scan(s, a, p, f0) == scan(s, a, p + 1, f1));
    assert forall|k: int| p + 1 <= k < q implies #[trigger] s[k] != 62u8 by {
        assert(s[k] == value[k - p - 1]);
    }
    lemma_scan_tag_value(s, a, p + 1, q, f1);
}

proof fn lemma_scan_plain(s: Seq<u8>, start: int, i: int, end: int)
    requires
        0 <= start < i <= end <= s.len(),
        forall|k: int| i <= k < end ==> #[trigger] s[k] != 60u8 && s[k] != 36u8 && s[k] != 40u8,
    ensures scan(s, start, i, initial_flags()) == scan(s, start, end, initial_flags()),
    decreases end - i,
{
    if i < end {
        assert(s[i] != 60u8 && s[i] != 36u8 && s[i] != 40u8);
        lemma_scan_plain(s, start, i + 1, end);
    }
}

/// A run of text without `<`, `$` or `(` is one plain section that ends at the end of the
/// text or right before the next `<`.
pub proof fn law_plain_run_is_plain(s: Seq<u8>, start: int, end: int)
    requires
        0 <= start < end <= s.len(),
        forall|k: int| start <= k < end ==> #[trigger] s[k] != 60u8 && s[k] != 36u8 && s[k] != 40u8,
        end == s.len() || s[end] == 60u8,
    ensures scan(s, start, start, initial_flags()) == (end, true),
{
    assert(s[start] != 60u8 && s[start] != 36u8 && s[start] != 40u8);
    lemma_scan_plain(s, start, start + 1, end);
}

proof fn lemma_scan_expression(s: Seq<u8>, start: int, i: int, end: int, f: ScanFlags)
    requires
        0 <= i <= end <= s.len(),
        !f.in_tag,
        f.in_expression,
        forall|k: int| i <= k < end ==> #[trigger] s[k] != 41u8,
    ensures scan(s, start, i, f) == scan(s, start, end, f),
    decreases end - i,
{
    if i < end {
        assert(s[i] != 41u8);
        lemma_scan_expression(s, start, i + 1, end, f);
    }
}

/// A template expression `$(...)` with no `)` inside is one markup section from its `$` to
/// its `)` (with the white space after it).
pub proof fn law_expression_is_markup(pre: Seq<u8>, body: Seq<u8>, rest: Seq<u8>)
    requires
        forall|k: int| 0 <= k < body.len() ==> #[trigger] body[k] != 41u8,
        pre.len() + body.len() + rest.len() + 3 <= usize::MAX,
    ensures ({
        let s = pre + seq![36u8, 40u8] + body + seq![41u8] + rest;
        let close = pre.len() + 2 + body.len() as int;
        scan(s, pre.len() as int, pre.len() as int, initial_flags()) == (skip_spaces(s, close + 1), false)
    }),
{
    let s = pre + seq![36u8, 40u8] + body + seq![41u8] + rest;
    let a = pre.len() as int;
    let close = a + 2 + body.len();
    assert(s[a] == 36u8);
    assert(s[a + 1] == 40u8);
    assert(s[close] == 41u8);
    let f1 = ScanFlags { expecting_expr_open: true, ..initial_flags() };
    let f2 = ScanFlags { in_expression: true, expecting_expr_open: false, ..f1 };
    assert(scan(s, a, a, initial_flags()) == scan(s, a, a + 1, f1));
    assert(scan(s, a, a + 1, f1) == scan(s, a, a + 2, f2));
    assert forall|k: int| a + 2 <= k < close implies #[trigger] s[k] != 41u8 by {
        assert(s[k] == body[k - a - 2]);
    }
    lemma_scan_expression(s, a, a + 2, close, f2);
}

} // verus!
