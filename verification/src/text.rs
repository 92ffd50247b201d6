//! Text helpers for game strings: UTF-16 index conversion, markup-aware lengths,
//! size tags, truncation to a display width and isolation of markup tags.

use vstd::prelude::*;

verus! {

/// Number of UTF-16 code units that encode `c`.
pub open spec fn utf16_width(c: char) -> nat {
    if (c as u32) >= 0x10000 { 2 } else { 1 }
}

/// Number of UTF-16 code units that encode `s`.
pub open spec fn utf16_units(s: Seq<char>) -> nat
    decreases s.len(),
{
    if s.len() == 0 { 0 } else { utf16_units(s.drop_last()) + utf16_width(s.last()) }
}

/// The characters of `text`.
pub fn chars_of(text: &str) -> (v: Vec<char>)
    ensures v@ == text@,
{
    let mut v: Vec<char> = Vec::new();
    for c in it: text.chars()
        invariant
            it.seq() == text@,
            v@ == text@.take(it.index() as int),
    {
        proof {
            assert(text@.take(it.index() as int + 1) == text@.take(it.index() as int).push(c));
        }
        v.push(c);
    }
    proof {
        assert(text@.take(text@.len() as int) == text@);
    }
    v
}

fn char_utf16_len(c: char) -> (n: usize)
    ensures n == utf16_width(c),
{
    if (c as u32) >= 0x10000 { 2 } else { 1 }
}

proof fn lemma_utf16_units_take(s: Seq<char>, i: int)
    requires 0 <= i < s.len(),
    ensures
        utf16_units(s.take(i + 1)) == utf16_units(s.take(i)) + utf16_width(s[i]),
        utf16_units(s.take(i)) <= 2 * i,
    decreases i,
{
    assert(s.take(i + 1).drop_last() == s.take(i));
    if i > 0 {
        lemma_utf16_units_take(s, i - 1);
    }
}

proof fn lemma_utf16_units_monotone(s: Seq<char>, i: int, j: int)
    requires 0 <= i <= j <= s.len(),
    ensures utf16_units(s.take(i)) <= utf16_units(s.take(j)),
    decreases j - i,
{
    if i < j {
        lemma_utf16_units_take(s, j - 1);
        lemma_utf16_units_monotone(s, i, j - 1);
    }
}

proof fn lemma_utf16_units_strict(s: Seq<char>, i: int, j: int)
    requires 0 <= i < j <= s.len(),
    ensures utf16_units(s.take(i)) < utf16_units(s.take(j)),
{
    lemma_utf16_units_take(s, i);
    lemma_utf16_units_monotone(s, i + 1, j);
}

/// UTF-16 offset of the character at index `char_idx` (counting every character when the
/// index is past the end), as the game's 32-bit integer.
pub fn char_to_utf16_index(text: &str, char_idx: usize) -> (r: i32)
    requires text@.len() <= isize::MAX,
    ensures
        r == (utf16_units(text@.take(if char_idx < text@.len() { char_idx as int } else { text@.len() as int }))) as i32,
{
    let chars = chars_of(text);
    let n = if char_idx < chars.len() { char_idx } else { chars.len() };
    let mut sum: usize = 0;
    let mut i: usize = 0;
    while i < n
        invariant
            chars@ == text@,
            n <= chars@.len() <= isize::MAX,
            i <= n,
            sum == utf16_units(chars@.take(i as int)),
        decreases n - i,
    {
        proof {
            lemma_utf16_units_take(chars@, i as int);
        }
        sum = sum + char_utf16_len(chars[i]);
        i = i + 1;
    }
    sum as i32
}

/// Index of the character at UTF-16 offset `utf16_idx`: the first character boundary at or
/// after that offset, or the character count when the text is shorter.
pub fn utf16_to_char_index(text: &str, utf16_idx: usize) -> (r: usize)
    requires text@.len() <= isize::MAX,
    ensures
        r <= text@.len(),
        forall|j: int| 0 <= j < r ==> utf16_units(#[trigger] text@.take(j)) < utf16_idx,
        r < text@.len() ==> utf16_units(text@.take(r as int)) >= utf16_idx,
{
    let chars = chars_of(text);
    let mut pos: usize = 0;
    let mut i: usize = 0;
    while i < chars.len()
        invariant
            chars@ == text@,
            chars@.len() <= isize::MAX,
            i <= chars@.len(),
            pos == utf16_units(chars@.take(i as int)),
            forall|j: int| 0 <= j < i ==> utf16_units(#[trigger] chars@.take(j)) < utf16_idx,
        decreases chars@.len() - i,
    {
        if pos >= utf16_idx {
            return i;
        }
        proof {
            lemma_utf16_units_take(chars@, i as int);
        }
        pos = pos + char_utf16_len(chars[i]);
        i = i + 1;
    }
    i
}

/// Converting a character index to a UTF-16 offset and back gives the index again: any
/// result that `utf16_to_char_index` may return for the offset of character `k` is `k`.
pub proof fn law_utf16_index_round_trip(s: Seq<char>, k: int, r: int)
    requires
        0 <= k <= s.len(),
        0 <= r <= s.len(),
        forall|j: int| 0 <= j < r ==> utf16_units(#[trigger] s.take(j)) < utf16_units(s.take(k)),
        r < s.len() ==> utf16_units(s.take(r)) >= utf16_units(s.take(k)),
    ensures r == k,
{
    if r < k {
        lemma_utf16_units_strict(s, r, k);
    } else if r > k {
        let j = k;
        assert(0 <= j < r);
        assert(utf16_units(s.take(j)) < utf16_units(s.take(k)));
    }
}


proof fn lemma_utf16_units_bounds(s: Seq<char>)
    ensures
        s.len() <= utf16_units(s) <= 2 * s.len(),
        (forall|i: int| 0 <= i < s.len() ==> (#[trigger] s[i] as u32) < 0x10000) ==> utf16_units(s) == s.len(),
        (forall|i: int| 0 <= i < s.len() ==> (#[trigger] s[i] as u32) >= 0x10000) ==> utf16_units(s) == 2 * s.len(),
    decreases s.len(),
{
    if s.len() > 0 {
        lemma_utf16_units_bounds(s.drop_last());
        assert(s.last() == s[s.len() - 1]);
        if forall|i: int| 0 <= i < s.len() ==> (#[trigger] s[i] as u32) < 0x10000 {
            assert forall|i: int| 0 <= i < s.drop_last().len() implies (#[trigger] s.drop_last()[i] as u32) < 0x10000 by {
                assert(s.drop_last()[i] == s[i]);
            }
        }
        if forall|i: int| 0 <= i < s.len() ==> (#[trigger] s[i] as u32) >= 0x10000 {
            assert forall|i: int| 0 <= i < s.drop_last().len() implies (#[trigger] s.drop_last()[i] as u32) >= 0x10000 by {
                assert(s.drop_last()[i] == s[i]);
            }
        }
    }
}

/// UTF-16 takes one code unit for each character below U+10000 and two for the others: a
/// text takes between one and two units per character, exactly one per character when all
/// lie below U+10000 (so the offset of character `k` is `k`), exactly two when none does,
/// and appending a character adds its own count.
pub proof fn law_utf16_units(s: Seq<char>, c: char)
    ensures
        s.len() <= utf16_units(s) <= 2 * s.len(),
        (forall|i: int| 0 <= i < s.len() ==> (#[trigger] s[i] as u32) < 0x10000)
            ==> forall|k: int| 0 <= k <= s.len() ==> #[trigger] utf16_units(s.take(k)) == k,
        (forall|i: int| 0 <= i < s.len() ==> (#[trigger] s[i] as u32) >= 0x10000) ==> utf16_units(s) == 2 * s.len(),
        utf16_units(s.push(c)) == utf16_units(s) + (if (c as u32) < 0x10000 { 1int } else { 2int }),
{
    lemma_utf16_units_bounds(s);
    if forall|i: int| 0 <= i < s.len() ==> (#[trigger] s[i] as u32) < 0x10000 {
        assert forall|k: int| 0 <= k <= s.len() implies #[trigger] utf16_units(s.take(k)) == k by {
            assert forall|i: int| 0 <= i < s.take(k).len() implies (#[trigger] s.take(k)[i] as u32) < 0x10000 by {
                assert(s.take(k)[i] == s[i]);
            }
            lemma_utf16_units_bounds(s.take(k));
        }
    }
    assert(s.push(c).drop_last() == s);
}

/// Visible length of `s[i..]` when reading starts inside a markup tag (`in_tag`) or not:
/// characters between `<` and `>` do not count, the brackets never count, and an escaped
/// line break (a backslash followed by `n`) counts as nothing.
pub open spec fn visual_len_from(s: Seq<char>, i: int, in_tag: bool) -> nat
    decreases s.len() - i,
{
    if i < 0 || i >= s.len() {
        0
    } else if s[i] == '<' {
        visual_len_from(s, i + 1, true)
    } else if s[i] == '>' {
        visual_len_from(s, i + 1, false)
    } else if s[i] == '\\' && i + 1 < s.len() && s[i + 1] == 'n' {
        visual_len_from(s, i + 2, in_tag)
    } else if in_tag {
        visual_len_from(s, i + 1, in_tag)
    } else {
        1 + visual_len_from(s, i + 1, in_tag)
    }
}

/// Number of characters of `text` that are shown, leaving out markup tags and escaped line
/// breaks.
pub fn str_visual_len(text: &str) -> (r: usize)
    ensures r == visual_len_from(text@, 0, false),
{
    let chars = chars_of(text);
    let n = chars.len();
    let mut count: usize = 0;
    let mut in_tag = false;
    let mut i: usize = 0;
    while i < n
        invariant
            chars@ == text@,
            n == chars@.len(),
            i <= n,
            count <= i,
            count + visual_len_from(chars@, i as int, in_tag) == visual_len_from(chars@, 0, false),
        decreases n - i,
    {
        let c = chars[i];
        if c == '<' {
            in_tag = true;
            i = i + 1;
        } else if c == '>' {
            in_tag = false;
            i = i + 1;
        } else if c == '\\' && i + 1 < n && chars[i + 1] == 'n' {
            i = i + 2;
        } else {
            if !in_tag {
                count = count + 1;
            }
            i = i + 1;
        }
    }
    count
}

/// `left` and `right` joined by a forward slash.
pub fn concat_unix_path(left: &str, right: &str) -> (r: String)
    ensures r@ == left@.push('/') + right@,
{
    let mut out = String::from_str(left);
    out.append("/");
    proof {
        reveal_strlit("/");
    }
    out.append(right);
    out
}

/// Location of the game's master database under the game data directory `data_path`.
pub fn get_masterdb_path(data_path: &str) -> (r: String)
    ensures r@ == data_path@ + "/master/master.mdb"@,
{
    let mut out = String::from_str(data_path);
    out.append("/master/master.mdb");
    out
}

/// Whether a line feed, or a backslash directly followed by `n`, starts at unit `i`.
pub open spec fn newline_at(units: Seq<u16>, i: int) -> bool {
    units[i] == 0x0Au16 || (units[i] == 0x5Cu16 && i + 1 < units.len() && units[i + 1] == 0x6Eu16)
}

/// Whether the UTF-16 game string `units` holds a line feed or an escaped line break
/// (a backslash directly followed by `n`).
pub open spec fn has_game_newline(units: Seq<u16>) -> bool {
    exists|i: int| 0 <= i < units.len() && #[trigger] newline_at(units, i)
}

/// Checks a UTF-16 game string for a line feed or an escaped line break.
pub fn game_str_has_newline(units: &[u16]) -> (r: bool)
    ensures r == has_game_newline(units@),
{
    let mut got_backslash = false;
    let mut i: usize = 0;
    while i < units.len()
        invariant
            i <= units@.len(),
            got_backslash == (i > 0 && units@[i - 1] == 0x5Cu16),
            forall|j: int| 0 <= j < i ==> units@[j] != 0x0Au16,
            forall|j: int| 0 <= j && j + 1 < i ==> !(units@[j] == 0x5Cu16 && #[trigger] units@[j + 1] == 0x6Eu16),
        decreases units.len() - i,
    {
        let c = units[i];
        if got_backslash {
            if c == 0x6E {
                proof {
                    assert(newline_at(units@, i - 1));
                }
                return true;
            }
            got_backslash = false;
        }
        if c == 0x0A {
            proof {
                assert(newline_at(units@, i as int));
            }
            return true;
        } else if c == 0x5C {
            got_backslash = true;
        }
        i = i + 1;
    }
    proof {
        assert forall|j: int| 0 <= j < units@.len() implies !#[trigger] newline_at(units@, j) by {
            if j + 1 < units@.len() {
                assert(!(units@[j] == 0x5Cu16 && units@[j + 1] == 0x6Eu16));
            }
        }
    }
    false
}

/// Calls std's `String::push`, which appends the character `c` at the end of `s`.
#[verifier::external_body]
pub(crate) fn push_char(s: &mut String, c: char)
    ensures final(s)@ == old(s)@.push(c),
{
    s.push(c);
}

/// The ASCII digit for `d` (taken modulo ten).
pub open spec fn digit_char(d: nat) -> char {
    let m = d % 10;
    if m == 0 { '0' } else if m == 1 { '1' } else if m == 2 { '2' } else if m == 3 { '3' }
    else if m == 4 { '4' } else if m == 5 { '5' } else if m == 6 { '6' } else if m == 7 { '7' }
    else if m == 8 { '8' } else { '9' }
}

/// Decimal digits of `n`, most significant first, without leading zeros.
pub open spec fn decimal_digits(n: nat) -> Seq<char>
    decreases n,
{
    if n < 10 { seq![digit_char(n)] } else { decimal_digits(n / 10).push(digit_char(n % 10)) }
}

/// Decimal form of `n`, with a leading minus sign when it is negative.
pub open spec fn decimal(n: int) -> Seq<char> {
    if n < 0 { seq!['-'] + decimal_digits((-n) as nat) } else { decimal_digits(n as nat) }
}

fn digit_of(d: u32) -> (c: char)
    requires d < 10,
    ensures c == digit_char(d as nat),
{
    if d == 0 { '0' } else if d == 1 { '1' } else if d == 2 { '2' } else if d == 3 { '3' }
    else if d == 4 { '4' } else if d == 5 { '5' } else if d == 6 { '6' } else if d == 7 { '7' }
    else if d == 8 { '8' } else { '9' }
}

fn push_decimal_digits(out: &mut String, n: u32)
    ensures final(out)@ == old(out)@ + decimal_digits(n as nat),
    decreases n,
{
    if n >= 10 {
        push_decimal_digits(out, n / 10);
    }
    push_char(out, digit_of(n % 10));
    proof {
        if n < 10 {
            assert(n % 10 == n);
            assert(decimal_digits(n as nat) == seq![digit_char(n as nat)]);
        }
    }
}

/// Appends the decimal form of `n` to `out`.
fn push_decimal(out: &mut String, n: i32)
    ensures final(out)@ == old(out)@ + decimal(n as int),
{
    if n < 0 {
        push_char(out, '-');
        let magnitude: u32 = if n == i32::MIN { 2147483648u32 } else { (-n) as u32 };
        push_decimal_digits(out, magnitude);
        proof {
            assert(old(out)@.push('-') + decimal_digits(magnitude as nat) == old(out)@ + (seq!['-']
                + decimal_digits(magnitude as nat)));
        }
    } else {
        push_decimal_digits(out, n as u32);
    }
}

/// Wraps `string` in a size tag: `<size=N>string</size>`.
pub fn add_size_tag(string: &str, size: i32) -> (r: String)
    ensures r@ == "<size="@ + decimal(size as int) + ">"@ + string@ + "</size>"@,
{
    let mut out = String::from_str("<size=");
    push_decimal(&mut out, size);
    out.append(">");
    out.append(string);
    out.append("</size>");
    out
}

/// Display width that `unicode_width` gives a character: `None` for a control character.
pub uninterp spec fn unicode_char_width(c: char) -> Option<usize>;

/// Calls `UnicodeWidthChar::width` of the `unicode_width` crate. Its source answers `None` for
/// the control characters below U+0020 and from U+007F up to U+00A0, one column for the other
/// ASCII characters, and at most three columns for any other character.
#[verifier::external_body]
fn char_width(c: char) -> (r: Option<usize>)
    ensures
        r == unicode_char_width(c),
        (c as u32) < 0x20 ==> r is None,
        0x20 <= (c as u32) < 0x7F ==> r == Some(1usize),
        0x7F <= (c as u32) < 0xA0 ==> r is None,
        0xA0 <= (c as u32) ==> (r.is_some() && r.unwrap() <= 3),
{
    unicode_width::UnicodeWidthChar::width(c)
}

/// Columns a character takes, a control character taking none.
pub open spec fn char_cols(c: char) -> nat {
    match unicode_char_width(c) {
        Some(w) => w as nat,
        None => 0,
    }
}

/// Columns the characters of `s` take.
pub open spec fn cols(s: Seq<char>) -> nat
    decreases s.len(),
{
    if s.len() == 0 { 0 } else { cols(s.drop_last()) + char_cols(s.last()) }
}

/// First index at or after `i` where a visible character brings the columns taken so far
/// to `reserved` or beyond; the length of `s` when there is none.
pub open spec fn truncate_stop(s: Seq<char>, reserved: nat, i: int) -> int
    decreases s.len() - i,
{
    if i < 0 || i >= s.len() {
        s.len() as int
    } else if char_cols(s[i]) > 0 && cols(s.take(i + 1)) >= reserved {
        i
    } else {
        truncate_stop(s, reserved, i + 1)
    }
}

/// Columns kept for text when truncating to `width`: one column less when an ellipsis
/// is added.
pub open spec fn reserved_cols(width: nat, ellipsis: bool) -> nat {
    if ellipsis { if width == 0 { 0 } else { (width - 1) as nat } } else { width }
}

/// What truncating `s` to `width` columns gives: the kept prefix, with `…` at its end when
/// `ellipsis` is set, or `None` when the whole text is to be kept as it is.
pub open spec fn truncated(s: Seq<char>, width: nat, ellipsis: bool) -> Option<Seq<char>> {
    let r = reserved_cols(width, ellipsis);
    let n = s.len() as int;
    let k = truncate_stop(s, r, 0);
    let overflow = k < n && cols(s.take(k + 1)) > r;
    let kept = if k < n && !overflow { s.take(k + 1) } else { s.take(k) };
    let consumed = if k < n { k + 1 } else { n };
    if !ellipsis {
        if k < n && (overflow || consumed < n) { Some(kept) } else { None }
    } else if overflow {
        if cols(s.take(k)) + char_cols(s[k]) <= width && consumed == n {
            None
        } else {
            Some(kept.push('\u{2026}'))
        }
    } else if consumed < n {
        if char_cols(s[consumed]) <= 1 && consumed + 1 == n {
            None
        } else {
            Some(kept.push('\u{2026}'))
        }
    } else {
        None
    }
}

proof fn lemma_cols_take(s: Seq<char>, i: int)
    requires 0 <= i < s.len(),
    ensures cols(s.take(i + 1)) == cols(s.take(i)) + char_cols(s[i]),
{
    assert(s.take(i + 1).drop_last() == s.take(i));
}

fn cols_of(c: char) -> (r: usize)
    ensures r == char_cols(c), r <= 3,
{
    match char_width(c) {
        Some(w) => w,
        None => 0,
    }
}

/// Shortens `chars` so that it takes at most `width` columns, putting `…` at the end when
/// `ellipsis` is set (it then takes the last column). Answers `None` when the text is kept
/// whole; control characters take no column.
pub fn truncate_chars(chars: &[char], width: usize, ellipsis: bool) -> (r: Option<Vec<char>>)
    ensures
        match r {
            Some(v) => truncated(chars@, width as nat, ellipsis) == Some(v@),
            None => truncated(chars@, width as nat, ellipsis) is None,
        },
{
    let ghost s = chars@;
    let n = chars.len();
    let reserved: usize = if ellipsis { if width == 0 { 0 } else { width - 1 } } else { width };
    let mut v: Vec<char> = Vec::new();
    let mut total: usize = 0;
    let mut i: usize = 0;
    let mut dropped = false;
    while i < n
        invariant_except_break
            i <= n,
            total == cols(s.take(i as int)),
            total <= reserved,
            v@ == s.take(i as int),
            truncate_stop(s, reserved as nat, 0) == truncate_stop(s, reserved as nat, i as int),
            !dropped,
        invariant
            s == chars@,
            n == s.len(),
            reserved <= width,
            reserved == reserved_cols(width as nat, ellipsis),
        ensures
            i <= n,
            total <= reserved,
            dropped ==> (i < n && truncate_stop(s, reserved as nat, 0) == i
                && cols(s.take(i + 1)) > reserved && v@ == s.take(i as int)
                && total == cols(s.take(i as int))),
            !dropped && i < n ==> (truncate_stop(s, reserved as nat, 0) == i
                && cols(s.take(i + 1)) == reserved && v@ == s.take(i + 1) && total == reserved),
            !dropped && i >= n ==> (truncate_stop(s, reserved as nat, 0) == n && v@ == s
                && total == cols(s)),
        decreases n - i,
    {
        let c = chars[i];
        let w = cols_of(c);
        proof {
            lemma_cols_take(s, i as int);
        }
        if w == 0 {
            v.push(c);
            i = i + 1;
            proof {
                assert(v@ == s.take(i as int));
            }
            continue;
        }
        if w > reserved - total {
            dropped = true;
            break;
        }
        v.push(c);
        total = total + w;
        if total == reserved {
            proof {
                assert(v@ == s.take(i + 1));
            }
            break;
        }
        i = i + 1;
        proof {
            assert(v@ == s.take(i as int));
        }
    }
    proof {
        if !dropped && i >= n {
            assert(s.take(n as int) == s);
        }
    }
    let consumed = if i < n { i + 1 } else { n };
    if ellipsis {
        if dropped {
            let c = chars[i];
            let cw = cols_of(c);
            if cw <= width - total && consumed == n {
                return None;
            }
            v.push('\u{2026}');
            return Some(v);
        } else if consumed < n {
            let c = chars[consumed];
            if cols_of(c) <= 1 && consumed + 1 == n {
                return None;
            }
            v.push('\u{2026}');
            return Some(v);
        } else {
            return None;
        }
    }
    if dropped || consumed < n {
        Some(v)
    } else {
        None
    }
}

/// Whether `needle` occurs in `hay` starting at index `i`.
pub open spec fn occurs_at(hay: Seq<char>, needle: Seq<char>, i: int) -> bool {
    0 <= i && i + needle.len() <= hay.len() && hay.subrange(i, i + needle.len()) == needle
}

/// Whether `needle` occurs somewhere in `hay` (the empty text occurs everywhere).
pub open spec fn seq_contains(hay: Seq<char>, needle: Seq<char>) -> bool {
    exists|i: int| #[trigger] occurs_at(hay, needle, i)
}

/// Whether `hay` begins with `prefix`.
pub open spec fn seq_starts_with(hay: Seq<char>, prefix: Seq<char>) -> bool {
    prefix.len() <= hay.len() && hay.take(prefix.len() as int) == prefix
}

fn matches_at(hay: &Vec<char>, needle: &Vec<char>, i: usize) -> (r: bool)
    requires i + needle@.len() <= hay@.len(),
    ensures r == occurs_at(hay@, needle@, i as int),
{
    let mut j: usize = 0;
    proof {
        assert(hay@.len() == hay.len());
    }
    while j < needle.len()
        invariant
            i + needle@.len() <= hay@.len(),
            hay@.len() <= usize::MAX,
            j <= needle@.len(),
            forall|k: int| 0 <= k < j ==> hay@[i + k] == needle@[k],
        decreases needle.len() - j,
    {
        if hay[i + j] != needle[j] {
            proof {
                assert(hay@.subrange(i as int, i + needle@.len())[j as int] != needle@[j as int]);
            }
            return false;
        }
        j = j + 1;
    }
    proof {
        assert(hay@.subrange(i as int, i + needle@.len()) == needle@);
    }
    true
}

/// Whether `needle` occurs in `hay`.
pub fn str_contains(hay: &str, needle: &str) -> (r: bool)
    ensures r == seq_contains(hay@, needle@),
{
    let h = chars_of(hay);
    let n = chars_of(needle);
    if n.len() > h.len() {
        proof {
            assert forall|i: int| !#[trigger] occurs_at(hay@, needle@, i) by {}
        }
        return false;
    }
    let last = h.len() - n.len();
    let mut i: usize = 0;
    loop
        invariant_except_break
            i <= last,
        invariant
            h@ == hay@,
            n@ == needle@,
            last + n@.len() == h@.len(),
            forall|k: int| 0 <= k < i ==> !#[trigger] occurs_at(hay@, needle@, k),
        ensures
            forall|k: int| 0 <= k <= last ==> !#[trigger] occurs_at(hay@, needle@, k),
        decreases last - i,
    {
        if matches_at(&h, &n, i) {
            return true;
        }
        if i == last {
            break;
        }
        i = i + 1;
    }
    proof {
        assert forall|k: int| !#[trigger] occurs_at(hay@, needle@, k) by {
            if 0 <= k && k <= last {
            }
        }
    }
    false
}

/// Whether `hay` begins with `prefix`.
pub fn str_starts_with(hay: &str, prefix: &str) -> (r: bool)
    ensures r == seq_starts_with(hay@, prefix@),
{
    let h = chars_of(hay);
    let p = chars_of(prefix);
    if p.len() > h.len() {
        return false;
    }
    let r = matches_at(&h, &p, 0);
    proof {
        assert(hay@.subrange(0, prefix@.len() as int) == hay@.take(prefix@.len() as int));
    }
    r
}

/// Whether the two texts are equal.
pub fn str_equal(a: &str, b: &str) -> (r: bool)
    ensures r == (a@ == b@),
{
    let x = chars_of(a);
    let y = chars_of(b);
    if x.len() != y.len() {
        return false;
    }
    let r = matches_at(&x, &y, 0);
    proof {
        assert(a@.subrange(0, b@.len() as int) == a@);
    }
    r
}

/// What std's `str::to_lowercase` gives for a text.
pub uninterp spec fn str_lowercase(s: Seq<char>) -> Seq<char>;

/// Calls std's `str::to_lowercase`, which gives the lowercase form of the text by Unicode
/// rules; the result is named, not described.
#[verifier::external_body]
pub(crate) fn lowercase(s: &str) -> (r: String)
    ensures r@ == str_lowercase(s@),
{
    s.to_lowercase()
}

proof fn lemma_stop_prefix_fits(s: Seq<char>, r: nat, i: int)
    requires
        0 <= i <= s.len(),
        cols(s.take(i)) <= r,
        truncate_stop(s, r, 0) == truncate_stop(s, r, i),
    ensures
        cols(s.take(truncate_stop(s, r, 0))) <= r,
        0 <= truncate_stop(s, r, 0) <= s.len(),
    decreases s.len() - i,
{
    if i < s.len() {
        lemma_cols_take(s, i);
        if !(char_cols(s[i]) > 0 && cols(s.take(i + 1)) >= r) {
            lemma_stop_prefix_fits(s, r, i + 1);
        }
    } else {
        assert(s.take(i) == s);
    }
}

/// What truncation keeps of the text fits the columns reserved for it: all of `width`
/// without an ellipsis, one column less with one.
pub proof fn law_truncation_fits(s: Seq<char>, width: nat, ellipsis: bool)
    ensures
        match truncated(s, width, ellipsis) {
            Some(v) => cols(if ellipsis { v.drop_last() } else { v }) <= reserved_cols(width, ellipsis),
            None => true,
        },
{
    let r = reserved_cols(width, ellipsis);
    assert(s.take(0) =~= Seq::<char>::empty());
    lemma_stop_prefix_fits(s, r, 0);
    let k = truncate_stop(s, r, 0);
    if k < s.len() {
        lemma_cols_take(s, k);
    }
    if let Some(v) = truncated(s, width, ellipsis) {
        if ellipsis {
            let kept = if k < s.len() && !(cols(s.take(k + 1)) > r) { s.take(k + 1) } else { s.take(k) };
            assert(v.drop_last() == kept);
        }
    }
}

proof fn lemma_stop_found(s: Seq<char>, r: nat, i: int)
    requires 0 <= i,
    ensures
        i <= truncate_stop(s, r, i) <= s.len() || i > s.len(),
        truncate_stop(s, r, i) < s.len() ==> ({
            let t = truncate_stop(s, r, i);
            0 <= t && char_cols(s[t]) > 0 && cols(s.take(t + 1)) >= r
        }),
    decreases s.len() - i,
{
    if i < s.len() && !(char_cols(s[i]) > 0 && cols(s.take(i + 1)) >= r) {
        lemma_stop_found(s, r, i + 1);
    }
}

/// Truncation keeps the text whole only when it fits: when nothing is cut, the whole text
/// takes at most `width` columns. When something is cut without an ellipsis, the text did
/// not fit or held more after the kept part; with an ellipsis the result ends with `…`.
pub proof fn law_untruncated_text_fits(s: Seq<char>, width: nat, ellipsis: bool)
    ensures
        truncated(s, width, ellipsis) is None ==> cols(s) <= width,
        match truncated(s, width, ellipsis) {
            Some(v) => (ellipsis ==> v.len() > 0 && v.last() == '\u{2026}')
                && (ellipsis ==> v.drop_last().len() < s.len() && v.drop_last() == s.take(v.drop_last().len() as int))
                && (!ellipsis ==> v.len() < s.len() && v == s.take(v.len() as int)),
            None => true,
        },
{
    let r = reserved_cols(width, ellipsis);
    let n = s.len() as int;
    assert(s.take(0) =~= Seq::<char>::empty());
    lemma_stop_prefix_fits(s, r, 0);
    let k = truncate_stop(s, r, 0);
    lemma_stop_found(s, r, 0);
    assert(s.take(n) == s);
    assert(r <= width);
    if k < n {
        lemma_cols_take(s, k);
        if k + 1 == n {
            assert(s.take(k + 1) == s);
        } else {
            lemma_cols_take(s, k + 1);
            if k + 2 == n {
                assert(s.take(k + 2) == s);
            }
        }
    }
}

proof fn lemma_visual_len_bounded(s: Seq<char>, i: int, in_tag: bool)
    requires 0 <= i <= s.len(),
    ensures visual_len_from(s, i, in_tag) <= s.len() - i,
    decreases s.len() - i,
{
    if i < s.len() {
        if s[i] == '<' {
            lemma_visual_len_bounded(s, i + 1, true);
        } else if s[i] == '>' {
            lemma_visual_len_bounded(s, i + 1, false);
        } else if s[i] == '\\' && i + 1 < s.len() && s[i + 1] == 'n' {
            lemma_visual_len_bounded(s, i + 2, in_tag);
        } else {
            lemma_visual_len_bounded(s, i + 1, in_tag);
        }
    }
}

proof fn lemma_visual_plain(s: Seq<char>, i: int)
    requires
        0 <= i <= s.len(),
        forall|k: int| i <= k < s.len() ==> #[trigger] s[k] != '<' && s[k] != '>' && s[k] != '\\',
    ensures visual_len_from(s, i, false) == s.len() - i,
    decreases s.len() - i,
{
    if i < s.len() {
        assert(s[i] != '<' && s[i] != '>' && s[i] != '\\');
        lemma_visual_plain(s, i + 1);
    }
}

proof fn lemma_visual_in_tag(s: Seq<char>, k: int, j: int)
    requires
        0 <= k <= j < s.len(),
        s[j] == '>',
        forall|m: int| k <= m < j ==> #[trigger] s[m] != '>',
    ensures visual_len_from(s, k, true) == visual_len_from(s, j + 1, false),
    decreases j - k,
{
    if k < j {
        assert(s[k] != '>');
        if s[k] == '\\' && k + 1 < s.len() && s[k + 1] == 'n' {
            assert(s[k + 1] != '>');
            lemma_visual_in_tag(s, k + 2, j);
        } else {
            lemma_visual_in_tag(s, k + 1, j);
        }
    }
}

/// What shows of a text: every character of a text without `<`, `>` or backslashes shows;
/// a tag from `<` to the next `>` shows nothing, and reading goes on after it outside any
/// tag.
pub proof fn law_visual_len_counts(s: Seq<char>, i: int, j: int, in_tag: bool)
    ensures
        (forall|k: int| 0 <= k < s.len() ==> #[trigger] s[k] != '<' && s[k] != '>' && s[k] != '\\')
            ==> visual_len_from(s, 0, false) == s.len(),
        0 <= i < j < s.len() && s[i] == '<' && s[j] == '>'
            && (forall|m: int| i < m < j ==> #[trigger] s[m] != '>')
            ==> visual_len_from(s, i, in_tag) == visual_len_from(s, j + 1, false),
{
    if forall|k: int| 0 <= k < s.len() ==> #[trigger] s[k] != '<' && s[k] != '>' && s[k] != '\\' {
        lemma_visual_plain(s, 0);
    }
    if 0 <= i < j < s.len() && s[i] == '<' && s[j] == '>' && (forall|m: int| i < m < j ==> #[trigger] s[m] != '>') {
        lemma_visual_in_tag(s, i + 1, j);
    }
}

/// A UTF-16 game string holds a line break when it holds a line feed, or a backslash directly
/// followed by `n`; without line feeds and backslashes it holds none.
pub proof fn law_game_newline(units: Seq<u16>, i: int)
    ensures
        0 <= i < units.len() && units[i] == 0x0Au16 ==> has_game_newline(units),
        0 <= i && i + 1 < units.len() && units[i] == 0x5Cu16 && units[i + 1] == 0x6Eu16 ==> has_game_newline(units),
        (forall|k: int| 0 <= k < units.len() ==> #[trigger] units[k] != 0x0Au16 && units[k] != 0x5Cu16)
            ==> !has_game_newline(units),
{
    if 0 <= i < units.len() && (units[i] == 0x0Au16 || (units[i] == 0x5Cu16 && i + 1 < units.len() && units[i + 1] == 0x6Eu16)) {
        assert(newline_at(units, i));
    }
    if forall|k: int| 0 <= k < units.len() ==> #[trigger] units[k] != 0x0Au16 && units[k] != 0x5Cu16 {
        assert forall|k: int| 0 <= k < units.len() implies !#[trigger] newline_at(units, k) by {
            assert(units[k] != 0x0Au16 && units[k] != 0x5Cu16);
        }
    }
}

/// A text never shows more characters than it holds.
pub proof fn law_visual_len_bounded(s: Seq<char>)
    ensures visual_len_from(s, 0, false) <= s.len(),
{
    lemma_visual_len_bounded(s, 0, false);
}

} // verus!
