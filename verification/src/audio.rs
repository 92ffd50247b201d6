//! Sound categories of the game and the character a voice cue belongs to, for captions.

use vstd::prelude::*;
use crate::text::chars_of;

verus! {

/// Volume category of a sound.
#[derive(Clone, Copy, Debug, PartialEq, Eq, Structural)]
pub enum Category {
    BGM,
    SE,
    VOICE,
    JIKKYO,
    LIVE,
}

impl Category {
    pub open spec fn spec_value(self) -> int {
        match self {
            Category::BGM => 0,
            Category::SE => 1,
            Category::VOICE => 2,
            Category::JIKKYO => 3,
            Category::LIVE => 4,
        }
    }

    /// The integer the game uses for this category.
    pub fn value(self) -> (v: i32)
        ensures v == self.spec_value(),
    {
        match self {
            Category::BGM => 0,
            Category::SE => 1,
            Category::VOICE => 2,
            Category::JIKKYO => 3,
            Category::LIVE => 4,
        }
    }
}

/// Group a sound is played in.
#[derive(Clone, Copy, Debug, PartialEq, Eq, Structural)]
pub enum SoundGroup {
    Bgm,
    Se,
    Voice,
}

impl SoundGroup {
    pub open spec fn spec_value(self) -> int {
        match self {
            SoundGroup::Bgm => 0,
            SoundGroup::Se => 1,
            SoundGroup::Voice => 2,
        }
    }

    /// The group the game's integer stands for, if any.
    pub fn from_value(v: i32) -> (r: Option<SoundGroup>)
        ensures forall|g: SoundGroup| r == Some(g) <==> g.spec_value() == v,
    {
        match v {
            0 => Some(SoundGroup::Bgm),
            1 => Some(SoundGroup::Se),
            2 => Some(SoundGroup::Voice),
            _ => None,
        }
    }
}

/// The cue a sound request names, with the texts read out of the game's strings.
pub struct RequestCueInfo {
    pub cue_sheet_name: String,
    pub cue_name: String,
    pub cue_id: i32,
}

/// Bytes that encode `c` in UTF-8.
pub open spec fn utf8_width(c: char) -> nat {
    if (c as u32) < 0x80 { 1 } else if (c as u32) < 0x800 { 2 } else if (c as u32) < 0x10000 { 3 } else { 4 }
}

/// Bytes that encode `s` in UTF-8.
pub open spec fn utf8_len(s: Seq<char>) -> nat
    decreases s.len(),
{
    if s.len() == 0 { 0 } else { utf8_len(s.drop_last()) + utf8_width(s.last()) }
}

/// The characters after the last underscore of `s` (all of `s` when it has none).
pub open spec fn after_last_underscore(s: Seq<char>) -> Seq<char>
    decreases s.len(),
{
    if s.len() == 0 {
        s
    } else if s.last() == '_' {
        Seq::empty()
    } else {
        after_last_underscore(s.drop_last()).push(s.last())
    }
}

pub open spec fn is_digit(c: char) -> bool {
    '0' <= c <= '9'
}

pub open spec fn digit_value(c: char) -> int {
    (c as int) - ('0' as int)
}

/// The integer that four characters spell in decimal, with an optional leading sign, as
/// std's integer parsing reads them; `None` when they spell none.
pub open spec fn parse_four(s: Seq<char>) -> Option<i32> {
    if s[0] == '+' || s[0] == '-' {
        if is_digit(s[1]) && is_digit(s[2]) && is_digit(s[3]) {
            let v = 100 * digit_value(s[1]) + 10 * digit_value(s[2]) + digit_value(s[3]);
            Some((if s[0] == '-' { -v } else { v }) as i32)
        } else {
            None
        }
    } else if is_digit(s[0]) && is_digit(s[1]) && is_digit(s[2]) && is_digit(s[3]) {
        Some((1000 * digit_value(s[0]) + 100 * digit_value(s[1]) + 10 * digit_value(s[2]) + digit_value(s[3])) as i32)
    } else {
        None
    }
}

/// Whether the first four bytes of the UTF-8 text `s` end at a character boundary.
pub open spec fn four_bytes_on_boundary(s: Seq<char>) -> bool {
    exists|k: int| 0 <= k <= s.len() && #[trigger] utf8_len(s.take(k)) == 4
}

/// The character a voice cue sheet belongs to: its last `_`-separated part must be at least
/// six bytes long, and its first four bytes spell the character's number.
pub open spec fn spec_caption_character_id(cue_sheet: Seq<char>) -> Option<i32> {
    let last = after_last_underscore(cue_sheet);
    if utf8_len(last) >= 6 && last.len() >= 4 && (forall|i: int| 0 <= i < 4 ==> (#[trigger] last[i] as u32) < 0x80) {
        parse_four(last.take(4))
    } else {
        None
    }
}

proof fn lemma_utf8_len_take(s: Seq<char>, i: int)
    requires 0 <= i < s.len(),
    ensures utf8_len(s.take(i + 1)) == utf8_len(s.take(i)) + utf8_width(s[i]),
{
    assert(s.take(i + 1).drop_last() == s.take(i));
}

proof fn lemma_utf8_len_monotone(s: Seq<char>, i: int, j: int)
    requires 0 <= i <= j <= s.len(),
    ensures utf8_len(s.take(i)) <= utf8_len(s.take(j)),
    decreases j - i,
{
    if i < j {
        lemma_utf8_len_take(s, j - 1);
        lemma_utf8_len_monotone(s, i, j - 1);
    }
}

proof fn lemma_after_last_underscore(s: Seq<char>, k: int)
    requires
        0 <= k <= s.len(),
        k == 0 || s[k - 1] == '_',
        forall|j: int| k <= j < s.len() ==> s[j] != '_',
    ensures after_last_underscore(s) == s.skip(k),
    decreases s.len(),
{
    if s.len() > k {
        lemma_after_last_underscore(s.drop_last(), k);
        assert(s.drop_last().skip(k).push(s.last()) == s.skip(k));
    } else if s.len() > 0 {
        assert(s.skip(k).len() == 0);
    }
}

fn parse_digit(c: char) -> (r: Option<i32>)
    ensures
        is_digit(c) ==> r == Some(digit_value(c) as i32),
        !is_digit(c) ==> r is None,
{
    if c >= '0' && c <= '9' {
        Some((c as u32 - '0' as u32) as i32)
    } else {
        None
    }
}

fn parse_four_chars(s: &Vec<char>) -> (r: Option<i32>)
    requires s@.len() == 4,
    ensures r == parse_four(s@),
{
    if s[0] == '+' || s[0] == '-' {
        let a = parse_digit(s[1]);
        let b = parse_digit(s[2]);
        let c = parse_digit(s[3]);
        match (a, b, c) {
            (Some(a), Some(b), Some(c)) => {
                let v = 100 * a + 10 * b + c;
                if s[0] == '-' { Some(-v) } else { Some(v) }
            },
            _ => None,
        }
    } else {
        let a = parse_digit(s[0]);
        let b = parse_digit(s[1]);
        let c = parse_digit(s[2]);
        let d = parse_digit(s[3]);
        match (a, b, c, d) {
            (Some(a), Some(b), Some(c), Some(d)) => Some(1000 * a + 100 * b + 10 * c + d),
            _ => None,
        }
    }
}

/// The character number of a voice cue sheet such as `snd_voi_story_100101`, used to look
/// up its caption.
pub fn caption_character_id(cue_sheet: &str) -> (r: Option<i32>)
    requires
        utf8_len(after_last_underscore(cue_sheet@)) >= 6 ==> four_bytes_on_boundary(after_last_underscore(cue_sheet@)),
    ensures r == spec_caption_character_id(cue_sheet@),
{
    let chars = chars_of(cue_sheet);
    let n = chars.len();
    let mut start: usize = n;
    while start > 0 && chars[start - 1] != '_'
        invariant
            start <= n,
            n == chars@.len(),
            forall|j: int| start <= j < n ==> chars@[j] != '_',
        decreases start,
    {
        start = start - 1;
    }
    proof {
        lemma_after_last_underscore(chars@, start as int);
    }
    let ghost last = chars@.skip(start as int);
    let mut bytes: usize = 0;
    let mut i: usize = start;
    while i < n && bytes < 6
        invariant
            start <= i <= n,
            n == chars@.len(),
            last == chars@.skip(start as int),
            bytes == utf8_len(last.take(i - start)),
            i > start ==> utf8_len(last.take(i - start - 1)) < 6,
        decreases n - i,
    {
        proof {
            lemma_utf8_len_take(last, i - start);
        }
        let c = chars[i] as u32;
        let w: usize = if c < 0x80 { 1 } else if c < 0x800 { 2 } else if c < 0x10000 { 3 } else { 4 };
        bytes = bytes + w;
        i = i + 1;
    }
    proof {
        if bytes < 6 {
            assert(last.take(i - start) == last);
        } else {
            lemma_utf8_len_monotone(last, (i - start) as int, last.len() as int);
            assert(last.take(last.len() as int) == last);
        }
    }
    if bytes < 6 || n - start < 4 {
        return None;
    }
    let mut head: Vec<char> = Vec::new();
    let mut k: usize = 0;
    while k < 4
        invariant
            k <= 4,
            start + 4 <= n,
            n == chars@.len(),
            last == chars@.skip(start as int),
            head@ == last.take(k as int),
            forall|j: int| 0 <= j < k ==> (#[trigger] last[j] as u32) < 0x80,
            chars@ == cue_sheet@,
            after_last_underscore(cue_sheet@) == last,
            utf8_len(last) >= 6,
        decreases 4 - k,
    {
        let c = chars[start + k];
        if (c as u32) >= 0x80 {
            proof {
                assert(last[k as int] == c);
                assert(!(forall|j: int| 0 <= j < 4 ==> (#[trigger] last[j] as u32) < 0x80));
            }
            return None;
        }
        head.push(c);
        proof {
            assert(head@ == last.take(k + 1));
        }
        k = k + 1;
    }
    parse_four_chars(&head)
}

} // verus!
