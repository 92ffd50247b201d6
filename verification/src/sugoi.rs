//! Bookkeeping of machine translations requested from a local translation server: what is
//! known, what waits for an answer, and how answers pair with their requests.

use vstd::prelude::*;
use crate::fnv_maps::{
    new_string_map, new_string_set, string_map_get, string_map_insert, string_members, string_pairs,
    string_set_insert, string_set_remove, StringMap, StringSet,
};

verus! {

/// Most texts sent to the server in one request.
pub const MAX_BATCH: usize = 50;

/// A game text component (by its engine handle) and the original text it showed.
pub struct StringInfo {
    pub str_handle: u32,
    pub str: String,
}

/// Translations known so far, and originals sent to the server without an answer yet.
pub struct SugoiState {
    pub cache: StringMap,
    pub pending: StringSet,
}

/// Whether `s` is among the first `n` texts of `v`.
pub open spec fn has_text(v: Seq<String>, s: Seq<char>, n: int) -> bool {
    exists|i: int| 0 <= i < n && i < v.len() && #[trigger] v[i]@ == s
}

/// Why a single translation failed.
#[derive(Clone, Copy, Debug, PartialEq, Eq, Structural)]
pub enum TranslateError {
    /// The server answered with a number of texts other than one.
    InvalidCount,
}

/// How many texts of a batch of `batch_len` an answer settles: with an answer, those it
/// pairs with a translation; without one, all of them.
pub open spec fn settled_count(batch_len: nat, answer_len: Option<nat>) -> nat {
    match answer_len {
        Some(t) => if batch_len < t { batch_len } else { t },
        None => batch_len,
    }
}

/// Whether asking for `original` sends it to the server: no translation of it is known and
/// none is awaited.
pub open spec fn request_sent(cache: Map<Seq<char>, Seq<char>>, pending: Set<Seq<char>>, original: Seq<char>) -> bool {
    !cache.contains_key(original) && !pending.contains(original)
}

/// The texts awaited after asking for `original`: it joins them unless its translation is
/// known.
pub open spec fn awaited_after(cache: Map<Seq<char>, Seq<char>>, pending: Set<Seq<char>>, original: Seq<char>) -> Set<Seq<char>> {
    if cache.contains_key(original) { pending } else { pending.insert(original) }
}

impl SugoiState {
    /// Nothing known, nothing waiting.
    pub fn new() -> (r: Self)
        ensures string_pairs(r.cache) =~= Map::empty(), string_members(r.pending) =~= Set::empty(),
    {
        SugoiState { cache: new_string_map(), pending: new_string_set() }
    }

    /// The known translation of `original`.
    pub fn get_cached(&self, original: &str) -> (r: Option<String>)
        ensures
            match r {
                Some(t) => string_pairs(self.cache).contains_key(original@) && string_pairs(self.cache)[original@] == t@,
                None => !string_pairs(self.cache).contains_key(original@),
            },
    {
        string_map_get(&self.cache, original)
    }

    /// Records the translation of `original`, replacing one known before.
    pub fn remember(&mut self, original: String, translation: String)
        ensures
            string_pairs(final(self).cache) == string_pairs(old(self).cache).insert(original@, translation@),
            final(self).pending == old(self).pending,
    {
        string_map_insert(&mut self.cache, original, translation);
    }

    /// Asks for a translation of `original` in the background: answers whether it must be
    /// sent to the server, which is when no translation is known and none is awaited. When
    /// no translation is known, it is awaited afterwards.
    pub fn translate_async(&mut self, original: String) -> (send: bool)
        ensures
            send == request_sent(string_pairs(old(self).cache), string_members(old(self).pending), original@),
            string_members(final(self).pending)
                == awaited_after(string_pairs(old(self).cache), string_members(old(self).pending), original@),
            string_pairs(old(self).cache).contains_key(original@) ==> final(self).pending == old(self).pending,
            final(self).cache == old(self).cache,
    {
        if self.get_cached(original.as_str()).is_some() {
            return false;
        }
        string_set_insert(&mut self.pending, original)
    }

    /// Takes in the server's answer for `batch`: the texts it settles (with an answer, those
    /// paired with a translation; without one, all) are no longer awaited, and with an
    /// answer each text is paired with the translation at the same position.
    pub fn finish_batch(&mut self, batch: &Vec<String>, translated: Option<Vec<String>>) -> (r: Vec<(String, String)>)
        ensures
            final(self).cache == old(self).cache,
            ({
                let n = settled_count(batch@.len(), match translated { Some(t) => Some(t@.len()), None => None }) as int;
                forall|s: Seq<char>| #[trigger] string_members(final(self).pending).contains(s)
                    == (string_members(old(self).pending).contains(s) && !has_text(batch@, s, n))
            }),
            match translated {
                Some(t) => {
                    &&& r@.len() == (if batch@.len() < t@.len() { batch@.len() } else { t@.len() })
                    &&& forall|i: int| 0 <= i < r@.len() ==> #[trigger] r@[i] == (batch@[i], t@[i])
                },
                None => r@.len() == 0,
            },
    {
        let n: usize = match &translated {
            Some(t) => if batch.len() < t.len() { batch.len() } else { t.len() },
            None => batch.len(),
        };
        let ghost before = string_members(self.pending);
        let mut i: usize = 0;
        while i < n
            invariant
                n <= batch@.len(),
                i <= n,
                self.cache == old(self).cache,
                forall|s: Seq<char>| #[trigger] string_members(self.pending).contains(s)
                    == (before.contains(s) && !has_text(batch@, s, i as int)),
            decreases n - i,
        {
            let ghost prev = string_members(self.pending);
            string_set_remove(&mut self.pending, batch[i].as_str());
            proof {
                assert forall|s: Seq<char>| #[trigger] string_members(self.pending).contains(s)
                    == (before.contains(s) && !has_text(batch@, s, i + 1)) by {
                    if has_text(batch@, s, i + 1) && !has_text(batch@, s, i as int) {
                        let k = choose|k: int| 0 <= k < i + 1 && k < batch@.len() && #[trigger] batch@[k]@ == s;
                        assert(k == i);
                    }
                    if has_text(batch@, s, i as int) {
                        let k = choose|k: int| 0 <= k < i && k < batch@.len() && #[trigger] batch@[k]@ == s;
                        assert(has_text(batch@, s, i + 1));
                    }
                    if s == batch@[i as int]@ {
                        assert(has_text(batch@, s, i + 1));
                    }
                }
            }
            i = i + 1;
        }
        let mut out: Vec<(String, String)> = Vec::new();
        match &translated {
            Some(t) => {
                let mut k: usize = 0;
                while k < n
                    invariant
                        k <= n,
                        n <= batch@.len(),
                        n <= t@.len(),
                        n == (if batch@.len() < t@.len() { batch@.len() } else { t@.len() }),
                        out@.len() == k,
                        forall|x: int| 0 <= x < k ==> #[trigger] out@[x] == (batch@[x], t@[x]),
                    decreases n - k,
                {
                    out.push((batch[k].clone(), t[k].clone()));
                    k = k + 1;
                }
                assert(out@.len() == n);
            },
            None => {},
        }
        out
    }
}

/// The single translation in a server answer: refused unless it holds exactly one text.
pub fn translate_one_result(translated: Vec<String>) -> (r: Result<String, TranslateError>)
    ensures
        match r {
            Ok(s) => translated@.len() == 1 && s == translated@[0],
            Err(e) => translated@.len() != 1 && e == TranslateError::InvalidCount,
        },
{
    let mut t = translated;
    if t.len() != 1 {
        return Err(TranslateError::InvalidCount);
    }
    match t.pop() {
        Some(s) => Ok(s),
        None => Err(TranslateError::InvalidCount),
    }
}

/// A text is sent to the server at most once while its answer is awaited: after a request
/// for `original` (the translations known stay as they were), asking for it again sends
/// nothing.
pub proof fn law_request_sent_once(cache: Map<Seq<char>, Seq<char>>, pending: Set<Seq<char>>, original: Seq<char>)
    ensures !request_sent(cache, awaited_after(cache, pending, original), original),
{
}

} // verus!
