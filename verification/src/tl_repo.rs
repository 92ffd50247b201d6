//! Planning an update of the translation repository: which files to fetch, how much to
//! download and whether to take the repository's ZIP archive instead of single files;
//! choosing repositories; the excludes list; and the texts fetched from a repository.

use vstd::prelude::*;
use crate::hachimi::{locale_or_english, system_locale};
use crate::text::{push_char, lowercase, seq_contains, seq_starts_with, str_contains, str_equal, str_lowercase, str_starts_with};

verus! {

/// Files above which a GitHub-hosted update is fetched as a ZIP archive.
pub const INCREMENTAL_UPDATE_LIMIT_GITHUB: usize = 55;
/// Files above which a GitLab-hosted update is fetched as a ZIP archive.
pub const INCREMENTAL_UPDATE_LIMIT_GITLAB: usize = 250;

/// Game regions a translation repository can be made for.
#[derive(Clone, Copy, Debug, PartialEq, Eq, Structural)]
pub enum Region {
    Japan,
    Global,
    Taiwan,
}

/// A translation repository listed in the meta index.
pub struct RepoInfo {
    pub name: String,
    pub index: String,
    pub short_desc: Option<String>,
    pub language: Option<String>,
    pub region: Region,
}

/// Whether a repository with language tag `language` is recommended for the interface
/// language `current` on a system with locale `sys`: tags are compared lowercase, and the
/// repository matches when its tag equals or begins with the interface language, or when
/// its tag and the system locale begin one with the other.
pub open spec fn recommended(language: Option<Seq<char>>, current: Seq<char>, sys: Seq<char>) -> bool {
    match language {
        None => false,
        Some(tag) => {
            let t = str_lowercase(tag);
            let c = str_lowercase(current);
            let s = str_lowercase(sys);
            t == c || seq_starts_with(t, c) || seq_starts_with(t, s) || seq_starts_with(s, t)
        },
    }
}

impl RepoInfo {
    /// The repository's language tag, as text.
    pub open spec fn language_view(&self) -> Option<Seq<char>> {
        match self.language {
            Some(l) => Some(l@),
            None => None,
        }
    }

    /// Whether the repository suits the interface language `current_lang_str` on a system
    /// whose locale is `sys_locale`.
    pub fn is_recommended_for(&self, current_lang_str: &str, sys_locale: &str) -> (r: bool)
        ensures r == recommended(self.language_view(), current_lang_str@, sys_locale@),
    {
        let tag = match &self.language {
            Some(l) => l,
            None => return false,
        };
        let t = lowercase(tag.as_str());
        let c = lowercase(current_lang_str);
        if str_equal(t.as_str(), c.as_str()) || str_starts_with(t.as_str(), c.as_str()) {
            return true;
        }
        let s = lowercase(sys_locale);
        str_starts_with(t.as_str(), s.as_str()) || str_starts_with(s.as_str(), t.as_str())
    }

    /// Whether the repository suits the interface language `current_lang_str` on a system
    /// that names the locale `sys_locale` (counted as `en` when it names none).
    pub fn is_recommended_for_locale(&self, current_lang_str: &str, sys_locale: Option<&str>) -> (r: bool)
        ensures r == recommended(self.language_view(), current_lang_str@, locale_or_english(sys_locale)),
    {
        match sys_locale {
            Some(l) => self.is_recommended_for(current_lang_str, l),
            None => self.is_recommended_for(current_lang_str, "en"),
        }
    }

    /// Whether the repository suits the interface language `current_lang_str` on this
    /// system (whose locale counts as `en` when it names none).
    pub fn is_recommended(&self, current_lang_str: &str) -> (r: bool)
        ensures
            self.language is None ==> !r,
            exists|l: Option<&str>| r == recommended(self.language_view(), current_lang_str@, locale_or_english(l)),
    {
        let locale = system_locale();
        let l = match &locale {
            Some(s) => Some(s.as_str()),
            None => None,
        };
        self.is_recommended_for_locale(current_lang_str, l)
    }
}

/// How far a running update is, in bytes.
#[derive(Clone, Copy, Debug, PartialEq, Eq, Structural)]
pub struct UpdateProgress {
    pub current: usize,
    pub total: usize,
}

impl UpdateProgress {
    pub fn new(current: usize, total: usize) -> (r: UpdateProgress)
        ensures r.current == current, r.total == total,
    {
        UpdateProgress { current, total }
    }
}

impl Default for UpdateProgress {
    fn default() -> (r: Self)
        ensures r.current == 0, r.total == 0,
    {
        UpdateProgress { current: 0, total: 0 }
    }
}

/// Total shown while a ZIP archive downloads: the size the server announces when it is
/// positive, else the size the index gives.
pub fn zip_progress_total(content_length: Option<usize>, index_size: usize) -> (r: usize)
    ensures
        r == (match content_length {
            Some(size) => if size > 0 { size } else { index_size },
            None => index_size,
        }),
{
    match content_length {
        Some(size) => if size > 0 { size } else { index_size },
        None => index_size,
    }
}

/// Whether the URL points at GitHub.
pub open spec fn spec_github_hosted(url: Seq<char>) -> bool {
    seq_contains(url, "github.com"@) || seq_contains(url, "githubusercontent.com"@) || seq_contains(url, "github.io"@)
}

/// Whether the URL points at GitLab.
pub open spec fn spec_gitlab_hosted(url: Seq<char>) -> bool {
    seq_contains(url, "gitlab.com"@) || seq_contains(url, "gitlab.io"@)
}

/// Whether the repository is hosted on GitHub.
pub fn is_github_hosted(url: &str) -> (r: bool)
    ensures r == spec_github_hosted(url@),
{
    str_contains(url, "github.com") || str_contains(url, "githubusercontent.com") || str_contains(url, "github.io")
}

/// Whether the repository is hosted on GitLab.
pub fn is_gitlab_hosted(url: &str) -> (r: bool)
    ensures r == spec_gitlab_hosted(url@),
{
    str_contains(url, "gitlab.com") || str_contains(url, "gitlab.io")
}

/// Whether an update is fetched as the repository's ZIP archive: when it holds more files
/// than the host serves one by one (55 on GitHub, 250 on GitLab), or when the changed files
/// make up at least four fifths of the repository.
pub open spec fn spec_use_zip(file_count: nat, update_size: nat, total_size: nat, base_url: Seq<char>) -> bool {
    (spec_github_hosted(base_url) && file_count > INCREMENTAL_UPDATE_LIMIT_GITHUB)
    || (spec_gitlab_hosted(base_url) && file_count > INCREMENTAL_UPDATE_LIMIT_GITLAB)
    || !(5 * update_size < 4 * total_size)
}

/// Whether an update of `file_count` files, `update_size` bytes of `total_size`, from
/// `base_url`, is fetched as the ZIP archive.
pub fn should_use_zip_download(file_count: usize, update_size: usize, total_size: usize, base_url: &str) -> (r: bool)
    ensures r == spec_use_zip(file_count as nat, update_size as nat, total_size as nat, base_url@),
{
    if is_github_hosted(base_url) && file_count > INCREMENTAL_UPDATE_LIMIT_GITHUB {
        return true;
    }
    if is_gitlab_hosted(base_url) && file_count > INCREMENTAL_UPDATE_LIMIT_GITLAB {
        return true;
    }
    let u = update_size as u128;
    let t = total_size as u128;
    if 5 * u < 4 * t {
        return false;
    }
    true
}

/// A file listed in the repository index.
pub struct RepoFile {
    pub path: String,
    pub hash: String,
    pub size: usize,
}

/// What std's `Path::has_root` answers for a path, on this platform.
pub uninterp spec fn path_has_root(path: Seq<char>) -> bool;

/// Calls std's `Path::has_root`: whether the path begins at a root (on Windows, also a
/// drive or UNC prefix). The answer is named, not described.
#[verifier::external_body]
fn has_root(path: &str) -> (r: bool)
    ensures r == path_has_root(path@),
{
    std::path::Path::new(path).has_root()
}

/// Whether an index path could leave the translation directory: it holds `..` or begins
/// at a root. Such files are left out of an update.
pub open spec fn spec_path_unsafe(path: Seq<char>) -> bool {
    seq_contains(path, ".."@) || path_has_root(path)
}

/// Whether an index path must be left out of an update.
pub fn is_unsafe_path(path: &str) -> (r: bool)
    ensures r == spec_path_unsafe(path@),
{
    str_contains(path, "..") || has_root(path)
}

/// What to do with one file of the index.
#[derive(Clone, Copy, Debug, PartialEq, Eq, Structural)]
pub enum FileCheck {
    Download,
    Skip,
    /// Everything matches, but a thorough update checks the file's contents: download it
    /// when they do not match its hash.
    VerifyContents,
}

/// Whether a file of the index is fetched: every file of a new repository; not an
/// excluded file that exists (unless the update is thorough); a file missing from the
/// cache; with lazy updates, not a file whose cached hash matches (unless thorough); a
/// file whose local path is invalid or that does not exist; a file whose hash changed
/// or whose size differs; and, in a thorough update, a file whose contents do not match.
pub open spec fn spec_file_check(
    is_new_repo: bool,
    pedantic: bool,
    lazy: bool,
    exists: bool,
    excluded: bool,
    cached_hash: Option<Seq<char>>,
    index_hash: Seq<char>,
    path_valid: bool,
    size_matches: bool,
) -> FileCheck {
    if is_new_repo {
        FileCheck::Download
    } else if !pedantic && exists && excluded {
        FileCheck::Skip
    } else {
        match cached_hash {
            None => FileCheck::Download,
            Some(h) => if !pedantic && lazy && h == index_hash {
                FileCheck::Skip
            } else if !path_valid || !exists {
                FileCheck::Download
            } else if h != index_hash || !size_matches {
                FileCheck::Download
            } else if pedantic {
                FileCheck::VerifyContents
            } else {
                FileCheck::Skip
            },
        }
    }
}

/// What `blake3::hash` followed by `Hash::to_hex` gives for `bytes`: their BLAKE3 digest
/// written in hexadecimal.
pub uninterp spec fn blake3_hex(bytes: Seq<u8>) -> Seq<char>;

/// Calls `blake3::hash` on `bytes` and writes the digest with `Hash::to_hex`.
#[verifier::external_body]
fn blake3_hex_of(bytes: &[u8]) -> (r: String)
    ensures r@ == blake3_hex(bytes@),
{
    blake3::hash(bytes).to_hex().as_str().to_string()
}

/// Whether a file's contents match the hash the repository index gives for it, the check
/// of a thorough update.
pub fn verify_integrity(contents: &[u8], hash: &str) -> (r: bool)
    ensures r == (blake3_hex(contents@) == hash@),
{
    let digest = blake3_hex_of(contents);
    str_equal(digest.as_str(), hash)
}

/// Decides what to do with one file of the index, from what is known of it locally.
pub fn file_update_check(
    is_new_repo: bool,
    pedantic: bool,
    lazy: bool,
    exists: bool,
    excluded: bool,
    cached_hash: Option<&str>,
    index_hash: &str,
    path_valid: bool,
    size_matches: bool,
) -> (r: FileCheck)
    ensures
        r == spec_file_check(
            is_new_repo,
            pedantic,
            lazy,
            exists,
            excluded,
            match cached_hash { Some(h) => Some(h@), None => None },
            index_hash@,
            path_valid,
            size_matches,
        ),
{
    if is_new_repo {
        return FileCheck::Download;
    }
    if !pedantic && exists && excluded {
        return FileCheck::Skip;
    }
    let h = match cached_hash {
        Some(h) => h,
        None => return FileCheck::Download,
    };
    let same = str_equal(h, index_hash);
    if !pedantic && lazy && same {
        FileCheck::Skip
    } else if !path_valid || !exists {
        FileCheck::Download
    } else if !same || !size_matches {
        FileCheck::Download
    } else if pedantic {
        FileCheck::VerifyContents
    } else {
        FileCheck::Skip
    }
}

/// What an update check found.
pub struct UpdatePlan {
    /// Indices in the index of the files to fetch, in index order.
    pub files: Vec<usize>,
    pub update_size: usize,
    pub total_size: usize,
    pub modifies_atlas: bool,
    pub will_use_zip: bool,
    /// Bytes to download: the whole repository for a ZIP, else the changed files.
    pub size: usize,
}

/// Bytes of the first `i` files of the index that are not left out, and of those among
/// them that are fetched.
pub open spec fn plan_sizes(files: Seq<RepoFile>, updated: Seq<bool>, i: int) -> (nat, nat)
    decreases i,
{
    if i <= 0 {
        (0, 0)
    } else {
        let (t, u) = plan_sizes(files, updated, i - 1);
        let f = files[i - 1];
        if spec_path_unsafe(f.path@) {
            (t, u)
        } else if updated[i - 1] {
            (t + f.size as nat, u + f.size as nat)
        } else {
            (t + f.size as nat, u)
        }
    }
}

/// Whether file `k` of the index is fetched.
pub open spec fn plan_takes(files: Seq<RepoFile>, updated: Seq<bool>, k: int) -> bool {
    !spec_path_unsafe(files[k].path@) && updated[k]
}

/// Indices of the fetched files among the first `i`, in order.
pub open spec fn plan_indices(files: Seq<RepoFile>, updated: Seq<bool>, i: int) -> Seq<usize>
    decreases i,
{
    if i <= 0 {
        Seq::empty()
    } else if plan_takes(files, updated, i - 1) {
        plan_indices(files, updated, i - 1).push((i - 1) as usize)
    } else {
        plan_indices(files, updated, i - 1)
    }
}

/// Plans an update from the index `files`, where `updated[k]` says whether file `k` is to
/// be fetched (see `file_update_check`). Files whose path is unsafe are left out and not
/// counted. Answers `None` when nothing is to be fetched.
pub fn plan_update(files: &Vec<RepoFile>, updated: &Vec<bool>, base_url: &str) -> (r: Option<UpdatePlan>)
    requires
        updated@.len() == files@.len(),
        plan_sizes(files@, updated@, files@.len() as int).0 <= usize::MAX,
    ensures
        ({
            let (t, u) = plan_sizes(files@, updated@, files@.len() as int);
            let idx = plan_indices(files@, updated@, files@.len() as int);
            match r {
                None => idx.len() == 0,
                Some(p) => {
                    &&& idx.len() > 0
                    &&& p.files@ == idx
                    &&& p.total_size == t
                    &&& p.update_size == u
                    &&& p.modifies_atlas == (exists|j: int| 0 <= j < idx.len()
                        && seq_contains(#[trigger] files@[idx[j] as int].path@, "/atlas/"@))
                    &&& p.will_use_zip == spec_use_zip(idx.len(), u, t, base_url@)
                    &&& p.size == (if p.will_use_zip { t } else { u })
                },
            }
        }),
{
    let n = files.len();
    let mut indices: Vec<usize> = Vec::new();
    let mut total: usize = 0;
    let mut update: usize = 0;
    let mut atlas = false;
    let mut i: usize = 0;
    while i < n
        invariant
            n == files@.len(),
            updated@.len() == n,
            i <= n,
            plan_sizes(files@, updated@, n as int).0 <= usize::MAX,
            (total as nat, update as nat) == plan_sizes(files@, updated@, i as int),
            indices@ == plan_indices(files@, updated@, i as int),
            forall|k: int| 0 <= k < indices@.len() ==> #[trigger] indices@[k] < i,
            atlas == (exists|j: int| 0 <= j < indices@.len()
                && seq_contains(#[trigger] files@[indices@[j] as int].path@, "/atlas/"@)),
        decreases n - i,
    {
        proof {
            lemma_plan_sizes_monotone(files@, updated@, i + 1, n as int);
            lemma_plan_sizes_bound(files@, updated@, i + 1);
        }
        let f = &files[i];
        if !is_unsafe_path(f.path.as_str()) {
            total = total + f.size;
            if updated[i] {
                update = update + f.size;
                let ghost before = indices@;
                indices.push(i);
                let has_atlas = str_contains(f.path.as_str(), "/atlas/");
                proof {
                    assert(indices@.drop_last() == before);
                    if atlas {
                        let j = choose|j: int| 0 <= j < before.len()
                            && seq_contains(#[trigger] files@[before[j] as int].path@, "/atlas/"@);
                        assert(indices@[j] == before[j]);
                    }
                    if has_atlas {
                        assert(indices@[before.len() as int] == i);
                    }
                    if (exists|j: int| 0 <= j < indices@.len()
                        && seq_contains(#[trigger] files@[indices@[j] as int].path@, "/atlas/"@)) {
                        let j = choose|j: int| 0 <= j < indices@.len()
                            && seq_contains(#[trigger] files@[indices@[j] as int].path@, "/atlas/"@);
                        if j < before.len() {
                            assert(before[j] == indices@[j]);
                        }
                    }
                }
                atlas = atlas || has_atlas;
            }
        }
        i = i + 1;
    }
    if indices.len() == 0 {
        return None;
    }
    let will_use_zip = should_use_zip_download(indices.len(), update, total, base_url);
    let size = if will_use_zip { total } else { update };
    Some(UpdatePlan { files: indices, update_size: update, total_size: total, modifies_atlas: atlas, will_use_zip, size })
}

/// Why an update could not be planned.
#[derive(Clone, Copy, Debug, PartialEq, Eq, Structural)]
pub enum PlanError {
    /// The sizes of the files the update may take add up past `usize::MAX`.
    SizeOverflow,
}

/// Plans an update as `plan_update` does, after adding up the sizes of the files the update
/// may take; when that sum leaves `usize`, nothing is planned and the error says so.
pub fn plan_update_checked(files: &Vec<RepoFile>, updated: &Vec<bool>, base_url: &str) -> (r: Result<Option<UpdatePlan>, PlanError>)
    requires updated@.len() == files@.len(),
    ensures
        (r is Err) == (plan_sizes(files@, updated@, files@.len() as int).0 > usize::MAX),
        r is Ok ==> ({
            let (t, u) = plan_sizes(files@, updated@, files@.len() as int);
            let idx = plan_indices(files@, updated@, files@.len() as int);
            match r->Ok_0 {
                None => idx.len() == 0,
                Some(p) => {
                    &&& idx.len() > 0
                    &&& p.files@ == idx
                    &&& p.total_size == t
                    &&& p.update_size == u
                    &&& p.modifies_atlas == (exists|j: int| 0 <= j < idx.len()
                        && seq_contains(#[trigger] files@[idx[j] as int].path@, "/atlas/"@))
                    &&& p.will_use_zip == spec_use_zip(idx.len(), u, t, base_url@)
                    &&& p.size == (if p.will_use_zip { t } else { u })
                },
            }
        }),
{
    let n = files.len();
    let mut total: usize = 0;
    let mut i: usize = 0;
    while i < n
        invariant
            n == files@.len(),
            updated@.len() == n,
            i <= n,
            total as nat == plan_sizes(files@, updated@, i as int).0,
        decreases n - i,
    {
        let f = &files[i];
        if !is_unsafe_path(f.path.as_str()) {
            match total.checked_add(f.size) {
                Some(t) => total = t,
                None => {
                    proof {
                        lemma_plan_sizes_monotone(files@, updated@, i + 1, n as int);
                    }
                    return Err(PlanError::SizeOverflow);
                },
            }
        }
        i = i + 1;
    }
    Ok(plan_update(files, updated, base_url))
}

proof fn lemma_plan_sizes_bound(files: Seq<RepoFile>, updated: Seq<bool>, i: int)
    ensures plan_sizes(files, updated, i).1 <= plan_sizes(files, updated, i).0,
    decreases i,
{
    if i > 0 {
        lemma_plan_sizes_bound(files, updated, i - 1);
    }
}

proof fn lemma_plan_sizes_monotone(files: Seq<RepoFile>, updated: Seq<bool>, i: int, j: int)
    requires i <= j,
    ensures plan_sizes(files, updated, i).0 <= plan_sizes(files, updated, j).0,
    decreases j - i,
{
    if i < j {
        lemma_plan_sizes_monotone(files, updated, i, j - 1);
    }
}

/// Whether the atlas workaround setting is turned off after an update: when it is on and
/// the update touched atlases or replaced the whole repository.
pub fn resets_atlas_workaround(apply_atlas_workaround: bool, plan: &UpdatePlan) -> (r: bool)
    ensures r == (apply_atlas_workaround && (plan.modifies_atlas || plan.will_use_zip)),
{
    apply_atlas_workaround && (plan.modifies_atlas || plan.will_use_zip)
}

/// Whether `c` is white space by Unicode's White_Space property, the characters std's
/// `str::trim` strips: U+0009 to U+000D, U+0020, U+0085, U+00A0, U+1680, U+2000 to U+200A,
/// U+2028, U+2029, U+202F, U+205F and U+3000.
pub open spec fn is_white_space(c: char) -> bool {
    let u = c as u32;
    (0x9 <= u && u <= 0xD) || u == 0x20 || u == 0x85 || u == 0xA0 || u == 0x1680
        || (0x2000 <= u && u <= 0x200A) || u == 0x2028 || u == 0x2029 || u == 0x202F
        || u == 0x205F || u == 0x3000
}

/// `s` without the white space it begins with.
pub open spec fn trim_start_seq(s: Seq<char>) -> Seq<char>
    decreases s.len(),
{
    if s.len() > 0 && is_white_space(s[0]) { trim_start_seq(s.drop_first()) } else { s }
}

/// `s` without the white space it ends with.
pub open spec fn trim_end_seq(s: Seq<char>) -> Seq<char>
    decreases s.len(),
{
    if s.len() > 0 && is_white_space(s.last()) { trim_end_seq(s.drop_last()) } else { s }
}

/// `s` without leading and trailing white space, as std's `str::trim` gives it.
pub open spec fn str_trim(s: Seq<char>) -> Seq<char> {
    trim_end_seq(trim_start_seq(s))
}

fn white_space(c: char) -> (r: bool)
    ensures r == is_white_space(c),
{
    let u = c as u32;
    (0x9 <= u && u <= 0xD) || u == 0x20 || u == 0x85 || u == 0xA0 || u == 0x1680
        || (0x2000 <= u && u <= 0x200A) || u == 0x2028 || u == 0x2029 || u == 0x202F
        || u == 0x205F || u == 0x3000
}

/// `s` without leading and trailing white space.
pub(crate) fn trim(s: &str) -> (r: String)
    ensures r@ == str_trim(s@),
{
    let cs = crate::text::chars_of(s);
    let n = cs.len();
    let mut i: usize = 0;
    proof {
        assert(cs@.subrange(0, n as int) =~= cs@);
    }
    while i < n && white_space(cs[i])
        invariant
            n == cs@.len(),
            i <= n,
            trim_start_seq(cs@.subrange(i as int, n as int)) == trim_start_seq(cs@),
        decreases n - i,
    {
        proof {
            assert(cs@.subrange(i as int, n as int).drop_first() =~= cs@.subrange(i + 1, n as int));
        }
        i = i + 1;
    }
    let mut j: usize = n;
    while j > i && white_space(cs[j - 1])
        invariant
            n == cs@.len(),
            i <= j <= n,
            trim_end_seq(cs@.subrange(i as int, j as int)) == trim_end_seq(cs@.subrange(i as int, n as int)),
        decreases j,
    {
        proof {
            assert(cs@.subrange(i as int, j as int).drop_last() =~= cs@.subrange(i as int, j - 1));
        }
        j = j - 1;
    }
    let mut out = String::new();
    let mut k: usize = i;
    while k < j
        invariant
            n == cs@.len(),
            i <= k <= j <= n,
            out@ == cs@.subrange(i as int, k as int),
        decreases j - k,
    {
        push_char(&mut out, cs[k]);
        proof {
            assert(cs@.subrange(i as int, k + 1) =~= cs@.subrange(i as int, k as int).push(cs@[k as int]));
        }
        k = k + 1;
    }
    proof {
        assert(s@ == cs@);
    }
    out
}

/// `s` with every backslash turned into a forward slash.
pub open spec fn forward_slashes(s: Seq<char>) -> Seq<char> {
    s.map_values(|c: char| if c == '\\' { '/' } else { c })
}

/// A line of the excludes file as a repository path: trimmed, with forward slashes; `None`
/// for a blank line.
pub fn normalize_exclude_line(line: &str) -> (r: Option<String>)
    ensures
        match r {
            Some(p) => str_trim(line@).len() > 0 && p@ == forward_slashes(str_trim(line@)),
            None => str_trim(line@).len() == 0,
        },
{
    let t = trim(line);
    let chars = crate::text::chars_of(t.as_str());
    if chars.len() == 0 {
        return None;
    }
    let mut out = String::new();
    let mut i: usize = 0;
    while i < chars.len()
        invariant
            chars@ == t@,
            i <= chars@.len(),
            out@ == forward_slashes(chars@.take(i as int)),
        decreases chars.len() - i,
    {
        let c = chars[i];
        let d = if c == '\\' { '/' } else { c };
        push_char(&mut out, d);
        proof {
            assert(forward_slashes(chars@.take(i + 1)) == forward_slashes(chars@.take(i as int)).push(d));
        }
        i = i + 1;
    }
    proof {
        assert(chars@.take(chars@.len() as int) == chars@);
    }
    Some(out)
}

/// `s` without the slashes at its end.
pub open spec fn trim_trailing_slashes(s: Seq<char>) -> Seq<char>
    decreases s.len(),
{
    if s.len() > 0 && s.last() == '/' {
        trim_trailing_slashes(s.drop_last())
    } else {
        s
    }
}

/// Whether the translation path `p` is excluded: an exclude names it as it is, or without
/// the slashes that end a folder's path.
pub open spec fn is_excluded(p: Seq<char>, excludes: Seq<Seq<char>>) -> bool {
    exists|k: int| 0 <= k < excludes.len() && (excludes[k] == p || excludes[k] == trim_trailing_slashes(p))
}

/// The first `n` paths that no exclude names, each with its index, in list order.
pub open spec fn kept_paths(paths: Seq<Seq<char>>, excludes: Seq<Seq<char>>, n: int) -> Seq<(usize, Seq<char>)>
    decreases n,
{
    if n <= 0 {
        Seq::empty()
    } else if is_excluded(paths[n - 1], excludes) {
        kept_paths(paths, excludes, n - 1)
    } else {
        kept_paths(paths, excludes, n - 1).push(((n - 1) as usize, paths[n - 1]))
    }
}

/// The texts of a list, each by its characters.
pub open spec fn texts(v: Seq<String>) -> Seq<Seq<char>> {
    v.map_values(|t: String| t@)
}

/// Whether the first `n` characters of `a` are exactly `b`.
fn prefix_is(a: &Vec<char>, n: usize, b: &Vec<char>) -> (r: bool)
    requires n <= a@.len(),
    ensures r == (a@.take(n as int) == b@),
{
    if n != b.len() {
        return false;
    }
    let mut i: usize = 0;
    while i < n
        invariant
            n <= a@.len(),
            n == b@.len(),
            i <= n,
            forall|k: int| 0 <= k < i ==> a@[k] == b@[k],
        decreases n - i,
    {
        if a[i] != b[i] {
            proof {
                assert(a@.take(n as int)[i as int] != b@[i as int]);
            }
            return false;
        }
        i = i + 1;
    }
    proof {
        assert(a@.take(n as int) =~= b@);
    }
    true
}

/// The length of `s` without the slashes at its end.
pub(crate) fn trimmed_len(s: &Vec<char>) -> (j: usize)
    ensures
        j <= s@.len(),
        s@.take(j as int) == trim_trailing_slashes(s@),
{
    let mut j: usize = s.len();
    proof {
        assert(s@.take(j as int) =~= s@);
    }
    while j > 0 && s[j - 1] == '/'
        invariant
            j <= s@.len(),
            trim_trailing_slashes(s@.take(j as int)) == trim_trailing_slashes(s@),
        decreases j,
    {
        proof {
            assert(s@.take(j as int).drop_last() =~= s@.take(j - 1));
        }
        j = j - 1;
    }
    j
}

/// The paths of the excludes editor's list that no exclude names, each with its index in
/// `available`, in list order.
pub fn non_excluded_paths(available: &Vec<String>, excludes: &Vec<String>) -> (r: Vec<(usize, String)>)
    ensures
        r@.map_values(|e: (usize, String)| (e.0, e.1@)) == kept_paths(texts(available@), texts(excludes@), available@.len() as int),
{
    let mut ex: Vec<Vec<char>> = Vec::new();
    let mut k: usize = 0;
    while k < excludes.len()
        invariant
            k <= excludes@.len(),
            ex@.len() == k,
            forall|x: int| 0 <= x < k ==> (#[trigger] ex@[x])@ == excludes@[x]@,
        decreases excludes.len() - k,
    {
        ex.push(crate::text::chars_of(excludes[k].as_str()));
        k = k + 1;
    }
    let ghost paths = texts(available@);
    let ghost exs = texts(excludes@);
    let mut out: Vec<(usize, String)> = Vec::new();
    let mut i: usize = 0;
    while i < available.len()
        invariant
            i <= available@.len(),
            paths == texts(available@),
            exs == texts(excludes@),
            ex@.len() == excludes@.len(),
            forall|x: int| 0 <= x < ex@.len() ==> (#[trigger] ex@[x])@ == excludes@[x]@,
            out@.map_values(|e: (usize, String)| (e.0, e.1@)) == kept_paths(paths, exs, i as int),
        decreases available.len() - i,
    {
        let p = crate::text::chars_of(available[i].as_str());
        let j = trimmed_len(&p);
        let mut hit = false;
        let mut m: usize = 0;
        while m < ex.len()
            invariant
                m <= ex@.len(),
                j <= p@.len(),
                p@ == paths[i as int],
                p@.take(j as int) == trim_trailing_slashes(p@),
                ex@.len() == excludes@.len(),
                exs == texts(excludes@),
                forall|x: int| 0 <= x < ex@.len() ==> (#[trigger] ex@[x])@ == excludes@[x]@,
                hit == exists|x: int| 0 <= x < m && (exs[x] == p@ || exs[x] == trim_trailing_slashes(p@)),
            decreases ex.len() - m,
        {
            let whole = prefix_is(&p, p.len(), &ex[m]);
            let cut = prefix_is(&p, j, &ex[m]);
            proof {
                assert(p@.take(p@.len() as int) =~= p@);
                assert(exs[m as int] == ex@[m as int]@);
            }
            if whole || cut {
                hit = true;
            }
            m = m + 1;
        }
        let ghost before = out@;
        if !hit {
            out.push((i, available[i].clone()));
            proof {
                assert(out@.map_values(|e: (usize, String)| (e.0, e.1@))
                    =~= before.map_values(|e: (usize, String)| (e.0, e.1@)).push((i, paths[i as int])));
            }
        }
        i = i + 1;
    }
    proof {
        assert(available@.len() == paths.len());
    }
    out
}

/// Whether `c` is a control character: of the Unicode general category Cc, which holds
/// exactly the code points U+0000 to U+001F and U+007F to U+009F.
pub open spec fn is_control_char(c: char) -> bool {
    (c as u32) <= 0x1F || (0x7F <= (c as u32) && (c as u32) <= 0x9F)
}

/// Whether `c` is a control character, as std's `char::is_control` tells it.
fn is_control(c: char) -> (r: bool)
    ensures r == is_control_char(c),
{
    let u = c as u32;
    u <= 0x1F || (0x7F <= u && u <= 0x9F)
}

/// Whether plain text shown from a repository keeps the character `c`: all but control
/// characters, of which line breaks and tabs stay.
pub open spec fn keeps_char(c: char) -> bool {
    !is_control_char(c) || c == '\n' || c == '\t' || c == '\r'
}

/// `s` with the characters that plain text does not keep left out.
pub open spec fn sanitized(s: Seq<char>) -> Seq<char>
    decreases s.len(),
{
    if s.len() == 0 {
        Seq::empty()
    } else if keeps_char(s.last()) {
        sanitized(s.drop_last()).push(s.last())
    } else {
        sanitized(s.drop_last())
    }
}

/// Plain text fetched from a repository, without the control characters it may hold
/// (line breaks and tabs stay).
pub fn sanitize_plain_text(text: &str) -> (r: String)
    ensures r@ == sanitized(text@),
{
    let chars = crate::text::chars_of(text);
    let mut out = String::new();
    let mut i: usize = 0;
    while i < chars.len()
        invariant
            chars@ == text@,
            i <= chars@.len(),
            out@ == sanitized(chars@.take(i as int)),
        decreases chars.len() - i,
    {
        let c = chars[i];
        proof {
            assert(chars@.take(i + 1).drop_last() == chars@.take(i as int));
        }
        if is_control(c) == false || c == '\n' || c == '\t' || c == '\r' {
            push_char(&mut out, c);
        }
        i = i + 1;
    }
    proof {
        assert(chars@.take(chars@.len() as int) == chars@);
    }
    out
}

proof fn lemma_sanitized_kept(s: Seq<char>)
    ensures forall|k: int| 0 <= k < sanitized(s).len() ==> keeps_char(#[trigger] sanitized(s)[k]),
    decreases s.len(),
{
    if s.len() > 0 {
        lemma_sanitized_kept(s.drop_last());
        let p = sanitized(s.drop_last());
        if keeps_char(s.last()) {
            assert forall|k: int| 0 <= k < p.push(s.last()).len() implies keeps_char(#[trigger] p.push(s.last())[k]) by {
                if k < p.len() {
                    assert(p.push(s.last())[k] == p[k]);
                }
            }
        }
    }
}

proof fn lemma_sanitized_unchanged(s: Seq<char>)
    requires forall|k: int| 0 <= k < s.len() ==> keeps_char(#[trigger] s[k]),
    ensures sanitized(s) == s,
    decreases s.len(),
{
    if s.len() > 0 {
        assert(keeps_char(s[s.len() - 1]));
        lemma_sanitized_unchanged(s.drop_last());
        assert(s.drop_last().push(s.last()) =~= s);
    }
}

/// Sanitizing plain text twice gives what sanitizing once gives.
pub proof fn law_sanitize_idempotent(s: Seq<char>)
    ensures sanitized(sanitized(s)) == sanitized(s),
{
    lemma_sanitized_kept(s);
    lemma_sanitized_unchanged(sanitized(s));
}

/// A fetched changelog as the update dialog shows it: refused when it holds a NUL
/// character; markdown as it is; plain text sanitized.
pub open spec fn changelog_text(s: Seq<char>, is_markdown: bool) -> Option<Seq<char>> {
    if s.contains('\0') {
        None
    } else if is_markdown {
        Some(s)
    } else {
        Some(sanitized(s))
    }
}

/// The changelog text the update dialog shows for a fetched changelog; `None` when the
/// text holds a NUL character and is refused.
pub fn prepare_changelog(text: &str, is_markdown: bool) -> (r: Option<String>)
    ensures
        match r {
            Some(t) => changelog_text(text@, is_markdown) == Some(t@),
            None => changelog_text(text@, is_markdown) is None,
        },
{
    let chars = crate::text::chars_of(text);
    let mut i: usize = 0;
    while i < chars.len()
        invariant
            chars@ == text@,
            i <= chars@.len(),
            forall|k: int| 0 <= k < i ==> chars@[k] != '\0',
        decreases chars.len() - i,
    {
        if chars[i] == '\0' {
            proof {
                assert(text@[i as int] == '\0');
            }
            return None;
        }
        i = i + 1;
    }
    if is_markdown {
        Some(text.to_string())
    } else {
        Some(sanitize_plain_text(text))
    }
}

/// The lines of `s`: the pieces between its line feeds, the last one included (empty when
/// `s` ends with a line feed).
pub open spec fn split_lines(s: Seq<char>) -> Seq<Seq<char>>
    decreases s.len(),
{
    if s.len() == 0 {
        seq![Seq::empty()]
    } else {
        let p = split_lines(s.drop_last());
        if s.last() == '\n' {
            p.push(Seq::empty())
        } else {
            p.update(p.len() - 1, p.last().push(s.last()))
        }
    }
}

/// The trimmed lines that are not empty.
pub open spec fn names_of(lines: Seq<Seq<char>>) -> Seq<Seq<char>>
    decreases lines.len(),
{
    if lines.len() == 0 {
        Seq::empty()
    } else if str_trim(lines.last()).len() > 0 {
        names_of(lines.drop_last()).push(str_trim(lines.last()))
    } else {
        names_of(lines.drop_last())
    }
}

/// The names joined with a comma and a space.
pub open spec fn joined(names: Seq<Seq<char>>) -> Seq<char>
    decreases names.len(),
{
    if names.len() == 0 {
        Seq::empty()
    } else if names.len() == 1 {
        names[0]
    } else {
        joined(names.drop_last()) + ", "@ + names.last()
    }
}

proof fn lemma_split_lines_len(s: Seq<char>)
    ensures split_lines(s).len() >= 1,
    decreases s.len(),
{
    if s.len() > 0 {
        lemma_split_lines_len(s.drop_last());
    }
}

/// Appends `name`, after a comma and a space when `sep` holds.
fn push_name(out: &mut String, name: &str, sep: bool)
    ensures final(out)@ == (if sep { old(out)@ + ", "@ + name@ } else { old(out)@ + name@ }),
{
    proof {
        reveal_strlit(", ");
    }
    let cs = crate::text::chars_of(name);
    if sep {
        push_char(out, ',');
        push_char(out, ' ');
    }
    let ghost start = out@;
    proof {
        assert(sep ==> start == old(out)@ + ", "@);
    }
    let mut i: usize = 0;
    while i < cs.len()
        invariant
            cs@ == name@,
            i <= cs@.len(),
            out@ == start + cs@.take(i as int),
        decreases cs.len() - i,
    {
        push_char(out, cs[i]);
        proof {
            assert(cs@.take(i + 1) == cs@.take(i as int).push(cs@[i as int]));
            assert(start + cs@.take(i + 1) == (start + cs@.take(i as int)).push(cs@[i as int]));
        }
        i = i + 1;
    }
    proof {
        assert(cs@.take(cs@.len() as int) == cs@);
    }
}

/// Appends the trimmed `line` to the names joined so far, when it is not empty.
fn finish_line(out: &mut String, any: &mut bool, line: &str, Ghost(done): Ghost<Seq<Seq<char>>>)
    requires
        old(out)@ == joined(names_of(done)),
        *old(any) == (names_of(done).len() > 0),
    ensures
        final(out)@ == joined(names_of(done.push(line@))),
        *final(any) == (names_of(done.push(line@)).len() > 0),
{
    let t = trim(line);
    let cs = crate::text::chars_of(t.as_str());
    proof {
        assert(done.push(line@).drop_last() == done);
    }
    if cs.len() > 0 {
        let ghost names = names_of(done);
        push_name(out, t.as_str(), *any);
        proof {
            let n2 = names.push(str_trim(line@));
            assert(n2.drop_last() == names);
            if names.len() == 0 {
                assert(out@ =~= str_trim(line@));
            }
        }
        *any = true;
    }
}

/// The contributors listed one per line in a fetched text, sanitized, trimmed, without
/// blank lines, joined with a comma and a space.
pub fn contributor_names(text: &str) -> (r: String)
    ensures r@ == joined(names_of(split_lines(sanitized(text@)))),
{
    let clean = sanitize_plain_text(text);
    let chars = crate::text::chars_of(clean.as_str());
    let mut out = String::new();
    let mut any = false;
    let mut cur = String::new();
    let ghost mut done: Seq<Seq<char>> = Seq::empty();
    proof {
        assert(chars@.take(0) == Seq::<char>::empty());
        assert(split_lines(Seq::<char>::empty()) == seq![Seq::<char>::empty()]);
        assert(done.push(cur@) =~= seq![Seq::<char>::empty()]);
    }
    let mut i: usize = 0;
    while i < chars.len()
        invariant
            chars@ == sanitized(text@),
            i <= chars@.len(),
            split_lines(chars@.take(i as int)) == done.push(cur@),
            out@ == joined(names_of(done)),
            any == (names_of(done).len() > 0),
        decreases chars.len() - i,
    {
        let c = chars[i];
        proof {
            assert(chars@.take(i + 1).drop_last() == chars@.take(i as int));
            lemma_split_lines_len(chars@.take(i as int));
        }
        if c == '\n' {
            finish_line(&mut out, &mut any, cur.as_str(), Ghost(done));
            proof {
                done = done.push(cur@);
            }
            cur = String::new();
            proof {
                assert(split_lines(chars@.take(i + 1)) =~= done.push(cur@));
            }
        } else {
            push_char(&mut cur, c);
            proof {
                assert(split_lines(chars@.take(i + 1)) =~= done.push(cur@));
            }
        }
        i = i + 1;
    }
    finish_line(&mut out, &mut any, cur.as_str(), Ghost(done));
    proof {
        assert(chars@.take(chars@.len() as int) == chars@);
    }
    out
}

/// The per-file decision of an update, by what is known of the file:
/// - every file of a new repository is downloaded;
/// - unless the excluded-file rule applies (an excluded file that exists, in an update that
///   is not thorough), a file whose cached hash is missing or differs from the index hash is
///   downloaded, lazy or not;
/// - a file is skipped only outside thorough updates, and only when it is excluded and
///   exists, or its cached hash equals the index hash;
/// - its contents are checked only in a thorough update of a file that exists at a valid
///   path, with the index hash cached and the right size, and such a file always is.
pub proof fn law_file_check_decisions(
    is_new_repo: bool,
    pedantic: bool,
    lazy: bool,
    exists: bool,
    excluded: bool,
    cached_hash: Option<Seq<char>>,
    index_hash: Seq<char>,
    path_valid: bool,
    size_matches: bool,
)
    ensures ({
        let r = spec_file_check(is_new_repo, pedantic, lazy, exists, excluded, cached_hash, index_hash, path_valid, size_matches);
        &&& is_new_repo ==> r == FileCheck::Download
        &&& !(!pedantic && exists && excluded) && cached_hash != Some(index_hash) ==> r == FileCheck::Download
        &&& r == FileCheck::Skip ==> !is_new_repo && !pedantic
            && ((exists && excluded) || cached_hash == Some(index_hash))
        &&& r == FileCheck::VerifyContents ==> !is_new_repo && pedantic && exists && path_valid
            && size_matches && cached_hash == Some(index_hash)
        &&& !is_new_repo && pedantic && exists && path_valid && size_matches && cached_hash == Some(index_hash)
            ==> r == FileCheck::VerifyContents
        &&& !is_new_repo && !(!pedantic && exists && excluded) && (!path_valid || !exists)
            && !(!pedantic && lazy && cached_hash == Some(index_hash)) ==> r == FileCheck::Download
    }),
{
}

/// An update never fetches more bytes of changed files than the repository holds.
pub proof fn law_update_within_total(files: Seq<RepoFile>, updated: Seq<bool>)
    ensures plan_sizes(files, updated, files.len() as int).1 <= plan_sizes(files, updated, files.len() as int).0,
{
    lemma_plan_sizes_bound(files, updated, files.len() as int);
}

/// Indices among the first `n` repositories of those made for `region` whose
/// recommendation flag is `rec`, in list order.
pub open spec fn listed_repos(regions: Seq<Region>, rec_flags: Seq<bool>, region: Region, rec: bool, n: int) -> Seq<usize>
    decreases n,
{
    if n <= 0 {
        Seq::empty()
    } else if regions[n - 1] == region && rec_flags[n - 1] == rec {
        listed_repos(regions, rec_flags, region, rec, n - 1).push((n - 1) as usize)
    } else {
        listed_repos(regions, rec_flags, region, rec, n - 1)
    }
}

/// The order in which the repository picker lists repositories: only those made for
/// `region`, the recommended ones first, each group in list order. `recommended[i]` tells
/// whether repository `i` is recommended.
pub fn repo_list_order(regions: &Vec<Region>, recommended: &Vec<bool>, region: Region) -> (r: Vec<usize>)
    requires regions@.len() == recommended@.len(),
    ensures
        r@ == listed_repos(regions@, recommended@, region, true, regions@.len() as int)
            + listed_repos(regions@, recommended@, region, false, regions@.len() as int),
{
    let n = regions.len();
    let mut first: Vec<usize> = Vec::new();
    let mut second: Vec<usize> = Vec::new();
    let mut i: usize = 0;
    while i < n
        invariant
            n == regions@.len(),
            recommended@.len() == n,
            i <= n,
            first@ == listed_repos(regions@, recommended@, region, true, i as int),
            second@ == listed_repos(regions@, recommended@, region, false, i as int),
        decreases n - i,
    {
        if regions[i] == region {
            if recommended[i] {
                first.push(i);
            } else {
                second.push(i);
            }
        }
        i = i + 1;
    }
    let mut k: usize = 0;
    let ghost f = first@;
    while k < second.len()
        invariant
            k <= second@.len(),
            first@ == f + second@.take(k as int),
        decreases second.len() - k,
    {
        first.push(second[k]);
        proof {
            assert(second@.take(k + 1) == second@.take(k as int).push(second@[k as int]));
        }
        k = k + 1;
    }
    proof {
        assert(second@.take(second@.len() as int) == second@);
    }
    first
}

/// The repository the picker selects by itself the first time it shows the list, when
/// nothing is selected yet: the first recommended one for `region`, if any.
pub fn auto_selected_repo(regions: &Vec<Region>, recommended: &Vec<bool>, region: Region) -> (r: Option<usize>)
    requires regions@.len() == recommended@.len(),
    ensures
        match r {
            Some(i) => listed_repos(regions@, recommended@, region, true, regions@.len() as int).len() > 0
                && i == listed_repos(regions@, recommended@, region, true, regions@.len() as int)[0],
            None => listed_repos(regions@, recommended@, region, true, regions@.len() as int).len() == 0,
        },
{
    let order = repo_list_order(regions, recommended, region);
    proof {
        assert(regions@.len() == regions.len());
    }
    let ghost a = listed_repos(regions@, recommended@, region, true, regions@.len() as int);
    let ghost b = listed_repos(regions@, recommended@, region, false, regions@.len() as int);
    if order.len() == 0 {
        return None;
    }
    let i = order[0];
    if i < regions.len() && regions[i] == region && recommended[i] {
        proof {
            lemma_listed_repos_members(regions@, recommended@, region, false, regions@.len() as int);
            if a.len() == 0 {
                assert(order@[0] == b[0]);
                assert(recommended@[b[0] as int] == false);
            }
        }
        Some(i)
    } else {
        proof {
            lemma_listed_repos_members(regions@, recommended@, region, true, regions@.len() as int);
            if a.len() > 0 {
                assert(order@[0] == a[0]);
            }
        }
        None
    }
}

proof fn lemma_listed_repos_members(regions: Seq<Region>, rec_flags: Seq<bool>, region: Region, rec: bool, n: int)
    requires 0 <= n <= regions.len(), n <= rec_flags.len(), n <= usize::MAX,
    ensures
        forall|k: int| 0 <= k < listed_repos(regions, rec_flags, region, rec, n).len() ==> {
            let i = #[trigger] listed_repos(regions, rec_flags, region, rec, n)[k];
            &&& i < n
            &&& regions[i as int] == region
            &&& rec_flags[i as int] == rec
        },
    decreases n,
{
    if n > 0 {
        lemma_listed_repos_members(regions, rec_flags, region, rec, n - 1);
        let prev = listed_repos(regions, rec_flags, region, rec, n - 1);
        let cur = listed_repos(regions, rec_flags, region, rec, n);
        assert forall|k: int| 0 <= k < cur.len() implies {
            let i = #[trigger] cur[k];
            &&& i < n
            &&& regions[i as int] == region
            &&& rec_flags[i as int] == rec
        } by {
            if regions[n - 1] == region && rec_flags[n - 1] == rec {
                assert(cur == prev.push((n - 1) as usize));
            } else {
                assert(cur == prev);
            }
            if k < prev.len() {
                let j = prev[k];
                assert(j < n - 1 && regions[j as int] == region && rec_flags[j as int] == rec);
                assert(cur[k] == prev[k]);
            }
        }
    }
}

/// How the picker labels a repository: a star before the name of the recommended one that
/// is selected, then the "already downloaded" note when one is given.
pub fn repo_label(name: &str, starred: bool, downloaded_note: Option<&str>) -> (r: String)
    ensures
        r@ == (if starred { "★ "@ + name@ } else { name@ }) + (match downloaded_note {
            Some(note) => seq![' '] + note@,
            None => Seq::empty(),
        }),
{
    let mut out = if starred { String::from_str("★ ") } else { String::new() };
    out.append(name);
    match downloaded_note {
        Some(note) => {
            push_char(&mut out, ' ');
            out.append(note);
        },
        None => {},
    }
    proof {
        if !starred {
            assert(Seq::<char>::empty() + name@ == name@);
        }
    }
    out
}

} // verus!
