//! Settings types: interface languages, per-platform options and asset metadata, and the
//! schedule of the background translation updater.

use vstd::prelude::*;
use crate::text::{lowercase, occurs_at, seq_contains, seq_starts_with, str_contains, str_lowercase, str_starts_with};

verus! {

/// How the translation repository is checked for updates in the background.
#[derive(Clone, Copy, Debug, PartialEq, Eq, Structural)]
pub enum TLAutoUpdaterMode {
    Disabled,
    Periodic,
    Silent,
}

impl Default for TLAutoUpdaterMode {
    fn default() -> (r: Self)
        ensures r == TLAutoUpdaterMode::Disabled,
    {
        TLAutoUpdaterMode::Disabled
    }
}

/// A setting that is given for the platform the program runs on, or not at all.
pub struct OsOption<T> {
    pub value: Option<T>,
}

impl<T> OsOption<T> {
    /// The setting for this platform, if one is given.
    pub fn as_ref(&self) -> (r: Option<&T>)
        ensures
            match self.value {
                Some(v) => r == Some(&v),
                None => r is None,
            },
    {
        match &self.value {
            Some(v) => Some(v),
            None => None,
        }
    }
}

/// Metadata of an asset on this platform.
pub struct AssetMetadata {
    pub bundle_name: Option<String>,
}

impl Default for AssetMetadata {
    fn default() -> (r: Self)
        ensures r.bundle_name is None,
    {
        AssetMetadata { bundle_name: None }
    }
}

/// An asset description: the metadata for this platform and the asset's own data.
pub struct AssetInfo<T> {
    pub platform_metadata: AssetMetadata,
    pub data: Option<T>,
}

impl<T> Default for AssetInfo<T> {
    fn default() -> (r: Self)
        ensures r.platform_metadata.bundle_name is None, r.data is None,
    {
        AssetInfo { platform_metadata: AssetMetadata::default(), data: None }
    }
}

impl<T> AssetInfo<T> {
    /// The metadata for this platform, taken out of the description.
    pub fn metadata(self) -> (r: AssetMetadata)
        ensures r == self.platform_metadata,
    {
        self.platform_metadata
    }

    /// The metadata for this platform.
    pub fn metadata_ref(&self) -> (r: &AssetMetadata)
        ensures *r == self.platform_metadata,
    {
        &self.platform_metadata
    }
}

/// Penalties that a translation gives the optimal-fit line wrapper.
#[derive(Clone, Copy, Debug, PartialEq, Eq, Structural)]
pub struct PenaltiesConfig {
    pub nline_penalty: usize,
    pub overflow_penalty: usize,
    pub short_last_line_fraction: usize,
    pub short_last_line_penalty: usize,
    pub hyphen_penalty: usize,
}

/// Interface languages.
#[derive(Clone, Copy, Debug, PartialEq, Eq, Structural)]
pub enum Language {
    English,
    TChinese,
    SChinese,
    Vietnamese,
    Indonesian,
    Spanish,
    BPortuguese,
    Filipino,
}

impl Language {
    /// Locale tag of the language.
    pub open spec fn spec_locale_str(self) -> Seq<char> {
        match self {
            Language::English => "en"@,
            Language::TChinese => "zh-tw"@,
            Language::SChinese => "zh-cn"@,
            Language::Vietnamese => "vi"@,
            Language::Indonesian => "id"@,
            Language::Spanish => "es"@,
            Language::BPortuguese => "pt-br"@,
            Language::Filipino => "fil"@,
        }
    }

    /// Name of the language in that language.
    pub open spec fn spec_name(self) -> Seq<char> {
        match self {
            Language::English => "English"@,
            Language::TChinese => "繁體中文"@,
            Language::SChinese => "简体中文"@,
            Language::Vietnamese => "Tiếng Việt"@,
            Language::Indonesian => "Bahasa Indonesia"@,
            Language::Spanish => "Español (ES)"@,
            Language::BPortuguese => "Português (Brasil)"@,
            Language::Filipino => "Filipino"@,
        }
    }

    /// Locale tag of the language, as the translation files name it.
    pub fn locale_str(&self) -> (r: &'static str)
        ensures r@ == self.spec_locale_str(),
    {
        match self {
            Language::English => "en",
            Language::TChinese => "zh-tw",
            Language::SChinese => "zh-cn",
            Language::Vietnamese => "vi",
            Language::Indonesian => "id",
            Language::Spanish => "es",
            Language::BPortuguese => "pt-br",
            Language::Filipino => "fil",
        }
    }

    /// Name of the language in that language, as the language picker shows it.
    pub fn name(&self) -> (r: &'static str)
        ensures r@ == self.spec_name(),
    {
        match self {
            Language::English => "English",
            Language::TChinese => "繁體中文",
            Language::SChinese => "简体中文",
            Language::Vietnamese => "Tiếng Việt",
            Language::Indonesian => "Bahasa Indonesia",
            Language::Spanish => "Español (ES)",
            Language::BPortuguese => "Português (Brasil)",
            Language::Filipino => "Filipino",
        }
    }

    /// The language with its displayed name.
    pub fn choice(self) -> (r: (Language, &'static str))
        ensures r.0 == self, r.1@ == self.spec_name(),
    {
        (self, self.name())
    }

    /// Every language with its displayed name, in the order the picker lists them.
    pub fn choices() -> (r: Vec<(Language, &'static str)>)
        ensures
            r@.len() == 8,
            r@[0].0 == Language::English,
            r@[1].0 == Language::TChinese,
            r@[2].0 == Language::SChinese,
            r@[3].0 == Language::Vietnamese,
            r@[4].0 == Language::Indonesian,
            r@[5].0 == Language::Spanish,
            r@[6].0 == Language::BPortuguese,
            r@[7].0 == Language::Filipino,
            forall|i: int| 0 <= i < 8 ==> (#[trigger] r@[i]).1@ == r@[i].0.spec_name(),
    {
        let mut v: Vec<(Language, &'static str)> = Vec::new();
        v.push(Language::English.choice());
        v.push(Language::TChinese.choice());
        v.push(Language::SChinese.choice());
        v.push(Language::Vietnamese.choice());
        v.push(Language::Indonesian.choice());
        v.push(Language::Spanish.choice());
        v.push(Language::BPortuguese.choice());
        v.push(Language::Filipino.choice());
        v
    }
}

/// The interface language picked for a lowercase system locale `l`.
pub open spec fn language_for_lowercase_locale(l: Seq<char>) -> Language {
    if seq_contains(l, "zh-hk"@) || seq_contains(l, "zh-tw"@) || seq_contains(l, "zh-hant"@) {
        Language::TChinese
    } else if seq_contains(l, "zh"@) {
        Language::SChinese
    } else if seq_starts_with(l, "vi"@) {
        Language::Vietnamese
    } else if seq_starts_with(l, "id"@) {
        Language::Indonesian
    } else if seq_starts_with(l, "es"@) {
        Language::Spanish
    } else if seq_starts_with(l, "pt-br"@) {
        Language::BPortuguese
    } else if seq_starts_with(l, "fil"@) {
        Language::Filipino
    } else {
        Language::English
    }
}

proof fn lemma_first_char_absent(hay: Seq<char>, needle: Seq<char>)
    requires
        needle.len() > 0,
        forall|k: int| 0 <= k < hay.len() ==> hay[k] != needle[0],
    ensures !seq_contains(hay, needle),
{
    assert forall|i: int| !#[trigger] occurs_at(hay, needle, i) by {
        if occurs_at(hay, needle, i) {
            assert(hay.subrange(i, i + needle.len())[0] == hay[i]);
        }
    }
}

proof fn lemma_same_len_contains(hay: Seq<char>, needle: Seq<char>)
    requires hay.len() == needle.len(),
    ensures seq_contains(hay, needle) <==> hay == needle,
{
    if hay == needle {
        assert(hay.subrange(0, hay.len() as int) =~= hay);
        assert(occurs_at(hay, needle, 0));
    }
    if seq_contains(hay, needle) {
        let i = choose|i: int| #[trigger] occurs_at(hay, needle, i);
        assert(i == 0);
        assert(hay.subrange(0, hay.len() as int) =~= hay);
    }
}

proof fn lemma_not_prefix(hay: Seq<char>, p: Seq<char>, idx: int)
    requires
        0 <= idx < p.len(),
        idx < hay.len(),
        hay[idx] != p[idx],
    ensures !seq_starts_with(hay, p),
{
    if seq_starts_with(hay, p) {
        assert(hay.take(p.len() as int)[idx] == hay[idx]);
    }
}

proof fn lemma_longer_needle(hay: Seq<char>, needle: Seq<char>)
    requires hay.len() < needle.len(),
    ensures !seq_contains(hay, needle),
{
    assert forall|i: int| !#[trigger] occurs_at(hay, needle, i) by {}
}

/// The locale code of each interface language picks that language again.
pub proof fn law_locale_code_round_trip(lang: Language)
    ensures language_for_lowercase_locale(lang.spec_locale_str()) == lang,
{
    reveal_strlit("en");
    reveal_strlit("zh-tw");
    reveal_strlit("zh-cn");
    reveal_strlit("vi");
    reveal_strlit("id");
    reveal_strlit("es");
    reveal_strlit("pt-br");
    reveal_strlit("fil");
    reveal_strlit("zh-hk");
    reveal_strlit("zh-hant");
    reveal_strlit("zh");
    let l = lang.spec_locale_str();
    lemma_longer_needle(l, "zh-hant"@);
    match lang {
        Language::TChinese => {
            lemma_same_len_contains(l, "zh-tw"@);
        },
        Language::SChinese => {
            lemma_same_len_contains(l, "zh-hk"@);
            lemma_same_len_contains(l, "zh-tw"@);
            assert(l[3] != "zh-hk"@[3]);
            assert(l[3] != "zh-tw"@[3]);
            assert(l.subrange(0, 2) =~= "zh"@);
            assert(occurs_at(l, "zh"@, 0));
        },
        _ => {
            lemma_first_char_absent(l, "zh-hk"@);
            lemma_first_char_absent(l, "zh-tw"@);
            lemma_first_char_absent(l, "zh"@);
            assert(l.take(l.len() as int) =~= l);
            assert(seq_starts_with(l, l));
            if lang != Language::Vietnamese {
                lemma_not_prefix(l, "vi"@, 0);
                if lang != Language::Indonesian {
                    lemma_not_prefix(l, "id"@, 0);
                    if lang != Language::Spanish {
                        lemma_not_prefix(l, "es"@, if lang == Language::English { 1 } else { 0 });
                        if lang != Language::BPortuguese {
                            lemma_not_prefix(l, "pt-br"@, 0);
                            if lang != Language::Filipino {
                                lemma_not_prefix(l, "fil"@, 0);
                            }
                        }
                    }
                }
            }
        },
    }
}

/// The interface language for the system locale `locale`, compared without case.
pub fn language_for_locale(locale: &str) -> (r: Language)
    ensures r == language_for_lowercase_locale(str_lowercase(locale@)),
{
    let lower = lowercase(locale);
    let l = lower.as_str();
    if str_contains(l, "zh-hk") || str_contains(l, "zh-tw") || str_contains(l, "zh-hant") {
        Language::TChinese
    } else if str_contains(l, "zh") {
        Language::SChinese
    } else if str_starts_with(l, "vi") {
        Language::Vietnamese
    } else if str_starts_with(l, "id") {
        Language::Indonesian
    } else if str_starts_with(l, "es") {
        Language::Spanish
    } else if str_starts_with(l, "pt-br") {
        Language::BPortuguese
    } else if str_starts_with(l, "fil") {
        Language::Filipino
    } else {
        Language::English
    }
}

/// Calls `sys_locale::get_locale`, which reads the locale the system is set to; what it
/// answers depends on the machine, so nothing is stated of it.
#[verifier::external_body]
pub(crate) fn system_locale() -> (r: Option<String>) {
    sys_locale::get_locale()
}

/// The locale a system names, by its text; `en` when it names none.
pub open spec fn locale_or_english(locale: Option<&str>) -> Seq<char> {
    match locale {
        Some(l) => l@,
        None => "en"@,
    }
}

/// The interface language for what the system says of its locale: the locale's language,
/// or English's when the system names no locale.
pub fn language_for_system_locale(locale: Option<&str>) -> (r: Language)
    ensures r == language_for_lowercase_locale(str_lowercase(locale_or_english(locale))),
{
    match locale {
        Some(l) => language_for_locale(l),
        None => language_for_locale("en"),
    }
}

impl Default for Language {
    /// The language that matches the system locale (English when the system names none).
    fn default() -> (r: Self)
        ensures exists|l: Option<&str>| r == language_for_lowercase_locale(str_lowercase(locale_or_english(l))),
    {
        let locale = system_locale();
        let l = match &locale {
            Some(s) => Some(s.as_str()),
            None => None,
        };
        language_for_system_locale(l)
    }
}

/// Whether the background updater runs with these settings.
pub open spec fn spec_updater_enabled(mode: TLAutoUpdaterMode, interval_sec: u64, translator_mode: bool) -> bool {
    mode != TLAutoUpdaterMode::Disabled && interval_sec != 0 && !translator_mode
}

/// Whether the background translation updater runs: not when it is disabled, has no
/// interval, or translator mode is on.
pub fn updater_enabled(mode: TLAutoUpdaterMode, interval_sec: u64, translator_mode: bool) -> (r: bool)
    ensures r == spec_updater_enabled(mode, interval_sec, translator_mode),
{
    mode != TLAutoUpdaterMode::Disabled && interval_sec != 0 && !translator_mode
}

/// Timer of the background translation updater, in milliseconds of a monotonic clock.
pub struct UpdaterSchedule {
    pub next_check_ms: u64,
    pub last_interval_sec: u64,
}

/// What the updater does after one look at its settings and the clock.
#[derive(Clone, Copy, Debug, PartialEq, Eq, Structural)]
pub enum UpdaterStep {
    /// The updater is off: leave the loop.
    Stop,
    /// An update waits for the user: look again at once.
    Retry,
    /// Run an update check (quietly when `silent`) if `check`, then wait `sleep_ms`.
    Wait { check: bool, silent: bool, sleep_ms: u64 },
}

impl UpdaterSchedule {
    /// The first check is due one interval after `now_ms`.
    pub fn start(now_ms: u64, interval_sec: u64) -> (r: Self)
        requires now_ms + interval_sec * 1000 <= u64::MAX,
        ensures r.next_check_ms == now_ms + interval_sec * 1000, r.last_interval_sec == interval_sec,
    {
        UpdaterSchedule { next_check_ms: now_ms + interval_sec * 1000, last_interval_sec: interval_sec }
    }

    /// One turn of the updater loop at time `now_ms`, with the settings read at that time
    /// and whether an update found earlier still waits for the user. When the interval
    /// changed the timer restarts from now; a waiting update pushes the next check one
    /// interval away; a due check runs and the next one is one interval away; the wait is
    /// what remains until the next check, at most one second.
    pub fn step(
        &mut self,
        now_ms: u64,
        mode: TLAutoUpdaterMode,
        interval_sec: u64,
        translator_mode: bool,
        pending_update: bool,
    ) -> (r: UpdaterStep)
        requires now_ms + interval_sec * 1000 <= u64::MAX,
        ensures
            !spec_updater_enabled(mode, interval_sec, translator_mode) ==> (r == UpdaterStep::Stop
                && *final(self) == *old(self)),
            spec_updater_enabled(mode, interval_sec, translator_mode) ==> {
                let next = if interval_sec != old(self).last_interval_sec {
                    now_ms + interval_sec * 1000
                } else {
                    old(self).next_check_ms as int
                };
                &&& final(self).last_interval_sec == interval_sec
                &&& pending_update ==> (r == UpdaterStep::Retry && final(self).next_check_ms == now_ms
                    + interval_sec * 1000)
                &&& !pending_update ==> {
                    let due = now_ms >= next;
                    let after = if due { now_ms + interval_sec * 1000 } else { next };
                    &&& final(self).next_check_ms == after
                    &&& r == UpdaterStep::Wait {
                        check: due,
                        silent: mode == TLAutoUpdaterMode::Silent,
                        sleep_ms: if after - now_ms > 1000 { 1000 } else { (after - now_ms) as u64 },
                    }
                }
            },
    {
        if !updater_enabled(mode, interval_sec, translator_mode) {
            return UpdaterStep::Stop;
        }
        let interval_ms = interval_sec * 1000;
        if interval_sec != self.last_interval_sec {
            self.next_check_ms = now_ms + interval_ms;
            self.last_interval_sec = interval_sec;
        }
        if pending_update {
            self.next_check_ms = now_ms + interval_ms;
            return UpdaterStep::Retry;
        }
        let due = now_ms >= self.next_check_ms;
        if due {
            self.next_check_ms = now_ms + interval_ms;
        }
        let remaining = self.next_check_ms - now_ms;
        let sleep_ms = if remaining > 1000 { 1000 } else { remaining };
        UpdaterStep::Wait { check: due, silent: mode == TLAutoUpdaterMode::Silent, sleep_ms }
    }
}

/// What repairing the translation-repository selection at start-up does.
#[derive(Clone, Copy, Debug, PartialEq, Eq, Structural)]
pub enum RepoRepair {
    /// The selection is consistent.
    Keep,
    /// Select repository `id` (after clearing a stale selection when `clear_first`).
    Select { clear_first: bool, id: u32 },
    /// Add the configured index as a new repository and select it (after clearing a stale
    /// selection when `clear_first`).
    AddAndSelect { clear_first: bool },
    /// Clear a stale selection; no index is configured. Then, when the selected
    /// repository's folder is missing, drop the loaded translations and tell the user.
    ClearSelection,
}

/// Decides how to repair the repository selection. `selected_id` is the configured
/// selection, `has_index` whether a repository index is configured, `selection_matches`
/// whether the selected repository's index is the configured one, and `known_id` the id of
/// the repository already listed for the configured index.
pub fn repo_repair_plan(selected_id: Option<u32>, has_index: bool, selection_matches: bool, known_id: Option<u32>) -> (r: RepoRepair)
    ensures
        r == (match selected_id {
            Some(_) => if selection_matches {
                RepoRepair::Keep
            } else if has_index {
                match known_id {
                    Some(id) => RepoRepair::Select { clear_first: true, id },
                    None => RepoRepair::AddAndSelect { clear_first: true },
                }
            } else {
                RepoRepair::ClearSelection
            },
            None => if has_index {
                match known_id {
                    Some(id) => RepoRepair::Select { clear_first: false, id },
                    None => RepoRepair::AddAndSelect { clear_first: false },
                }
            } else {
                RepoRepair::Keep
            },
        }),
{
    match selected_id {
        Some(_) => {
            if selection_matches {
                return RepoRepair::Keep;
            }
            if has_index {
                match known_id {
                    Some(id) => RepoRepair::Select { clear_first: true, id },
                    None => RepoRepair::AddAndSelect { clear_first: true },
                }
            } else {
                RepoRepair::ClearSelection
            }
        },
        None => {
            if has_index {
                match known_id {
                    Some(id) => RepoRepair::Select { clear_first: false, id },
                    None => RepoRepair::AddAndSelect { clear_first: false },
                }
            } else {
                RepoRepair::Keep
            }
        },
    }
}

/// Whether the legacy translation folder is moved into a repository list: only when no
/// repository list exists yet and the legacy folder does.
pub fn needs_legacy_migration(repo_list_exists: bool, legacy_dir_exists: bool) -> (r: bool)
    ensures r == (!repo_list_exists && legacy_dir_exists),
{
    !repo_list_exists && legacy_dir_exists
}

} // verus!
