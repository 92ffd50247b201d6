//! Request queues shared between the game hooks, plugins and the overlay GUI, the
//! notification list, the settings search filter and the excludes editor.

use vstd::prelude::*;
use crate::text::{chars_of, lowercase, push_char, seq_contains, str_contains, str_equal, str_lowercase};
use crate::tl_repo::{str_trim, texts, trim, trim_trailing_slashes, trimmed_len};

verus! {

/// A notification that other parts of the program ask the overlay to show.
#[derive(Debug)]
pub enum NotificationRequest {
    ConfigLoadError,
    TLRepoChanged,
    TLFolderMissing,
    Custom(String),
}

/// Identifies a persistent notification; the overlay closes it when the guard is released.
pub struct NotificationGuard(pub u32);

/// Icon that a plugin registered for a menu label.
pub struct PluginMenuIcon {
    pub label: String,
    pub uri: String,
    pub bytes: Vec<u8>,
}

/// Requests waiting for the overlay's next frame. `T` is the configuration type that a
/// theme preview carries.
pub struct GuiRequests<T> {
    pub pending_theme: Option<T>,
    pub notification_requests: Vec<NotificationRequest>,
    pub plugin_menu_icons: Vec<PluginMenuIcon>,
    pub plugin_notifications: Vec<String>,
    pub plugin_windows_to_close: Vec<i32>,
    pub keybind_capture_active: bool,
    pub keybind_captured: Option<(i32, String)>,
}

impl<T> GuiRequests<T> {
    /// No two registered icons share a label.
    pub open spec fn wf(&self) -> bool {
        forall|i: int, j: int|
            0 <= i < j < self.plugin_menu_icons@.len() ==> #[trigger] self.plugin_menu_icons@[i].label@
                != #[trigger] self.plugin_menu_icons@[j].label@
    }

    /// Index of the icon registered under `label`, if any.
    pub open spec fn icon_index(&self, label: Seq<char>) -> Option<int> {
        if exists|i: int| 0 <= i < self.plugin_menu_icons@.len() && #[trigger] self.plugin_menu_icons@[i].label@ == label {
            Some(choose|i: int| 0 <= i < self.plugin_menu_icons@.len() && #[trigger] self.plugin_menu_icons@[i].label@ == label)
        } else {
            None
        }
    }

    /// Nothing is waiting.
    pub fn new() -> (r: Self)
        ensures
            r.wf(),
            r.pending_theme is None,
            r.notification_requests@.len() == 0,
            r.plugin_menu_icons@.len() == 0,
            r.plugin_notifications@.len() == 0,
            r.plugin_windows_to_close@.len() == 0,
            !r.keybind_capture_active,
            r.keybind_captured is None,
    {
        GuiRequests {
            pending_theme: None,
            notification_requests: Vec::new(),
            plugin_menu_icons: Vec::new(),
            plugin_notifications: Vec::new(),
            plugin_windows_to_close: Vec::new(),
            keybind_capture_active: false,
            keybind_captured: None,
        }
    }
}

/// Asks the overlay to preview `config` as its theme, replacing a preview still waiting.
pub fn enqueue_theme_preview<T>(requests: &mut GuiRequests<T>, config: T)
    ensures
        final(requests).pending_theme == Some(config),
        final(requests).notification_requests == old(requests).notification_requests,
        final(requests).plugin_menu_icons == old(requests).plugin_menu_icons,
        final(requests).plugin_notifications == old(requests).plugin_notifications,
        final(requests).plugin_windows_to_close == old(requests).plugin_windows_to_close,
        final(requests).keybind_capture_active == old(requests).keybind_capture_active,
        final(requests).keybind_captured == old(requests).keybind_captured,
{
    requests.pending_theme = Some(config);
}

/// Hands out the waiting theme preview, leaving none.
pub fn take_theme_preview<T>(requests: &mut GuiRequests<T>) -> (r: Option<T>)
    ensures
        r == old(requests).pending_theme,
        final(requests).pending_theme is None,
        final(requests).notification_requests == old(requests).notification_requests,
        final(requests).plugin_menu_icons == old(requests).plugin_menu_icons,
        final(requests).plugin_notifications == old(requests).plugin_notifications,
        final(requests).plugin_windows_to_close == old(requests).plugin_windows_to_close,
        final(requests).keybind_capture_active == old(requests).keybind_capture_active,
        final(requests).keybind_captured == old(requests).keybind_captured,
{
    requests.pending_theme.take()
}

/// Queues a notification for the overlay, after those already waiting.
pub fn request_notification<T>(requests: &mut GuiRequests<T>, request: NotificationRequest)
    ensures
        final(requests).notification_requests@ == old(requests).notification_requests@.push(request),
        final(requests).pending_theme == old(requests).pending_theme,
        final(requests).plugin_menu_icons == old(requests).plugin_menu_icons,
        final(requests).plugin_notifications == old(requests).plugin_notifications,
        final(requests).plugin_windows_to_close == old(requests).plugin_windows_to_close,
        final(requests).keybind_capture_active == old(requests).keybind_capture_active,
        final(requests).keybind_captured == old(requests).keybind_captured,
{
    requests.notification_requests.push(request);
}

/// Hands out the queued notification requests in the order they came, leaving none.
pub fn take_notification_requests<T>(requests: &mut GuiRequests<T>) -> (r: Vec<NotificationRequest>)
    ensures
        r@ == old(requests).notification_requests@,
        final(requests).notification_requests@.len() == 0,
        final(requests).pending_theme == old(requests).pending_theme,
        final(requests).plugin_menu_icons == old(requests).plugin_menu_icons,
        final(requests).plugin_notifications == old(requests).plugin_notifications,
        final(requests).plugin_windows_to_close == old(requests).plugin_windows_to_close,
        final(requests).keybind_capture_active == old(requests).keybind_capture_active,
        final(requests).keybind_captured == old(requests).keybind_captured,
{
    let mut out: Vec<NotificationRequest> = Vec::new();
    std::mem::swap(&mut out, &mut requests.notification_requests);
    out
}

fn find_icon<T>(requests: &GuiRequests<T>, label: &str) -> (r: Option<usize>)
    ensures
        match r {
            Some(i) => i < requests.plugin_menu_icons@.len() && requests.plugin_menu_icons@[i as int].label@ == label@,
            None => forall|i: int| 0 <= i < requests.plugin_menu_icons@.len() ==> #[trigger] requests.plugin_menu_icons@[i].label@ != label@,
        },
{
    let mut i: usize = 0;
    while i < requests.plugin_menu_icons.len()
        invariant
            i <= requests.plugin_menu_icons@.len(),
            forall|k: int| 0 <= k < i ==> #[trigger] requests.plugin_menu_icons@[k].label@ != label@,
        decreases requests.plugin_menu_icons.len() - i,
    {
        if str_equal(requests.plugin_menu_icons[i].label.as_str(), label) {
            return Some(i);
        }
        i = i + 1;
    }
    None
}

/// Registers the icon a plugin gives for a menu label, replacing one registered earlier
/// under the same label. Refused, with nothing changed, when the label, the URI or the
/// image bytes are empty.
pub fn register_plugin_menu_icon<T>(requests: &mut GuiRequests<T>, label: String, uri: String, bytes: Vec<u8>) -> (r: bool)
    requires old(requests).wf(),
    ensures
        final(requests).wf(),
        r == (label@.len() > 0 && uri@.len() > 0 && bytes@.len() > 0),
        !r ==> final(requests).plugin_menu_icons == old(requests).plugin_menu_icons,
        r ==> match old(requests).icon_index(label@) {
            Some(i) => final(requests).plugin_menu_icons@ == old(requests).plugin_menu_icons@.update(i,
                PluginMenuIcon { label, uri, bytes }),
            None => final(requests).plugin_menu_icons@ == old(requests).plugin_menu_icons@.push(
                PluginMenuIcon { label, uri, bytes }),
        },
        final(requests).pending_theme == old(requests).pending_theme,
        final(requests).notification_requests == old(requests).notification_requests,
        final(requests).plugin_notifications == old(requests).plugin_notifications,
        final(requests).plugin_windows_to_close == old(requests).plugin_windows_to_close,
        final(requests).keybind_capture_active == old(requests).keybind_capture_active,
        final(requests).keybind_captured == old(requests).keybind_captured,
{
    if label.as_str().is_empty() || uri.as_str().is_empty() || bytes.len() == 0 {
        return false;
    }
    match find_icon(requests, label.as_str()) {
        Some(i) => {
            proof {
                let j = i as int;
                assert(requests.plugin_menu_icons@[j].label@ == label@);
                assert(requests.icon_index(label@) is Some);
                let c = requests.icon_index(label@)->0;
                if c != j {
                    if c < j {
                        assert(requests.plugin_menu_icons@[c].label@ != requests.plugin_menu_icons@[j].label@);
                    } else {
                        assert(requests.plugin_menu_icons@[j].label@ != requests.plugin_menu_icons@[c].label@);
                    }
                }
            }
            requests.plugin_menu_icons.set(i, PluginMenuIcon { label, uri, bytes });
        },
        None => {
            requests.plugin_menu_icons.push(PluginMenuIcon { label, uri, bytes });
        },
    }
    true
}

/// The index of the icon registered under `label`, if any.
pub fn plugin_menu_icon_index<T>(requests: &GuiRequests<T>, label: &str) -> (r: Option<usize>)
    requires requests.wf(),
    ensures
        match r {
            Some(i) => requests.icon_index(label@) == Some(i as int),
            None => requests.icon_index(label@) is None,
        },
{
    let r = find_icon(requests, label);
    proof {
        if let Some(i) = r {
            let j = i as int;
            assert(requests.plugin_menu_icons@[j].label@ == label@);
            let c = requests.icon_index(label@)->0;
            if c != j {
                if c < j {
                    assert(requests.plugin_menu_icons@[c].label@ != requests.plugin_menu_icons@[j].label@);
                } else {
                    assert(requests.plugin_menu_icons@[j].label@ != requests.plugin_menu_icons@[c].label@);
                }
            }
        }
    }
    r
}

/// Queues a message that a plugin wants shown as a notification.
pub fn enqueue_plugin_notification<T>(requests: &mut GuiRequests<T>, message: String)
    ensures
        final(requests).plugin_notifications@ == old(requests).plugin_notifications@.push(message),
        final(requests).pending_theme == old(requests).pending_theme,
        final(requests).notification_requests == old(requests).notification_requests,
        final(requests).plugin_menu_icons == old(requests).plugin_menu_icons,
        final(requests).plugin_windows_to_close == old(requests).plugin_windows_to_close,
        final(requests).keybind_capture_active == old(requests).keybind_capture_active,
        final(requests).keybind_captured == old(requests).keybind_captured,
{
    requests.plugin_notifications.push(message);
}

/// Hands out the queued plugin messages in order, leaving none.
pub fn drain_plugin_notifications<T>(requests: &mut GuiRequests<T>) -> (r: Vec<String>)
    ensures
        r@ == old(requests).plugin_notifications@,
        final(requests).plugin_notifications@.len() == 0,
        final(requests).pending_theme == old(requests).pending_theme,
        final(requests).notification_requests == old(requests).notification_requests,
        final(requests).plugin_menu_icons == old(requests).plugin_menu_icons,
        final(requests).plugin_windows_to_close == old(requests).plugin_windows_to_close,
        final(requests).keybind_capture_active == old(requests).keybind_capture_active,
        final(requests).keybind_captured == old(requests).keybind_captured,
{
    let mut out: Vec<String> = Vec::new();
    std::mem::swap(&mut out, &mut requests.plugin_notifications);
    out
}

/// Asks the overlay to close the plugin window `id`.
pub fn close_plugin_window<T>(requests: &mut GuiRequests<T>, id: i32)
    ensures
        final(requests).plugin_windows_to_close@ == old(requests).plugin_windows_to_close@.push(id),
        final(requests).pending_theme == old(requests).pending_theme,
        final(requests).notification_requests == old(requests).notification_requests,
        final(requests).plugin_menu_icons == old(requests).plugin_menu_icons,
        final(requests).plugin_notifications == old(requests).plugin_notifications,
        final(requests).keybind_capture_active == old(requests).keybind_capture_active,
        final(requests).keybind_captured == old(requests).keybind_captured,
{
    requests.plugin_windows_to_close.push(id);
}

/// Hands out the ids of the plugin windows to close, in order, leaving none.
pub fn take_plugin_windows_to_close<T>(requests: &mut GuiRequests<T>) -> (r: Vec<i32>)
    ensures
        r@ == old(requests).plugin_windows_to_close@,
        final(requests).plugin_windows_to_close@.len() == 0,
        final(requests).pending_theme == old(requests).pending_theme,
        final(requests).notification_requests == old(requests).notification_requests,
        final(requests).plugin_menu_icons == old(requests).plugin_menu_icons,
        final(requests).plugin_notifications == old(requests).plugin_notifications,
        final(requests).keybind_capture_active == old(requests).keybind_capture_active,
        final(requests).keybind_captured == old(requests).keybind_captured,
{
    let mut out: Vec<i32> = Vec::new();
    std::mem::swap(&mut out, &mut requests.plugin_windows_to_close);
    out
}

/// Starts waiting for the next key press to bind, forgetting any key captured before.
pub fn start_keybind_capture<T>(requests: &mut GuiRequests<T>)
    ensures
        final(requests).keybind_capture_active,
        final(requests).keybind_captured is None,
        final(requests).pending_theme == old(requests).pending_theme,
        final(requests).notification_requests == old(requests).notification_requests,
        final(requests).plugin_menu_icons == old(requests).plugin_menu_icons,
        final(requests).plugin_notifications == old(requests).plugin_notifications,
        final(requests).plugin_windows_to_close == old(requests).plugin_windows_to_close,
{
    requests.keybind_captured = None;
    requests.keybind_capture_active = true;
}

/// Whether a key press is being waited for.
pub fn is_keybind_capture_active<T>(requests: &GuiRequests<T>) -> (r: bool)
    ensures r == requests.keybind_capture_active,
{
    requests.keybind_capture_active
}

/// Records the key that was pressed while capturing and stops capturing.
pub fn report_keybind_capture<T>(requests: &mut GuiRequests<T>, raw: i32, display: String)
    ensures
        !final(requests).keybind_capture_active,
        final(requests).keybind_captured == Some((raw, display)),
        final(requests).pending_theme == old(requests).pending_theme,
        final(requests).notification_requests == old(requests).notification_requests,
        final(requests).plugin_menu_icons == old(requests).plugin_menu_icons,
        final(requests).plugin_notifications == old(requests).plugin_notifications,
        final(requests).plugin_windows_to_close == old(requests).plugin_windows_to_close,
{
    requests.keybind_capture_active = false;
    requests.keybind_captured = Some((raw, display));
}

/// Hands out the captured key, leaving none.
pub fn take_keybind_capture<T>(requests: &mut GuiRequests<T>) -> (r: Option<(i32, String)>)
    ensures
        r == old(requests).keybind_captured,
        final(requests).keybind_captured is None,
        final(requests).keybind_capture_active == old(requests).keybind_capture_active,
        final(requests).pending_theme == old(requests).pending_theme,
        final(requests).notification_requests == old(requests).notification_requests,
        final(requests).plugin_menu_icons == old(requests).plugin_menu_icons,
        final(requests).plugin_notifications == old(requests).plugin_notifications,
        final(requests).plugin_windows_to_close == old(requests).plugin_windows_to_close,
{
    requests.keybind_captured.take()
}

/// Whether a settings entry labelled `label` is shown for the search text `search`: always
/// for an empty search, otherwise when the lowercase label contains the lowercase search.
pub fn should_show_option(search: &str, label: &str) -> (r: bool)
    ensures r == (search@.len() == 0 || seq_contains(str_lowercase(label@), str_lowercase(search@))),
{
    if search.is_empty() {
        return true;
    }
    let l = lowercase(label);
    let s = lowercase(search);
    str_contains(l.as_str(), s.as_str())
}

/// A notification on screen.
pub struct Notification {
    pub id: u32,
    pub content: String,
    pub persistent: bool,
}

/// The notifications on screen, oldest first, and the id the next one gets.
pub struct NotificationList {
    pub items: Vec<Notification>,
    pub next_id: u32,
}

/// Whether a notification is kept when the one with id `id` closes.
pub open spec fn kept_after_close(id: u32) -> spec_fn(Notification) -> bool {
    |n: Notification| n.id != id
}

impl NotificationList {
    /// No notification yet; ids start at zero.
    pub fn new() -> (r: Self)
        ensures r.items@.len() == 0, r.next_id == 0,
    {
        NotificationList { items: Vec::new(), next_id: 0 }
    }

    fn add_notification(&mut self, content: &str, persistent: bool) -> (id: u32)
        ensures
            id == old(self).next_id,
            final(self).next_id == old(self).next_id.wrapping_add(1),
            final(self).items@.len() == old(self).items@.len() + 1,
            final(self).items@.drop_last() == old(self).items@,
            final(self).items@.last().id == id,
            final(self).items@.last().content@ == content@,
            final(self).items@.last().persistent == persistent,
    {
        let id = self.next_id;
        self.items.push(Notification { id, content: String::from_str(content), persistent });
        self.next_id = self.next_id.wrapping_add(1);
        id
    }

    /// Shows `content` for a few seconds under the next id, which then advances (wrapping).
    pub fn show_notification(&mut self, content: &str)
        ensures
            final(self).next_id == old(self).next_id.wrapping_add(1),
            final(self).items@.len() == old(self).items@.len() + 1,
            final(self).items@.drop_last() == old(self).items@,
            final(self).items@.last().id == old(self).next_id,
            final(self).items@.last().content@ == content@,
            !final(self).items@.last().persistent,
    {
        self.add_notification(content, false);
    }

    /// Shows `content` until it is closed, and answers its id.
    pub fn show_persistent_notification(&mut self, content: &str) -> (id: u32)
        ensures
            id == old(self).next_id,
            final(self).next_id == old(self).next_id.wrapping_add(1),
            final(self).items@.len() == old(self).items@.len() + 1,
            final(self).items@.drop_last() == old(self).items@,
            final(self).items@.last().id == id,
            final(self).items@.last().content@ == content@,
            final(self).items@.last().persistent,
    {
        self.add_notification(content, true)
    }

    /// Removes every notification with id `id`, keeping the others in order.
    pub fn close_notification(&mut self, id: u32)
        ensures
            final(self).items@ == old(self).items@.filter(kept_after_close(id)),
            final(self).next_id == old(self).next_id,
    {
        let mut old_items: Vec<Notification> = Vec::new();
        std::mem::swap(&mut old_items, &mut self.items);
        let ghost before = old_items@;
        let mut kept: Vec<Notification> = Vec::new();
        let n = old_items.len();
        let mut rest = old_items;
        let mut i: usize = 0;
        while i < n
            invariant
                n == before.len(),
                i <= n,
                rest@ == before.skip(i as int),
                kept@ == before.take(i as int).filter(kept_after_close(id)),
            decreases n - i,
        {
            let item = rest.remove(0);
            proof {
                assert(item == before[i as int]);
                assert(before.take(i + 1).drop_last() == before.take(i as int));
                assert(rest@ == before.skip(i + 1));
                reveal(Seq::filter);
            }
            if item.id != id {
                kept.push(item);
            }
            i = i + 1;
        }
        proof {
            assert(before.take(n as int) == before);
        }
        self.items = kept;
    }
}

/// After closing the notification with id `id`, none with that id is left, and every
/// notification left was there before.
pub proof fn law_closed_notification_gone(items: Seq<Notification>, id: u32)
    ensures
        forall|k: int| 0 <= k < items.filter(kept_after_close(id)).len() ==> (#[trigger] items.filter(kept_after_close(id))[k]).id != id,
        forall|k: int| 0 <= k < items.filter(kept_after_close(id)).len() ==> items.contains(#[trigger] items.filter(kept_after_close(id))[k]),
{
    assert forall|k: int| 0 <= k < items.filter(kept_after_close(id)).len() implies (#[trigger] items.filter(kept_after_close(id))[k]).id != id
        && items.contains(items.filter(kept_after_close(id))[k]) by {
        let f = items.filter(kept_after_close(id));
        items.lemma_filter_pred(kept_after_close(id), k);
        assert(f.contains(f[k]));
        items.lemma_filter_contains_rev(kept_after_close(id), f[k]);
    }
}

/// Looking up a label right after registering an icon for it finds that icon.
pub proof fn law_icon_lookup_after_register<T>(before: GuiRequests<T>, after: GuiRequests<T>, icon: PluginMenuIcon)
    requires
        before.wf(),
        after.wf(),
        after.plugin_menu_icons@ == (match before.icon_index(icon.label@) {
            Some(i) => before.plugin_menu_icons@.update(i, icon),
            None => before.plugin_menu_icons@.push(icon),
        }),
    ensures
        after.icon_index(icon.label@) matches Some(k) && after.plugin_menu_icons@[k] == icon,
{
    let l = icon.label@;
    let v = after.plugin_menu_icons@;
    let j = match before.icon_index(l) {
        Some(i) => i,
        None => before.plugin_menu_icons@.len() as int,
    };
    assert(v[j] == icon);
    assert(v[j].label@ == l);
    let c = choose|c: int| 0 <= c < v.len() && #[trigger] v[c].label@ == l;
    if c != j {
        if c < j {
            assert(v[c].label@ != v[j].label@);
        } else {
            assert(v[j].label@ != v[c].label@);
        }
    }
}

fn contains_id(ids: &Vec<i32>, id: i32) -> (r: bool)
    ensures r == ids@.contains(id),
{
    let mut i: usize = 0;
    while i < ids.len()
        invariant
            i <= ids@.len(),
            forall|k: int| 0 <= k < i ==> ids@[k] != id,
        decreases ids.len() - i,
    {
        if ids[i] == id {
            proof {
                assert(ids@[i as int] == id);
            }
            return true;
        }
        i = i + 1;
    }
    false
}

/// Whether an open window stays when plugin windows are shown and closed: a plugin window
/// (one with a plugin id) goes when the same id is shown anew or asked to close; other
/// windows stay.
pub fn plugin_window_kept(window_id: Option<i32>, new_ids: &Vec<i32>, close_ids: &Vec<i32>) -> (r: bool)
    ensures
        r == (match window_id {
            Some(id) => !new_ids@.contains(id) && !close_ids@.contains(id),
            None => true,
        }),
{
    match window_id {
        Some(id) => !contains_id(new_ids, id) && !contains_id(close_ids, id),
        None => true,
    }
}

/// Size of the screen's main axis, by which the overlay is scaled: the height in
/// landscape, else the shorter side.
pub fn main_axis_size(width: i32, height: i32) -> (r: i32)
    ensures r == (if width > height { height } else if width < height { width } else { height }),
{
    if width > height { height } else if width < height { width } else { height }
}

/// The excludes editor's list and the entry being edited, if any.
pub struct ExcludesEditor {
    pub excludes: Vec<String>,
    pub edit_index: Option<usize>,
}

/// The entries of `excludes` that the search text `search` shows, each with its index.
pub open spec fn shown_excludes(excludes: Seq<Seq<char>>, search: Seq<char>, n: int) -> Seq<(usize, Seq<char>)>
    decreases n,
{
    if n <= 0 {
        Seq::empty()
    } else if search.len() == 0 || seq_contains(str_lowercase(excludes[n - 1]), str_lowercase(search)) {
        shown_excludes(excludes, search, n - 1).push(((n - 1) as usize, excludes[n - 1]))
    } else {
        shown_excludes(excludes, search, n - 1)
    }
}

/// Where the entry being edited stands after entry `idx` is removed: gone with it, one
/// place up when it came after it, else where it was.
pub open spec fn edit_index_after_remove(edit: Option<usize>, idx: usize) -> Option<usize> {
    match edit {
        Some(e) => if e == idx { None } else if e > idx { Some((e - 1) as usize) } else { Some(e) },
        None => None,
    }
}

/// The excludes list after adding `path`: the path without the slashes that end it is
/// appended, unless it is empty or listed already.
pub open spec fn with_exclude(list: Seq<Seq<char>>, path: Seq<char>) -> Seq<Seq<char>> {
    let t = trim_trailing_slashes(path);
    if t.len() == 0 || list.contains(t) { list } else { list.push(t) }
}

/// Adding the same path twice lists it once: the second addition changes nothing.
pub proof fn law_add_exclude_idempotent(list: Seq<Seq<char>>, path: Seq<char>)
    ensures with_exclude(with_exclude(list, path), path) == with_exclude(list, path),
{
    let t = trim_trailing_slashes(path);
    if !(t.len() == 0 || list.contains(t)) {
        assert(list.push(t)[list.len() as int] == t);
    }
}

impl ExcludesEditor {
    /// The list read from the excludes file, nothing being edited.
    pub fn new(excludes: Vec<String>) -> (r: Self)
        ensures r.excludes@ == excludes@, r.edit_index.is_none(),
    {
        ExcludesEditor { excludes, edit_index: None }
    }

    /// Adds the translation path `path` without the slashes that end it, unless that is
    /// empty or listed already.
    pub fn add_path(&mut self, path: &str)
        ensures
            final(self).edit_index == old(self).edit_index,
            texts(final(self).excludes@) == with_exclude(texts(old(self).excludes@), path@),
    {
        let chars = chars_of(path);
        let j = trimmed_len(&chars);
        let mut t = String::new();
        let mut i: usize = 0;
        while i < j
            invariant
                j <= chars@.len(),
                i <= j,
                t@ == chars@.take(i as int),
            decreases j - i,
        {
            push_char(&mut t, chars[i]);
            proof {
                assert(chars@.take(i + 1) == chars@.take(i as int).push(chars@[i as int]));
            }
            i = i + 1;
        }
        if j == 0 {
            return;
        }
        let ghost listed = texts(self.excludes@);
        let mut k: usize = 0;
        while k < self.excludes.len()
            invariant
                k <= self.excludes@.len(),
                listed == texts(self.excludes@),
                t@ == trim_trailing_slashes(path@),
                forall|x: int| 0 <= x < k ==> listed[x] != t@,
            decreases self.excludes.len() - k,
        {
            if str_equal(self.excludes[k].as_str(), t.as_str()) {
                proof {
                    assert(listed[k as int] == t@);
                    assert(listed.contains(t@));
                }
                return;
            }
            k = k + 1;
        }
        let ghost before = self.excludes@;
        self.excludes.push(t);
        proof {
            assert(texts(self.excludes@) =~= texts(before).push(t@));
        }
    }

    /// The entries shown for the search text `search` (all of them for an empty search,
    /// else those whose lowercase text contains the lowercase search), each with its index.
    pub fn visible_excludes(&self, search: &str) -> (r: Vec<(usize, String)>)
        ensures
            r@.map_values(|e: (usize, String)| (e.0, e.1@))
                == shown_excludes(texts(self.excludes@), search@, self.excludes@.len() as int),
    {
        let ghost ex = texts(self.excludes@);
        let mut out: Vec<(usize, String)> = Vec::new();
        let mut i: usize = 0;
        while i < self.excludes.len()
            invariant
                i <= self.excludes@.len(),
                ex == texts(self.excludes@),
                out@.map_values(|e: (usize, String)| (e.0, e.1@)) == shown_excludes(ex, search@, i as int),
            decreases self.excludes.len() - i,
        {
            let ghost before = out@;
            if should_show_option(search, self.excludes[i].as_str()) {
                out.push((i, self.excludes[i].clone()));
                proof {
                    assert(out@.map_values(|e: (usize, String)| (e.0, e.1@))
                        =~= before.map_values(|e: (usize, String)| (e.0, e.1@)).push((i, ex[i as int])));
                }
            }
            i = i + 1;
        }
        out
    }

    /// Removes entry `idx`; the entry being edited keeps pointing at the same text.
    pub fn remove_exclude(&mut self, idx: usize)
        requires idx < old(self).excludes@.len(),
        ensures
            final(self).excludes@ == old(self).excludes@.remove(idx as int),
            final(self).edit_index == edit_index_after_remove(old(self).edit_index, idx),
    {
        self.excludes.remove(idx);
        self.edit_index = match self.edit_index {
            Some(e) => if e == idx { None } else if e > idx { Some(e - 1) } else { Some(e) },
            None => None,
        };
    }

    /// Starts editing entry `idx`; answers its text, with which the edit field starts.
    pub fn begin_edit(&mut self, idx: usize) -> (r: String)
        requires idx < old(self).excludes@.len(),
        ensures
            r@ == old(self).excludes@[idx as int]@,
            final(self).excludes@ == old(self).excludes@,
            final(self).edit_index == Some(idx),
    {
        self.edit_index = Some(idx);
        self.excludes[idx].clone()
    }

    /// Replaces entry `idx` with the confirmed edit `value` and ends editing. An empty edit
    /// is never offered for confirmation, so `value` is not empty.
    pub fn confirm_edit(&mut self, idx: usize, value: String)
        requires
            idx < old(self).excludes@.len(),
            value@.len() > 0,
        ensures
            final(self).excludes@ == old(self).excludes@.update(idx as int, value),
            final(self).edit_index.is_none(),
    {
        self.excludes.set(idx, value);
        self.edit_index = None;
    }
}

/// The address of the translation repositories' index that a fresh configuration uses.
pub fn default_meta_index_url() -> (r: &'static str)
    ensures r@ == "https://gitlab.com/umatl/hachimi-meta/-/raw/main/meta.json"@,
{
    "https://gitlab.com/umatl/hachimi-meta/-/raw/main/meta.json"
}

/// The index address a blank or edited address field leaves: a blank entry (spaces only)
/// falls back to `default_url`.
pub open spec fn committed_index_url(edited: Seq<char>, default_url: Seq<char>) -> Seq<char> {
    if str_trim(edited).len() == 0 { default_url } else { edited }
}

/// What the setup dialog keeps when the index address field loses focus: the address
/// (the default one for a blank entry), and whether it differs from the saved address, in
/// which case the configuration is saved and the index fetched again.
pub fn commit_meta_index_url(edited: &str, saved: &str, default_url: &str) -> (r: (String, bool))
    ensures
        r.0@ == committed_index_url(edited@, default_url@),
        r.1 == (r.0@ != saved@),
{
    let t = trim(edited);
    let url = if t.as_str().is_empty() { default_url.to_string() } else { edited.to_string() };
    let changed = !str_equal(url.as_str(), saved);
    (url, changed)
}

/// A button under the pages of a paginated dialog.
#[derive(Clone, Copy, Debug, PartialEq, Eq, Structural)]
pub enum PageButton {
    Next,
    Previous,
    Done,
}

/// What pressing `button` on page `page` of `page_count` does: Next (shown before the last
/// page, when the page allows it) goes one page on, Previous (shown after the first page)
/// one page back, Done (shown on the last page) closes the dialog; a button that is not
/// shown does nothing. Answers the page and whether the dialog stays open.
pub open spec fn spec_page_step(page: nat, page_count: nat, allow_next: bool, button: PageButton) -> (nat, bool) {
    match button {
        PageButton::Next => if page + 1 < page_count && allow_next { (page + 1, true) } else { (page, true) },
        PageButton::Previous => if page > 0 { ((page - 1) as nat, true) } else { (page, true) },
        PageButton::Done => if page + 1 >= page_count { (page, false) } else { (page, true) },
    }
}

/// Runs one button press on the pages of a paginated dialog.
pub fn page_step(page: usize, page_count: usize, allow_next: bool, button: PageButton) -> (r: (usize, bool))
    requires page < page_count,
    ensures (r.0 as nat, r.1) == spec_page_step(page as nat, page_count as nat, allow_next, button),
{
    match button {
        PageButton::Next => if page < page_count - 1 && allow_next { (page + 1, true) } else { (page, true) },
        PageButton::Previous => if page > 0 { (page - 1, true) } else { (page, true) },
        PageButton::Done => if page >= page_count - 1 { (page, false) } else { (page, true) },
    }
}

/// A paginated dialog never leaves its pages: from a page in range every press lands on a
/// page in range.
pub proof fn law_pages_stay_in_range(page: nat, page_count: nat, allow_next: bool, button: PageButton)
    requires page < page_count,
    ensures spec_page_step(page, page_count, allow_next, button).0 < page_count,
{
}

} // verus!
