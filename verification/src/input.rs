//! Text-input plumbing: a clipboard with a bounded history, the input
//! widget's cursor and focus state, and hyperlink helpers.

use vstd::prelude::*;
use vstd::string::StringExecFns;

verus! {

/// Input modes of the text-entry surface.
#[derive(Debug, Clone, PartialEq, Eq, Structural)]
pub enum InputMode {
    Normal,
    Editing,
    EmojiPicker,
    ClipboardHistory,
}

/// Error kinds of input operations.
#[derive(Debug)]
pub enum InputError {
    IoError(String),
    InvalidFormat(String),
    ClipboardError(String),
}

/// A clipboard with its content and a bounded history of copied texts. A
/// copy of a non-empty text that differs from the newest history entry is
/// appended to the history; the oldest entry falls out beyond the bound.
pub struct ClipboardManager {
    pub clipboard_content: String,
    pub history: Vec<String>,
    pub max_history_size: usize,
}

impl ClipboardManager {
    pub open spec fn wf(self) -> bool {
        &&& self.max_history_size >= 1
        &&& self.history@.len() <= self.max_history_size
    }

    /// An empty clipboard holding up to ten history entries.
    pub fn new() -> (c: ClipboardManager)
        ensures
            c.wf(),
            c.clipboard_content@ == Seq::<char>::empty(),
            c.history@.len() == 0,
            c.max_history_size == 10,
    {
        ClipboardManager {
            clipboard_content: String::new(),
            history: Vec::new(),
            max_history_size: 10,
        }
    }

    /// Copies a text: it becomes the clipboard content, and enters the
    /// history unless it is empty or repeats the newest entry; the oldest
    /// entry is dropped when the history would outgrow its bound. Copying
    /// never fails.
    pub fn copy(&mut self, text: &str) -> (r: Result<(), InputError>)
        requires
            old(self).wf(),
        ensures
            final(self).wf(),
            r is Ok,
            final(self).clipboard_content@ == text@,
            final(self).max_history_size == old(self).max_history_size,
            ({
                let kept = text@.len() > 0 && (old(self).history@.len() == 0 || old(self).history@.last()@ != text@);
                let appended = old(self).history@.map_values(|s: String| s@).push(text@);
                &&& !kept ==> final(self).history@ == old(self).history@
                &&& (kept && old(self).history@.len() < old(self).max_history_size) ==> final(self).history@.map_values(|s: String| s@) == appended
                &&& (kept && old(self).history@.len() == old(self).max_history_size) ==> final(self).history@.map_values(|s: String| s@) == appended.subrange(
                    1,
                    appended.len() as int,
                )
            }),
    {
        self.clipboard_content = text.to_owned();

        let is_fresh = if text.unicode_len() == 0 {
            false
        } else if self.history.len() == 0 {
            true
        } else {
            let last = &self.history[self.history.len() - 1];
            !strings_equal(last.as_str(), text)
        };
        if is_fresh {
            let ghost before = self.history@;
            self.history.push(text.to_owned());
            proof {
                assert(self.history@.map_values(|s: String| s@) =~= before.map_values(
                    |s: String| s@,
                ).push(text@));
            }
            if self.history.len() > self.max_history_size {
                let ghost mid = self.history@;
                let _ = self.history.remove(0);
                proof {
                    assert(self.history@.map_values(|s: String| s@) =~= mid.map_values(
                        |s: String| s@,
                    ).subrange(1, mid.len() as int));
                    assert(mid.map_values(|s: String| s@).subrange(1, mid.len() as int)
                        =~= before.map_values(|s: String| s@).push(text@).subrange(
                        1,
                        before.len() as int + 1,
                    ));
                }
            }
        }
        Ok(())
    }

    /// The clipboard content; pasting never fails.
    pub fn paste(&self) -> (r: Result<String, InputError>)
        ensures
            r matches Ok(s) && s@ == self.clipboard_content@,
    {
        Ok(self.clipboard_content.clone())
    }

    /// The history of copied texts, oldest first.
    pub fn get_history(&self) -> (r: &Vec<String>)
        ensures
            r@ == self.history@,
    {
        &self.history
    }

    /// Empties the history; the clipboard content stays.
    pub fn clear_history(&mut self)
        requires
            old(self).wf(),
        ensures
            final(self).wf(),
            final(self).history@.len() == 0,
            final(self).clipboard_content == old(self).clipboard_content,
            final(self).max_history_size == old(self).max_history_size,
    {
        self.history.clear();
    }
}

/// Compares two strings character by character.
pub(crate) fn strings_equal(a: &str, b: &str) -> (r: bool)
    ensures
        r == (a@ == b@),
{
    let n = a.unicode_len();
    let m = b.unicode_len();
    if n != m {
        return false;
    }
    let mut k: usize = 0;
    while k < n
        invariant
            k <= n,
            n == a@.len(),
            n == b@.len(),
            forall|j: int| 0 <= j < k ==> a@[j] == b@[j],
        decreases n - k,
    {
        if a.get_char(k) != b.get_char(k) {
            return false;
        }
        k = k + 1;
    }
    proof {
        assert(a@ =~= b@);
    }
    true
}

/// The input widget: cursor position, focus, and its clipboard.
pub struct InputWidget {
    pub cursor_position: usize,
    pub focused: bool,
    pub clipboard_manager: ClipboardManager,
    pub clipboard_history_index: usize,
}

impl InputWidget {
    pub open spec fn wf(self) -> bool {
        self.clipboard_manager.wf()
    }

    /// A fresh widget: cursor at zero, unfocused, and a clipboard exactly as
    /// `ClipboardManager::new` builds it.
    pub fn new() -> (w: InputWidget)
        ensures
            w.wf(),
            w.cursor_position == 0,
            !w.focused,
            w.clipboard_history_index == 0,
            w.clipboard_manager.clipboard_content@ == Seq::<char>::empty(),
            w.clipboard_manager.history@.len() == 0,
            w.clipboard_manager.max_history_size == 10,
    {
        InputWidget {
            cursor_position: 0,
            focused: false,
            clipboard_manager: ClipboardManager::new(),
            clipboard_history_index: 0,
        }
    }

    pub fn set_focus(&mut self, focused: bool)
        requires
            old(self).wf(),
        ensures
            final(self).wf(),
            final(self).focused == focused,
            final(self).cursor_position == old(self).cursor_position,
            final(self).clipboard_manager == old(self).clipboard_manager,
    {
        self.focused = focused;
    }

    pub fn cursor_position(&self) -> (r: usize)
        ensures
            r == self.cursor_position,
    {
        self.cursor_position
    }

    pub fn set_cursor_position(&mut self, position: usize)
        requires
            old(self).wf(),
        ensures
            final(self).wf(),
            final(self).cursor_position == position,
            final(self).focused == old(self).focused,
            final(self).clipboard_manager == old(self).clipboard_manager,
    {
        self.cursor_position = position;
    }

    pub fn clipboard_manager(&self) -> (r: &ClipboardManager)
        ensures
            r == self.clipboard_manager,
    {
        &self.clipboard_manager
    }

    pub fn clipboard_manager_mut(&mut self) -> (r: &mut ClipboardManager)
        ensures
            *r == old(self).clipboard_manager,
            *final(self) == (InputWidget { clipboard_manager: *final(r), ..*old(self) }),
    {
        &mut self.clipboard_manager
    }
}

/// `p` is a prefix of `s`.
pub open spec fn has_prefix(s: Seq<char>, p: Seq<char>) -> bool {
    p.len() <= s.len() && s.subrange(0, p.len() as int) == p
}

fn starts_with(s: &str, p: &str) -> (r: bool)
    ensures
        r == has_prefix(s@, p@),
{
    let n = s.unicode_len();
    let m = p.unicode_len();
    if m > n {
        proof {
            assert(!has_prefix(s@, p@));
        }
        return false;
    }
    let mut k: usize = 0;
    while k < m
        invariant
            k <= m <= n,
            n == s@.len(),
            m == p@.len(),
            forall|j: int| 0 <= j < k ==> s@[j] == p@[j],
        decreases m - k,
    {
        if s.get_char(k) != p.get_char(k) {
            proof {
                assert(s@.subrange(0, m as int)[k as int] != p@[k as int]);
            }
            return false;
        }
        k = k + 1;
    }
    proof {
        assert(s@.subrange(0, m as int) =~= p@);
    }
    true
}

/// A valid URL: non-empty and carrying one of the recognised schemes.
pub open spec fn spec_valid_url(s: Seq<char>) -> bool {
    &&& s.len() > 0
    &&& {
        ||| has_prefix(s, "http://"@)
        ||| has_prefix(s, "https://"@)
        ||| has_prefix(s, "ftp://"@)
        ||| has_prefix(s, "ftps://"@)
        ||| has_prefix(s, "file://"@)
    }
}

/// Validates a URL: non-empty and starting with `http://`, `https://`,
/// `ftp://`, `ftps://` or `file://`.
pub fn validate_url(url: &str) -> (r: bool)
    ensures
        r == spec_valid_url(url@),
{
    if url.unicode_len() == 0 {
        return false;
    }
    starts_with(url, "http://") || starts_with(url, "https://") || starts_with(url, "ftp://")
        || starts_with(url, "ftps://") || starts_with(url, "file://")
}

/// A hyperlink under the OSC 8 terminal convention: the link text is wrapped
/// in escape sequences carrying the URL. An invalid URL yields the bare text.
pub open spec fn spec_hyperlink(url: Seq<char>, text: Seq<char>) -> Seq<char> {
    if spec_valid_url(url) {
        "\x1b]8;;"@ + url + "\x1b\\"@ + text + "\x1b]8;;\x1b\\"@
    } else {
        text
    }
}

/// Formats a hyperlink with OSC 8 escape sequences for terminal support.
pub fn format_hyperlink(url: &str, text: &str) -> (r: String)
    ensures
        r@ == spec_hyperlink(url@, text@),
{
    if validate_url(url) {
        let mut s = String::new();
        s.append("\x1b]8;;");
        s.append(url);
        s.append("\x1b\\");
        s.append(text);
        s.append("\x1b]8;;\x1b\\");
        proof {
            assert(s@ =~= spec_hyperlink(url@, text@));
        }
        s
    } else {
        text.to_owned()
    }
}

} // verus!
