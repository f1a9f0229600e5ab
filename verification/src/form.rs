//! The interactive form's state: name and email entry with validation
//! feedback, a status history, a shell-like command history, table selection
//! and the campaign-generation progress. Drawing, key polling and the
//! campaign files on disk belong to the caller.

use std::collections::VecDeque;
use vstd::prelude::*;
use vstd::string::StringExecFns;
use vstd::string::StringSliceAdditionalSpecFns;

use crate::decimal::{spec_decimal, u64_to_string};
use crate::input::strings_equal;
use crate::table::Key;

verus! {

/// Most entries the status history keeps.
pub const HISTORY_SIZE: usize = 10;

/// Most entries the command history keeps.
pub const COMMAND_HISTORY_SIZE: usize = 20;

/// How long, in milliseconds, the simulated campaign generation takes.
pub const GENERATION_MS: u64 = 3000;

#[derive(Debug, Clone, Copy, PartialEq, Eq, Structural)]
pub enum InputMode {
    Navigation,
    Editing,
    /// A campaign generation is running.
    Generating,
}

#[derive(Debug, Clone, Copy, PartialEq, Eq, Structural)]
pub enum InputField {
    Name,
    Email,
    Selection,
    Table,
}

#[derive(Debug, Clone, Copy, PartialEq, Eq, Structural)]
pub enum SelectOption {
    Yes,
    No,
    Maybe,
    Other,
}

/// The form's state.
pub struct App {
    pub name: String,
    pub email: String,
    pub input_mode: InputMode,
    pub active_field: InputField,
    pub selected_option: SelectOption,
    /// Status messages, newest first.
    pub history: VecDeque<String>,
    pub name_valid: bool,
    pub email_valid: bool,
    pub highlighted_rows: Vec<usize>,
    pub highlighted_cols: Vec<usize>,
    /// Campaign names with their scores, for the chart.
    pub data: Vec<(String, u64)>,
    pub table_data: Vec<Vec<String>>,
    pub table_headers: Vec<String>,
    pub selected_table_row: usize,
    pub selected_table_col: usize,
    /// Progress of the running generation, in percent.
    pub loading_progress: u16,
    pub show_loading: bool,
    pub campaign_generated: bool,
    pub show_image_placeholder: bool,
    /// When the running generation started, in milliseconds.
    pub last_generation_time: Option<u64>,
    /// Entered commands, newest first.
    pub command_history: VecDeque<String>,
    /// Which command history entry is being browsed, if any.
    pub history_index: Option<usize>,
    /// The live input saved away while the history is browsed.
    pub current_input_backup: String,
}

/// A history after an entry was pushed in front and the bound enforced: the
/// oldest entries beyond the bound fall off.
pub open spec fn pushed_bounded(hist: Seq<Seq<char>>, entry: Seq<char>, bound: int) -> Seq<
    Seq<char>,
> {
    let p = seq![entry] + hist;
    if p.len() <= bound {
        p
    } else {
        p.subrange(0, bound)
    }
}

/// The view of a history: each entry as its character sequence.
pub open spec fn history_view(h: Seq<String>) -> Seq<Seq<char>> {
    h.map_values(|s: String| s@)
}

/// An ASCII whitespace character.
pub open spec fn is_space_char(c: char) -> bool {
    c == ' ' || c == '\t' || c == '\n' || c == '\r'
}

/// The form's email rule: a single `@` preceded by at least one character,
/// no whitespace anywhere, a dot with at least one character between it and
/// the `@` and at least one after it, and no dot at the very end.
pub open spec fn spec_form_email_valid(s: Seq<char>) -> bool {
    exists|at: int|
        {
            &&& 1 <= at < s.len()
            &&& #[trigger] s[at] == '@'
            &&& (forall|j: int| 0 <= j < s.len() && j != at ==> s[j] != '@')
            &&& (forall|j: int| 0 <= j < s.len() ==> !is_space_char(#[trigger] s[j]))
            &&& (exists|d: int| at + 2 <= d <= s.len() - 2 && s[d] == '.')
            &&& s[s.len() - 1] != '.'
        }
}

/// The form's name rule: at least two characters once surrounding ASCII
/// whitespace is removed.
pub open spec fn spec_form_name_valid(s: Seq<char>) -> bool {
    spec_trim_chars(s).len() >= 2
}

impl App {
    /// Well-formedness: bounded histories, a browsing index inside the
    /// command history, and a table selection inside the table.
    pub open spec fn wf(self) -> bool {
        &&& self.history@.len() <= HISTORY_SIZE
        &&& self.command_history@.len() <= COMMAND_HISTORY_SIZE
        &&& self.history_index matches Some(i) ==> i < self.command_history@.len()
        &&& self.table_data@.len() >= 1
        &&& self.table_headers@.len() >= 1
        &&& self.selected_table_row < self.table_data@.len()
        &&& self.selected_table_col < self.table_headers@.len()
    }

    /// Adds a status message in front of the history; beyond the bound the
    /// oldest messages fall off.
    pub fn add_to_history(&mut self, entry: String)
        requires
            old(self).wf(),
        ensures
            final(self).wf(),
            history_view(final(self).history@) == pushed_bounded(
                history_view(old(self).history@),
                entry@,
                HISTORY_SIZE as int,
            ),
            *final(self) == (App { history: final(self).history, ..*old(self) }),
    {
        let ghost before = self.history@;
        proof {
            assert(history_view(before).len() <= HISTORY_SIZE);
        }
        self.history.push_front(entry);
        proof {
            assert(history_view(self.history@) =~= seq![entry@] + history_view(before));
        }
        if self.history.len() > HISTORY_SIZE {
            let ghost mid = self.history@;
            let _ = self.history.pop_back();
            proof {
                assert(history_view(self.history@) =~= history_view(mid).subrange(
                    0,
                    HISTORY_SIZE as int,
                ));
            }
        }
    }
}

impl Default for App {
    /// A fresh form: two welcome messages in the history, demonstration
    /// chart and table data, nothing validated and nothing running.
    fn default() -> (a: App)
        ensures
            a.wf(),
            a.name@ == Seq::<char>::empty(),
            a.email@ == Seq::<char>::empty(),
            a.input_mode == InputMode::Navigation,
            a.active_field == InputField::Name,
            a.selected_option == SelectOption::Yes,
            a.history@.len() == 2,
            !a.name_valid,
            !a.email_valid,
            a.highlighted_rows@ == seq![0usize],
            a.highlighted_cols@ == seq![0usize],
            a.data@.len() == 6,
            a.table_data@.len() == 5,
            a.table_headers@.len() == 4,
            a.selected_table_row == 0,
            a.selected_table_col == 0,
            a.loading_progress == 0,
            !a.show_loading,
            !a.campaign_generated,
            a.show_image_placeholder,
            a.last_generation_time is None,
            a.command_history@.len() == 0,
            a.history_index is None,
            a.current_input_backup@ == Seq::<char>::empty(),
    {
        let mut history: VecDeque<String> = VecDeque::new();
        history.push_back("Welcome to Vue.js-style TUI".to_owned());
        history.push_back("Enter your information below".to_owned());

        let mut data: Vec<(String, u64)> = Vec::new();
        data.push(("Campaign A".to_owned(), 95));
        data.push(("Campaign B".to_owned(), 67));
        data.push(("Campaign C".to_owned(), 78));
        data.push(("Campaign D".to_owned(), 89));
        data.push(("Campaign E".to_owned(), 45));
        data.push(("Campaign F".to_owned(), 93));

        let mut table_data: Vec<Vec<String>> = Vec::new();
        let mut row: Vec<String> = Vec::new();
        row.push("John".to_owned());
        row.push("john@example.com".to_owned());
        row.push("Yes".to_owned());
        row.push("Premium".to_owned());
        table_data.push(row);
        let mut row: Vec<String> = Vec::new();
        row.push("Alice".to_owned());
        row.push("alice@example.com".to_owned());
        row.push("No".to_owned());
        row.push("Basic".to_owned());
        table_data.push(row);
        let mut row: Vec<String> = Vec::new();
        row.push("Bob".to_owned());
        row.push("bob@example.com".to_owned());
        row.push("Maybe".to_owned());
        row.push("Premium".to_owned());
        table_data.push(row);
        let mut row: Vec<String> = Vec::new();
        row.push("Sarah".to_owned());
        row.push("sarah@example.com".to_owned());
        row.push("Yes".to_owned());
        row.push("Basic".to_owned());
        table_data.push(row);
        let mut row: Vec<String> = Vec::new();
        row.push("Mike".to_owned());
        row.push("mike@example.com".to_owned());
        row.push("Other".to_owned());
        row.push("Premium".to_owned());
        table_data.push(row);

        let mut table_headers: Vec<String> = Vec::new();
        table_headers.push("Name".to_owned());
        table_headers.push("Email".to_owned());
        table_headers.push("Subscribe".to_owned());
        table_headers.push("Plan".to_owned());

        let mut highlighted_rows: Vec<usize> = Vec::new();
        highlighted_rows.push(0);
        let mut highlighted_cols: Vec<usize> = Vec::new();
        highlighted_cols.push(0);
        proof {
            assert(highlighted_rows@ =~= seq![0usize]);
            assert(highlighted_cols@ =~= seq![0usize]);
        }

        App {
            name: String::new(),
            email: String::new(),
            input_mode: InputMode::Navigation,
            active_field: InputField::Name,
            selected_option: SelectOption::Yes,
            history,
            name_valid: false,
            email_valid: false,
            highlighted_rows,
            highlighted_cols,
            data,
            table_data,
            table_headers,
            selected_table_row: 0,
            selected_table_col: 0,
            loading_progress: 0,
            show_loading: false,
            campaign_generated: false,
            show_image_placeholder: true,
            last_generation_time: None,
            command_history: VecDeque::new(),
            history_index: None,
            current_input_backup: String::new(),
        }
    }
}

impl App {
    /// Starts the simulated campaign generation at `now_ms`.
    pub fn start_campaign_generation(&mut self, now_ms: u64)
        requires
            old(self).wf(),
        ensures
            final(self).wf(),
            final(self).input_mode == InputMode::Generating,
            final(self).show_loading,
            final(self).loading_progress == 0,
            !final(self).campaign_generated,
            final(self).last_generation_time == Some(now_ms),
            final(self).history@ == old(self).history@,
            final(self).name == old(self).name,
            final(self).email == old(self).email,
    {
        self.input_mode = InputMode::Generating;
        self.show_loading = true;
        self.loading_progress = 0;
        self.campaign_generated = false;
        self.last_generation_time = Some(now_ms);
    }

    /// One progress check of a running generation at `now_ms`. Before the
    /// generation time has elapsed the progress percentage advances; once it
    /// has, loading ends, the campaign is marked generated, the form returns
    /// to navigation, a success message enters the history, and the caller
    /// is asked — by the returned flag — to write the campaign files.
    pub fn update_loading(&mut self, now_ms: u64) -> (write_files: bool)
        requires
            old(self).wf(),
        ensures
            final(self).wf(),
            old(self).last_generation_time is None ==> *final(self) == *old(self) && !write_files,
            old(self).last_generation_time matches Some(start) ==> {
                let elapsed = if now_ms >= start {
                    now_ms - start
                } else {
                    0
                };
                &&& (elapsed >= GENERATION_MS ==> {
                    &&& write_files
                    &&& final(self).loading_progress == 100
                    &&& !final(self).show_loading
                    &&& final(self).campaign_generated
                    &&& final(self).input_mode == InputMode::Navigation
                    &&& history_view(final(self).history@) == pushed_bounded(
                        history_view(old(self).history@),
                        "✓ Campaign files generated successfully!"@,
                        HISTORY_SIZE as int,
                    )
                })
                &&& (elapsed < GENERATION_MS ==> {
                    &&& !write_files
                    &&& final(self).loading_progress == elapsed * 100 / (GENERATION_MS as int)
                    &&& final(self).show_loading == old(self).show_loading
                    &&& final(self).campaign_generated == old(self).campaign_generated
                    &&& final(self).history@ == old(self).history@
                })
            },
    {
        let start = match self.last_generation_time {
            Some(t) => t,
            None => {
                return false;
            },
        };
        let elapsed: u64 = if now_ms >= start {
            now_ms - start
        } else {
            0
        };
        if elapsed >= GENERATION_MS {
            self.loading_progress = 100;
            self.show_loading = false;
            self.campaign_generated = true;
            self.input_mode = InputMode::Navigation;
            self.add_to_history("✓ Campaign files generated successfully!".to_owned());
            true
        } else {
            let p: u64 = elapsed * 100 / GENERATION_MS;
            proof {
                assert(elapsed * 100 < 300000);
                assert(p < 100);
            }
            self.loading_progress = (p as u16);
            false
        }
    }
}

/// The characters with leading ASCII whitespace removed.
pub open spec fn spec_trim_front_chars(s: Seq<char>) -> Seq<char>
    decreases s.len(),
{
    if s.len() == 0 {
        s
    } else if is_space_char(s[0]) {
        spec_trim_front_chars(s.drop_first())
    } else {
        s
    }
}

/// The characters with trailing ASCII whitespace removed.
pub open spec fn spec_trim_back_chars(s: Seq<char>) -> Seq<char>
    decreases s.len(),
{
    if s.len() == 0 {
        s
    } else if is_space_char(s.last()) {
        spec_trim_back_chars(s.drop_last())
    } else {
        s
    }
}

/// The characters with ASCII whitespace removed at both ends.
pub open spec fn spec_trim_chars(s: Seq<char>) -> Seq<char> {
    spec_trim_back_chars(spec_trim_front_chars(s))
}

/// Whether the character at `i` is ASCII whitespace.
fn space_char_at(s: &str, i: usize) -> (r: bool)
    requires
        i < s@.len(),
    ensures
        r == is_space_char(s@[i as int]),
{
    let c = s.get_char(i);
    c == ' ' || c == '\t' || c == '\n' || c == '\r'
}

/// The character range of the trimmed content.
fn trimmed_char_range(s: &str) -> (r: (usize, usize))
    ensures
        r.0 <= r.1 <= s@.len(),
        s@.subrange(r.0 as int, r.1 as int) == spec_trim_chars(s@),
{
    let n = s.unicode_len();
    proof {
        assert(s@.subrange(0, n as int) =~= s@);
    }
    let mut f: usize = 0;
    while f < n && space_char_at(s, f)
        invariant
            f <= n,
            n == s@.len(),
            spec_trim_front_chars(s@) == spec_trim_front_chars(s@.subrange(f as int, n as int)),
        decreases n - f,
    {
        proof {
            assert(s@.subrange(f as int, n as int).drop_first() =~= s@.subrange(f + 1, n as int));
        }
        f = f + 1;
    }
    proof {
        assert(spec_trim_front_chars(s@) =~= s@.subrange(f as int, n as int));
    }
    let mut l: usize = n;
    while l > f && space_char_at(s, l - 1)
        invariant
            f <= l <= n,
            n == s@.len(),
            spec_trim_front_chars(s@) == s@.subrange(f as int, n as int),
            spec_trim_back_chars(s@.subrange(f as int, n as int)) == spec_trim_back_chars(
                s@.subrange(f as int, l as int),
            ),
        decreases l,
    {
        proof {
            assert(s@.subrange(f as int, l as int).drop_last() =~= s@.subrange(f as int, l - 1));
        }
        l = l - 1;
    }
    proof {
        assert(spec_trim_back_chars(s@.subrange(f as int, l as int)) =~= s@.subrange(
            f as int,
            l as int,
        ));
    }
    (f, l)
}

/// `needle` occurs in `hay` as a contiguous run.
pub open spec fn spec_contains_sub(hay: Seq<char>, needle: Seq<char>) -> bool {
    exists|k: int|
        0 <= k && k + needle.len() <= hay.len() && #[trigger] hay.subrange(k, k + needle.len())
            == needle
}

/// Whether one string contains another.
fn contains_substring(hay: &str, needle: &str) -> (r: bool)
    ensures
        r == spec_contains_sub(hay@, needle@),
{
    let n = hay.unicode_len();
    let m = needle.unicode_len();
    if m > n {
        return false;
    }
    let mut k: usize = 0;
    while k <= n - m
        invariant
            m <= n,
            k <= n - m + 1,
            n == hay@.len(),
            m == needle@.len(),
            forall|j: int| 0 <= j < k ==> (#[trigger] hay@.subrange(j, j + needle@.len())) != needle@,
        decreases n - k,
    {
        let mut i: usize = 0;
        let mut hit = true;
        while i < m
            invariant
                i <= m,
                k + m <= n,
                n == hay@.len(),
                m == needle@.len(),
                hit == (forall|j: int| 0 <= j < i ==> hay@[k + j] == needle@[j]),
            decreases m - i,
        {
            if hay.get_char(k + i) != needle.get_char(i) {
                proof {
                    assert(hay@[k + i] != needle@[i as int]);
                }
                hit = false;
            }
            i = i + 1;
        }
        if hit {
            proof {
                assert(hay@.subrange(k as int, k + needle@.len()) =~= needle@);
            }
            return true;
        }
        proof {
            assert(exists|j: int|
                0 <= j < m && hay@[k + j] != needle@[j]);
            assert(hay@.subrange(k as int, k + needle@.len()) != needle@) by {
                let j = choose|j: int| 0 <= j < m && hay@[k + j] != needle@[j];
                assert(hay@.subrange(k as int, k + needle@.len())[j] == hay@[k + j]);
            }
        }
        k = k + 1;
    }
    proof {
        assert forall|j: int| !(0 <= j && j + needle@.len() <= hay@.len() && (
        #[trigger] hay@.subrange(j, j + needle@.len())) == needle@) by {
            if 0 <= j && j + needle@.len() <= hay@.len() {
                assert(j < k);
            }
        }
    }
    false
}

/// The complaint the form attaches to an invalid email.
pub open spec fn spec_email_reason(s: Seq<char>) -> Seq<char> {
    if !s.contains('@') {
        "Missing @ symbol"@
    } else if !s.contains('.') {
        "Missing domain (.com, .org, etc.)"@
    } else if s[0] == '@' {
        "Cannot start with @"@
    } else if s[s.len() - 1] == '.' {
        "Cannot end with ."@
    } else if exists|i: int, j: int|
        0 <= i < j < s.len() && (#[trigger] s[i]) == '@' && (#[trigger] s[j]) == '@' {
        "Too many @ symbols"@
    } else {
        "Invalid email format"@
    }
}

impl App {
    /// Re-validates the name: at least two bytes once surrounding ASCII
    /// whitespace is removed. When the verdict changes, a complaint or a
    /// confirmation enters the history.
    pub fn validate_name(&mut self)
        requires
            old(self).wf(),
        ensures
            final(self).wf(),
            final(self).name_valid == spec_form_name_valid(old(self).name@),
            ({
                let became = final(self).name_valid;
                let was = old(self).name_valid;
                let complain = old(self).name@.len() > 0 && !became && was != became;
                let confirm = became && was != became;
                &&& complain ==> history_view(final(self).history@) == pushed_bounded(
                    history_view(old(self).history@),
                    "✗ Name must be at least 2 characters"@,
                    HISTORY_SIZE as int,
                )
                &&& (!complain && confirm) ==> history_view(final(self).history@) == pushed_bounded(
                    history_view(old(self).history@),
                    "✓ Name is valid"@,
                    HISTORY_SIZE as int,
                )
                &&& (!complain && !confirm) ==> final(self).history@ == old(self).history@
            }),
            *final(self) == (App {
                name_valid: final(self).name_valid,
                history: final(self).history,
                ..*old(self)
            }),
    {
        let (f, l) = trimmed_char_range(self.name.as_str());
        let was_valid = self.name_valid;
        self.name_valid = l - f >= 2;
        if self.name.unicode_len() > 0 && !self.name_valid && was_valid != self.name_valid {
            self.add_to_history("✗ Name must be at least 2 characters".to_owned());
        } else if self.name_valid && was_valid != self.name_valid {
            self.add_to_history("✓ Name is valid".to_owned());
        }
    }
}

impl App {
    /// Re-validates the email against the form's rule and stores the
    /// verdict. An invalid non-empty address earns a complaint naming the
    /// first problem found, added to the history unless the newest entry
    /// already carries that complaint.
    pub fn validate_email(&mut self)
        requires
            old(self).wf(),
        ensures
            final(self).wf(),
            final(self).email_valid == (old(self).email@.len() > 0 && spec_form_email_valid(
                old(self).email@,
            )),
            *final(self) == (App {
                email_valid: final(self).email_valid,
                history: final(self).history,
                ..*old(self)
            }),
            old(self).email@.len() == 0 ==> final(self).history@ == old(self).history@,
            final(self).email_valid ==> final(self).history@ == old(self).history@,
            (old(self).email@.len() > 0 && !spec_form_email_valid(old(self).email@)) ==> ({
                let msg = "✗ Email: "@ + spec_email_reason(old(self).email@);
                let repeated = old(self).history@.len() > 0 && spec_contains_sub(
                    old(self).history@[0]@,
                    msg,
                );
                &&& repeated ==> final(self).history@ == old(self).history@
                &&& !repeated ==> history_view(final(self).history@) == pushed_bounded(
                    history_view(old(self).history@),
                    msg,
                    HISTORY_SIZE as int,
                )
            }),
    {
        let n = self.email.as_str().unicode_len();
        if n == 0 {
            self.email_valid = false;
            return ;
        }
        let ghost sv = self.email@;
        let mut first_at: Option<usize> = None;
        let mut multi_at = false;
        let mut any_space = false;
        let mut any_dot = false;
        let mut k: usize = 0;
        while k < n
            invariant
                k <= n,
                n == self.email@.len(),
                sv == self.email@,
                match first_at {
                    Some(p) => {
                        &&& p < k
                        &&& sv[p as int] == '@'
                        &&& (forall|i: int| 0 <= i < p ==> (#[trigger] sv[i]) != '@')
                        &&& multi_at == exists|i: int| p < i < k && (#[trigger] sv[i]) == '@'
                    },
                    None => {
                        &&& (forall|i: int| 0 <= i < k ==> (#[trigger] sv[i]) != '@')
                        &&& !multi_at
                    },
                },
                any_space == exists|i: int| 0 <= i < k && is_space_char(#[trigger] sv[i]),
                any_dot == exists|i: int| 0 <= i < k && (#[trigger] sv[i]) == '.',
            decreases n - k,
        {
            let c = self.email.as_str().get_char(k);
            if c == '@' {
                if first_at.is_none() {
                    first_at = Some(k);
                } else {
                    multi_at = true;
                }
            }
            if c == ' ' || c == '\t' || c == '\n' || c == '\r' {
                any_space = true;
            }
            if c == '.' {
                any_dot = true;
            }
            k = k + 1;
        }
        let last_is_dot = self.email.as_str().get_char(n - 1) == '.';
        let valid: bool = match first_at {
            None => false,
            Some(at) => {
                if at == 0 || multi_at || any_space || last_is_dot {
                    false
                } else {
                    let mut d: usize = at + 1;
                    let mut win = false;
                    while d < n - 1
                        invariant
                            at < n,
                            at + 1 <= d <= n,
                            n == sv.len(),
                            sv == self.email@,
                            win == exists|dd: int|
                                at + 2 <= dd < d && (#[trigger] sv[dd]) == '.',
                        decreases n - d,
                    {
                        if d != at + 1 && self.email.as_str().get_char(d) == '.' {
                            win = true;
                        }
                        d = d + 1;
                    }
                    win
                }
            },
        };
        proof {
            if valid {
                let at = first_at->0;
                assert(spec_form_email_valid(sv)) by {
                    assert forall|j: int| 0 <= j < sv.len() && j != at implies sv[j] != '@' by {}
                    assert forall|j: int| 0 <= j < sv.len() implies !is_space_char(
                        #[trigger] sv[j],
                    ) by {}
                    let dd = choose|dd: int| at + 2 <= dd < sv.len() && (#[trigger] sv[dd]) == '.';
                    assert(sv[dd] == '.' && at + 2 <= dd <= sv.len() - 2);
                }
            } else {
                if spec_form_email_valid(sv) {
                    let a = choose|a: int|
                        {
                            &&& 1 <= a < sv.len()
                            &&& #[trigger] sv[a] == '@'
                            &&& (forall|j: int| 0 <= j < sv.len() && j != a ==> sv[j] != '@')
                            &&& (forall|j: int|
                                0 <= j < sv.len() ==> !is_space_char(#[trigger] sv[j]))
                            &&& (exists|d: int| a + 2 <= d <= sv.len() - 2 && sv[d] == '.')
                            &&& sv[sv.len() - 1] != '.'
                        };
                    match first_at {
                        Some(p) => {
                            assert(p == a);
                            assert(!multi_at);
                            assert(!any_space);
                            assert(!last_is_dot);
                        },
                        None => {
                            assert(sv[a] == '@');
                        },
                    }
                }
            }
        }
        self.email_valid = valid;
        if !valid {
            let reason: &'static str = if first_at.is_none() {
                "Missing @ symbol"
            } else if !any_dot {
                "Missing domain (.com, .org, etc.)"
            } else if matches!(first_at, Some(0)) {
                "Cannot start with @"
            } else if last_is_dot {
                "Cannot end with ."
            } else if multi_at {
                "Too many @ symbols"
            } else {
                "Invalid email format"
            };
            proof {
                assert(reason@ == spec_email_reason(sv)) by {
                    if first_at is Some {
                        assert(sv.contains(sv[first_at->0 as int]));
                    }
                    if any_dot {
                        let i = choose|i: int| 0 <= i < sv.len() && (#[trigger] sv[i]) == '.';
                        assert(sv.contains(sv[i]));
                    }
                    if sv.contains('@') {
                        let i = choose|i: int| 0 <= i < sv.len() && sv[i] == '@';
                        assert(first_at is Some);
                    }
                    if sv.contains('.') {
                        let i = choose|i: int| 0 <= i < sv.len() && sv[i] == '.';
                        assert(any_dot);
                    }
                    if multi_at && first_at is Some {
                        let p = first_at->0 as int;
                        let i = choose|i: int| p < i < sv.len() && (#[trigger] sv[i]) == '@';
                        assert(0 <= p < i < sv.len() && sv[p] == '@' && sv[i] == '@');
                    }
                    if exists|i: int, j: int|
                        0 <= i < j < sv.len() && (#[trigger] sv[i]) == '@' && (#[trigger] sv[j])
                            == '@' {
                        let (i, j) = choose|i: int, j: int|
                            0 <= i < j < sv.len() && (#[trigger] sv[i]) == '@' && (
                            #[trigger] sv[j]) == '@';
                        if first_at is Some && !multi_at {
                            let p = first_at->0 as int;
                            assert(i == p && j == p);
                        }
                    }
                }
            }
            let mut msg = String::new();
            msg.append("✗ Email: ");
            msg.append(reason);
            proof {
                assert(msg@ =~= "✗ Email: "@ + spec_email_reason(sv));
            }
            let repeated = if self.history.len() > 0 {
                contains_substring(self.history[0].as_str(), msg.as_str())
            } else {
                false
            };
            if !repeated {
                self.add_to_history(msg);
            }
        }
    }
}

/// Where a scroll through the command history lands: moving up (a positive
/// direction) goes from the live input to the newest entry and on towards
/// older ones; moving down returns towards the live input.
pub open spec fn spec_scroll_target(cur: Option<usize>, len: int, direction: int) -> Option<
    usize,
> {
    match cur {
        None => if direction > 0 {
            Some(0usize)
        } else {
            None
        },
        Some(c) => if direction > 0 && c + 1 < len {
            Some((c + 1) as usize)
        } else if direction < 0 && c > 0 {
            Some((c - 1) as usize)
        } else if direction < 0 && c == 0 {
            None
        } else {
            Some(c)
        },
    }
}

impl App {
    /// Whether the command history holds this exact command.
    fn command_history_contains(&self, command: &String) -> (r: bool)
        ensures
            r == exists|i: int|
                0 <= i < self.command_history@.len() && (#[trigger] self.command_history@[i])@
                    == command@,
    {
        let n = self.command_history.len();
        let mut k: usize = 0;
        while k < n
            invariant
                k <= n,
                n == self.command_history@.len(),
                forall|i: int| 0 <= i < k ==> (#[trigger] self.command_history@[i])@ != command@,
            decreases n - k,
        {
            if strings_equal(self.command_history[k].as_str(), command.as_str()) {
                return true;
            }
            k = k + 1;
        }
        false
    }

    /// Records an entered command: a command with visible content that is
    /// not already in the history enters it newest-first, bounded; browsing
    /// stops and the saved live input is dropped either way.
    pub fn add_to_command_history(&mut self, command: String)
        requires
            old(self).wf(),
        ensures
            final(self).wf(),
            ({
                let kept = spec_trim_chars(command@).len() > 0 && !(exists|i: int|
                    0 <= i < old(self).command_history@.len() && (#[trigger] old(self).command_history@[i])@ == command@);
                &&& kept ==> history_view(final(self).command_history@) == pushed_bounded(
                    history_view(old(self).command_history@),
                    command@,
                    COMMAND_HISTORY_SIZE as int,
                )
                &&& !kept ==> final(self).command_history@ == old(self).command_history@
            }),
            final(self).history_index is None,
            final(self).current_input_backup@ == Seq::<char>::empty(),
            final(self).name == old(self).name,
            final(self).email == old(self).email,
            final(self).history@ == old(self).history@,
    {
        let (f, l) = trimmed_char_range(command.as_str());
        let visible = l > f;
        let dup = self.command_history_contains(&command);
        if visible && !dup {
            let ghost before = self.command_history@;
            self.command_history.push_front(command);
            proof {
                assert(history_view(self.command_history@) =~= seq![self.command_history@[0]@]
                    + history_view(before));
            }
            if self.command_history.len() > COMMAND_HISTORY_SIZE {
                let ghost mid = self.command_history@;
                let _ = self.command_history.pop_back();
                proof {
                    assert(history_view(self.command_history@) =~= history_view(mid).subrange(
                        0,
                        COMMAND_HISTORY_SIZE as int,
                    ));
                }
            }
        }
        self.history_index = None;
        self.current_input_backup = String::new();
    }

    /// Scrolls through the command history: the first scroll away from the
    /// live input saves it; each step restores an entry (or, back at the
    /// bottom, the saved input) into the active field and re-validates it.
    /// Returns whether anything changed.
    pub fn scroll_command_history(&mut self, direction: i32) -> (changed: bool)
        requires
            old(self).wf(),
        ensures
            final(self).wf(),
            old(self).command_history@.len() == 0 ==> !changed && *final(self) == *old(self),
            old(self).command_history@.len() > 0 ==> ({
                let t = spec_scroll_target(
                    old(self).history_index,
                    old(self).command_history@.len() as int,
                    direction as int,
                );
                let saved = if old(self).history_index is None {
                    match old(self).active_field {
                        InputField::Name => old(self).name@,
                        InputField::Email => old(self).email@,
                        _ => Seq::<char>::empty(),
                    }
                } else {
                    old(self).current_input_backup@
                };
                let restored = match t {
                    Some(i) => old(self).command_history@[i as int]@,
                    None => saved,
                };
                &&& changed == (t != old(self).history_index)
                &&& final(self).history_index == t
                &&& final(self).current_input_backup@ == saved
                &&& final(self).command_history@ == old(self).command_history@
                &&& (changed && old(self).active_field == InputField::Name ==> final(self).name@
                    == restored && final(self).name_valid == spec_form_name_valid(restored)
                    && final(self).email == old(self).email)
                &&& (changed && old(self).active_field == InputField::Email ==> final(self).email@
                    == restored && final(self).email_valid == (restored.len() > 0
                    && spec_form_email_valid(restored)) && final(self).name == old(self).name)
                &&& (!changed ==> final(self).name == old(self).name && final(self).email == old(self).email)
            }),
    {
        if self.command_history.len() == 0 {
            return false;
        }
        if self.history_index.is_none() {
            self.current_input_backup = match self.active_field {
                InputField::Name => self.name.clone(),
                InputField::Email => self.email.clone(),
                _ => String::new(),
            };
        }
        let new_index: Option<usize> = match self.history_index {
            None => {
                if direction > 0 {
                    Some(0)
                } else {
                    None
                }
            },
            Some(current) => {
                if direction > 0 && current + 1 < self.command_history.len() {
                    Some(current + 1)
                } else if direction < 0 && current > 0 {
                    Some(current - 1)
                } else if direction < 0 && current == 0 {
                    None
                } else {
                    Some(current)
                }
            },
        };
        let changed = match (new_index, self.history_index) {
            (Some(a), Some(b)) => a != b,
            (None, None) => false,
            _ => true,
        };
        if changed {
            self.history_index = new_index;
            let text: String = match new_index {
                Some(idx) => self.command_history[idx].clone(),
                None => self.current_input_backup.clone(),
            };
            match self.active_field {
                InputField::Name => {
                    self.name = text;
                    self.validate_name();
                },
                InputField::Email => {
                    self.email = text;
                    self.validate_email();
                },
                _ => {},
            }
            return true;
        }
        false
    }
}

/// A status line naming a selected range: the prefix, the two bounds in
/// decimal, and a dash between them.
pub open spec fn spec_range_message(prefix: Seq<char>, start: int, end: int) -> Seq<char> {
    prefix + spec_decimal(start) + "-"@ + spec_decimal(end)
}

impl App {
    /// Whether a row is already highlighted.
    fn row_highlighted(&self, row: usize) -> (r: bool)
        ensures
            r == self.highlighted_rows@.contains(row),
    {
        let n = self.highlighted_rows.len();
        let mut k: usize = 0;
        while k < n
            invariant
                k <= n,
                n == self.highlighted_rows@.len(),
                forall|i: int| 0 <= i < k ==> (#[trigger] self.highlighted_rows@[i]) != row,
            decreases n - k,
        {
            if self.highlighted_rows[k] == row {
                return true;
            }
            k = k + 1;
        }
        false
    }

    /// Whether a column is already highlighted.
    fn col_highlighted(&self, col: usize) -> (r: bool)
        ensures
            r == self.highlighted_cols@.contains(col),
    {
        let n = self.highlighted_cols.len();
        let mut k: usize = 0;
        while k < n
            invariant
                k <= n,
                n == self.highlighted_cols@.len(),
                forall|i: int| 0 <= i < k ==> (#[trigger] self.highlighted_cols@[i]) != col,
            decreases n - k,
        {
            if self.highlighted_cols[k] == col {
                return true;
            }
            k = k + 1;
        }
        false
    }

    /// Moves the table selection one step, clamped at the table's edges.
    /// With shift held the crossed range of rows or columns joins the
    /// highlight set — each line once — and a status message names the
    /// range; without shift the highlight collapses to the new cell. A key
    /// that is no arrow does nothing.
    pub fn move_table_selection(&mut self, direction: Key, with_shift: bool)
        requires
            old(self).wf(),
        ensures
            final(self).wf(),
            direction matches Key::Char(_) ==> *final(self) == *old(self),
            !(direction matches Key::Char(_)) ==> ({
                let old_row = old(self).selected_table_row;
                let old_col = old(self).selected_table_col;
                let new_row = if direction == Key::Up {
                    if old_row > 0 {
                        (old_row - 1) as usize
                    } else {
                        old_row
                    }
                } else if direction == Key::Down {
                    if old_row + 1 < old(self).table_data@.len() {
                        (old_row + 1) as usize
                    } else {
                        old_row
                    }
                } else {
                    old_row
                };
                let new_col = if direction == Key::Left {
                    if old_col > 0 {
                        (old_col - 1) as usize
                    } else {
                        old_col
                    }
                } else if direction == Key::Right {
                    if old_col + 1 < old(self).table_headers@.len() {
                        (old_col + 1) as usize
                    } else {
                        old_col
                    }
                } else {
                    old_col
                };
                &&& final(self).selected_table_row == new_row
                &&& final(self).selected_table_col == new_col
                &&& final(self).table_data@ == old(self).table_data@
                &&& final(self).table_headers@ == old(self).table_headers@
                &&& (!with_shift ==> final(self).highlighted_rows@ == seq![new_row] && final(self).highlighted_cols@ == seq![new_col] && final(self).history@ == old(self).history@)
                &&& (with_shift && (direction == Key::Up || direction == Key::Down) ==> {
                    let start = if old_row <= new_row {
                        old_row as int
                    } else {
                        new_row as int
                    };
                    let end = if old_row <= new_row {
                        new_row as int
                    } else {
                        old_row as int
                    };
                    &&& (forall|r: int|
                        start <= r <= end ==> final(self).highlighted_rows@.contains(
                            #[trigger] (r as usize),
                        ))
                    &&& (forall|i: int|
                        0 <= i < old(self).highlighted_rows@.len() ==> final(self).highlighted_rows@.contains(#[trigger] old(self).highlighted_rows@[i]))
                    &&& final(self).highlighted_cols@ == old(self).highlighted_cols@
                    &&& history_view(final(self).history@) == pushed_bounded(
                        history_view(old(self).history@),
                        spec_range_message("Selected rows "@, start, end),
                        HISTORY_SIZE as int,
                    )
                })
                &&& (with_shift && (direction == Key::Left || direction == Key::Right) ==> {
                    let start = if old_col <= new_col {
                        old_col as int
                    } else {
                        new_col as int
                    };
                    let end = if old_col <= new_col {
                        new_col as int
                    } else {
                        old_col as int
                    };
                    &&& (forall|c: int|
                        start <= c <= end ==> final(self).highlighted_cols@.contains(
                            #[trigger] (c as usize),
                        ))
                    &&& (forall|i: int|
                        0 <= i < old(self).highlighted_cols@.len() ==> final(self).highlighted_cols@.contains(#[trigger] old(self).highlighted_cols@[i]))
                    &&& final(self).highlighted_rows@ == old(self).highlighted_rows@
                    &&& history_view(final(self).history@) == pushed_bounded(
                        history_view(old(self).history@),
                        spec_range_message("Selected columns "@, start, end),
                        HISTORY_SIZE as int,
                    )
                })
            }),
    {
        let old_row = self.selected_table_row;
        let old_col = self.selected_table_col;

        match direction {
            Key::Up => {
                if self.selected_table_row > 0 {
                    self.selected_table_row = self.selected_table_row - 1;
                }
            },
            Key::Down => {
                if self.selected_table_row < self.table_data.len() - 1 {
                    self.selected_table_row = self.selected_table_row + 1;
                }
            },
            Key::Left => {
                if self.selected_table_col > 0 {
                    self.selected_table_col = self.selected_table_col - 1;
                }
            },
            Key::Right => {
                if self.selected_table_col < self.table_headers.len() - 1 {
                    self.selected_table_col = self.selected_table_col + 1;
                }
            },
            Key::Char(_) => {
                return ;
            },
        }

        if with_shift {
            match direction {
                Key::Up | Key::Down => {
                    let start = if old_row <= self.selected_table_row {
                        old_row
                    } else {
                        self.selected_table_row
                    };
                    let end = if old_row <= self.selected_table_row {
                        self.selected_table_row
                    } else {
                        old_row
                    };
                    let cap = self.table_data.len();
                    let mut row = start;
                    while row <= end
                        invariant
                            start <= row <= end + 1,
                            end < cap,
                            cap == self.table_data@.len(),
                            self.wf(),
                            self.selected_table_row == if old_row <= self.selected_table_row {
                                end
                            } else {
                                start
                            },
                            self.selected_table_col < self.table_headers@.len(),
                            forall|r: int|
                                start <= r < row ==> self.highlighted_rows@.contains(
                                    #[trigger] (r as usize),
                                ),
                            forall|i: int|
                                0 <= i < old(self).highlighted_rows@.len()
                                    ==> self.highlighted_rows@.contains(
                                    #[trigger] old(self).highlighted_rows@[i],
                                ),
                            self.highlighted_cols@ == old(self).highlighted_cols@,
                            self.history@ == old(self).history@,
                            self.table_data@ == old(self).table_data@,
                            self.table_headers@ == old(self).table_headers@,
                            self.selected_table_row == final_row_of(
                                direction,
                                old_row,
                                old(self).table_data@.len() as int,
                            ),
                            self.selected_table_col == old_col,
                            self.command_history@ == old(self).command_history@,
                            self.history_index == old(self).history_index,
                        decreases end + 1 - row,
                    {
                        if !self.row_highlighted(row) {
                            let ghost before = self.highlighted_rows@;
                            self.highlighted_rows.push(row);
                            proof {
                                assert forall|i: int|
                                    0 <= i < old(self).highlighted_rows@.len() implies self.highlighted_rows@.contains(
                                    #[trigger] old(self).highlighted_rows@[i],
                                ) by {
                                    assert(before.contains(old(self).highlighted_rows@[i]));
                                    let j = choose|j: int|
                                        0 <= j < before.len() && before[j] == old(self).highlighted_rows@[i];
                                    assert(self.highlighted_rows@[j] == before[j]);
                                }
                                assert forall|r: int|
                                    start <= r < row + 1 implies self.highlighted_rows@.contains(
                                    #[trigger] (r as usize),
                                ) by {
                                    if r < row {
                                        assert(before.contains(r as usize));
                                        let j = choose|j: int|
                                            0 <= j < before.len() && before[j] == r as usize;
                                        assert(self.highlighted_rows@[j] == before[j]);
                                    } else {
                                        assert(self.highlighted_rows@[self.highlighted_rows@.len()
                                            - 1] == row);
                                    }
                                }
                            }
                        }
                        row = row + 1;
                    }
                    let mut msg = String::new();
                    msg.append("Selected rows ");
                    let start_text = u64_to_string(start as u64);
                    msg.append(start_text.as_str());
                    msg.append("-");
                    let end_text = u64_to_string(end as u64);
                    msg.append(end_text.as_str());
                    proof {
                        assert(msg@ =~= spec_range_message(
                            "Selected rows "@,
                            start as int,
                            end as int,
                        ));
                    }
                    self.add_to_history(msg);
                },
                Key::Left | Key::Right => {
                    let start = if old_col <= self.selected_table_col {
                        old_col
                    } else {
                        self.selected_table_col
                    };
                    let end = if old_col <= self.selected_table_col {
                        self.selected_table_col
                    } else {
                        old_col
                    };
                    let cap = self.table_headers.len();
                    let mut col = start;
                    while col <= end
                        invariant
                            start <= col <= end + 1,
                            end < cap,
                            cap == self.table_headers@.len(),
                            self.wf(),
                            self.selected_table_row == old_row,
                            forall|c: int|
                                start <= c < col ==> self.highlighted_cols@.contains(
                                    #[trigger] (c as usize),
                                ),
                            forall|i: int|
                                0 <= i < old(self).highlighted_cols@.len()
                                    ==> self.highlighted_cols@.contains(
                                    #[trigger] old(self).highlighted_cols@[i],
                                ),
                            self.highlighted_rows@ == old(self).highlighted_rows@,
                            self.history@ == old(self).history@,
                            self.table_data@ == old(self).table_data@,
                            self.table_headers@ == old(self).table_headers@,
                            self.selected_table_col == final_col_of(
                                direction,
                                old_col,
                                old(self).table_headers@.len() as int,
                            ),
                            self.command_history@ == old(self).command_history@,
                            self.history_index == old(self).history_index,
                        decreases end + 1 - col,
                    {
                        if !self.col_highlighted(col) {
                            let ghost before = self.highlighted_cols@;
                            self.highlighted_cols.push(col);
                            proof {
                                assert forall|i: int|
                                    0 <= i < old(self).highlighted_cols@.len() implies self.highlighted_cols@.contains(
                                    #[trigger] old(self).highlighted_cols@[i],
                                ) by {
                                    assert(before.contains(old(self).highlighted_cols@[i]));
                                    let j = choose|j: int|
                                        0 <= j < before.len() && before[j] == old(self).highlighted_cols@[i];
                                    assert(self.highlighted_cols@[j] == before[j]);
                                }
                                assert forall|c: int|
                                    start <= c < col + 1 implies self.highlighted_cols@.contains(
                                    #[trigger] (c as usize),
                                ) by {
                                    if c < col {
                                        assert(before.contains(c as usize));
                                        let j = choose|j: int|
                                            0 <= j < before.len() && before[j] == c as usize;
                                        assert(self.highlighted_cols@[j] == before[j]);
                                    } else {
                                        assert(self.highlighted_cols@[self.highlighted_cols@.len()
                                            - 1] == col);
                                    }
                                }
                            }
                        }
                        col = col + 1;
                    }
                    let mut msg = String::new();
                    msg.append("Selected columns ");
                    let start_text = u64_to_string(start as u64);
                    msg.append(start_text.as_str());
                    msg.append("-");
                    let end_text = u64_to_string(end as u64);
                    msg.append(end_text.as_str());
                    proof {
                        assert(msg@ =~= spec_range_message(
                            "Selected columns "@,
                            start as int,
                            end as int,
                        ));
                    }
                    self.add_to_history(msg);
                },
                Key::Char(_) => {},
            }
        } else {
            let mut rows: Vec<usize> = Vec::new();
            rows.push(self.selected_table_row);
            let mut cols: Vec<usize> = Vec::new();
            cols.push(self.selected_table_col);
            proof {
                assert(rows@ =~= seq![self.selected_table_row]);
                assert(cols@ =~= seq![self.selected_table_col]);
            }
            self.highlighted_rows = rows;
            self.highlighted_cols = cols;
        }
    }
}

/// The row the selection lands on after one clamped vertical step.
pub open spec fn final_row_of(direction: Key, old_row: usize, rows: int) -> usize {
    if direction == Key::Up {
        if old_row > 0 {
            (old_row - 1) as usize
        } else {
            old_row
        }
    } else if direction == Key::Down {
        if old_row + 1 < rows {
            (old_row + 1) as usize
        } else {
            old_row
        }
    } else {
        old_row
    }
}

/// The column the selection lands on after one clamped horizontal step.
pub open spec fn final_col_of(direction: Key, old_col: usize, cols: int) -> usize {
    if direction == Key::Left {
        if old_col > 0 {
            (old_col - 1) as usize
        } else {
            old_col
        }
    } else if direction == Key::Right {
        if old_col + 1 < cols {
            (old_col + 1) as usize
        } else {
            old_col
        }
    } else {
        old_col
    }
}

} // verus!
