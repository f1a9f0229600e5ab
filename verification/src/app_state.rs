//! The application's top-level state: input mode, tab and theme selection,
//! text buffers and the clipboard history. Talking to the system clipboard
//! and to the terminal stays with the caller.

use std::collections::VecDeque;
use vstd::prelude::*;
use vstd::string::StringExecFns;

use crate::config::{spec_default_config, Config};

verus! {

/// Most clipboard history entries the application keeps.
pub const MAX_CLIPBOARD_HISTORY: usize = 50;

/// Input modes of the application.
#[derive(Debug, Clone, Copy, PartialEq, Eq, Structural)]
pub enum InputMode {
    /// Normal navigation mode.
    Normal,
    /// Text editing mode.
    Editing,
    /// Emoji picker mode.
    EmojiPicker,
    /// Clipboard history mode.
    ClipboardHistory,
}

/// Terminal colours the themes use; the rendering surface maps them onto its
/// own palette.
#[derive(Debug, Clone, Copy, PartialEq, Eq, Structural)]
pub enum UiColor {
    Cyan,
    Green,
    Yellow,
    Red,
    Blue,
    Magenta,
    White,
    Gray,
    DarkGray,
    LightGreen,
    LightYellow,
    LightRed,
    LightBlue,
    LightMagenta,
}

/// Application state.
pub struct App {
    /// Current input mode.
    pub input_mode: InputMode,
    /// Currently selected input field (0 = text, 1 = emoji, 2 = hyperlink).
    pub selected_input: usize,
    /// Text input content.
    pub text_input: String,
    /// Emoji input content.
    pub emoji_input: String,
    /// Hyperlink input content.
    pub hyperlink_input: String,
    /// Current emoji category index.
    pub emoji_category_index: usize,
    /// Current emoji index within the category.
    pub emoji_index: usize,
    /// Clipboard history, newest first.
    pub clipboard_history: VecDeque<String>,
    /// Selected clipboard history index.
    pub clipboard_history_index: usize,
    /// Application configuration.
    pub config: Config,
    /// Whether the application should quit.
    pub should_quit: bool,
    /// Current tab index.
    pub current_tab: usize,
}

impl App {
    pub open spec fn wf(self) -> bool {
        &&& self.current_tab < 3
        &&& self.config.theme_index < 6
        &&& self.clipboard_history@.len() <= MAX_CLIPBOARD_HISTORY
    }

    /// Creates a new application instance with the default configuration.
    pub fn new() -> (a: App)
        ensures
            a.wf(),
            a.input_mode == InputMode::Normal,
            a.selected_input == 0,
            a.text_input@ == Seq::<char>::empty(),
            a.emoji_input@ == Seq::<char>::empty(),
            a.hyperlink_input@ == Seq::<char>::empty(),
            a.emoji_category_index == 0,
            a.emoji_index == 0,
            a.clipboard_history@.len() == 0,
            a.clipboard_history_index == 0,
            !a.should_quit,
            a.current_tab == 0,
            spec_default_config(a.config),
    {
        App {
            input_mode: InputMode::Normal,
            selected_input: 0,
            text_input: String::new(),
            emoji_input: String::new(),
            hyperlink_input: String::new(),
            emoji_category_index: 0,
            emoji_index: 0,
            clipboard_history: VecDeque::new(),
            clipboard_history_index: 0,
            config: Config::default(),
            should_quit: false,
            current_tab: 0,
        }
    }

    /// The primary colour of the selected theme.
    pub fn primary_color(&self) -> (c: UiColor)
        ensures
            c == spec_primary_color(self.config.theme_index as int),
    {
        match self.config.theme_index {
            0 => UiColor::Cyan,
            1 => UiColor::Green,
            2 => UiColor::Yellow,
            3 => UiColor::Red,
            4 => UiColor::Blue,
            5 => UiColor::Magenta,
            _ => UiColor::White,
        }
    }

    /// The selected theme's primary, secondary and accent colours.
    pub fn theme_colors(&self) -> (c: (UiColor, UiColor, UiColor))
        ensures
            c == spec_theme_colors(self.config.theme_index as int),
    {
        match self.config.theme_index {
            0 => (UiColor::Cyan, UiColor::Blue, UiColor::Gray),
            1 => (UiColor::Green, UiColor::LightGreen, UiColor::DarkGray),
            2 => (UiColor::Yellow, UiColor::LightYellow, UiColor::Gray),
            3 => (UiColor::Red, UiColor::LightRed, UiColor::DarkGray),
            4 => (UiColor::Blue, UiColor::LightBlue, UiColor::Gray),
            5 => (UiColor::Magenta, UiColor::LightMagenta, UiColor::DarkGray),
            _ => (UiColor::White, UiColor::Gray, UiColor::DarkGray),
        }
    }

    /// Quits the application.
    pub fn quit(&mut self)
        requires
            old(self).wf(),
        ensures
            final(self).wf(),
            final(self).should_quit,
            *final(self) == (App { should_quit: true, ..*old(self) }),
    {
        self.should_quit = true;
    }

    /// Switches to the next of the three tabs, wrapping around.
    pub fn next_tab(&mut self)
        requires
            old(self).wf(),
        ensures
            final(self).wf(),
            final(self).current_tab == (old(self).current_tab + 1) % 3,
            *final(self) == (App { current_tab: final(self).current_tab, ..*old(self) }),
    {
        self.current_tab = (self.current_tab + 1) % 3;
    }

    /// Switches to the previous of the three tabs, wrapping around.
    pub fn prev_tab(&mut self)
        requires
            old(self).wf(),
        ensures
            final(self).wf(),
            final(self).current_tab == if old(self).current_tab == 0 {
                2
            } else {
                ((old(self).current_tab - 1) as usize)
            },
            *final(self) == (App { current_tab: final(self).current_tab, ..*old(self) }),
    {
        self.current_tab = if self.current_tab == 0 {
            2
        } else {
            self.current_tab - 1
        };
    }

    /// Records a copied text: a non-empty content enters the clipboard
    /// history newest-first, the oldest entry is dropped beyond the bound,
    /// and the history cursor resets. Handing the text to the system
    /// clipboard stays with the caller. An empty content changes nothing.
    pub fn copy_to_clipboard(&mut self, content: &str)
        requires
            old(self).wf(),
        ensures
            final(self).wf(),
            content@.len() == 0 ==> *final(self) == *old(self),
            content@.len() > 0 ==> {
                let pushed = seq![content@] + old(self).clipboard_history@.map_values(
                    |s: String| s@,
                );
                &&& final(self).clipboard_history@.map_values(|s: String| s@) == if pushed.len()
                    <= MAX_CLIPBOARD_HISTORY {
                    pushed
                } else {
                    pushed.subrange(0, MAX_CLIPBOARD_HISTORY as int)
                }
                &&& final(self).clipboard_history_index == 0
                &&& final(self).config == old(self).config
                &&& final(self).current_tab == old(self).current_tab
                &&& final(self).input_mode == old(self).input_mode
            },
    {
        if content.unicode_len() == 0 {
            return ;
        }
        let ghost before = self.clipboard_history@;
        self.clipboard_history.push_front(content.to_owned());
        proof {
            assert(self.clipboard_history@.map_values(|s: String| s@) =~= seq![content@]
                + before.map_values(|s: String| s@));
        }
        if self.clipboard_history.len() > MAX_CLIPBOARD_HISTORY {
            let ghost mid = self.clipboard_history@;
            let _ = self.clipboard_history.pop_back();
            proof {
                assert(self.clipboard_history@.map_values(|s: String| s@) =~= mid.map_values(
                    |s: String| s@,
                ).subrange(0, MAX_CLIPBOARD_HISTORY as int));
            }
        }
        self.clipboard_history_index = 0;
    }

    /// The newest clipboard entry, or the empty string with an empty
    /// history. The system clipboard, an outside device, is consulted by the
    /// caller; this is the state the library vouches for.
    pub fn paste_from_clipboard(&self) -> (r: String)
        requires
            self.wf(),
        ensures
            self.clipboard_history@.len() == 0 ==> r@ == Seq::<char>::empty(),
            self.clipboard_history@.len() > 0 ==> r@ == self.clipboard_history@[0]@,
    {
        if self.clipboard_history.len() > 0 {
            self.clipboard_history[0].clone()
        } else {
            String::new()
        }
    }

    /// The clipboard history entry at `index`, newest first.
    pub fn get_clipboard_history_item(&self, index: usize) -> (r: Option<&String>)
        ensures
            index < self.clipboard_history@.len() ==> r == Some(
                &self.clipboard_history@[index as int],
            ),
            index >= self.clipboard_history@.len() ==> r is None,
    {
        if index < self.clipboard_history.len() {
            Some(&self.clipboard_history[index])
        } else {
            None
        }
    }

    /// How many clipboard history entries there are.
    pub fn clipboard_history_len(&self) -> (n: usize)
        ensures
            n == self.clipboard_history@.len(),
    {
        self.clipboard_history.len()
    }

    /// Switches to the next of the six themes, wrapping around.
    pub fn next_theme(&mut self)
        requires
            old(self).wf(),
        ensures
            final(self).wf(),
            final(self).config.theme_index == (old(self).config.theme_index + 1) % 6,
            final(self).clipboard_history@ == old(self).clipboard_history@,
            final(self).current_tab == old(self).current_tab,
    {
        self.config.theme_index = (self.config.theme_index + 1) % 6;
    }
}

/// The primary colour of each theme index.
pub open spec fn spec_primary_color(theme_index: int) -> UiColor {
    if theme_index == 0 {
        UiColor::Cyan
    } else if theme_index == 1 {
        UiColor::Green
    } else if theme_index == 2 {
        UiColor::Yellow
    } else if theme_index == 3 {
        UiColor::Red
    } else if theme_index == 4 {
        UiColor::Blue
    } else if theme_index == 5 {
        UiColor::Magenta
    } else {
        UiColor::White
    }
}

/// The colour triple of each theme index.
pub open spec fn spec_theme_colors(theme_index: int) -> (UiColor, UiColor, UiColor) {
    if theme_index == 0 {
        (UiColor::Cyan, UiColor::Blue, UiColor::Gray)
    } else if theme_index == 1 {
        (UiColor::Green, UiColor::LightGreen, UiColor::DarkGray)
    } else if theme_index == 2 {
        (UiColor::Yellow, UiColor::LightYellow, UiColor::Gray)
    } else if theme_index == 3 {
        (UiColor::Red, UiColor::LightRed, UiColor::DarkGray)
    } else if theme_index == 4 {
        (UiColor::Blue, UiColor::LightBlue, UiColor::Gray)
    } else if theme_index == 5 {
        (UiColor::Magenta, UiColor::LightMagenta, UiColor::DarkGray)
    } else {
        (UiColor::White, UiColor::Gray, UiColor::DarkGray)
    }
}

} // verus!
