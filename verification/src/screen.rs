//! The viewer's screen modes and key dispatch: switching between the table,
//! image, input and form screens, and the input screen's line editing. The
//! terminal and the system clipboard stay with the caller; the stand-in
//! clipboard text mirrors what the editing rules promise.

use vstd::prelude::*;
use vstd::string::StringExecFns;

verus! {

/// The screens of the viewer.
#[derive(Debug, Clone, Copy, PartialEq, Eq, Structural)]
pub enum Mode {
    Table,
    Image,
    Input,
    Form,
}

/// The keys the screen dispatch reacts to.
#[derive(Debug, Clone, Copy, PartialEq, Eq, Structural)]
pub enum ScreenKey {
    Char(char),
    Backspace,
    Enter,
    Other,
}

/// Relies on `String::push`: it appends the given character to the end of
/// the string.
#[verifier::external_body]
fn push_char(s: &mut String, c: char)
    ensures
        final(s)@ == old(s)@.push(c),
{
    s.push(c);
}

/// Relies on `String::pop`: it removes the last character and returns it,
/// and leaves an empty string unchanged, returning nothing.
#[verifier::external_body]
fn pop_char(s: &mut String) -> (r: Option<char>)
    ensures
        old(s)@.len() == 0 ==> final(s)@ == old(s)@ && r is None,
        old(s)@.len() > 0 ==> final(s)@ == old(s)@.drop_last() && r == Some(old(s)@.last()),
{
    s.pop()
}

/// The mode a digit key switches to, when it names another screen.
pub open spec fn spec_mode_of_digit(c: char) -> Option<Mode> {
    if c == '1' {
        Some(Mode::Table)
    } else if c == '2' {
        Some(Mode::Image)
    } else if c == '3' {
        Some(Mode::Input)
    } else if c == '4' {
        Some(Mode::Form)
    } else {
        None
    }
}

/// The viewer's screen state: the current mode, the status line, the input
/// screen's line buffer, the emoji picker, and the demonstration link.
pub struct Screen {
    pub mode: Mode,
    pub status: String,
    pub input: String,
    pub emoji_picker: Vec<&'static str>,
    pub emoji_index: usize,
    pub link: String,
}

impl Screen {
    pub open spec fn wf(self) -> bool {
        &&& self.emoji_picker@.len() >= 1
        &&& self.emoji_index < self.emoji_picker@.len()
    }

    /// A fresh screen: the table shown, the key help in the status line, an
    /// empty input, eight emoji to pick from, and the demonstration link.
    pub fn new() -> (s: Screen)
        ensures
            s.wf(),
            s.mode == Mode::Table,
            s.status@ == "Press 1:Table 2:Image 3:Input 4:Form | q:Quit"@,
            s.input@ == Seq::<char>::empty(),
            s.emoji_picker@.len() == 8,
            s.emoji_index == 0,
            s.link@ == "https://ratatui.rs"@,
    {
        let mut emoji_picker: Vec<&'static str> = Vec::new();
        emoji_picker.push("😀");
        emoji_picker.push("😂");
        emoji_picker.push("🥳");
        emoji_picker.push("🚀");
        emoji_picker.push("❤️");
        emoji_picker.push("👍");
        emoji_picker.push("🔥");
        emoji_picker.push("🎉");
        Screen {
            mode: Mode::Table,
            status: "Press 1:Table 2:Image 3:Input 4:Form | q:Quit".to_owned(),
            input: String::new(),
            emoji_picker,
            emoji_index: 0,
            link: "https://ratatui.rs".to_owned(),
        }
    }

    /// Reacts to one key. On every screen the digits switch screens and `q`
    /// asks to quit through the status line. On the input screen the control
    /// chords copy and paste through the stand-in clipboard, `e` inserts the
    /// next emoji, `l` reports the link, backspace deletes one character and
    /// any other character — `3` among them, since the input screen is
    /// already shown — is typed; on the form screen enter announces the
    /// form. Everything else is ignored.
    pub fn on_key(&mut self, key: ScreenKey, ctrl: bool)
        requires
            old(self).wf(),
        ensures
            final(self).wf(),
            final(self).emoji_picker@ == old(self).emoji_picker@,
            final(self).link == old(self).link,
            key matches ScreenKey::Char(c) ==> (spec_mode_of_digit(c) matches Some(m) ==> ((m
                != old(self).mode && !(old(self).mode == Mode::Input && ctrl)) ==> final(self).mode == m && final(self).input == old(self).input && final(self).status == old(self).status)),
            (key == ScreenKey::Char('q') && !(old(self).mode == Mode::Input && ctrl)) ==> final(self).status@ == "quit"@ && final(self).mode == old(self).mode,
            old(self).mode == Mode::Input ==> {
                &&& (key == ScreenKey::Char('c') && ctrl ==> final(self).status@
                    == "Copied to clipboard!"@ && final(self).input == old(self).input)
                &&& (key == ScreenKey::Char('v') && ctrl ==> final(self).status@
                    == "Pasted from clipboard!"@ && final(self).input@ == old(self).input@
                    + "Clipboard content"@)
                &&& (key == ScreenKey::Char('e') && !ctrl ==> final(self).input@ == old(self).input@ + old(self).emoji_picker@[old(self).emoji_index as int]@ && final(self).emoji_index == (old(self).emoji_index + 1) % (old(self).emoji_picker@.len() as int))
                &&& (key == ScreenKey::Backspace ==> final(self).input@ == if old(self).input@.len() > 0 {
                    old(self).input@.drop_last()
                } else {
                    old(self).input@
                })
                &&& (key matches ScreenKey::Char(c) ==> ((!ctrl && c != '1' && c != '2' && c
                    != '4' && c != 'q' && c != 'e' && c != 'l') ==> final(self).input@ == old(self).input@.push(c)))
            },
            (old(self).mode == Mode::Form && key == ScreenKey::Enter) ==> final(self).status@
                == "Launching interactive form..."@ && final(self).mode == Mode::Form,
    {
        match self.mode {
            Mode::Input => {
                match key {
                    ScreenKey::Char(c) => {
                        if ctrl && c == 'c' {
                            self.status = "Copied to clipboard!".to_owned();
                        } else if ctrl && c == 'v' {
                            self.input.append("Clipboard content");
                            self.status = "Pasted from clipboard!".to_owned();
                        } else if ctrl {
                        } else if c == '1' {
                            self.mode = Mode::Table;
                        } else if c == '2' {
                            self.mode = Mode::Image;
                        } else if c == '4' {
                            self.mode = Mode::Form;
                        } else if c == 'q' {
                            self.status = "quit".to_owned();
                        } else if c == 'e' {
                            let emoji = self.emoji_picker[self.emoji_index];
                            self.input.append(emoji);
                            let count = self.emoji_picker.len();
                            let previous = self.emoji_index;
                            self.emoji_index = if self.emoji_index >= count - 1 {
                                0
                            } else {
                                self.emoji_index + 1
                            };
                            proof {
                                assert((previous + 1) % (count as int) == if previous + 1 == count {
                                    0int
                                } else {
                                    previous + 1
                                }) by (nonlinear_arith)
                                    requires
                                        0 <= previous < count,
                                ;
                            }
                        } else if c == 'l' {
                            let mut status = String::new();
                            status.append("Attempted to open link: ");
                            status.append(self.link.as_str());
                            self.status = status;
                        } else {
                            push_char(&mut self.input, c);
                        }
                    },
                    ScreenKey::Backspace => {
                        let _ = pop_char(&mut self.input);
                    },
                    _ => {},
                }
            },
            _ => {
                match key {
                    ScreenKey::Char(c) => {
                        if c == '1' {
                            self.mode = Mode::Table;
                        } else if c == '2' {
                            self.mode = Mode::Image;
                        } else if c == '3' {
                            self.mode = Mode::Input;
                        } else if c == '4' {
                            self.mode = Mode::Form;
                        } else if c == 'q' {
                            self.status = "quit".to_owned();
                        }
                    },
                    ScreenKey::Enter => {
                        if self.mode == Mode::Form {
                            self.status = "Launching interactive form...".to_owned();
                        }
                    },
                    _ => {},
                }
            },
        }
    }
}

} // verus!
