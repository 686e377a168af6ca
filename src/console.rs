//! Text of the on-screen console: a log of committed text, the line being
//! entered, and whether keys are read as console input.
use vstd::prelude::*;
use vstd::string::*;
use crate::controller::Key;

verus! {

/// The first text the console shows.
pub const BANNER: &'static str = "WIG Engine v0.1 \n";

/// Text that marks a freshly opened input line.
pub const PROMPT: &'static str = "e";

pub struct ConsoleText {
    chat_text: Vec<char>,
    current_line: Vec<char>,
    input_mode: bool,
}

/// The characters of `s`, as a vector.
fn chars_of(s: &str) -> (r: Vec<char>)
    ensures
        r@ == s@,
{
    let n = s.unicode_len();
    let mut out: Vec<char> = Vec::new();
    let mut i: usize = 0;
    while i < n
        invariant
            n == s@.len(),
            i <= n,
            out@ == s@.subrange(0, i as int),
        decreases n - i,
    {
        out.push(s.get_char(i));
        assert(out@ =~= s@.subrange(0, i + 1));
        i = i + 1;
    }
    assert(out@ =~= s@);
    out
}

impl ConsoleText {
    /// The committed text.
    pub closed spec fn chat(&self) -> Seq<char> {
        self.chat_text@
    }

    /// The line being entered.
    pub closed spec fn line(&self) -> Seq<char> {
        self.current_line@
    }

    pub closed spec fn in_input_mode(&self) -> bool {
        self.input_mode
    }

    /// What the console shows: the committed text followed by the line.
    pub open spec fn shown(&self) -> Seq<char> {
        self.chat() + self.line()
    }

    /// A console that shows the banner, outside input mode.
    pub fn new() -> (r: Self)
        ensures
            r.chat() == BANNER@,
            r.line() == Seq::<char>::empty(),
            !r.in_input_mode(),
    {
        ConsoleText { chat_text: chars_of(BANNER), current_line: Vec::new(), input_mode: false }
    }

    pub fn input_mode(&self) -> (r: bool)
        ensures
            r == self.in_input_mode(),
    {
        self.input_mode
    }

    /// Opens a new line holding `text` after the line being entered.
    pub fn append_line(&mut self, text: &str)
        ensures
            final(self).chat() == old(self).chat(),
            final(self).line() == old(self).line() + seq!['\n'] + text@,
            final(self).in_input_mode() == old(self).in_input_mode(),
    {
        self.current_line.push('\n');
        let mut t = chars_of(text);
        self.current_line.append(&mut t);
    }

    /// Removes the last committed character, if there is one.
    pub fn backspace(&mut self)
        ensures
            final(self).chat() == if old(self).chat().len() == 0 {
                old(self).chat()
            } else {
                old(self).chat().drop_last()
            },
            final(self).line() == old(self).line(),
            final(self).in_input_mode() == old(self).in_input_mode(),
    {
        let _ = self.chat_text.pop();
    }

    /// Opens a new input line marked by the prompt.
    fn console_newline(&mut self)
        ensures
            final(self).chat() == old(self).chat(),
            final(self).line() == old(self).line() + seq!['\n'] + PROMPT@,
            final(self).in_input_mode() == old(self).in_input_mode(),
    {
        self.append_line(PROMPT);
    }

    /// Reads a key. A press of Enter toggles input mode, opening a new line
    /// when input mode begins; in input mode a press of Backspace removes the
    /// last committed character. Anything else changes nothing.
    pub fn process_input(&mut self, key: Key, pressed: bool)
        ensures
            final(self).in_input_mode() == if key == Key::Enter && pressed {
                !old(self).in_input_mode()
            } else {
                old(self).in_input_mode()
            },
            final(self).line() == if key == Key::Enter && pressed && !old(self).in_input_mode() {
                old(self).line() + seq!['\n'] + PROMPT@
            } else {
                old(self).line()
            },
            final(self).chat() == if key == Key::Backspace && pressed && old(self).in_input_mode()
                && old(self).chat().len() > 0 {
                old(self).chat().drop_last()
            } else {
                old(self).chat()
            },
    {
        match key {
            Key::Enter => {
                if pressed {
                    if !self.input_mode {
                        self.console_newline();
                    }
                    self.input_mode = !self.input_mode;
                }
            },
            Key::Backspace => {
                if pressed && self.input_mode {
                    self.backspace();
                }
            },
            _ => {},
        }
    }

    /// The characters the console shows.
    pub fn display_text(&self) -> (r: Vec<char>)
        ensures
            r@ == self.shown(),
    {
        let mut out = self.chat_text.clone();
        let mut i: usize = 0;
        while i < self.current_line.len()
            invariant
                i <= self.current_line@.len(),
                out@ == self.chat_text@ + self.current_line@.subrange(0, i as int),
            decreases self.current_line@.len() - i,
        {
            out.push(self.current_line[i]);
            assert(out@ =~= self.chat_text@ + self.current_line@.subrange(0, i + 1));
            i = i + 1;
        }
        assert(self.current_line@.subrange(0, i as int) =~= self.current_line@);
        out
    }
}

} // verus!
