//! The reserved words of the language.

use vstd::prelude::*;
use crate::text::{
    ascii_lowercase, char_at, collect_chars, fingerprint, is_ascii_text, lowercase,
    str_to_lowercase, text_equals,
};

verus! {

/// A reserved word. Reserved words cannot be used as identifiers; they are
/// recognised without regard to letter case.
#[derive(Debug, Clone, Copy, PartialEq, Eq, Structural)]
pub enum Keyword {
    // Control flow
    /// `if`
    If,
    /// `elif`
    Elif,
    /// `else`
    Else,
    /// `do`
    Do,
    /// `while`
    While,
    /// `for`
    For,
    /// `when`
    When,
    /// `in`
    In,
    // Error handling
    /// `try`
    Try,
    /// `fail`
    Fail,
    // Structure and execution control
    /// `end`
    End,
    /// `break`
    Break,
    /// `continue`
    Continue,
    /// `return`
    Return,
    /// `exit`
    Exit,
    // Declarations
    /// `let`
    Let,
    /// `fn`
    Fn,
    /// `from`
    From,
    /// `as`
    As,
    /// `none`
    NoneKw,
    // Additional functionality
    /// `back`
    Back,
    /// `send`
    Send,
    /// `del`
    Del,
    /// `run`
    Run,
    /// `log`
    Log,
    /// `box`
    Box,
    /// `wrap`
    Wrap,
    // Booleans
    /// `true`
    True,
    /// `false`
    False,
    // Modifiers
    /// `sure`
    Sure,
    /// `stay`
    Stay,
    /// `fast`
    Fast,
    /// `flat`
    Flat,
    /// `old`
    Old,
    // Input, output and tools
    /// `print`
    Print,
    /// `ask`
    Ask,
    /// `read`
    Read,
    /// `save`
    Save,
    // User interface
    /// `ui`
    Ui,
    /// `btn`
    Btn,
    /// `txt`
    Txt,
    /// `img`
    Img,
    /// `vid`
    Vid,
    /// `canvas`
    Canvas,
    /// `div`
    Div,
    /// `click`
    Click,
    /// `window`
    Window,
    /// `tick`
    Tick,
    /// `wait`
    Wait,
}

impl Keyword {
    /// The canonical (lower-case) spelling of the keyword.
    pub open spec fn text(self) -> Seq<char> {
        match self {
            Keyword::If => "if"@,
            Keyword::Elif => "elif"@,
            Keyword::Else => "else"@,
            Keyword::Do => "do"@,
            Keyword::While => "while"@,
            Keyword::For => "for"@,
            Keyword::When => "when"@,
            Keyword::In => "in"@,
            Keyword::Try => "try"@,
            Keyword::Fail => "fail"@,
            Keyword::End => "end"@,
            Keyword::Break => "break"@,
            Keyword::Continue => "continue"@,
            Keyword::Return => "return"@,
            Keyword::Exit => "exit"@,
            Keyword::Let => "let"@,
            Keyword::Fn => "fn"@,
            Keyword::From => "from"@,
            Keyword::As => "as"@,
            Keyword::NoneKw => "none"@,
            Keyword::Back => "back"@,
            Keyword::Send => "send"@,
            Keyword::Del => "del"@,
            Keyword::Run => "run"@,
            Keyword::Log => "log"@,
            Keyword::Box => "box"@,
            Keyword::Wrap => "wrap"@,
            Keyword::True => "true"@,
            Keyword::False => "false"@,
            Keyword::Sure => "sure"@,
            Keyword::Stay => "stay"@,
            Keyword::Fast => "fast"@,
            Keyword::Flat => "flat"@,
            Keyword::Old => "old"@,
            Keyword::Print => "print"@,
            Keyword::Ask => "ask"@,
            Keyword::Read => "read"@,
            Keyword::Save => "save"@,
            Keyword::Ui => "ui"@,
            Keyword::Btn => "btn"@,
            Keyword::Txt => "txt"@,
            Keyword::Img => "img"@,
            Keyword::Vid => "vid"@,
            Keyword::Canvas => "canvas"@,
            Keyword::Div => "div"@,
            Keyword::Click => "click"@,
            Keyword::Window => "window"@,
            Keyword::Tick => "tick"@,
            Keyword::Wait => "wait"@,
        }
    }

    /// The keyword spelled exactly by `word`, if any.
    pub open spec fn of_word(word: Seq<char>) -> Option<Keyword> {
        if word == "if"@ {
            Some(Keyword::If)
        } else if word == "elif"@ {
            Some(Keyword::Elif)
        } else if word == "else"@ {
            Some(Keyword::Else)
        } else if word == "do"@ {
            Some(Keyword::Do)
        } else if word == "while"@ {
            Some(Keyword::While)
        } else if word == "for"@ {
            Some(Keyword::For)
        } else if word == "when"@ {
            Some(Keyword::When)
        } else if word == "in"@ {
            Some(Keyword::In)
        } else if word == "try"@ {
            Some(Keyword::Try)
        } else if word == "fail"@ {
            Some(Keyword::Fail)
        } else if word == "end"@ {
            Some(Keyword::End)
        } else if word == "break"@ {
            Some(Keyword::Break)
        } else if word == "continue"@ {
            Some(Keyword::Continue)
        } else if word == "return"@ {
            Some(Keyword::Return)
        } else if word == "exit"@ {
            Some(Keyword::Exit)
        } else if word == "let"@ {
            Some(Keyword::Let)
        } else if word == "fn"@ {
            Some(Keyword::Fn)
        } else if word == "from"@ {
            Some(Keyword::From)
        } else if word == "as"@ {
            Some(Keyword::As)
        } else if word == "none"@ {
            Some(Keyword::NoneKw)
        } else if word == "back"@ {
            Some(Keyword::Back)
        } else if word == "send"@ {
            Some(Keyword::Send)
        } else if word == "del"@ {
            Some(Keyword::Del)
        } else if word == "run"@ {
            Some(Keyword::Run)
        } else if word == "log"@ {
            Some(Keyword::Log)
        } else if word == "box"@ {
            Some(Keyword::Box)
        } else if word == "wrap"@ {
            Some(Keyword::Wrap)
        } else if word == "true"@ {
            Some(Keyword::True)
        } else if word == "false"@ {
            Some(Keyword::False)
        } else if word == "sure"@ {
            Some(Keyword::Sure)
        } else if word == "stay"@ {
            Some(Keyword::Stay)
        } else if word == "fast"@ {
            Some(Keyword::Fast)
        } else if word == "flat"@ {
            Some(Keyword::Flat)
        } else if word == "old"@ {
            Some(Keyword::Old)
        } else if word == "print"@ {
            Some(Keyword::Print)
        } else if word == "ask"@ {
            Some(Keyword::Ask)
        } else if word == "read"@ {
            Some(Keyword::Read)
        } else if word == "save"@ {
            Some(Keyword::Save)
        } else if word == "ui"@ {
            Some(Keyword::Ui)
        } else if word == "btn"@ {
            Some(Keyword::Btn)
        } else if word == "txt"@ {
            Some(Keyword::Txt)
        } else if word == "img"@ {
            Some(Keyword::Img)
        } else if word == "vid"@ {
            Some(Keyword::Vid)
        } else if word == "canvas"@ {
            Some(Keyword::Canvas)
        } else if word == "div"@ {
            Some(Keyword::Div)
        } else if word == "click"@ {
            Some(Keyword::Click)
        } else if word == "window"@ {
            Some(Keyword::Window)
        } else if word == "tick"@ {
            Some(Keyword::Tick)
        } else if word == "wait"@ {
            Some(Keyword::Wait)
        } else {
            None
        }
    }

    /// The keyword that `s` spells once brought to lower case, if any.
    pub open spec fn spec_from_str(s: Seq<char>) -> Option<Keyword> {
        Keyword::of_word(lowercase(s))
    }

    /// The canonical spelling of the keyword.
    pub fn as_str(&self) -> (r: &'static str)
        ensures
            r@ == self.text(),
    {
        match self {
            Keyword::If => "if",
            Keyword::Elif => "elif",
            Keyword::Else => "else",
            Keyword::Do => "do",
            Keyword::While => "while",
            Keyword::For => "for",
            Keyword::When => "when",
            Keyword::In => "in",
            Keyword::Try => "try",
            Keyword::Fail => "fail",
            Keyword::End => "end",
            Keyword::Break => "break",
            Keyword::Continue => "continue",
            Keyword::Return => "return",
            Keyword::Exit => "exit",
            Keyword::Let => "let",
            Keyword::Fn => "fn",
            Keyword::From => "from",
            Keyword::As => "as",
            Keyword::NoneKw => "none",
            Keyword::Back => "back",
            Keyword::Send => "send",
            Keyword::Del => "del",
            Keyword::Run => "run",
            Keyword::Log => "log",
            Keyword::Box => "box",
            Keyword::Wrap => "wrap",
            Keyword::True => "true",
            Keyword::False => "false",
            Keyword::Sure => "sure",
            Keyword::Stay => "stay",
            Keyword::Fast => "fast",
            Keyword::Flat => "flat",
            Keyword::Old => "old",
            Keyword::Print => "print",
            Keyword::Ask => "ask",
            Keyword::Read => "read",
            Keyword::Save => "save",
            Keyword::Ui => "ui",
            Keyword::Btn => "btn",
            Keyword::Txt => "txt",
            Keyword::Img => "img",
            Keyword::Vid => "vid",
            Keyword::Canvas => "canvas",
            Keyword::Div => "div",
            Keyword::Click => "click",
            Keyword::Window => "window",
            Keyword::Tick => "tick",
            Keyword::Wait => "wait",
        }
    }

    /// Looks `word` up among the canonical spellings.
    pub fn lookup(word: &[char]) -> (r: Option<Keyword>)
        ensures
            r == Keyword::of_word(word@),
    {
        if text_equals(word, "if") {
            Some(Keyword::If)
        } else if text_equals(word, "elif") {
            Some(Keyword::Elif)
        } else if text_equals(word, "else") {
            Some(Keyword::Else)
        } else if text_equals(word, "do") {
            Some(Keyword::Do)
        } else if text_equals(word, "while") {
            Some(Keyword::While)
        } else if text_equals(word, "for") {
            Some(Keyword::For)
        } else if text_equals(word, "when") {
            Some(Keyword::When)
        } else if text_equals(word, "in") {
            Some(Keyword::In)
        } else if text_equals(word, "try") {
            Some(Keyword::Try)
        } else if text_equals(word, "fail") {
            Some(Keyword::Fail)
        } else if text_equals(word, "end") {
            Some(Keyword::End)
        } else if text_equals(word, "break") {
            Some(Keyword::Break)
        } else if text_equals(word, "continue") {
            Some(Keyword::Continue)
        } else if text_equals(word, "return") {
            Some(Keyword::Return)
        } else if text_equals(word, "exit") {
            Some(Keyword::Exit)
        } else if text_equals(word, "let") {
            Some(Keyword::Let)
        } else if text_equals(word, "fn") {
            Some(Keyword::Fn)
        } else if text_equals(word, "from") {
            Some(Keyword::From)
        } else if text_equals(word, "as") {
            Some(Keyword::As)
        } else if text_equals(word, "none") {
            Some(Keyword::NoneKw)
        } else if text_equals(word, "back") {
            Some(Keyword::Back)
        } else if text_equals(word, "send") {
            Some(Keyword::Send)
        } else if text_equals(word, "del") {
            Some(Keyword::Del)
        } else if text_equals(word, "run") {
            Some(Keyword::Run)
        } else if text_equals(word, "log") {
            Some(Keyword::Log)
        } else if text_equals(word, "box") {
            Some(Keyword::Box)
        } else if text_equals(word, "wrap") {
            Some(Keyword::Wrap)
        } else if text_equals(word, "true") {
            Some(Keyword::True)
        } else if text_equals(word, "false") {
            Some(Keyword::False)
        } else if text_equals(word, "sure") {
            Some(Keyword::Sure)
        } else if text_equals(word, "stay") {
            Some(Keyword::Stay)
        } else if text_equals(word, "fast") {
            Some(Keyword::Fast)
        } else if text_equals(word, "flat") {
            Some(Keyword::Flat)
        } else if text_equals(word, "old") {
            Some(Keyword::Old)
        } else if text_equals(word, "print") {
            Some(Keyword::Print)
        } else if text_equals(word, "ask") {
            Some(Keyword::Ask)
        } else if text_equals(word, "read") {
            Some(Keyword::Read)
        } else if text_equals(word, "save") {
            Some(Keyword::Save)
        } else if text_equals(word, "ui") {
            Some(Keyword::Ui)
        } else if text_equals(word, "btn") {
            Some(Keyword::Btn)
        } else if text_equals(word, "txt") {
            Some(Keyword::Txt)
        } else if text_equals(word, "img") {
            Some(Keyword::Img)
        } else if text_equals(word, "vid") {
            Some(Keyword::Vid)
        } else if text_equals(word, "canvas") {
            Some(Keyword::Canvas)
        } else if text_equals(word, "div") {
            Some(Keyword::Div)
        } else if text_equals(word, "click") {
            Some(Keyword::Click)
        } else if text_equals(word, "window") {
            Some(Keyword::Window)
        } else if text_equals(word, "tick") {
            Some(Keyword::Tick)
        } else if text_equals(word, "wait") {
            Some(Keyword::Wait)
        } else {
            None
        }
    }

    /// Every canonical spelling consists of two to eight lower-case letters.
    pub proof fn lemma_words_are_lowercase(word: Seq<char>)
        requires
            Keyword::of_word(word) is Some,
        ensures
            2 <= word.len() <= 8,
            forall|i: int| 0 <= i < word.len() ==> 'a' <= #[trigger] word[i] <= 'z',
    {
        // The fingerprint of each spelling puts its characters before the solver.
        reveal_strlit("if");
        assert(fingerprint("if"@).0 == 2);
        reveal_strlit("elif");
        assert(fingerprint("elif"@).0 == 4);
        reveal_strlit("else");
        assert(fingerprint("else"@).0 == 4);
        reveal_strlit("do");
        assert(fingerprint("do"@).0 == 2);
        reveal_strlit("while");
        assert(fingerprint("while"@).0 == 5);
        reveal_strlit("for");
        assert(fingerprint("for"@).0 == 3);
        reveal_strlit("when");
        assert(fingerprint("when"@).0 == 4);
        reveal_strlit("in");
        assert(fingerprint("in"@).0 == 2);
        reveal_strlit("try");
        assert(fingerprint("try"@).0 == 3);
        reveal_strlit("fail");
        assert(fingerprint("fail"@).0 == 4);
        reveal_strlit("end");
        assert(fingerprint("end"@).0 == 3);
        reveal_strlit("break");
        assert(fingerprint("break"@).0 == 5);
        reveal_strlit("continue");
        assert(fingerprint("continue"@).0 == 8);
        reveal_strlit("return");
        assert(fingerprint("return"@).0 == 6);
        reveal_strlit("exit");
        assert(fingerprint("exit"@).0 == 4);
        reveal_strlit("let");
        assert(fingerprint("let"@).0 == 3);
        reveal_strlit("fn");
        assert(fingerprint("fn"@).0 == 2);
        reveal_strlit("from");
        assert(fingerprint("from"@).0 == 4);
        reveal_strlit("as");
        assert(fingerprint("as"@).0 == 2);
        reveal_strlit("none");
        assert(fingerprint("none"@).0 == 4);
        reveal_strlit("back");
        assert(fingerprint("back"@).0 == 4);
        reveal_strlit("send");
        assert(fingerprint("send"@).0 == 4);
        reveal_strlit("del");
        assert(fingerprint("del"@).0 == 3);
        reveal_strlit("run");
        assert(fingerprint("run"@).0 == 3);
        reveal_strlit("log");
        assert(fingerprint("log"@).0 == 3);
        reveal_strlit("box");
        assert(fingerprint("box"@).0 == 3);
        reveal_strlit("wrap");
        assert(fingerprint("wrap"@).0 == 4);
        reveal_strlit("true");
        assert(fingerprint("true"@).0 == 4);
        reveal_strlit("false");
        assert(fingerprint("false"@).0 == 5);
        reveal_strlit("sure");
        assert(fingerprint("sure"@).0 == 4);
        reveal_strlit("stay");
        assert(fingerprint("stay"@).0 == 4);
        reveal_strlit("fast");
        assert(fingerprint("fast"@).0 == 4);
        reveal_strlit("flat");
        assert(fingerprint("flat"@).0 == 4);
        reveal_strlit("old");
        assert(fingerprint("old"@).0 == 3);
        reveal_strlit("print");
        assert(fingerprint("print"@).0 == 5);
        reveal_strlit("ask");
        assert(fingerprint("ask"@).0 == 3);
        reveal_strlit("read");
        assert(fingerprint("read"@).0 == 4);
        reveal_strlit("save");
        assert(fingerprint("save"@).0 == 4);
        reveal_strlit("ui");
        assert(fingerprint("ui"@).0 == 2);
        reveal_strlit("btn");
        assert(fingerprint("btn"@).0 == 3);
        reveal_strlit("txt");
        assert(fingerprint("txt"@).0 == 3);
        reveal_strlit("img");
        assert(fingerprint("img"@).0 == 3);
        reveal_strlit("vid");
        assert(fingerprint("vid"@).0 == 3);
        reveal_strlit("canvas");
        assert(fingerprint("canvas"@).0 == 6);
        reveal_strlit("div");
        assert(fingerprint("div"@).0 == 3);
        reveal_strlit("click");
        assert(fingerprint("click"@).0 == 5);
        reveal_strlit("window");
        assert(fingerprint("window"@).0 == 6);
        reveal_strlit("tick");
        assert(fingerprint("tick"@).0 == 4);
        reveal_strlit("wait");
        assert(fingerprint("wait"@).0 == 4);
        assert(fingerprint(word).0 == word.len());
        assert forall|i: int| 0 <= i < word.len() implies 'a' <= #[trigger] word[i] <= 'z' by {
            assert(word[i] == char_at(word, i));
        }
    }

    /// Reading the canonical spelling of a keyword gives the keyword back.
    pub proof fn text_round_trip(k: Keyword)
        ensures
            Keyword::spec_from_str(k.text()) == Some(k),
    {
        // The fingerprint of each spelling puts its characters before the solver,
        // which then tells the spellings apart.
        reveal_strlit("if");
        assert(fingerprint("if"@).0 == 2);
        reveal_strlit("elif");
        assert(fingerprint("elif"@).0 == 4);
        reveal_strlit("else");
        assert(fingerprint("else"@).0 == 4);
        reveal_strlit("do");
        assert(fingerprint("do"@).0 == 2);
        reveal_strlit("while");
        assert(fingerprint("while"@).0 == 5);
        reveal_strlit("for");
        assert(fingerprint("for"@).0 == 3);
        reveal_strlit("when");
        assert(fingerprint("when"@).0 == 4);
        reveal_strlit("in");
        assert(fingerprint("in"@).0 == 2);
        reveal_strlit("try");
        assert(fingerprint("try"@).0 == 3);
        reveal_strlit("fail");
        assert(fingerprint("fail"@).0 == 4);
        reveal_strlit("end");
        assert(fingerprint("end"@).0 == 3);
        reveal_strlit("break");
        assert(fingerprint("break"@).0 == 5);
        reveal_strlit("continue");
        assert(fingerprint("continue"@).0 == 8);
        reveal_strlit("return");
        assert(fingerprint("return"@).0 == 6);
        reveal_strlit("exit");
        assert(fingerprint("exit"@).0 == 4);
        reveal_strlit("let");
        assert(fingerprint("let"@).0 == 3);
        reveal_strlit("fn");
        assert(fingerprint("fn"@).0 == 2);
        reveal_strlit("from");
        assert(fingerprint("from"@).0 == 4);
        reveal_strlit("as");
        assert(fingerprint("as"@).0 == 2);
        reveal_strlit("none");
        assert(fingerprint("none"@).0 == 4);
        reveal_strlit("back");
        assert(fingerprint("back"@).0 == 4);
        reveal_strlit("send");
        assert(fingerprint("send"@).0 == 4);
        reveal_strlit("del");
        assert(fingerprint("del"@).0 == 3);
        reveal_strlit("run");
        assert(fingerprint("run"@).0 == 3);
        reveal_strlit("log");
        assert(fingerprint("log"@).0 == 3);
        reveal_strlit("box");
        assert(fingerprint("box"@).0 == 3);
        reveal_strlit("wrap");
        assert(fingerprint("wrap"@).0 == 4);
        reveal_strlit("true");
        assert(fingerprint("true"@).0 == 4);
        reveal_strlit("false");
        assert(fingerprint("false"@).0 == 5);
        reveal_strlit("sure");
        assert(fingerprint("sure"@).0 == 4);
        reveal_strlit("stay");
        assert(fingerprint("stay"@).0 == 4);
        reveal_strlit("fast");
        assert(fingerprint("fast"@).0 == 4);
        reveal_strlit("flat");
        assert(fingerprint("flat"@).0 == 4);
        reveal_strlit("old");
        assert(fingerprint("old"@).0 == 3);
        reveal_strlit("print");
        assert(fingerprint("print"@).0 == 5);
        reveal_strlit("ask");
        assert(fingerprint("ask"@).0 == 3);
        reveal_strlit("read");
        assert(fingerprint("read"@).0 == 4);
        reveal_strlit("save");
        assert(fingerprint("save"@).0 == 4);
        reveal_strlit("ui");
        assert(fingerprint("ui"@).0 == 2);
        reveal_strlit("btn");
        assert(fingerprint("btn"@).0 == 3);
        reveal_strlit("txt");
        assert(fingerprint("txt"@).0 == 3);
        reveal_strlit("img");
        assert(fingerprint("img"@).0 == 3);
        reveal_strlit("vid");
        assert(fingerprint("vid"@).0 == 3);
        reveal_strlit("canvas");
        assert(fingerprint("canvas"@).0 == 6);
        reveal_strlit("div");
        assert(fingerprint("div"@).0 == 3);
        reveal_strlit("click");
        assert(fingerprint("click"@).0 == 5);
        reveal_strlit("window");
        assert(fingerprint("window"@).0 == 6);
        reveal_strlit("tick");
        assert(fingerprint("tick"@).0 == 4);
        reveal_strlit("wait");
        assert(fingerprint("wait"@).0 == 4);
        assert(is_ascii_text(k.text()));
        assert(ascii_lowercase(k.text()) =~= k.text());
    }

    /// Converts a text to the keyword it spells, ignoring letter case:
    /// `"IF"` and `"if"` both give `Keyword::If`. Any other text gives `None`.
    pub fn from_str(s: &str) -> (r: Option<Keyword>)
        ensures
            r == Keyword::spec_from_str(s@),
    {
        let lower = str_to_lowercase(s);
        let word = collect_chars(lower.as_str());
        Keyword::lookup(word.as_slice())
    }
}

} // verus!
