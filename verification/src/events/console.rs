//! The command console: a line of text typed after `:`, split into a command
//! name and its arguments when Return is pressed.
use vstd::prelude::*;
use crate::text::{string_push, string_pop, str_eq};
use vstd::utf8::{encode_utf8, encode_scalar};

verus! {

/// Backspace, as the text input hands it over.
pub const CHAR_BACKSPACE: char = '\x08';

/// Key code of `;` (the console opens on shift + `;`, that is `:`).
pub const KEY_SEMICOLON: i32 = 59;
/// Key code of Escape.
pub const KEY_ESCAPE: i32 = 27;
/// Key code of Return.
pub const KEY_RETURN: i32 = 13;
/// Modifier bit of the left shift key.
pub const MOD_LSHIFT: u16 = 1;
/// Modifier bit of the right shift key.
pub const MOD_RSHIFT: u16 = 2;

/// The console: the text typed so far and whether it is open.
pub struct RendererConsole {
    pub stdin: String,
    pub active: bool,
}

/// What a command line asks the editor to do.
#[derive(Debug, Clone, PartialEq, Eq)]
pub enum ConsoleCommand {
    /// `vpoffset X Y`: move the viewport's origin to the given coordinates.
    ViewportOffset { x: String, y: String },
    /// `vpfactor F`: set the viewport's zoom factor.
    ViewportFactor { factor: String },
    /// `q`: quit.
    Quit,
}

/// The characters that the pattern `\s` matches: Unicode `White_Space`.
pub open spec fn is_regex_space(c: char) -> bool {
    let u = c as u32;
    ||| 0x09 <= u <= 0x0D
    ||| u == 0x20
    ||| u == 0x85
    ||| u == 0xA0
    ||| u == 0x1680
    ||| 0x2000 <= u <= 0x200A
    ||| u == 0x2028
    ||| u == 0x2029
    ||| u == 0x202F
    ||| u == 0x205F
    ||| u == 0x3000
}

/// The pieces of `s` between the runs of whitespace, as splitting on the
/// pattern `\s+` yields them: a run at either end leaves an empty piece
/// there, and the empty text is one empty piece.
pub open spec fn split_whitespace_runs(s: Seq<char>) -> Seq<Seq<char>>
    decreases s.len(),
{
    if s.len() == 0 {
        seq![Seq::<char>::empty()]
    } else {
        let rest = split_whitespace_runs(s.drop_first());
        if is_regex_space(s[0]) {
            if s.len() > 1 && is_regex_space(s[1]) {
                rest
            } else {
                seq![Seq::<char>::empty()] + rest
            }
        } else {
            rest.update(0, seq![s[0]] + rest[0])
        }
    }
}

/// There is always at least one piece.
pub proof fn lemma_split_nonempty(s: Seq<char>)
    ensures
        split_whitespace_runs(s).len() >= 1,
    decreases s.len(),
{
    if s.len() > 0 {
        lemma_split_nonempty(s.drop_first());
    }
}

/// The first piece starts with the text's first character, unless that
/// character is whitespace.
pub proof fn lemma_split_first(s: Seq<char>)
    requires
        s.len() > 0,
        !is_regex_space(s[0]),
    ensures
        split_whitespace_runs(s).len() >= 1,
        split_whitespace_runs(s)[0].len() > 0,
        split_whitespace_runs(s)[0][0] == s[0],
{
    lemma_split_nonempty(s.drop_first());
}

/// `regex::Regex::split` with the pattern `\s+`: the pieces of the text
/// between the runs of Unicode whitespace, each handed back as a `String`.
/// The contract states the result exactly, as the crate's documentation
/// describes splitting (empty pieces at the ends, one empty piece for the
/// empty text) with `\s` read as Unicode `White_Space`.
#[verifier::external_body]
fn split_at_whitespace_runs(s: &str) -> (r: Vec<String>)
    ensures
        r.deep_view() == split_whitespace_runs(s@),
{
    let re = regex::Regex::new(r"\s+").unwrap();
    re.split(s).map(|p| p.to_string()).collect()
}

/// Whether a command line can be run: its first character (the `:` that
/// opened the console) is neither whitespace nor wider than one byte.
pub open spec fn command_line_ok(s: Seq<char>) -> bool {
    s.len() > 0 && !is_regex_space(s[0]) && (s[0] as u32) < 0x80
}

/// The name of the command on a command line: the first piece without its
/// first character.
pub open spec fn command_name_of(s: Seq<char>) -> Seq<char> {
    split_whitespace_runs(s)[0].drop_first()
}

/// The arguments on a command line: the pieces after the first.
pub open spec fn command_args_of(s: Seq<char>) -> Seq<Seq<char>> {
    split_whitespace_runs(s).drop_first()
}

/// What a command name with its arguments asks for: `vpoffset` with exactly
/// two arguments, `vpfactor` with exactly one, and `q`; anything else asks
/// for nothing.
pub open spec fn spec_console_command(name: Seq<char>, args: Seq<Seq<char>>) -> Option<ConsoleCommand> {
    if name == "vpoffset"@ {
        if args.len() == 2 {
            Some(ConsoleCommand::ViewportOffset { x: arbitrary(), y: arbitrary() })
        } else {
            None
        }
    } else if name == "vpfactor"@ {
        if args.len() == 1 {
            Some(ConsoleCommand::ViewportFactor { factor: arbitrary() })
        } else {
            None
        }
    } else if name == "q"@ {
        Some(ConsoleCommand::Quit)
    } else {
        None
    }
}

/// Whether `c` is what `name` with `args` asks for, arguments included.
pub open spec fn console_command_matches(c: Option<ConsoleCommand>, name: Seq<char>, args: Seq<Seq<char>>) -> bool {
    match spec_console_command(name, args) {
        None => c is None,
        Some(ConsoleCommand::ViewportOffset { .. }) => c matches Some(ConsoleCommand::ViewportOffset { x, y })
            && x@ == args[0] && y@ == args[1],
        Some(ConsoleCommand::ViewportFactor { .. }) => c matches Some(ConsoleCommand::ViewportFactor { factor })
            && factor@ == args[0],
        Some(ConsoleCommand::Quit) => c == Some(ConsoleCommand::Quit),
    }
}

fn clone_string(s: &String) -> (r: String)
    ensures
        r@ == s@,
{
    s.clone()
}

/// The command that `name` with `args` asks for.
pub fn console_command(name: &str, args: &Vec<String>) -> (c: Option<ConsoleCommand>)
    ensures
        console_command_matches(c, name@, args.deep_view()),
{
    proof {
        assert(args.deep_view().len() == args@.len());
    }
    if str_eq(name, "vpoffset") {
        if args.len() == 2 {
            proof {
                assert(args.deep_view()[0] == args@[0]@);
                assert(args.deep_view()[1] == args@[1]@);
            }
            Some(ConsoleCommand::ViewportOffset { x: clone_string(&args[0]), y: clone_string(&args[1]) })
        } else {
            None
        }
    } else if str_eq(name, "vpfactor") {
        if args.len() == 1 {
            proof {
                assert(args.deep_view()[0] == args@[0]@);
            }
            Some(ConsoleCommand::ViewportFactor { factor: clone_string(&args[0]) })
        } else {
            None
        }
    } else if str_eq(name, "q") {
        Some(ConsoleCommand::Quit)
    } else {
        None
    }
}

/// The text after a character is typed: backspace removes the last
/// character unless the text is at most one byte long in UTF-8; any other
/// character is appended.
pub open spec fn spec_handle_ch(s: Seq<char>, ch: char) -> Seq<char> {
    if ch != CHAR_BACKSPACE {
        s.push(ch)
    } else if encode_utf8(s).len() > 1 {
        s.drop_last()
    } else {
        s
    }
}

/// Typing never removes the `:` that opens a command line.
pub proof fn law_typing_keeps_colon(s: Seq<char>, ch: char)
    requires
        s.len() > 0,
        s[0] == ':',
    ensures
        spec_handle_ch(s, ch).len() > 0,
        spec_handle_ch(s, ch)[0] == ':',
{
    lemma_more_than_one_byte(s);
}

/// A text is more than one byte long in UTF-8 exactly when it has two
/// characters or more, or one character outside ASCII.
pub proof fn lemma_more_than_one_byte(s: Seq<char>)
    ensures
        (encode_utf8(s).len() > 1) == (s.len() >= 2 || (s.len() == 1 && (s[0] as u32) >= 0x80)),
{
    reveal_with_fuel(encode_utf8, 3);
    if s.len() >= 2 {
        assert(s.drop_first()[0] == s[1]);
        assert(encode_scalar(s[1] as u32).len() >= 1);
        assert(encode_scalar(s[0] as u32).len() >= 1);
    } else if s.len() == 1 {
        assert(s.drop_first().len() == 0);
    }
}

/// Whether a command line can be run (see `command_line_ok`).
pub fn command_line_runnable(s: &str) -> (b: bool)
    ensures
        b == command_line_ok(s@),
{
    if s.unicode_len() == 0 {
        return false;
    }
    let c = s.get_char(0);
    let u = c as u32;
    let space = (0x09 <= u && u <= 0x0D) || u == 0x20 || u == 0x85 || u == 0xA0
        || u == 0x1680 || (0x2000 <= u && u <= 0x200A) || u == 0x2028 || u == 0x2029
        || u == 0x202F || u == 0x205F || u == 0x3000;
    !space && u < 0x80
}

impl RendererConsole {
    /// Opens or closes the console; the text stays as it is.
    pub fn active(&mut self, b: bool)
        ensures
            final(self).active == b,
            final(self).stdin@ == old(self).stdin@,
    {
        self.active = b;
    }

    /// Takes one typed character: backspace removes the last character,
    /// unless the text is at most one byte long (the `:` stays); any other
    /// character is appended.
    pub fn handle_ch(&mut self, ch: char)
        ensures
            final(self).active == old(self).active,
            final(self).stdin@ == spec_handle_ch(old(self).stdin@, ch),
    {
        if ch != CHAR_BACKSPACE {
            string_push(&mut self.stdin, ch);
        } else {
            let n = self.stdin.as_str().unicode_len();
            let wide = n >= 2 || (n == 1 && self.stdin.as_str().get_char(0) as u32 >= 0x80);
            proof {
                lemma_more_than_one_byte(self.stdin@);
            }
            if wide {
                let _ = string_pop(&mut self.stdin);
            }
        }
    }

    /// Runs the command line: splits it at the runs of whitespace, takes the
    /// first piece without its leading `:` as the command's name and the
    /// other pieces as its arguments, and empties the text. Gives back what
    /// the command asks for.
    pub fn run_command(&mut self) -> (c: Option<ConsoleCommand>)
        requires
            command_line_ok(old(self).stdin@),
        ensures
            console_command_matches(c, command_name_of(old(self).stdin@), command_args_of(old(self).stdin@)),
            final(self).stdin@ == Seq::<char>::empty(),
            final(self).active == old(self).active,
    {
        let pieces = split_at_whitespace_runs(self.stdin.as_str());
        proof {
            lemma_split_first(self.stdin@);
            assert(pieces.deep_view()[0] == pieces@[0]@);
        }
        let first = pieces[0].as_str();
        assert(first@.len() > 0 && (first@[0] as u32) < 0x80);
        let name = drop_first_char(first);
        let mut args: Vec<String> = Vec::new();
        let mut i: usize = 1;
        while i < pieces.len()
            invariant
                1 <= i <= pieces@.len(),
                args.deep_view() == pieces.deep_view().subrange(1, i as int),
            decreases pieces@.len() - i,
        {
            let ghost before = args.deep_view();
            let p = clone_string(&pieces[i]);
            args.push(p);
            proof {
                assert(pieces.deep_view()[i as int] == pieces@[i as int]@);
                assert(args.deep_view() =~= before.push(p@));
                assert(args.deep_view() =~= pieces.deep_view().subrange(1, i + 1));
            }
            i = i + 1;
        }
        assert(args.deep_view() =~= pieces.deep_view().drop_first());
        let c = console_command(name.as_str(), &args);
        self.stdin = String::new();
        c
    }
}

/// The text after its first character, which is one byte wide.
fn drop_first_char(s: &str) -> (r: String)
    requires
        s@.len() > 0,
        (s@[0] as u32) < 0x80,
    ensures
        r@ == s@.drop_first(),
{
    let n = s.unicode_len();
    let mut r = String::new();
    let mut i: usize = 1;
    while i < n
        invariant
            n == s@.len(),
            1 <= i <= n,
            r@ == s@.subrange(1, i as int),
        decreases n - i,
    {
        string_push(&mut r, s.get_char(i));
        assert(r@ =~= s@.subrange(1, i + 1));
        i = i + 1;
    }
    assert(r@ =~= s@.drop_first());
    r
}

/// What a key press does to the console: shift + `;` (both shift bits set)
/// opens it, Escape closes it, Return runs the command line when the console
/// is open and then closes it. Gives back what the command asks for.
pub fn set_state(console: &mut RendererConsole, key: i32, mods: u16) -> (c: Option<ConsoleCommand>)
    requires
        key == KEY_RETURN && old(console).active ==> command_line_ok(old(console).stdin@),
    ensures
        key == KEY_SEMICOLON ==> c is None && final(console).stdin@ == old(console).stdin@
            && final(console).active == (old(console).active
                || (mods & MOD_LSHIFT == MOD_LSHIFT && mods & MOD_RSHIFT == MOD_RSHIFT)),
        key == KEY_ESCAPE ==> c is None && !final(console).active
            && final(console).stdin@ == old(console).stdin@,
        key == KEY_RETURN && old(console).active ==> !final(console).active
            && final(console).stdin@ == Seq::<char>::empty()
            && console_command_matches(c, command_name_of(old(console).stdin@), command_args_of(old(console).stdin@)),
        key == KEY_RETURN && !old(console).active ==> c is None && !final(console).active
            && final(console).stdin@ == old(console).stdin@,
        key != KEY_SEMICOLON && key != KEY_ESCAPE && key != KEY_RETURN ==> c is None
            && final(console).stdin@ == old(console).stdin@ && final(console).active == old(console).active,
{
    if key == KEY_SEMICOLON {
        if mods & (MOD_LSHIFT | MOD_RSHIFT) != (MOD_LSHIFT | MOD_RSHIFT) {
            assert(!(mods & 1u16 == 1u16 && mods & 2u16 == 2u16)) by (bit_vector)
                requires mods & (1u16 | 2u16) != (1u16 | 2u16);
            return None;
        }
        assert(mods & 1u16 == 1u16 && mods & 2u16 == 2u16) by (bit_vector)
            requires mods & (1u16 | 2u16) == (1u16 | 2u16);
        console.active(true);
        None
    } else if key == KEY_ESCAPE {
        console.active(false);
        None
    } else if key == KEY_RETURN {
        let mut c = None;
        if console.active {
            c = console.run_command();
        }
        console.active(false);
        c
    } else {
        None
    }
}

} // verus!
