//! Editor commands, their categories and keyboard modifiers.
use vstd::prelude::*;
use crate::text::{chars_of, range_eq_str};

pub mod keymap;

verus! {

/// The category a command belongs to.
#[derive(Copy, Clone, Hash, Debug, PartialEq, Eq, Structural)]
pub enum CommandType {
    Zoom,
    Nudge,
    ToolSelect,
    Selection,
    History,
    IO,
    ViewMode,
    ToggleConsole,
    ExecState,
    PathOp,
    Debug,
}

/// Every command a key binding can name.
#[derive(Copy, Clone, Hash, Debug, PartialEq, Eq, Structural)]
pub enum Command {
    // zoom
    ResetScale,
    ZoomIn,
    ZoomOut,
    // move camera
    NudgeUp,
    NudgeBigUp,
    NudgeTinyUp,
    NudgeDown,
    NudgeBigDown,
    NudgeTinyDown,
    NudgeLeft,
    NudgeBigLeft,
    NudgeTinyLeft,
    NudgeRight,
    NudgeBigRight,
    NudgeTinyRight,
    // tools
    ToolPan,
    ToolPen,
    ToolSelect,
    ToolZoom,
    ToolDash,
    ToolPAP,
    ToolVWS,
    ToolMeasure,
    ToolAnchors,
    ToolShapes,
    ToolGuidelines,
    ToolGrid,
    ToolImages,
    // selection
    DeleteSelection,
    SelectAll,
    CopySelection,
    PasteSelection,
    PasteSelectionInPlace,
    CutSelection,
    // history
    HistoryUndo,
    HistoryRedo,
    // I/O
    IOOpen,
    IOSave,
    IOSaveAs,
    IOSaveFlatten,
    IOFlatten,
    IOExport,
    // view modes
    TogglePointLabels,
    TogglePreviewMode,
    // console
    ToggleConsole,
    // misc
    Quit,
    ReverseContour,
    // debug
    SkiaDump,
}

/// The category of each command.
pub open spec fn command_type_of(c: Command) -> CommandType {
    match c {
        Command::ResetScale | Command::ZoomIn | Command::ZoomOut => CommandType::Zoom,
        Command::NudgeUp | Command::NudgeBigUp | Command::NudgeTinyUp | Command::NudgeDown
        | Command::NudgeBigDown | Command::NudgeTinyDown | Command::NudgeLeft
        | Command::NudgeBigLeft | Command::NudgeTinyLeft | Command::NudgeRight
        | Command::NudgeBigRight | Command::NudgeTinyRight => CommandType::Nudge,
        Command::ToolPan | Command::ToolPen | Command::ToolSelect | Command::ToolZoom
        | Command::ToolDash | Command::ToolPAP | Command::ToolVWS | Command::ToolMeasure
        | Command::ToolAnchors | Command::ToolShapes | Command::ToolGuidelines
        | Command::ToolImages => CommandType::ToolSelect,
        Command::DeleteSelection | Command::SelectAll | Command::CopySelection
        | Command::PasteSelection | Command::PasteSelectionInPlace
        | Command::CutSelection => CommandType::Selection,
        Command::HistoryUndo | Command::HistoryRedo => CommandType::History,
        Command::IOOpen | Command::IOSave | Command::IOSaveAs | Command::IOSaveFlatten
        | Command::IOFlatten | Command::IOExport => CommandType::IO,
        Command::ToolGrid | Command::TogglePointLabels
        | Command::TogglePreviewMode => CommandType::ViewMode,
        Command::ToggleConsole => CommandType::ToggleConsole,
        Command::Quit => CommandType::ExecState,
        Command::ReverseContour => CommandType::PathOp,
        Command::SkiaDump => CommandType::Debug,
    }
}

impl Command {
    /// The category this command belongs to.
    pub fn type_(&self) -> (t: CommandType)
        ensures
            t == command_type_of(*self),
    {
        match self {
            Command::ResetScale | Command::ZoomIn | Command::ZoomOut => CommandType::Zoom,
            Command::NudgeUp | Command::NudgeBigUp | Command::NudgeTinyUp | Command::NudgeDown
            | Command::NudgeBigDown | Command::NudgeTinyDown | Command::NudgeLeft
            | Command::NudgeBigLeft | Command::NudgeTinyLeft | Command::NudgeRight
            | Command::NudgeBigRight | Command::NudgeTinyRight => CommandType::Nudge,
            Command::ToolPan | Command::ToolPen | Command::ToolSelect | Command::ToolZoom
            | Command::ToolDash | Command::ToolPAP | Command::ToolVWS | Command::ToolMeasure
            | Command::ToolAnchors | Command::ToolShapes | Command::ToolGuidelines
            | Command::ToolImages => CommandType::ToolSelect,
            Command::DeleteSelection | Command::SelectAll | Command::CopySelection
            | Command::PasteSelection | Command::PasteSelectionInPlace
            | Command::CutSelection => CommandType::Selection,
            Command::HistoryUndo | Command::HistoryRedo => CommandType::History,
            Command::IOOpen | Command::IOSave | Command::IOSaveAs | Command::IOSaveFlatten
            | Command::IOFlatten | Command::IOExport => CommandType::IO,
            Command::ToolGrid | Command::TogglePointLabels
            | Command::TogglePreviewMode => CommandType::ViewMode,
            Command::ToggleConsole => CommandType::ToggleConsole,
            Command::Quit => CommandType::ExecState,
            Command::ReverseContour => CommandType::PathOp,
            Command::SkiaDump => CommandType::Debug,
        }
    }
}

/// Keyboard modifiers held together with a key.
#[derive(Copy, Clone, Debug, PartialEq, Eq, Hash, Structural)]
pub struct CommandMod {
    pub shift: bool,
    pub ctrl: bool,
    pub alt: bool,
    /// The "Windows" key.
    pub meta: bool,
}

/// No modifier held.
pub open spec fn no_mods() -> CommandMod {
    CommandMod { shift: false, ctrl: false, alt: false, meta: false }
}

impl CommandMod {
    /// No modifier held.
    pub fn none() -> (m: Self)
        ensures
            m == no_mods(),
    {
        CommandMod { shift: false, ctrl: false, alt: false, meta: false }
    }
}

impl Default for CommandMod {
    fn default() -> (m: Self)
        ensures
            m == no_mods(),
    {
        CommandMod::none()
    }
}


/// What `char::is_uppercase` answers for a character.
pub uninterp spec fn spec_is_uppercase(c: char) -> bool;

/// `char::is_uppercase`: whether the character has the Unicode `Uppercase`
/// property. The answer is named, not spelled out here, beyond ASCII, where
/// the uppercase characters are `A` to `Z`.
#[verifier::external_body]
fn char_is_uppercase(c: char) -> (r: bool)
    ensures
        r == spec_is_uppercase(c),
        (c as u32) < 0x80 ==> (r <==> ('A' <= c && c <= 'Z')),
{
    c.is_uppercase()
}

/// Which characters of `s` are uppercase.
pub open spec fn uppercase_flags(s: Seq<char>) -> Seq<bool> {
    Seq::new(s.len(), |i: int| spec_is_uppercase(s[i]))
}

/// `p` and `q` are consecutive uppercase positions: the word that starts at
/// `p` runs up to the next uppercase character, at `q`.
pub open spec fn is_segment(caps: Seq<bool>, p: int, q: int) -> bool {
    &&& 0 <= p < q < caps.len()
    &&& caps[p]
    &&& caps[q]
    &&& forall|k: int| p < k < q ==> !caps[k]
}

/// The word `w` stands in `s` between consecutive uppercase positions that
/// both lie before `end`.
pub open spec fn has_word_before(s: Seq<char>, caps: Seq<bool>, end: int, w: Seq<char>) -> bool {
    exists|p: int, q: int| #[trigger] is_segment(caps, p, q) && q < end && s.subrange(p, q) == w
}

/// The word `w` stands in `s` between two consecutive uppercase positions.
/// The text after the last uppercase character is no word.
pub open spec fn has_word(s: Seq<char>, caps: Seq<bool>, w: Seq<char>) -> bool {
    has_word_before(s, caps, s.len() as int, w)
}

/// The modifiers that a modifier name such as `"CtrlShiftMod"` spells, given
/// which of its characters are uppercase.
pub open spec fn mods_from_words(s: Seq<char>, caps: Seq<bool>) -> CommandMod {
    CommandMod {
        ctrl: has_word(s, caps, "Ctrl"@) || has_word(s, caps, "Control"@),
        shift: has_word(s, caps, "Shift"@),
        alt: has_word(s, caps, "Alt"@),
        meta: has_word(s, caps, "Meta"@) || has_word(s, caps, "Super"@) || has_word(
            s,
            caps,
            "Windows"@,
        ) || has_word(s, caps, "Gui"@),
    }
}

/// One more position: the words that end at `i` start at the last uppercase
/// position before `i`.
proof fn lemma_word_step(s: Seq<char>, caps: Seq<bool>, i: int, last: Option<int>, w: Seq<char>)
    requires
        caps.len() == s.len(),
        0 <= i < s.len(),
        last matches Some(p) ==> 0 <= p < i && caps[p] && forall|k: int| p < k < i ==> !caps[k],
        last is None ==> forall|k: int| 0 <= k < i ==> !caps[k],
    ensures
        has_word_before(s, caps, i + 1, w) == (has_word_before(s, caps, i, w) || (caps[i]
            && last is Some && s.subrange(last->0, i) == w)),
{
    if has_word_before(s, caps, i + 1, w) && !has_word_before(s, caps, i, w) {
        let (p, q) = choose|p: int, q: int|
            #[trigger] is_segment(caps, p, q) && q < i + 1 && s.subrange(p, q) == w;
        assert(q == i);
        match last {
            Some(lp) => {
                if p < lp {
                    assert(!caps[lp]);
                } else if p > lp {
                    assert(!caps[p]);
                }
            },
            None => {
                assert(!caps[p]);
            },
        }
    }
    if caps[i] && last is Some && s.subrange(last->0, i) == w {
        assert(is_segment(caps, last->0, i));
    }
}

/// The modifiers that `s` names, where `caps` tells which of its characters
/// are uppercase: each word that starts at an uppercase character and runs up
/// to the next one is read, the rest is ignored.
pub fn command_mod_from_caps(s: &Vec<char>, caps: &Vec<bool>) -> (m: CommandMod)
    requires
        caps@.len() == s@.len(),
    ensures
        m == mods_from_words(s@, caps@),
{
    let n = s.len();
    let mut m = CommandMod::none();
    let mut last: Option<usize> = None;
    let mut i: usize = 0;
    while i < n
        invariant
            n == s@.len(),
            caps@.len() == s@.len(),
            i <= n,
            last matches Some(p) ==> p < i && caps@[p as int] && forall|k: int|
                p < k < i ==> !caps@[k],
            last is None ==> forall|k: int| 0 <= k < i ==> !caps@[k],
            m.ctrl == (has_word_before(s@, caps@, i as int, "Ctrl"@) || has_word_before(
                s@,
                caps@,
                i as int,
                "Control"@,
            )),
            m.shift == has_word_before(s@, caps@, i as int, "Shift"@),
            m.alt == has_word_before(s@, caps@, i as int, "Alt"@),
            m.meta == (has_word_before(s@, caps@, i as int, "Meta"@) || has_word_before(
                s@,
                caps@,
                i as int,
                "Super"@,
            ) || has_word_before(s@, caps@, i as int, "Windows"@) || has_word_before(
                s@,
                caps@,
                i as int,
                "Gui"@,
            )),
        decreases n - i,
    {
        let ghost glast: Option<int> = match last {
            Some(p) => Some(p as int),
            None => None,
        };
        proof {
            lemma_word_step(s@, caps@, i as int, glast, "Ctrl"@);
            lemma_word_step(s@, caps@, i as int, glast, "Control"@);
            lemma_word_step(s@, caps@, i as int, glast, "Shift"@);
            lemma_word_step(s@, caps@, i as int, glast, "Alt"@);
            lemma_word_step(s@, caps@, i as int, glast, "Meta"@);
            lemma_word_step(s@, caps@, i as int, glast, "Super"@);
            lemma_word_step(s@, caps@, i as int, glast, "Windows"@);
            lemma_word_step(s@, caps@, i as int, glast, "Gui"@);
        }
        if caps[i] {
            if let Some(p) = last {
                if range_eq_str(s, p, i, "Ctrl") || range_eq_str(s, p, i, "Control") {
                    m.ctrl = true;
                }
                if range_eq_str(s, p, i, "Shift") {
                    m.shift = true;
                }
                if range_eq_str(s, p, i, "Alt") {
                    m.alt = true;
                }
                if range_eq_str(s, p, i, "Meta") || range_eq_str(s, p, i, "Super")
                    || range_eq_str(s, p, i, "Windows") || range_eq_str(s, p, i, "Gui") {
                    m.meta = true;
                }
            }
            last = Some(i);
        }
        i = i + 1;
    }
    m
}

/// Which characters of `s` are uppercase; among ASCII characters, `A` to
/// `Z`.
pub fn uppercase_flags_of(s: &Vec<char>) -> (caps: Vec<bool>)
    ensures
        caps@ == uppercase_flags(s@),
        forall|i: int| 0 <= i < s@.len() && (s@[i] as u32) < 0x80
            ==> (#[trigger] spec_is_uppercase(s@[i]) <==> ('A' <= s@[i] && s@[i] <= 'Z')),
{
    let mut caps: Vec<bool> = Vec::new();
    let mut i: usize = 0;
    while i < s.len()
        invariant
            i <= s@.len(),
            caps@ =~= uppercase_flags(s@).subrange(0, i as int),
            forall|k: int| 0 <= k < i && (s@[k] as u32) < 0x80
                ==> (#[trigger] spec_is_uppercase(s@[k]) <==> ('A' <= s@[k] && s@[k] <= 'Z')),
        decreases s@.len() - i,
    {
        let u = char_is_uppercase(s[i]);
        caps.push(u);
        i = i + 1;
        assert(caps@ =~= uppercase_flags(s@).subrange(0, i as int));
    }
    assert(caps@ =~= uppercase_flags(s@));
    caps
}

impl<'a> From<&'a str> for CommandMod {
    /// Reads a modifier name such as `"CtrlShiftMod"`: each word that starts
    /// at an uppercase character and runs up to the next uppercase character
    /// names a modifier (`Ctrl`/`Control`, `Shift`, `Alt`,
    /// `Meta`/`Super`/`Windows`/`Gui`); the last word and unknown words are
    /// ignored.
    fn from(s: &'a str) -> (m: CommandMod) {
        let cs = chars_of(s);
        let caps = uppercase_flags_of(&cs);
        command_mod_from_caps(&cs, &caps)
    }
}

impl<'a> vstd::std_specs::convert::FromSpecImpl<&'a str> for CommandMod {
    open spec fn obeys_from_spec() -> bool {
        true
    }

    open spec fn from_spec(s: &'a str) -> CommandMod {
        mods_from_words(s@, uppercase_flags(s@))
    }
}


/// The name of each command, as key binding files spell it.
pub open spec fn command_name(c: Command) -> Seq<char> {
    match c {
        Command::ResetScale => "ResetScale"@,
        Command::ZoomIn => "ZoomIn"@,
        Command::ZoomOut => "ZoomOut"@,
        Command::NudgeUp => "NudgeUp"@,
        Command::NudgeBigUp => "NudgeBigUp"@,
        Command::NudgeTinyUp => "NudgeTinyUp"@,
        Command::NudgeDown => "NudgeDown"@,
        Command::NudgeBigDown => "NudgeBigDown"@,
        Command::NudgeTinyDown => "NudgeTinyDown"@,
        Command::NudgeLeft => "NudgeLeft"@,
        Command::NudgeBigLeft => "NudgeBigLeft"@,
        Command::NudgeTinyLeft => "NudgeTinyLeft"@,
        Command::NudgeRight => "NudgeRight"@,
        Command::NudgeBigRight => "NudgeBigRight"@,
        Command::NudgeTinyRight => "NudgeTinyRight"@,
        Command::ToolPan => "ToolPan"@,
        Command::ToolPen => "ToolPen"@,
        Command::ToolSelect => "ToolSelect"@,
        Command::ToolZoom => "ToolZoom"@,
        Command::ToolDash => "ToolDash"@,
        Command::ToolPAP => "ToolPAP"@,
        Command::ToolVWS => "ToolVWS"@,
        Command::ToolMeasure => "ToolMeasure"@,
        Command::ToolAnchors => "ToolAnchors"@,
        Command::ToolShapes => "ToolShapes"@,
        Command::ToolGuidelines => "ToolGuidelines"@,
        Command::ToolGrid => "ToolGrid"@,
        Command::ToolImages => "ToolImages"@,
        Command::DeleteSelection => "DeleteSelection"@,
        Command::SelectAll => "SelectAll"@,
        Command::CopySelection => "CopySelection"@,
        Command::PasteSelection => "PasteSelection"@,
        Command::PasteSelectionInPlace => "PasteSelectionInPlace"@,
        Command::CutSelection => "CutSelection"@,
        Command::HistoryUndo => "HistoryUndo"@,
        Command::HistoryRedo => "HistoryRedo"@,
        Command::IOOpen => "IOOpen"@,
        Command::IOSave => "IOSave"@,
        Command::IOSaveAs => "IOSaveAs"@,
        Command::IOSaveFlatten => "IOSaveFlatten"@,
        Command::IOFlatten => "IOFlatten"@,
        Command::IOExport => "IOExport"@,
        Command::TogglePointLabels => "TogglePointLabels"@,
        Command::TogglePreviewMode => "TogglePreviewMode"@,
        Command::ToggleConsole => "ToggleConsole"@,
        Command::Quit => "Quit"@,
        Command::ReverseContour => "ReverseContour"@,
        Command::SkiaDump => "SkiaDump"@,
    }
}

/// The command that a name in a key binding file stands for: the names are
/// tried in the order of the commands.
pub open spec fn command_named(name: Seq<char>) -> Option<Command> {
    if name == "ResetScale"@ {
        Some(Command::ResetScale)
    } else if name == "ZoomIn"@ {
        Some(Command::ZoomIn)
    } else if name == "ZoomOut"@ {
        Some(Command::ZoomOut)
    } else if name == "NudgeUp"@ {
        Some(Command::NudgeUp)
    } else if name == "NudgeBigUp"@ {
        Some(Command::NudgeBigUp)
    } else if name == "NudgeTinyUp"@ {
        Some(Command::NudgeTinyUp)
    } else if name == "NudgeDown"@ {
        Some(Command::NudgeDown)
    } else if name == "NudgeBigDown"@ {
        Some(Command::NudgeBigDown)
    } else if name == "NudgeTinyDown"@ {
        Some(Command::NudgeTinyDown)
    } else if name == "NudgeLeft"@ {
        Some(Command::NudgeLeft)
    } else if name == "NudgeBigLeft"@ {
        Some(Command::NudgeBigLeft)
    } else if name == "NudgeTinyLeft"@ {
        Some(Command::NudgeTinyLeft)
    } else if name == "NudgeRight"@ {
        Some(Command::NudgeRight)
    } else if name == "NudgeBigRight"@ {
        Some(Command::NudgeBigRight)
    } else if name == "NudgeTinyRight"@ {
        Some(Command::NudgeTinyRight)
    } else if name == "ToolPan"@ {
        Some(Command::ToolPan)
    } else if name == "ToolPen"@ {
        Some(Command::ToolPen)
    } else if name == "ToolSelect"@ {
        Some(Command::ToolSelect)
    } else if name == "ToolZoom"@ {
        Some(Command::ToolZoom)
    } else if name == "ToolDash"@ {
        Some(Command::ToolDash)
    } else if name == "ToolPAP"@ {
        Some(Command::ToolPAP)
    } else if name == "ToolVWS"@ {
        Some(Command::ToolVWS)
    } else if name == "ToolMeasure"@ {
        Some(Command::ToolMeasure)
    } else if name == "ToolAnchors"@ {
        Some(Command::ToolAnchors)
    } else if name == "ToolShapes"@ {
        Some(Command::ToolShapes)
    } else if name == "ToolGuidelines"@ {
        Some(Command::ToolGuidelines)
    } else if name == "ToolGrid"@ {
        Some(Command::ToolGrid)
    } else if name == "ToolImages"@ {
        Some(Command::ToolImages)
    } else if name == "DeleteSelection"@ {
        Some(Command::DeleteSelection)
    } else if name == "SelectAll"@ {
        Some(Command::SelectAll)
    } else if name == "CopySelection"@ {
        Some(Command::CopySelection)
    } else if name == "PasteSelection"@ {
        Some(Command::PasteSelection)
    } else if name == "PasteSelectionInPlace"@ {
        Some(Command::PasteSelectionInPlace)
    } else if name == "CutSelection"@ {
        Some(Command::CutSelection)
    } else if name == "HistoryUndo"@ {
        Some(Command::HistoryUndo)
    } else if name == "HistoryRedo"@ {
        Some(Command::HistoryRedo)
    } else if name == "IOOpen"@ {
        Some(Command::IOOpen)
    } else if name == "IOSave"@ {
        Some(Command::IOSave)
    } else if name == "IOSaveAs"@ {
        Some(Command::IOSaveAs)
    } else if name == "IOSaveFlatten"@ {
        Some(Command::IOSaveFlatten)
    } else if name == "IOFlatten"@ {
        Some(Command::IOFlatten)
    } else if name == "IOExport"@ {
        Some(Command::IOExport)
    } else if name == "TogglePointLabels"@ {
        Some(Command::TogglePointLabels)
    } else if name == "TogglePreviewMode"@ {
        Some(Command::TogglePreviewMode)
    } else if name == "ToggleConsole"@ {
        Some(Command::ToggleConsole)
    } else if name == "Quit"@ {
        Some(Command::Quit)
    } else if name == "ReverseContour"@ {
        Some(Command::ReverseContour)
    } else if name == "SkiaDump"@ {
        Some(Command::SkiaDump)
    } else {
        None
    }
}

/// A command's name leads back to the command: no two commands share a
/// name, so reading a name that `name` wrote gives the same command.
pub proof fn law_command_name_roundtrip(c: Command)
    ensures
        command_named(command_name(c)) == Some(c),
{
    reveal_strlit("ResetScale");
    assert("ResetScale"@.len() == 10);
    reveal_strlit("ZoomIn");
    assert("ZoomIn"@.len() == 6);
    reveal_strlit("ZoomOut");
    assert("ZoomOut"@.len() == 7);
    reveal_strlit("NudgeUp");
    assert("NudgeUp"@.len() == 7);
    reveal_strlit("NudgeBigUp");
    assert("NudgeBigUp"@.len() == 10);
    reveal_strlit("NudgeTinyUp");
    assert("NudgeTinyUp"@.len() == 11);
    reveal_strlit("NudgeDown");
    assert("NudgeDown"@.len() == 9);
    reveal_strlit("NudgeBigDown");
    assert("NudgeBigDown"@.len() == 12);
    reveal_strlit("NudgeTinyDown");
    assert("NudgeTinyDown"@.len() == 13);
    reveal_strlit("NudgeLeft");
    assert("NudgeLeft"@.len() == 9);
    reveal_strlit("NudgeBigLeft");
    assert("NudgeBigLeft"@.len() == 12);
    reveal_strlit("NudgeTinyLeft");
    assert("NudgeTinyLeft"@.len() == 13);
    reveal_strlit("NudgeRight");
    assert("NudgeRight"@.len() == 10);
    reveal_strlit("NudgeBigRight");
    assert("NudgeBigRight"@.len() == 13);
    reveal_strlit("NudgeTinyRight");
    assert("NudgeTinyRight"@.len() == 14);
    reveal_strlit("ToolPan");
    assert("ToolPan"@.len() == 7);
    reveal_strlit("ToolPen");
    assert("ToolPen"@.len() == 7);
    reveal_strlit("ToolSelect");
    assert("ToolSelect"@.len() == 10);
    reveal_strlit("ToolZoom");
    assert("ToolZoom"@.len() == 8);
    reveal_strlit("ToolDash");
    assert("ToolDash"@.len() == 8);
    reveal_strlit("ToolPAP");
    assert("ToolPAP"@.len() == 7);
    reveal_strlit("ToolVWS");
    assert("ToolVWS"@.len() == 7);
    reveal_strlit("ToolMeasure");
    assert("ToolMeasure"@.len() == 11);
    reveal_strlit("ToolAnchors");
    assert("ToolAnchors"@.len() == 11);
    reveal_strlit("ToolShapes");
    assert("ToolShapes"@.len() == 10);
    reveal_strlit("ToolGuidelines");
    assert("ToolGuidelines"@.len() == 14);
    reveal_strlit("ToolGrid");
    assert("ToolGrid"@.len() == 8);
    reveal_strlit("ToolImages");
    assert("ToolImages"@.len() == 10);
    reveal_strlit("DeleteSelection");
    assert("DeleteSelection"@.len() == 15);
    reveal_strlit("SelectAll");
    assert("SelectAll"@.len() == 9);
    reveal_strlit("CopySelection");
    assert("CopySelection"@.len() == 13);
    reveal_strlit("PasteSelection");
    assert("PasteSelection"@.len() == 14);
    reveal_strlit("PasteSelectionInPlace");
    assert("PasteSelectionInPlace"@.len() == 21);
    reveal_strlit("CutSelection");
    assert("CutSelection"@.len() == 12);
    reveal_strlit("HistoryUndo");
    assert("HistoryUndo"@.len() == 11);
    reveal_strlit("HistoryRedo");
    assert("HistoryRedo"@.len() == 11);
    reveal_strlit("IOOpen");
    assert("IOOpen"@.len() == 6);
    reveal_strlit("IOSave");
    assert("IOSave"@.len() == 6);
    reveal_strlit("IOSaveAs");
    assert("IOSaveAs"@.len() == 8);
    reveal_strlit("IOSaveFlatten");
    assert("IOSaveFlatten"@.len() == 13);
    reveal_strlit("IOFlatten");
    assert("IOFlatten"@.len() == 9);
    reveal_strlit("IOExport");
    assert("IOExport"@.len() == 8);
    reveal_strlit("TogglePointLabels");
    assert("TogglePointLabels"@.len() == 17);
    reveal_strlit("TogglePreviewMode");
    assert("TogglePreviewMode"@.len() == 17);
    reveal_strlit("ToggleConsole");
    assert("ToggleConsole"@.len() == 13);
    reveal_strlit("Quit");
    assert("Quit"@.len() == 4);
    reveal_strlit("ReverseContour");
    assert("ReverseContour"@.len() == 14);
    reveal_strlit("SkiaDump");
    assert("SkiaDump"@.len() == 8);
    match c {
        Command::ResetScale => {},
        Command::ZoomIn => {},
        Command::ZoomOut => {},
        Command::NudgeUp => {
            assert("NudgeUp"@[0] == 'N' && "ZoomOut"@[0] == 'Z');
        },
        Command::NudgeBigUp => {
            assert("NudgeBigUp"@[0] == 'N' && "ResetScale"@[0] == 'R');
        },
        Command::NudgeTinyUp => {},
        Command::NudgeDown => {},
        Command::NudgeBigDown => {},
        Command::NudgeTinyDown => {},
        Command::NudgeLeft => {
            assert("NudgeLeft"@[5] == 'L' && "NudgeDown"@[5] == 'D');
        },
        Command::NudgeBigLeft => {
            assert("NudgeBigLeft"@[8] == 'L' && "NudgeBigDown"@[8] == 'D');
        },
        Command::NudgeTinyLeft => {
            assert("NudgeTinyLeft"@[9] == 'L' && "NudgeTinyDown"@[9] == 'D');
        },
        Command::NudgeRight => {
            assert("NudgeRight"@[0] == 'N' && "ResetScale"@[0] == 'R');
            assert("NudgeRight"@[5] == 'R' && "NudgeBigUp"@[5] == 'B');
        },
        Command::NudgeBigRight => {
            assert("NudgeBigRight"@[5] == 'B' && "NudgeTinyDown"@[5] == 'T');
            assert("NudgeBigRight"@[5] == 'B' && "NudgeTinyLeft"@[5] == 'T');
        },
        Command::NudgeTinyRight => {},
        Command::ToolPan => {
            assert("ToolPan"@[0] == 'T' && "ZoomOut"@[0] == 'Z');
            assert("ToolPan"@[0] == 'T' && "NudgeUp"@[0] == 'N');
        },
        Command::ToolPen => {
            assert("ToolPen"@[0] == 'T' && "ZoomOut"@[0] == 'Z');
            assert("ToolPen"@[0] == 'T' && "NudgeUp"@[0] == 'N');
            assert("ToolPen"@[5] == 'e' && "ToolPan"@[5] == 'a');
        },
        Command::ToolSelect => {
            assert("ToolSelect"@[0] == 'T' && "ResetScale"@[0] == 'R');
            assert("ToolSelect"@[0] == 'T' && "NudgeBigUp"@[0] == 'N');
            assert("ToolSelect"@[0] == 'T' && "NudgeRight"@[0] == 'N');
        },
        Command::ToolZoom => {},
        Command::ToolDash => {
            assert("ToolDash"@[4] == 'D' && "ToolZoom"@[4] == 'Z');
        },
        Command::ToolPAP => {
            assert("ToolPAP"@[0] == 'T' && "ZoomOut"@[0] == 'Z');
            assert("ToolPAP"@[0] == 'T' && "NudgeUp"@[0] == 'N');
            assert("ToolPAP"@[5] == 'A' && "ToolPan"@[5] == 'a');
            assert("ToolPAP"@[5] == 'A' && "ToolPen"@[5] == 'e');
        },
        Command::ToolVWS => {
            assert("ToolVWS"@[0] == 'T' && "ZoomOut"@[0] == 'Z');
            assert("ToolVWS"@[0] == 'T' && "NudgeUp"@[0] == 'N');
            assert("ToolVWS"@[4] == 'V' && "ToolPan"@[4] == 'P');
            assert("ToolVWS"@[4] == 'V' && "ToolPen"@[4] == 'P');
            assert("ToolVWS"@[4] == 'V' && "ToolPAP"@[4] == 'P');
        },
        Command::ToolMeasure => {
            assert("ToolMeasure"@[0] == 'T' && "NudgeTinyUp"@[0] == 'N');
        },
        Command::ToolAnchors => {
            assert("ToolAnchors"@[0] == 'T' && "NudgeTinyUp"@[0] == 'N');
            assert("ToolAnchors"@[4] == 'A' && "ToolMeasure"@[4] == 'M');
        },
        Command::ToolShapes => {
            assert("ToolShapes"@[0] == 'T' && "ResetScale"@[0] == 'R');
            assert("ToolShapes"@[0] == 'T' && "NudgeBigUp"@[0] == 'N');
            assert("ToolShapes"@[0] == 'T' && "NudgeRight"@[0] == 'N');
            assert("ToolShapes"@[5] == 'h' && "ToolSelect"@[5] == 'e');
        },
        Command::ToolGuidelines => {
            assert("ToolGuidelines"@[0] == 'T' && "NudgeTinyRight"@[0] == 'N');
        },
        Command::ToolGrid => {
            assert("ToolGrid"@[4] == 'G' && "ToolZoom"@[4] == 'Z');
            assert("ToolGrid"@[4] == 'G' && "ToolDash"@[4] == 'D');
        },
        Command::ToolImages => {
            assert("ToolImages"@[0] == 'T' && "ResetScale"@[0] == 'R');
            assert("ToolImages"@[0] == 'T' && "NudgeBigUp"@[0] == 'N');
            assert("ToolImages"@[0] == 'T' && "NudgeRight"@[0] == 'N');
            assert("ToolImages"@[4] == 'I' && "ToolSelect"@[4] == 'S');
            assert("ToolImages"@[4] == 'I' && "ToolShapes"@[4] == 'S');
        },
        Command::DeleteSelection => {},
        Command::SelectAll => {
            assert("SelectAll"@[0] == 'S' && "NudgeDown"@[0] == 'N');
            assert("SelectAll"@[0] == 'S' && "NudgeLeft"@[0] == 'N');
        },
        Command::CopySelection => {
            assert("CopySelection"@[0] == 'C' && "NudgeTinyDown"@[0] == 'N');
            assert("CopySelection"@[0] == 'C' && "NudgeTinyLeft"@[0] == 'N');
            assert("CopySelection"@[0] == 'C' && "NudgeBigRight"@[0] == 'N');
        },
        Command::PasteSelection => {
            assert("PasteSelection"@[0] == 'P' && "NudgeTinyRight"@[0] == 'N');
            assert("PasteSelection"@[0] == 'P' && "ToolGuidelines"@[0] == 'T');
        },
        Command::PasteSelectionInPlace => {},
        Command::CutSelection => {
            assert("CutSelection"@[0] == 'C' && "NudgeBigDown"@[0] == 'N');
            assert("CutSelection"@[0] == 'C' && "NudgeBigLeft"@[0] == 'N');
        },
        Command::HistoryUndo => {
            assert("HistoryUndo"@[0] == 'H' && "NudgeTinyUp"@[0] == 'N');
            assert("HistoryUndo"@[0] == 'H' && "ToolMeasure"@[0] == 'T');
            assert("HistoryUndo"@[0] == 'H' && "ToolAnchors"@[0] == 'T');
        },
        Command::HistoryRedo => {
            assert("HistoryRedo"@[0] == 'H' && "NudgeTinyUp"@[0] == 'N');
            assert("HistoryRedo"@[0] == 'H' && "ToolMeasure"@[0] == 'T');
            assert("HistoryRedo"@[0] == 'H' && "ToolAnchors"@[0] == 'T');
            assert("HistoryRedo"@[7] == 'R' && "HistoryUndo"@[7] == 'U');
        },
        Command::IOOpen => {
            assert("IOOpen"@[0] == 'I' && "ZoomIn"@[0] == 'Z');
        },
        Command::IOSave => {
            assert("IOSave"@[0] == 'I' && "ZoomIn"@[0] == 'Z');
            assert("IOSave"@[2] == 'S' && "IOOpen"@[2] == 'O');
        },
        Command::IOSaveAs => {
            assert("IOSaveAs"@[0] == 'I' && "ToolZoom"@[0] == 'T');
            assert("IOSaveAs"@[0] == 'I' && "ToolDash"@[0] == 'T');
            assert("IOSaveAs"@[0] == 'I' && "ToolGrid"@[0] == 'T');
        },
        Command::IOSaveFlatten => {
            assert("IOSaveFlatten"@[0] == 'I' && "NudgeTinyDown"@[0] == 'N');
            assert("IOSaveFlatten"@[0] == 'I' && "NudgeTinyLeft"@[0] == 'N');
            assert("IOSaveFlatten"@[0] == 'I' && "NudgeBigRight"@[0] == 'N');
            assert("IOSaveFlatten"@[0] == 'I' && "CopySelection"@[0] == 'C');
        },
        Command::IOFlatten => {
            assert("IOFlatten"@[0] == 'I' && "NudgeDown"@[0] == 'N');
            assert("IOFlatten"@[0] == 'I' && "NudgeLeft"@[0] == 'N');
            assert("IOFlatten"@[0] == 'I' && "SelectAll"@[0] == 'S');
        },
        Command::IOExport => {
            assert("IOExport"@[0] == 'I' && "ToolZoom"@[0] == 'T');
            assert("IOExport"@[0] == 'I' && "ToolDash"@[0] == 'T');
            assert("IOExport"@[0] == 'I' && "ToolGrid"@[0] == 'T');
            assert("IOExport"@[2] == 'E' && "IOSaveAs"@[2] == 'S');
        },
        Command::TogglePointLabels => {},
        Command::TogglePreviewMode => {
            assert("TogglePreviewMode"@[7] == 'r' && "TogglePointLabels"@[7] == 'o');
        },
        Command::ToggleConsole => {
            assert("ToggleConsole"@[0] == 'T' && "NudgeTinyDown"@[0] == 'N');
            assert("ToggleConsole"@[0] == 'T' && "NudgeTinyLeft"@[0] == 'N');
            assert("ToggleConsole"@[0] == 'T' && "NudgeBigRight"@[0] == 'N');
            assert("ToggleConsole"@[0] == 'T' && "CopySelection"@[0] == 'C');
            assert("ToggleConsole"@[0] == 'T' && "IOSaveFlatten"@[0] == 'I');
        },
        Command::Quit => {},
        Command::ReverseContour => {
            assert("ReverseContour"@[0] == 'R' && "NudgeTinyRight"@[0] == 'N');
            assert("ReverseContour"@[0] == 'R' && "ToolGuidelines"@[0] == 'T');
            assert("ReverseContour"@[0] == 'R' && "PasteSelection"@[0] == 'P');
        },
        Command::SkiaDump => {
            assert("SkiaDump"@[0] == 'S' && "ToolZoom"@[0] == 'T');
            assert("SkiaDump"@[0] == 'S' && "ToolDash"@[0] == 'T');
            assert("SkiaDump"@[0] == 'S' && "ToolGrid"@[0] == 'T');
            assert("SkiaDump"@[0] == 'S' && "IOSaveAs"@[0] == 'I');
            assert("SkiaDump"@[0] == 'S' && "IOExport"@[0] == 'I');
        },
    }
}

/// Each command is named by the identifier of its variant, in key binding
/// files and wherever a command is written out, and each such name reads
/// back as that command.
pub proof fn law_command_names_are_identifiers()
    ensures
        command_name(Command::ResetScale) == "ResetScale"@,
        command_name(Command::ZoomIn) == "ZoomIn"@,
        command_name(Command::ZoomOut) == "ZoomOut"@,
        command_name(Command::NudgeUp) == "NudgeUp"@,
        command_name(Command::NudgeBigUp) == "NudgeBigUp"@,
        command_name(Command::NudgeTinyUp) == "NudgeTinyUp"@,
        command_name(Command::NudgeDown) == "NudgeDown"@,
        command_name(Command::NudgeBigDown) == "NudgeBigDown"@,
        command_name(Command::NudgeTinyDown) == "NudgeTinyDown"@,
        command_name(Command::NudgeLeft) == "NudgeLeft"@,
        command_name(Command::NudgeBigLeft) == "NudgeBigLeft"@,
        command_name(Command::NudgeTinyLeft) == "NudgeTinyLeft"@,
        command_name(Command::NudgeRight) == "NudgeRight"@,
        command_name(Command::NudgeBigRight) == "NudgeBigRight"@,
        command_name(Command::NudgeTinyRight) == "NudgeTinyRight"@,
        command_name(Command::ToolPan) == "ToolPan"@,
        command_name(Command::ToolPen) == "ToolPen"@,
        command_name(Command::ToolSelect) == "ToolSelect"@,
        command_name(Command::ToolZoom) == "ToolZoom"@,
        command_name(Command::ToolDash) == "ToolDash"@,
        command_name(Command::ToolPAP) == "ToolPAP"@,
        command_name(Command::ToolVWS) == "ToolVWS"@,
        command_name(Command::ToolMeasure) == "ToolMeasure"@,
        command_name(Command::ToolAnchors) == "ToolAnchors"@,
        command_name(Command::ToolShapes) == "ToolShapes"@,
        command_name(Command::ToolGuidelines) == "ToolGuidelines"@,
        command_name(Command::ToolGrid) == "ToolGrid"@,
        command_name(Command::ToolImages) == "ToolImages"@,
        command_name(Command::DeleteSelection) == "DeleteSelection"@,
        command_name(Command::SelectAll) == "SelectAll"@,
        command_name(Command::CopySelection) == "CopySelection"@,
        command_name(Command::PasteSelection) == "PasteSelection"@,
        command_name(Command::PasteSelectionInPlace) == "PasteSelectionInPlace"@,
        command_name(Command::CutSelection) == "CutSelection"@,
        command_name(Command::HistoryUndo) == "HistoryUndo"@,
        command_name(Command::HistoryRedo) == "HistoryRedo"@,
        command_name(Command::IOOpen) == "IOOpen"@,
        command_name(Command::IOSave) == "IOSave"@,
        command_name(Command::IOSaveAs) == "IOSaveAs"@,
        command_name(Command::IOSaveFlatten) == "IOSaveFlatten"@,
        command_name(Command::IOFlatten) == "IOFlatten"@,
        command_name(Command::IOExport) == "IOExport"@,
        command_name(Command::TogglePointLabels) == "TogglePointLabels"@,
        command_name(Command::TogglePreviewMode) == "TogglePreviewMode"@,
        command_name(Command::ToggleConsole) == "ToggleConsole"@,
        command_name(Command::Quit) == "Quit"@,
        command_name(Command::ReverseContour) == "ReverseContour"@,
        command_name(Command::SkiaDump) == "SkiaDump"@,
        command_named("ResetScale"@) == Some(Command::ResetScale),
        command_named("ZoomIn"@) == Some(Command::ZoomIn),
        command_named("ZoomOut"@) == Some(Command::ZoomOut),
        command_named("NudgeUp"@) == Some(Command::NudgeUp),
        command_named("NudgeBigUp"@) == Some(Command::NudgeBigUp),
        command_named("NudgeTinyUp"@) == Some(Command::NudgeTinyUp),
        command_named("NudgeDown"@) == Some(Command::NudgeDown),
        command_named("NudgeBigDown"@) == Some(Command::NudgeBigDown),
        command_named("NudgeTinyDown"@) == Some(Command::NudgeTinyDown),
        command_named("NudgeLeft"@) == Some(Command::NudgeLeft),
        command_named("NudgeBigLeft"@) == Some(Command::NudgeBigLeft),
        command_named("NudgeTinyLeft"@) == Some(Command::NudgeTinyLeft),
        command_named("NudgeRight"@) == Some(Command::NudgeRight),
        command_named("NudgeBigRight"@) == Some(Command::NudgeBigRight),
        command_named("NudgeTinyRight"@) == Some(Command::NudgeTinyRight),
        command_named("ToolPan"@) == Some(Command::ToolPan),
        command_named("ToolPen"@) == Some(Command::ToolPen),
        command_named("ToolSelect"@) == Some(Command::ToolSelect),
        command_named("ToolZoom"@) == Some(Command::ToolZoom),
        command_named("ToolDash"@) == Some(Command::ToolDash),
        command_named("ToolPAP"@) == Some(Command::ToolPAP),
        command_named("ToolVWS"@) == Some(Command::ToolVWS),
        command_named("ToolMeasure"@) == Some(Command::ToolMeasure),
        command_named("ToolAnchors"@) == Some(Command::ToolAnchors),
        command_named("ToolShapes"@) == Some(Command::ToolShapes),
        command_named("ToolGuidelines"@) == Some(Command::ToolGuidelines),
        command_named("ToolGrid"@) == Some(Command::ToolGrid),
        command_named("ToolImages"@) == Some(Command::ToolImages),
        command_named("DeleteSelection"@) == Some(Command::DeleteSelection),
        command_named("SelectAll"@) == Some(Command::SelectAll),
        command_named("CopySelection"@) == Some(Command::CopySelection),
        command_named("PasteSelection"@) == Some(Command::PasteSelection),
        command_named("PasteSelectionInPlace"@) == Some(Command::PasteSelectionInPlace),
        command_named("CutSelection"@) == Some(Command::CutSelection),
        command_named("HistoryUndo"@) == Some(Command::HistoryUndo),
        command_named("HistoryRedo"@) == Some(Command::HistoryRedo),
        command_named("IOOpen"@) == Some(Command::IOOpen),
        command_named("IOSave"@) == Some(Command::IOSave),
        command_named("IOSaveAs"@) == Some(Command::IOSaveAs),
        command_named("IOSaveFlatten"@) == Some(Command::IOSaveFlatten),
        command_named("IOFlatten"@) == Some(Command::IOFlatten),
        command_named("IOExport"@) == Some(Command::IOExport),
        command_named("TogglePointLabels"@) == Some(Command::TogglePointLabels),
        command_named("TogglePreviewMode"@) == Some(Command::TogglePreviewMode),
        command_named("ToggleConsole"@) == Some(Command::ToggleConsole),
        command_named("Quit"@) == Some(Command::Quit),
        command_named("ReverseContour"@) == Some(Command::ReverseContour),
        command_named("SkiaDump"@) == Some(Command::SkiaDump),
{
    law_command_name_roundtrip(Command::ResetScale);
    law_command_name_roundtrip(Command::ZoomIn);
    law_command_name_roundtrip(Command::ZoomOut);
    law_command_name_roundtrip(Command::NudgeUp);
    law_command_name_roundtrip(Command::NudgeBigUp);
    law_command_name_roundtrip(Command::NudgeTinyUp);
    law_command_name_roundtrip(Command::NudgeDown);
    law_command_name_roundtrip(Command::NudgeBigDown);
    law_command_name_roundtrip(Command::NudgeTinyDown);
    law_command_name_roundtrip(Command::NudgeLeft);
    law_command_name_roundtrip(Command::NudgeBigLeft);
    law_command_name_roundtrip(Command::NudgeTinyLeft);
    law_command_name_roundtrip(Command::NudgeRight);
    law_command_name_roundtrip(Command::NudgeBigRight);
    law_command_name_roundtrip(Command::NudgeTinyRight);
    law_command_name_roundtrip(Command::ToolPan);
    law_command_name_roundtrip(Command::ToolPen);
    law_command_name_roundtrip(Command::ToolSelect);
    law_command_name_roundtrip(Command::ToolZoom);
    law_command_name_roundtrip(Command::ToolDash);
    law_command_name_roundtrip(Command::ToolPAP);
    law_command_name_roundtrip(Command::ToolVWS);
    law_command_name_roundtrip(Command::ToolMeasure);
    law_command_name_roundtrip(Command::ToolAnchors);
    law_command_name_roundtrip(Command::ToolShapes);
    law_command_name_roundtrip(Command::ToolGuidelines);
    law_command_name_roundtrip(Command::ToolGrid);
    law_command_name_roundtrip(Command::ToolImages);
    law_command_name_roundtrip(Command::DeleteSelection);
    law_command_name_roundtrip(Command::SelectAll);
    law_command_name_roundtrip(Command::CopySelection);
    law_command_name_roundtrip(Command::PasteSelection);
    law_command_name_roundtrip(Command::PasteSelectionInPlace);
    law_command_name_roundtrip(Command::CutSelection);
    law_command_name_roundtrip(Command::HistoryUndo);
    law_command_name_roundtrip(Command::HistoryRedo);
    law_command_name_roundtrip(Command::IOOpen);
    law_command_name_roundtrip(Command::IOSave);
    law_command_name_roundtrip(Command::IOSaveAs);
    law_command_name_roundtrip(Command::IOSaveFlatten);
    law_command_name_roundtrip(Command::IOFlatten);
    law_command_name_roundtrip(Command::IOExport);
    law_command_name_roundtrip(Command::TogglePointLabels);
    law_command_name_roundtrip(Command::TogglePreviewMode);
    law_command_name_roundtrip(Command::ToggleConsole);
    law_command_name_roundtrip(Command::Quit);
    law_command_name_roundtrip(Command::ReverseContour);
    law_command_name_roundtrip(Command::SkiaDump);
}

impl Command {
    /// The name of this command, as key binding files spell it.
    pub fn name(&self) -> (r: &'static str)
        ensures
            r@ == command_name(*self),
    {
        match self {
            Command::ResetScale => "ResetScale",
            Command::ZoomIn => "ZoomIn",
            Command::ZoomOut => "ZoomOut",
            Command::NudgeUp => "NudgeUp",
            Command::NudgeBigUp => "NudgeBigUp",
            Command::NudgeTinyUp => "NudgeTinyUp",
            Command::NudgeDown => "NudgeDown",
            Command::NudgeBigDown => "NudgeBigDown",
            Command::NudgeTinyDown => "NudgeTinyDown",
            Command::NudgeLeft => "NudgeLeft",
            Command::NudgeBigLeft => "NudgeBigLeft",
            Command::NudgeTinyLeft => "NudgeTinyLeft",
            Command::NudgeRight => "NudgeRight",
            Command::NudgeBigRight => "NudgeBigRight",
            Command::NudgeTinyRight => "NudgeTinyRight",
            Command::ToolPan => "ToolPan",
            Command::ToolPen => "ToolPen",
            Command::ToolSelect => "ToolSelect",
            Command::ToolZoom => "ToolZoom",
            Command::ToolDash => "ToolDash",
            Command::ToolPAP => "ToolPAP",
            Command::ToolVWS => "ToolVWS",
            Command::ToolMeasure => "ToolMeasure",
            Command::ToolAnchors => "ToolAnchors",
            Command::ToolShapes => "ToolShapes",
            Command::ToolGuidelines => "ToolGuidelines",
            Command::ToolGrid => "ToolGrid",
            Command::ToolImages => "ToolImages",
            Command::DeleteSelection => "DeleteSelection",
            Command::SelectAll => "SelectAll",
            Command::CopySelection => "CopySelection",
            Command::PasteSelection => "PasteSelection",
            Command::PasteSelectionInPlace => "PasteSelectionInPlace",
            Command::CutSelection => "CutSelection",
            Command::HistoryUndo => "HistoryUndo",
            Command::HistoryRedo => "HistoryRedo",
            Command::IOOpen => "IOOpen",
            Command::IOSave => "IOSave",
            Command::IOSaveAs => "IOSaveAs",
            Command::IOSaveFlatten => "IOSaveFlatten",
            Command::IOFlatten => "IOFlatten",
            Command::IOExport => "IOExport",
            Command::TogglePointLabels => "TogglePointLabels",
            Command::TogglePreviewMode => "TogglePreviewMode",
            Command::ToggleConsole => "ToggleConsole",
            Command::Quit => "Quit",
            Command::ReverseContour => "ReverseContour",
            Command::SkiaDump => "SkiaDump",
        }
    }

    /// The command that `s` names, if any.
    pub fn from_name(s: &str) -> (r: Option<Command>)
        ensures
            r == command_named(s@),
            r matches Some(c) ==> s@ == command_name(c),
            r is None ==> forall|c: Command| s@ != #[trigger] command_name(c),
    {
        let cs = chars_of(s);
        let n = cs.len();
        assert(cs@.subrange(0, n as int) =~= s@);
        if range_eq_str(&cs, 0, n, "ResetScale") {
            return Some(Command::ResetScale);
        }
        if range_eq_str(&cs, 0, n, "ZoomIn") {
            return Some(Command::ZoomIn);
        }
        if range_eq_str(&cs, 0, n, "ZoomOut") {
            return Some(Command::ZoomOut);
        }
        if range_eq_str(&cs, 0, n, "NudgeUp") {
            return Some(Command::NudgeUp);
        }
        if range_eq_str(&cs, 0, n, "NudgeBigUp") {
            return Some(Command::NudgeBigUp);
        }
        if range_eq_str(&cs, 0, n, "NudgeTinyUp") {
            return Some(Command::NudgeTinyUp);
        }
        if range_eq_str(&cs, 0, n, "NudgeDown") {
            return Some(Command::NudgeDown);
        }
        if range_eq_str(&cs, 0, n, "NudgeBigDown") {
            return Some(Command::NudgeBigDown);
        }
        if range_eq_str(&cs, 0, n, "NudgeTinyDown") {
            return Some(Command::NudgeTinyDown);
        }
        if range_eq_str(&cs, 0, n, "NudgeLeft") {
            return Some(Command::NudgeLeft);
        }
        if range_eq_str(&cs, 0, n, "NudgeBigLeft") {
            return Some(Command::NudgeBigLeft);
        }
        if range_eq_str(&cs, 0, n, "NudgeTinyLeft") {
            return Some(Command::NudgeTinyLeft);
        }
        if range_eq_str(&cs, 0, n, "NudgeRight") {
            return Some(Command::NudgeRight);
        }
        if range_eq_str(&cs, 0, n, "NudgeBigRight") {
            return Some(Command::NudgeBigRight);
        }
        if range_eq_str(&cs, 0, n, "NudgeTinyRight") {
            return Some(Command::NudgeTinyRight);
        }
        if range_eq_str(&cs, 0, n, "ToolPan") {
            return Some(Command::ToolPan);
        }
        if range_eq_str(&cs, 0, n, "ToolPen") {
            return Some(Command::ToolPen);
        }
        if range_eq_str(&cs, 0, n, "ToolSelect") {
            return Some(Command::ToolSelect);
        }
        if range_eq_str(&cs, 0, n, "ToolZoom") {
            return Some(Command::ToolZoom);
        }
        if range_eq_str(&cs, 0, n, "ToolDash") {
            return Some(Command::ToolDash);
        }
        if range_eq_str(&cs, 0, n, "ToolPAP") {
            return Some(Command::ToolPAP);
        }
        if range_eq_str(&cs, 0, n, "ToolVWS") {
            return Some(Command::ToolVWS);
        }
        if range_eq_str(&cs, 0, n, "ToolMeasure") {
            return Some(Command::ToolMeasure);
        }
        if range_eq_str(&cs, 0, n, "ToolAnchors") {
            return Some(Command::ToolAnchors);
        }
        if range_eq_str(&cs, 0, n, "ToolShapes") {
            return Some(Command::ToolShapes);
        }
        if range_eq_str(&cs, 0, n, "ToolGuidelines") {
            return Some(Command::ToolGuidelines);
        }
        if range_eq_str(&cs, 0, n, "ToolGrid") {
            return Some(Command::ToolGrid);
        }
        if range_eq_str(&cs, 0, n, "ToolImages") {
            return Some(Command::ToolImages);
        }
        if range_eq_str(&cs, 0, n, "DeleteSelection") {
            return Some(Command::DeleteSelection);
        }
        if range_eq_str(&cs, 0, n, "SelectAll") {
            return Some(Command::SelectAll);
        }
        if range_eq_str(&cs, 0, n, "CopySelection") {
            return Some(Command::CopySelection);
        }
        if range_eq_str(&cs, 0, n, "PasteSelection") {
            return Some(Command::PasteSelection);
        }
        if range_eq_str(&cs, 0, n, "PasteSelectionInPlace") {
            return Some(Command::PasteSelectionInPlace);
        }
        if range_eq_str(&cs, 0, n, "CutSelection") {
            return Some(Command::CutSelection);
        }
        if range_eq_str(&cs, 0, n, "HistoryUndo") {
            return Some(Command::HistoryUndo);
        }
        if range_eq_str(&cs, 0, n, "HistoryRedo") {
            return Some(Command::HistoryRedo);
        }
        if range_eq_str(&cs, 0, n, "IOOpen") {
            return Some(Command::IOOpen);
        }
        if range_eq_str(&cs, 0, n, "IOSave") {
            return Some(Command::IOSave);
        }
        if range_eq_str(&cs, 0, n, "IOSaveAs") {
            return Some(Command::IOSaveAs);
        }
        if range_eq_str(&cs, 0, n, "IOSaveFlatten") {
            return Some(Command::IOSaveFlatten);
        }
        if range_eq_str(&cs, 0, n, "IOFlatten") {
            return Some(Command::IOFlatten);
        }
        if range_eq_str(&cs, 0, n, "IOExport") {
            return Some(Command::IOExport);
        }
        if range_eq_str(&cs, 0, n, "TogglePointLabels") {
            return Some(Command::TogglePointLabels);
        }
        if range_eq_str(&cs, 0, n, "TogglePreviewMode") {
            return Some(Command::TogglePreviewMode);
        }
        if range_eq_str(&cs, 0, n, "ToggleConsole") {
            return Some(Command::ToggleConsole);
        }
        if range_eq_str(&cs, 0, n, "Quit") {
            return Some(Command::Quit);
        }
        if range_eq_str(&cs, 0, n, "ReverseContour") {
            return Some(Command::ReverseContour);
        }
        if range_eq_str(&cs, 0, n, "SkiaDump") {
            return Some(Command::SkiaDump);
    }
        assert forall|c: Command| s@ != #[trigger] command_name(c) by {
            match c {
            Command::ResetScale => {},
            Command::ZoomIn => {},
            Command::ZoomOut => {},
            Command::NudgeUp => {},
            Command::NudgeBigUp => {},
            Command::NudgeTinyUp => {},
            Command::NudgeDown => {},
            Command::NudgeBigDown => {},
            Command::NudgeTinyDown => {},
            Command::NudgeLeft => {},
            Command::NudgeBigLeft => {},
            Command::NudgeTinyLeft => {},
            Command::NudgeRight => {},
            Command::NudgeBigRight => {},
            Command::NudgeTinyRight => {},
            Command::ToolPan => {},
            Command::ToolPen => {},
            Command::ToolSelect => {},
            Command::ToolZoom => {},
            Command::ToolDash => {},
            Command::ToolPAP => {},
            Command::ToolVWS => {},
            Command::ToolMeasure => {},
            Command::ToolAnchors => {},
            Command::ToolShapes => {},
            Command::ToolGuidelines => {},
            Command::ToolGrid => {},
            Command::ToolImages => {},
            Command::DeleteSelection => {},
            Command::SelectAll => {},
            Command::CopySelection => {},
            Command::PasteSelection => {},
            Command::PasteSelectionInPlace => {},
            Command::CutSelection => {},
            Command::HistoryUndo => {},
            Command::HistoryRedo => {},
            Command::IOOpen => {},
            Command::IOSave => {},
            Command::IOSaveAs => {},
            Command::IOSaveFlatten => {},
            Command::IOFlatten => {},
            Command::IOExport => {},
            Command::TogglePointLabels => {},
            Command::TogglePreviewMode => {},
            Command::ToggleConsole => {},
            Command::Quit => {},
            Command::ReverseContour => {},
            Command::SkiaDump => {},
            }
        }
        None
    }
}

/// A name that is no command's.
#[derive(Debug, Clone, Copy, PartialEq, Eq, Structural)]
pub struct UnknownCommand;

impl core::str::FromStr for Command {
    type Err = UnknownCommand;

    /// The command that `s` names, or `UnknownCommand`.
    fn from_str(s: &str) -> (r: Result<Command, UnknownCommand>)
        ensures
            r == (match command_named(s@) {
                Some(c) => Ok(c),
                None => Err(UnknownCommand),
            }),
    {
        match Command::from_name(s) {
            Some(c) => Ok(c),
            None => Err(UnknownCommand),
        }
    }
}

} // verus!
