//! Key bindings: which command a key pressed with which modifiers runs, as
//! read from a key binding file.
use vstd::prelude::*;
use std::collections::HashSet;
use super::{Command, CommandMod, command_named, no_mods, mods_from_words, uppercase_flags};
use crate::xml::{XmlElement, XmlNode, attr_value, named_children};
use crate::text::str_eq;

verus! {

broadcast use vstd::std_specs::hash::group_hash_axioms;

/// Key code of the left control key.
pub const KEY_LCTRL: i32 = 0x400000E0;
/// Key code of the left shift key.
pub const KEY_LSHIFT: i32 = 0x400000E1;
/// Key code of the left alt key.
pub const KEY_LALT: i32 = 0x400000E2;
/// Key code of the left "Windows" key.
pub const KEY_LGUI: i32 = 0x400000E3;
/// Key code of the right control key.
pub const KEY_RCTRL: i32 = 0x400000E4;
/// Key code of the right shift key.
pub const KEY_RSHIFT: i32 = 0x400000E5;
/// Key code of the right alt key.
pub const KEY_RALT: i32 = 0x400000E6;
/// Key code of the right "Windows" key.
pub const KEY_RGUI: i32 = 0x400000E7;

/// A command to run, with the modifiers it is run with.
#[derive(Clone, Copy, Debug, PartialEq, Eq, Structural)]
pub struct CommandInfo {
    pub command: Command,
    pub command_mod: CommandMod,
}

/// One binding: a key, the modifiers held with it, and the command it runs.
#[derive(Clone, Copy, Debug, PartialEq, Eq, Structural)]
pub struct KeyBinding {
    pub key: i32,
    pub command_mod: CommandMod,
    pub command: Command,
}

/// What a binding is found by.
pub open spec fn binding_key(b: KeyBinding) -> (i32, CommandMod) {
    (b.key, b.command_mod)
}

/// No two bindings are found by the same key and modifiers.
pub open spec fn keys_unique(s: Seq<KeyBinding>) -> bool {
    forall|i: int, j: int|
        0 <= i < s.len() && 0 <= j < s.len() && i != j ==> binding_key(s[i]) != binding_key(s[j])
}

/// Whether some binding of `s` is found by `k`.
pub open spec fn has_binding(s: Seq<KeyBinding>, k: (i32, CommandMod)) -> bool {
    exists|i: int| 0 <= i < s.len() && binding_key(s[i]) == k
}

/// The bindings as a map from key and modifiers to command.
pub open spec fn bindings_map(s: Seq<KeyBinding>) -> Map<(i32, CommandMod), Command> {
    Map::new(
        |k: (i32, CommandMod)| has_binding(s, k),
        |k: (i32, CommandMod)| s[choose|i: int| 0 <= i < s.len() && binding_key(s[i]) == k].command,
    )
}

/// Each binding is in the map, under its key.
pub proof fn lemma_bindings_map_at(s: Seq<KeyBinding>, i: int)
    requires
        keys_unique(s),
        0 <= i < s.len(),
    ensures
        bindings_map(s).dom().contains(binding_key(s[i])),
        bindings_map(s)[binding_key(s[i])] == s[i].command,
{
    let k = binding_key(s[i]);
    assert(has_binding(s, k));
    let j = choose|j: int| 0 <= j < s.len() && binding_key(s[j]) == k;
    assert(j == i);
}

/// Appending a binding under a new key adds it to the map.
pub proof fn lemma_bindings_map_push(s: Seq<KeyBinding>, b: KeyBinding)
    requires
        keys_unique(s),
        !has_binding(s, binding_key(b)),
    ensures
        keys_unique(s.push(b)),
        bindings_map(s.push(b)) == bindings_map(s).insert(binding_key(b), b.command),
{
    let t = s.push(b);
    assert forall|i: int, j: int|
        0 <= i < t.len() && 0 <= j < t.len() && i != j implies binding_key(t[i]) != binding_key(t[j]) by {
        if i == s.len() {
            assert(t[j] == s[j]);
        } else if j == s.len() {
            assert(t[i] == s[i]);
        } else {
            assert(t[i] == s[i] && t[j] == s[j]);
        }
    }
    let m = bindings_map(s).insert(binding_key(b), b.command);
    assert forall|k: (i32, CommandMod)| #[trigger] bindings_map(t).dom().contains(k) == m.dom().contains(k) by {
        if has_binding(t, k) {
            let i = choose|i: int| 0 <= i < t.len() && binding_key(t[i]) == k;
            if i < s.len() {
                assert(t[i] == s[i]);
                assert(has_binding(s, k));
            }
        }
        if has_binding(s, k) {
            let i = choose|i: int| 0 <= i < s.len() && binding_key(s[i]) == k;
            assert(t[i] == s[i]);
            assert(has_binding(t, k));
        }
        if k == binding_key(b) {
            assert(t[s.len() as int] == b);
            assert(has_binding(t, k));
        }
    }
    assert forall|k: (i32, CommandMod)| #[trigger] m.dom().contains(k) implies bindings_map(t)[k] == m[k] by {
        if k == binding_key(b) {
            assert(t[s.len() as int] == b);
            lemma_bindings_map_at(t, s.len() as int);
        } else {
            let i = choose|i: int| 0 <= i < s.len() && binding_key(s[i]) == k;
            lemma_bindings_map_at(s, i);
            assert(t[i] == s[i]);
            lemma_bindings_map_at(t, i);
        }
    }
    assert(bindings_map(t) =~= m);
}

/// Replacing the binding under a key replaces it in the map.
pub proof fn lemma_bindings_map_update(s: Seq<KeyBinding>, i: int, b: KeyBinding)
    requires
        keys_unique(s),
        0 <= i < s.len(),
        binding_key(s[i]) == binding_key(b),
    ensures
        keys_unique(s.update(i, b)),
        bindings_map(s.update(i, b)) == bindings_map(s).insert(binding_key(b), b.command),
{
    let t = s.update(i, b);
    assert forall|p: int, q: int|
        0 <= p < t.len() && 0 <= q < t.len() && p != q implies binding_key(t[p]) != binding_key(t[q]) by {
        assert(binding_key(t[p]) == binding_key(s[p]));
        assert(binding_key(t[q]) == binding_key(s[q]));
    }
    let m = bindings_map(s).insert(binding_key(b), b.command);
    lemma_bindings_map_at(s, i);
    assert forall|k: (i32, CommandMod)| #[trigger] bindings_map(t).dom().contains(k) == m.dom().contains(k) by {
        if has_binding(t, k) {
            let p = choose|p: int| 0 <= p < t.len() && binding_key(t[p]) == k;
            assert(binding_key(s[p]) == k);
        }
        if has_binding(s, k) {
            let p = choose|p: int| 0 <= p < s.len() && binding_key(s[p]) == k;
            assert(binding_key(t[p]) == k);
        }
    }
    assert forall|k: (i32, CommandMod)| #[trigger] m.dom().contains(k) implies bindings_map(t)[k] == m[k] by {
        if k == binding_key(b) {
            lemma_bindings_map_at(t, i);
        } else {
            let p = choose|p: int| 0 <= p < s.len() && binding_key(s[p]) == k;
            lemma_bindings_map_at(s, p);
            assert(t[p] == s[p]);
            lemma_bindings_map_at(t, p);
        }
    }
    assert(bindings_map(t) =~= m);
}

/// The commands the map holds are those of the bindings.
pub proof fn lemma_bindings_map_values(s: Seq<KeyBinding>, c: Command)
    requires
        keys_unique(s),
    ensures
        bindings_map(s).values().contains(c) == exists|i: int| 0 <= i < s.len() && s[i].command == c,
{
    if exists|i: int| 0 <= i < s.len() && s[i].command == c {
        let i = choose|i: int| 0 <= i < s.len() && s[i].command == c;
        lemma_bindings_map_at(s, i);
        assert(bindings_map(s).contains_value(c));
    }
    if bindings_map(s).values().contains(c) {
        let k = choose|k: (i32, CommandMod)| #[trigger] bindings_map(s).dom().contains(k) && bindings_map(s)[k] == c;
        let j = choose|j: int| 0 <= j < s.len() && binding_key(s[j]) == k;
        assert(s[j].command == c);
    }
}

/// The key bindings in force: at most one command for each key with
/// modifiers.
pub struct Keymap {
    bindings: Vec<KeyBinding>,
}

impl Keymap {
    #[verifier::type_invariant]
    spec fn unique(self) -> bool {
        keys_unique(self.bindings@)
    }
}

impl View for Keymap {
    type V = Map<(i32, CommandMod), Command>;

    closed spec fn view(&self) -> Map<(i32, CommandMod), Command> {
        bindings_map(self.bindings@)
    }
}

impl Keymap {
    /// No bindings.
    pub fn new() -> (km: Keymap)
        ensures
            km@ == Map::<(i32, CommandMod), Command>::empty(),
    {
        let km = Keymap { bindings: Vec::new() };
        assert(km@ =~= Map::<(i32, CommandMod), Command>::empty());
        km
    }

    /// Where the binding for `key` with `command_mod` stands, if there is
    /// one.
    fn position(&self, key: i32, command_mod: CommandMod) -> (r: Option<usize>)
        ensures
            match r {
                Some(i) => i < self.bindings@.len() && binding_key(self.bindings@[i as int]) == (key, command_mod),
                None => !has_binding(self.bindings@, (key, command_mod)),
            },
    {
        let mut i: usize = 0;
        while i < self.bindings.len()
            invariant
                i <= self.bindings@.len(),
                forall|j: int| 0 <= j < i ==> binding_key(self.bindings@[j]) != (key, command_mod),
            decreases self.bindings@.len() - i,
        {
            let b = self.bindings[i];
            if b.key == key && b.command_mod == command_mod {
                return Some(i);
            }
            i = i + 1;
        }
        None
    }

    /// Binds `key` with `command_mod` to `command`, in place of whatever it
    /// was bound to.
    pub fn insert(&mut self, key: i32, command_mod: CommandMod, command: Command)
        ensures
            final(self)@ == old(self)@.insert((key, command_mod), command),
    {
        proof {
            use_type_invariant(&*self);
        }
        let b = KeyBinding { key, command_mod, command };
        let pos = self.position(key, command_mod);
        let mut bs: Vec<KeyBinding> = Vec::new();
        std::mem::swap(&mut bs, &mut self.bindings);
        match pos {
            Some(i) => {
                proof {
                    lemma_bindings_map_update(bs@, i as int, b);
                }
                bs.set(i, b);
            },
            None => {
                proof {
                    lemma_bindings_map_push(bs@, b);
                }
                bs.push(b);
            },
        }
        self.bindings = bs;
    }

    /// The command bound to `key` with `command_mod`, if any.
    pub fn get(&self, key: i32, command_mod: CommandMod) -> (r: Option<Command>)
        ensures
            r == (if self@.dom().contains((key, command_mod)) {
                Some(self@[(key, command_mod)])
            } else {
                None
            }),
    {
        proof {
            use_type_invariant(self);
        }
        match self.position(key, command_mod) {
            Some(i) => {
                proof {
                    lemma_bindings_map_at(self.bindings@, i as int);
                }
                Some(self.bindings[i].command)
            },
            None => None,
        }
    }

    /// Whether some binding runs `command`.
    fn binds_command(&self, command: Command) -> (r: bool)
        ensures
            r == self@.values().contains(command),
    {
        proof {
            use_type_invariant(self);
            lemma_bindings_map_values(self.bindings@, command);
        }
        let mut i: usize = 0;
        while i < self.bindings.len()
            invariant
                i <= self.bindings@.len(),
                keys_unique(self.bindings@),
                forall|j: int| 0 <= j < i ==> self.bindings@[j].command != command,
            decreases self.bindings@.len() - i,
        {
            if self.bindings[i].command == command {
                proof {
                    lemma_bindings_map_values(self.bindings@, command);
                    assert(self.bindings@[i as int].command == command);
                }
                return true;
            }
            i = i + 1;
        }
        false
    }

    /// Whether both key maps run the same set of commands.
    pub fn same_commands(&self, other: &Keymap) -> (r: bool)
        ensures
            r == (self@.values() == other@.values()),
    {
        proof {
            use_type_invariant(self);
            use_type_invariant(other);
        }
        let mut i: usize = 0;
        while i < self.bindings.len()
            invariant
                i <= self.bindings@.len(),
                keys_unique(self.bindings@),
                forall|j: int| 0 <= j < i ==> other@.values().contains(#[trigger] self.bindings@[j].command),
            decreases self.bindings@.len() - i,
        {
            if !other.binds_command(self.bindings[i].command) {
                proof {
                    lemma_bindings_map_values(self.bindings@, self.bindings@[i as int].command);
                }
                return false;
            }
            i = i + 1;
        }
        let mut i: usize = 0;
        while i < other.bindings.len()
            invariant
                i <= other.bindings@.len(),
                keys_unique(other.bindings@),
                forall|j: int| 0 <= j < i ==> self@.values().contains(#[trigger] other.bindings@[j].command),
            decreases other.bindings@.len() - i,
        {
            if !self.binds_command(other.bindings[i].command) {
                proof {
                    lemma_bindings_map_values(other.bindings@, other.bindings@[i as int].command);
                }
                return false;
            }
            i = i + 1;
        }
        proof {
            assert forall|c: Command| self@.values().contains(c) == other@.values().contains(c) by {
                lemma_bindings_map_values(self.bindings@, c);
                lemma_bindings_map_values(other.bindings@, c);
            }
            assert(self@.values() =~= other@.values());
        }
        true
    }
}

/// Why a key binding file was refused.
#[derive(Debug, Clone, Copy, PartialEq, Eq, Structural)]
pub enum KeybindError {
    /// A binding names no key.
    MissingKey,
    /// A binding names no command.
    MissingCommand,
    /// A binding names a command that does not exist.
    InvalidCommand,
    /// A binding names a key that does not exist.
    InvalidKeycode,
}

/// The message shown for an error.
pub open spec fn keybind_error_message(e: KeybindError) -> Seq<char> {
    match e {
        KeybindError::MissingKey => "Binding does not have a key associated!"@,
        KeybindError::MissingCommand => "Binding does not have a command associated!"@,
        KeybindError::InvalidCommand => "Invalid command string!"@,
        KeybindError::InvalidKeycode => "Invalid keycode string!"@,
    }
}

impl KeybindError {
    /// The message shown for the error.
    pub fn message(&self) -> (r: &'static str)
        ensures
            r@ == keybind_error_message(*self),
    {
        match self {
            KeybindError::MissingKey => "Binding does not have a key associated!",
            KeybindError::MissingCommand => "Binding does not have a command associated!",
            KeybindError::InvalidCommand => "Invalid command string!",
            KeybindError::InvalidKeycode => "Invalid keycode string!",
        }
    }
}

/// The modifiers a binding names (none when it names none).
pub open spec fn binding_mods(b: XmlElement) -> CommandMod {
    let s = match attr_value(b.attributes@, "mod"@) {
        Some(m) => m@,
        None => Seq::<char>::empty(),
    };
    mods_from_words(s, uppercase_flags(s))
}

/// What one binding element contributes, given the code of the key it
/// names (`None` when that name is no key's): its key, modifiers and
/// command, or the first thing wrong with it.
pub open spec fn binding_entry(b: XmlElement, code: Option<i32>) -> Result<((i32, CommandMod), Command), KeybindError> {
    match attr_value(b.attributes@, "key"@) {
        None => Err(KeybindError::MissingKey),
        Some(_) => match attr_value(b.attributes@, "command"@) {
            None => Err(KeybindError::MissingCommand),
            Some(cs) => match command_named(cs@) {
                None => Err(KeybindError::InvalidCommand),
                Some(c) => match code {
                    None => Err(KeybindError::InvalidKeycode),
                    Some(k) => Ok(((k, binding_mods(b)), c)),
                },
            },
        },
    }
}

/// The bindings read in order on top of `acc`, each binding in place of an
/// earlier one for the same key and modifiers; the first wrong binding
/// refuses them all.
pub open spec fn bindings_from(
    bs: Seq<XmlElement>,
    codes: Seq<Option<i32>>,
    acc: Map<(i32, CommandMod), Command>,
) -> Result<Map<(i32, CommandMod), Command>, KeybindError>
    decreases bs.len(),
{
    if bs.len() == 0 {
        Ok(acc)
    } else {
        match binding_entry(bs[0], codes[0]) {
            Err(e) => Err(e),
            Ok((k, c)) => bindings_from(bs.drop_first(), codes.drop_first(), acc.insert(k, c)),
        }
    }
}

/// The key map a key binding file describes: its `binding` elements, read
/// in order; `codes[i]` is the code of the key that binding `i` names.
pub open spec fn spec_parse_keybinds(config: XmlElement, codes: Seq<Option<i32>>) -> Result<Map<(i32, CommandMod), Command>, KeybindError> {
    bindings_from(named_children(config.children@, "binding"@), codes, Map::empty())
}

/// The key that each `binding` element of a key binding file names, in
/// order; the user interface turns each name into a key code.
pub fn binding_key_names(config: &XmlElement) -> (r: Vec<Option<String>>)
    ensures
        r@.len() == named_children(config.children@, "binding"@).len(),
        forall|i: int| 0 <= i < r@.len() ==> #[trigger] r@[i] == attr_value(
            named_children(config.children@, "binding"@)[i].attributes@,
            "key"@,
        ),
{
    let ghost ch = config.children@;
    let ghost bs = named_children(ch, "binding"@);
    let n = config.children.len();
    let mut r: Vec<Option<String>> = Vec::new();
    let mut i: usize = 0;
    assert(ch.subrange(0, n as int) =~= ch);
    while i < n
        invariant
            ch == config.children@,
            bs == named_children(ch, "binding"@),
            n == ch.len(),
            i <= n,
            r@.len() + named_children(ch.subrange(i as int, n as int), "binding"@).len() == bs.len(),
            named_children(ch.subrange(i as int, n as int), "binding"@) == bs.subrange(r@.len() as int, bs.len() as int),
            forall|k: int| 0 <= k < r@.len() ==> #[trigger] r@[k] == attr_value(bs[k].attributes@, "key"@),
        decreases n - i,
    {
        let ghost suffix = ch.subrange(i as int, n as int);
        proof {
            assert(suffix.drop_first() =~= ch.subrange(i + 1, n as int));
            assert(suffix[0] == ch[i as int]);
        }
        match &config.children[i] {
            XmlNode::Element(e) => {
                if str_eq(e.name.as_str(), "binding") {
                    let ghost k = r@.len();
                    proof {
                        assert(bs.subrange(k as int, bs.len() as int)[0] == *e);
                        assert(bs.subrange(k + 1int, bs.len() as int) =~= bs.subrange(k as int, bs.len() as int).drop_first());
                    }
                    r.push(e.attribute("key"));
                }
            },
            _ => {},
        }
        i = i + 1;
    }
    proof {
        assert(ch.subrange(n as int, n as int) =~= Seq::<XmlNode>::empty());
    }
    r
}

/// Reads the key map of a key binding file: each `binding` element, in
/// order, binds the key it names (`codes[i]` is the code of the key that
/// binding `i` names), pressed with the modifiers it names, to the command
/// it names. Refused with the first thing wrong: a binding without a key,
/// without a command, with an unknown command, or with an unknown key.
pub fn parse_keybinds(config: XmlElement, codes: &Vec<Option<i32>>) -> (r: Result<Keymap, KeybindError>)
    requires
        codes@.len() == named_children(config.children@, "binding"@).len(),
    ensures
        match (r, spec_parse_keybinds(config, codes@)) {
            (Ok(km), Ok(m)) => km@ == m,
            (Err(e), Err(f)) => e == f,
            _ => false,
        },
{
    let ghost bs = named_children(config.children@, "binding"@);
    let mut rest_config = config;
    let mut km = Keymap::new();
    let mut i: usize = 0;
    let ncodes = codes.len();
    proof {
        assert(bs.subrange(0, bs.len() as int) =~= bs);
        assert(codes@.subrange(0, bs.len() as int) =~= codes@);
    }
    loop
        invariant
            ncodes == codes@.len(),
            bs == named_children(config.children@, "binding"@),
            i <= bs.len(),
            codes@.len() == bs.len(),
            named_children(rest_config.children@, "binding"@) == bs.subrange(i as int, bs.len() as int),
            bindings_from(bs, codes@, Map::empty()) == bindings_from(
                bs.subrange(i as int, bs.len() as int),
                codes@.subrange(i as int, bs.len() as int),
                km@,
            ),
        ensures
            i == bs.len(),
            bindings_from(bs, codes@, Map::empty()) == bindings_from(
                bs.subrange(i as int, bs.len() as int),
                codes@.subrange(i as int, bs.len() as int),
                km@,
            ),
        decreases named_children(rest_config.children@, "binding"@).len(),
    {
        let next = rest_config.take_child("binding");
        let binding = match next {
            Some(b) => b,
            None => {
                proof {
                    if i < bs.len() {
                        assert(bs.subrange(i as int, bs.len() as int).len() > 0);
                    }
                }
                break;
            },
        };
        let ghost rest = bs.subrange(i as int, bs.len() as int);
        let ghost rcodes = codes@.subrange(i as int, bs.len() as int);
        proof {
            assert(rest.len() > 0);
            assert(binding == rest[0]);
            assert(rest.drop_first() =~= bs.subrange(i + 1, bs.len() as int));
            assert(rcodes.drop_first() =~= codes@.subrange(i + 1, bs.len() as int));
            assert(rcodes[0] == codes@[i as int]);
        }
        let key = binding.attribute("key");
        if key.is_none() {
            return Err(KeybindError::MissingKey);
        }
        let command = match binding.attribute("command") {
            Some(c) => c,
            None => {
                return Err(KeybindError::MissingCommand);
            },
        };
        let command_mod = match binding.attribute("mod") {
            Some(m) => CommandMod::from(m.as_str()),
            None => {
                proof {
                    reveal_strlit("");
                }
                CommandMod::from("")
            },
        };
        let command_enum = match Command::from_name(command.as_str()) {
            Some(c) => c,
            None => {
                return Err(KeybindError::InvalidCommand);
            },
        };
        let keycode = match codes[i] {
            Some(k) => k,
            None => {
                return Err(KeybindError::InvalidKeycode);
            },
        };
        km.insert(keycode, command_mod, command_enum);
        i = i + 1;
    }
    proof {
        assert(bs.subrange(i as int, bs.len() as int).len() == 0);
    }
    Ok(km)
}

/// The key map in force: the one read from the user's file, unless it could
/// not be read or does not bind exactly the commands the default key map
/// binds; then the default.
pub open spec fn spec_select_keybinds(
    default: Map<(i32, CommandMod), Command>,
    config: Result<Map<(i32, CommandMod), Command>, KeybindError>,
) -> Map<(i32, CommandMod), Command> {
    match config {
        Ok(c) => if c.values() == default.values() {
            c
        } else {
            default
        },
        Err(_) => default,
    }
}

/// A key map result seen through the key map's view.
pub open spec fn keymap_result_view(r: Result<Keymap, KeybindError>) -> Result<Map<(i32, CommandMod), Command>, KeybindError> {
    match r {
        Ok(k) => Ok(k@),
        Err(e) => Err(e),
    }
}

/// Whatever the user's file holds, the key map in force binds exactly the
/// commands that the default key map binds.
pub proof fn law_keymap_in_force_binds_default_commands(
    default: Map<(i32, CommandMod), Command>,
    config: Result<Map<(i32, CommandMod), Command>, KeybindError>,
)
    ensures
        spec_select_keybinds(default, config).values() == default.values(),
{
}

/// The key map in force; see `spec_select_keybinds`.
pub fn select_keybinds(default: Keymap, config: Result<Keymap, KeybindError>) -> (km: Keymap)
    ensures
        km@ == spec_select_keybinds(default@, keymap_result_view(config)),
{
    match config {
        Ok(c) => {
            if c.same_commands(&default) {
                c
            } else {
                default
            }
        },
        Err(_) => default,
    }
}

impl CommandMod {
    /// The modifiers held, from the keys held down: either control key,
    /// either shift key, either alt key, either "Windows" key.
    pub fn from_keys_down(keys_down: &HashSet<i32>) -> (m: CommandMod)
        ensures
            m.ctrl == (keys_down@.contains(KEY_LCTRL) || keys_down@.contains(KEY_RCTRL)),
            m.shift == (keys_down@.contains(KEY_LSHIFT) || keys_down@.contains(KEY_RSHIFT)),
            m.alt == (keys_down@.contains(KEY_LALT) || keys_down@.contains(KEY_RALT)),
            m.meta == (keys_down@.contains(KEY_LGUI) || keys_down@.contains(KEY_RGUI)),
    {
        CommandMod {
            ctrl: keys_down.contains(&KEY_LCTRL) || keys_down.contains(&KEY_RCTRL),
            shift: keys_down.contains(&KEY_LSHIFT) || keys_down.contains(&KEY_RSHIFT),
            alt: keys_down.contains(&KEY_LALT) || keys_down.contains(&KEY_RALT),
            meta: keys_down.contains(&KEY_LGUI) || keys_down.contains(&KEY_RGUI),
        }
    }
}

/// The command a key press runs: the one bound to the key with the
/// modifiers held down, run with no modifiers.
pub fn keycode_to_command(keymap: &Keymap, keycode: i32, keys_down: &HashSet<i32>) -> (r: Option<CommandInfo>)
    ensures
        ({
            let m = CommandMod {
                ctrl: keys_down@.contains(KEY_LCTRL) || keys_down@.contains(KEY_RCTRL),
                shift: keys_down@.contains(KEY_LSHIFT) || keys_down@.contains(KEY_RSHIFT),
                alt: keys_down@.contains(KEY_LALT) || keys_down@.contains(KEY_RALT),
                meta: keys_down@.contains(KEY_LGUI) || keys_down@.contains(KEY_RGUI),
            };
            r == (if keymap@.dom().contains((keycode, m)) {
                Some(CommandInfo { command: keymap@[(keycode, m)], command_mod: no_mods() })
            } else {
                None
            })
        }),
{
    match keymap.get(keycode, CommandMod::from_keys_down(keys_down)) {
        Some(c) => Some(CommandInfo { command: c, command_mod: CommandMod::none() }),
        None => None,
    }
}

} // verus!
