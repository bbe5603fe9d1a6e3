use std::collections::HashSet;

use mfekglif::command::keymap::{
    binding_key_names, keycode_to_command, parse_keybinds, select_keybinds, CommandInfo, KeybindError, Keymap,
    KEY_LALT, KEY_LCTRL, KEY_LSHIFT, KEY_RCTRL, KEY_RGUI, KEY_RSHIFT,
};
use mfekglif::command::{Command, CommandMod};
use mfekglif::xml::XmlElement;

const KEY_Z: i32 = 122;
const KEY_Y: i32 = 121;
const KEY_Q: i32 = 113;

fn code_of(name: &str) -> Option<i32> {
    match name {
        "Z" => Some(KEY_Z),
        "Y" => Some(KEY_Y),
        "Q" => Some(KEY_Q),
        _ => None,
    }
}

fn parse(xml: &str) -> Result<Keymap, KeybindError> {
    let config = XmlElement::parse(xml).expect("well-formed XML");
    let codes: Vec<Option<i32>> = binding_key_names(&config)
        .into_iter()
        .map(|n| n.and_then(|n| code_of(&n)))
        .collect();
    parse_keybinds(config, &codes)
}

fn ctrl() -> CommandMod {
    CommandMod { ctrl: true, ..CommandMod::none() }
}

const DEFAULT: &str = r#"<keybindings>
  <binding key="Z" mod="CtrlMod" command="HistoryUndo"/>
  <binding key="Y" mod="CtrlMod" command="HistoryRedo"/>
  <binding key="Q" command="Quit"/>
</keybindings>"#;

#[test]
fn keymap_reads_bindings() {
    let km = parse(DEFAULT).unwrap();
    assert_eq!(km.get(KEY_Z, ctrl()), Some(Command::HistoryUndo));
    assert_eq!(km.get(KEY_Y, ctrl()), Some(Command::HistoryRedo));
    assert_eq!(km.get(KEY_Q, CommandMod::none()), Some(Command::Quit));
    assert_eq!(km.get(KEY_Z, CommandMod::none()), None);
    assert_eq!(km.get(KEY_Q, ctrl()), None);
}

#[test]
fn keymap_binding_key_names_in_order() {
    let config = XmlElement::parse(DEFAULT).unwrap();
    assert_eq!(
        binding_key_names(&config),
        vec![Some("Z".to_string()), Some("Y".to_string()), Some("Q".to_string())]
    );
}

#[test]
fn keymap_later_binding_wins() {
    let km = parse(
        r#"<k><binding key="Z" mod="CtrlMod" command="HistoryUndo"/><binding key="Z" mod="CtrlMod" command="Quit"/></k>"#,
    )
    .unwrap();
    assert_eq!(km.get(KEY_Z, ctrl()), Some(Command::Quit));
    let mut only_quit = Keymap::new();
    only_quit.insert(KEY_Q, CommandMod::none(), Command::Quit);
    assert!(km.same_commands(&only_quit));
}

#[test]
fn keymap_errors() {
    assert_eq!(parse(r#"<k><binding command="Quit"/></k>"#).err(), Some(KeybindError::MissingKey));
    assert_eq!(parse(r#"<k><binding key="Q"/></k>"#).err(), Some(KeybindError::MissingCommand));
    assert_eq!(parse(r#"<k><binding key="Q" command="Leave"/></k>"#).err(), Some(KeybindError::InvalidCommand));
    assert_eq!(parse(r#"<k><binding key="NoSuchKey" command="Quit"/></k>"#).err(), Some(KeybindError::InvalidKeycode));
    // The first wrong binding decides.
    assert_eq!(
        parse(r#"<k><binding key="NoSuchKey" command="Quit"/><binding command="Quit"/></k>"#).err(),
        Some(KeybindError::InvalidKeycode)
    );
    assert_eq!(KeybindError::MissingKey.message(), "Binding does not have a key associated!");
    assert_eq!(KeybindError::MissingCommand.message(), "Binding does not have a command associated!");
    assert_eq!(KeybindError::InvalidCommand.message(), "Invalid command string!");
    assert_eq!(KeybindError::InvalidKeycode.message(), "Invalid keycode string!");
}

#[test]
fn keymap_empty_file_binds_nothing() {
    let km = parse("<keybindings/>").unwrap();
    assert_eq!(km.get(KEY_Q, CommandMod::none()), None);
    assert!(km.same_commands(&Keymap::new()));
}

#[test]
fn keymap_selection_falls_back_to_default() {
    // A user file that binds the same commands to other keys is used.
    let user = parse(
        r#"<k><binding key="Y" mod="CtrlMod" command="HistoryUndo"/><binding key="Z" mod="CtrlMod" command="HistoryRedo"/><binding key="Z" command="Quit"/></k>"#,
    );
    let km = select_keybinds(parse(DEFAULT).unwrap(), user);
    assert_eq!(km.get(KEY_Y, ctrl()), Some(Command::HistoryUndo));
    assert_eq!(km.get(KEY_Z, CommandMod::none()), Some(Command::Quit));

    // One that misses a command is not.
    let incomplete = parse(r#"<k><binding key="Q" command="Quit"/></k>"#);
    let km = select_keybinds(parse(DEFAULT).unwrap(), incomplete);
    assert_eq!(km.get(KEY_Z, ctrl()), Some(Command::HistoryUndo));

    // Nor one that could not be read.
    let broken = parse(r#"<k><binding key="Q"/></k>"#);
    let km = select_keybinds(parse(DEFAULT).unwrap(), broken);
    assert_eq!(km.get(KEY_Y, ctrl()), Some(Command::HistoryRedo));
}

#[test]
fn modifiers_from_keys_down() {
    let mut keys = HashSet::new();
    assert_eq!(CommandMod::from_keys_down(&keys), CommandMod::none());
    keys.insert(KEY_RCTRL);
    keys.insert(KEY_LSHIFT);
    assert_eq!(
        CommandMod::from_keys_down(&keys),
        CommandMod { shift: true, ctrl: true, alt: false, meta: false }
    );
    keys.insert(KEY_LALT);
    keys.insert(KEY_RGUI);
    keys.insert(KEY_RSHIFT);
    keys.insert(KEY_LCTRL);
    assert_eq!(
        CommandMod::from_keys_down(&keys),
        CommandMod { shift: true, ctrl: true, alt: true, meta: true }
    );
}

#[test]
fn key_press_runs_bound_command() {
    let km = parse(DEFAULT).unwrap();
    let mut keys = HashSet::new();
    keys.insert(KEY_LCTRL);
    assert_eq!(
        keycode_to_command(&km, KEY_Z, &keys),
        Some(CommandInfo { command: Command::HistoryUndo, command_mod: CommandMod::none() })
    );
    assert_eq!(keycode_to_command(&km, KEY_Q, &keys), None);
    assert_eq!(
        keycode_to_command(&km, KEY_Q, &HashSet::new()),
        Some(CommandInfo { command: Command::Quit, command_mod: CommandMod::none() })
    );
}
