use mfekglif::events::console::{
    command_line_runnable, console_command, set_state, ConsoleCommand, RendererConsole, CHAR_BACKSPACE, KEY_ESCAPE,
    KEY_RETURN, KEY_SEMICOLON, MOD_LSHIFT, MOD_RSHIFT,
};

fn console(text: &str, active: bool) -> RendererConsole {
    RendererConsole { stdin: text.to_string(), active }
}

#[test]
fn console_typing_and_backspace() {
    let mut c = console(":", true);
    c.handle_ch('q');
    assert_eq!(c.stdin, ":q");
    c.handle_ch(CHAR_BACKSPACE);
    assert_eq!(c.stdin, ":");
    // The `:` stays.
    c.handle_ch(CHAR_BACKSPACE);
    assert_eq!(c.stdin, ":");
    // A single character wider than one byte can go.
    let mut c = console("é", true);
    c.handle_ch(CHAR_BACKSPACE);
    assert_eq!(c.stdin, "");
    let mut c = console("", true);
    c.handle_ch(CHAR_BACKSPACE);
    assert_eq!(c.stdin, "");
}

#[test]
fn console_runs_commands() {
    let mut c = console(":vpoffset 10  -20", true);
    assert_eq!(
        c.run_command(),
        Some(ConsoleCommand::ViewportOffset { x: "10".to_string(), y: "-20".to_string() })
    );
    assert_eq!(c.stdin, "");
    let mut c = console(":vpfactor\t2.5", true);
    assert_eq!(c.run_command(), Some(ConsoleCommand::ViewportFactor { factor: "2.5".to_string() }));
    let mut c = console(":q now", true);
    assert_eq!(c.run_command(), Some(ConsoleCommand::Quit));
    // Wrong numbers of arguments ask for nothing.
    let mut c = console(":vpoffset 10", true);
    assert_eq!(c.run_command(), None);
    let mut c = console(":vpfactor 1 2", true);
    assert_eq!(c.run_command(), None);
    // A trailing space leaves an empty argument.
    let mut c = console(":vpfactor ", true);
    assert_eq!(c.run_command(), Some(ConsoleCommand::ViewportFactor { factor: String::new() }));
    let mut c = console(":", true);
    assert_eq!(c.run_command(), None);
    let mut c = console(":nope", true);
    assert_eq!(c.run_command(), None);
    assert_eq!(c.stdin, "");
}

#[test]
fn console_command_names() {
    assert_eq!(console_command("q", &vec![]), Some(ConsoleCommand::Quit));
    assert_eq!(
        console_command("vpoffset", &vec!["1".to_string(), "2".to_string()]),
        Some(ConsoleCommand::ViewportOffset { x: "1".to_string(), y: "2".to_string() })
    );
    assert_eq!(console_command("Q", &vec![]), None);
}

#[test]
fn console_command_line_runnable() {
    assert!(command_line_runnable(":q"));
    assert!(!command_line_runnable(""));
    assert!(!command_line_runnable(" q"));
    assert!(!command_line_runnable("éq"));
}

#[test]
fn console_keys() {
    let mut c = console(":", false);
    // `;` without both shift bits does nothing.
    assert_eq!(set_state(&mut c, KEY_SEMICOLON, MOD_LSHIFT), None);
    assert!(!c.active);
    assert_eq!(set_state(&mut c, KEY_SEMICOLON, MOD_LSHIFT | MOD_RSHIFT), None);
    assert!(c.active);
    assert_eq!(set_state(&mut c, KEY_ESCAPE, 0), None);
    assert!(!c.active);
    // Return while closed runs nothing.
    c.stdin = ":q".to_string();
    assert_eq!(set_state(&mut c, KEY_RETURN, 0), None);
    assert_eq!(c.stdin, ":q");
    c.active(true);
    assert_eq!(set_state(&mut c, KEY_RETURN, 0), Some(ConsoleCommand::Quit));
    assert!(!c.active);
    assert_eq!(c.stdin, "");
    // Other keys change nothing.
    assert_eq!(set_state(&mut c, 97, MOD_LSHIFT | MOD_RSHIFT), None);
    assert!(!c.active);
}
