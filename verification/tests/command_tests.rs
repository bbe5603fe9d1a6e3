use mfekglif::command::{Command, CommandMod, CommandType, UnknownCommand};

#[test]
fn command_mod_test() {
    assert_eq!(
        CommandMod::from("CtrlShiftMod"),
        CommandMod {
            ctrl: true,
            shift: true,
            ..CommandMod::default()
        }
    );
}

#[test]
fn command_mod_reads_every_modifier_word() {
    assert_eq!(
        CommandMod::from("ControlAltSuperMod"),
        CommandMod { shift: false, ctrl: true, alt: true, meta: true }
    );
    assert_eq!(CommandMod::from("WindowsX"), CommandMod { shift: false, ctrl: false, alt: false, meta: true });
    assert_eq!(CommandMod::from("GuiMetaX"), CommandMod { shift: false, ctrl: false, alt: false, meta: true });
}

#[test]
fn command_mod_ignores_last_and_unknown_words() {
    // The last word has no uppercase character after it, so it is no modifier.
    assert_eq!(CommandMod::from("Shift"), CommandMod::none());
    assert_eq!(CommandMod::from(""), CommandMod::none());
    assert_eq!(CommandMod::from("HyperShiftMod"), CommandMod { shift: true, ctrl: false, alt: false, meta: false });
    // Text before the first uppercase character is no word.
    assert_eq!(CommandMod::from("ctrlShiftMod"), CommandMod { shift: true, ctrl: false, alt: false, meta: false });
}

#[test]
fn command_mod_none_is_default() {
    assert_eq!(CommandMod::none(), CommandMod::default());
    assert_eq!(CommandMod::none(), CommandMod { shift: false, ctrl: false, alt: false, meta: false });
}

#[test]
fn command_types() {
    assert_eq!(Command::ZoomIn.type_(), CommandType::Zoom);
    assert_eq!(Command::NudgeTinyLeft.type_(), CommandType::Nudge);
    assert_eq!(Command::ToolPen.type_(), CommandType::ToolSelect);
    assert_eq!(Command::CutSelection.type_(), CommandType::Selection);
    assert_eq!(Command::HistoryRedo.type_(), CommandType::History);
    assert_eq!(Command::IOExport.type_(), CommandType::IO);
    assert_eq!(Command::ToolGrid.type_(), CommandType::ViewMode);
    assert_eq!(Command::TogglePreviewMode.type_(), CommandType::ViewMode);
    assert_eq!(Command::ToggleConsole.type_(), CommandType::ToggleConsole);
    assert_eq!(Command::Quit.type_(), CommandType::ExecState);
    assert_eq!(Command::ReverseContour.type_(), CommandType::PathOp);
    assert_eq!(Command::SkiaDump.type_(), CommandType::Debug);
}

#[test]
fn command_names_lead_back_to_commands() {
    let all = [
        Command::ResetScale, Command::ZoomIn, Command::ZoomOut, Command::NudgeUp, Command::NudgeBigUp,
        Command::NudgeTinyUp, Command::NudgeDown, Command::NudgeBigDown, Command::NudgeTinyDown,
        Command::NudgeLeft, Command::NudgeBigLeft, Command::NudgeTinyLeft, Command::NudgeRight,
        Command::NudgeBigRight, Command::NudgeTinyRight, Command::ToolPan, Command::ToolPen,
        Command::ToolSelect, Command::ToolZoom, Command::ToolDash, Command::ToolPAP, Command::ToolVWS,
        Command::ToolMeasure, Command::ToolAnchors, Command::ToolShapes, Command::ToolGuidelines,
        Command::ToolGrid, Command::ToolImages, Command::DeleteSelection, Command::SelectAll,
        Command::CopySelection, Command::PasteSelection, Command::PasteSelectionInPlace,
        Command::CutSelection, Command::HistoryUndo, Command::HistoryRedo, Command::IOOpen,
        Command::IOSave, Command::IOSaveAs, Command::IOSaveFlatten, Command::IOFlatten,
        Command::IOExport, Command::TogglePointLabels, Command::TogglePreviewMode,
        Command::ToggleConsole, Command::Quit, Command::ReverseContour, Command::SkiaDump,
    ];
    for c in all.iter() {
        assert_eq!(Command::from_name(c.name()), Some(*c));
    }
    assert_eq!(Command::HistoryUndo.name(), "HistoryUndo");
}

#[test]
fn command_from_str() {
    assert_eq!("ZoomOut".parse::<Command>(), Ok(Command::ZoomOut));
    assert_eq!("zoomout".parse::<Command>(), Err(UnknownCommand));
    assert_eq!(Command::from_name(""), None);
    assert_eq!(Command::from_name("ZoomOut "), None);
}
