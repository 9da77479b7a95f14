use rust_text::input::{shortcut_command, Command};

#[test]
fn shortcuts_map_to_their_commands() {
    assert_eq!(shortcut_command(true, false, 'n'), Some(Command::New));
    assert_eq!(shortcut_command(true, false, 'o'), Some(Command::Open));
    assert_eq!(shortcut_command(true, false, 's'), Some(Command::Save));
    assert_eq!(shortcut_command(true, true, 's'), Some(Command::SaveAs));
}

#[test]
fn other_chords_mean_nothing() {
    // No command modifier held.
    assert_eq!(shortcut_command(false, false, 'n'), None);
    assert_eq!(shortcut_command(false, true, 's'), None);
    // Shift turns the plain shortcuts off.
    assert_eq!(shortcut_command(true, true, 'n'), None);
    assert_eq!(shortcut_command(true, true, 'o'), None);
    // Letters without a binding.
    assert_eq!(shortcut_command(true, false, 'x'), None);
    assert_eq!(shortcut_command(true, false, 'a'), None);
}
