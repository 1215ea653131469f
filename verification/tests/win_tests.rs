use vene_clicker::clicker::MouseButton;
use vene_clicker::mouse_hook::{
    physical_button_change, LLMHF_INJECTED, WM_LBUTTONDOWN, WM_LBUTTONUP, WM_RBUTTONDOWN, WM_RBUTTONUP,
};
use vene_clicker::win::{is_minecraft_foreground, is_minecraft_process_name, key_state_down, process_file_name};

#[test]
fn minecraft_process_names() {
    assert!(is_minecraft_process_name("javaw.exe"));
    assert!(is_minecraft_process_name("  JavaW.EXE \n"));
    assert!(is_minecraft_process_name("Minecraft.Windows.exe"));
    assert!(!is_minecraft_process_name("java.exe"));
    assert!(!is_minecraft_process_name("javaw.exe.bak"));
}

#[test]
fn foreground_check() {
    assert!(is_minecraft_foreground(Some("javaw.exe")));
    assert!(!is_minecraft_foreground(Some("explorer.exe")));
    assert!(!is_minecraft_foreground(None));
}

#[test]
fn file_names_of_paths() {
    assert_eq!(process_file_name("C:\\Program Files\\Java\\bin\\javaw.exe"), "javaw.exe");
    assert_eq!(process_file_name("/usr/bin/java"), "java");
    assert_eq!(process_file_name("mixed/dir\\name.exe"), "name.exe");
    assert_eq!(process_file_name("plain"), "plain");
    assert_eq!(process_file_name("ends\\"), "");
}

#[test]
fn key_state_bits() {
    assert!(key_state_down(0x8000u16 as i16));
    assert!(key_state_down(-1));
    assert!(!key_state_down(1));
    assert!(!key_state_down(0));
}

#[test]
fn mouse_hook_events() {
    assert_eq!(physical_button_change(0, 0, WM_LBUTTONDOWN), Some((MouseButton::Left, true)));
    assert_eq!(physical_button_change(0, 0, WM_LBUTTONUP), Some((MouseButton::Left, false)));
    assert_eq!(physical_button_change(3, 0x10, WM_RBUTTONDOWN), Some((MouseButton::Right, true)));
    assert_eq!(physical_button_change(0, 0, WM_RBUTTONUP), Some((MouseButton::Right, false)));
    assert_eq!(physical_button_change(0, LLMHF_INJECTED, WM_LBUTTONDOWN), None);
    assert_eq!(physical_button_change(-1, 0, WM_LBUTTONDOWN), None);
    assert_eq!(physical_button_change(0, 0, 0x0200), None);
    assert_eq!(WM_LBUTTONDOWN, 0x0201);
}
