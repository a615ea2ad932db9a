use editor_backend::shell::{
    file_manager_program, open_folder_command, reveal_command, reveal_command_in, Platform,
    ShellCommand, SKINS_FOLDER,
};

fn command(program: &str, args: &[&str]) -> ShellCommand {
    ShellCommand {
        program: program.to_string(),
        args: args.iter().map(|a| a.to_string()).collect(),
    }
}

#[test]
fn file_manager_of_each_platform() {
    assert_eq!(file_manager_program(Platform::Windows), "explorer");
    assert_eq!(file_manager_program(Platform::MacOs), "open");
    assert_eq!(file_manager_program(Platform::Linux), "xdg-open");
}

#[test]
fn reveal_on_windows_selects_the_file() {
    assert_eq!(
        reveal_command(Platform::Windows, "C:\\notes\\a.txt"),
        Some(command("explorer", &["/select,", "C:\\notes\\a.txt"]))
    );
}

#[test]
fn reveal_on_macos_selects_the_file() {
    assert_eq!(
        reveal_command(Platform::MacOs, "/Users/me/a.txt"),
        Some(command("open", &["-R", "/Users/me/a.txt"]))
    );
}

#[test]
fn reveal_on_linux_opens_the_folder() {
    assert_eq!(
        reveal_command_in(Platform::Linux, "/home/me/a.txt", Some("/home/me")),
        Some(command("xdg-open", &["/home/me"]))
    );
    assert_eq!(
        reveal_command(Platform::Linux, "/home/me/a.txt"),
        Some(command("xdg-open", &["/home/me"]))
    );
}

#[test]
fn reveal_on_linux_needs_a_folder() {
    assert_eq!(reveal_command_in(Platform::Linux, "/", None), None);
    assert_eq!(reveal_command(Platform::Linux, "/"), None);
    assert_eq!(reveal_command(Platform::Linux, ""), None);
}

#[test]
fn the_folder_is_ignored_where_the_file_is_selected() {
    assert_eq!(
        reveal_command_in(Platform::Windows, "a.txt", Some("ignored")),
        Some(command("explorer", &["/select,", "a.txt"]))
    );
    assert_eq!(
        reveal_command_in(Platform::MacOs, "a.txt", None),
        Some(command("open", &["-R", "a.txt"]))
    );
}

#[test]
fn open_folder_on_each_platform() {
    assert_eq!(
        open_folder_command(Platform::Windows, "C:\\data\\skins"),
        command("explorer", &["C:\\data\\skins"])
    );
    assert_eq!(
        open_folder_command(Platform::MacOs, "/data/skins"),
        command("open", &["/data/skins"])
    );
    assert_eq!(
        open_folder_command(Platform::Linux, "/data/skins"),
        command("xdg-open", &["/data/skins"])
    );
}

#[test]
fn skins_folder_name() {
    assert_eq!(SKINS_FOLDER, "skins");
}
