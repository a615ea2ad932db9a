//! The commands by which the host's file manager is asked to show a file or a
//! folder.

use vstd::prelude::*;

verus! {

/// The desktop platforms the editor runs on.
#[derive(Clone, Copy, Debug, PartialEq, Eq, Structural)]
pub enum Platform {
    Windows,
    MacOs,
    Linux,
}

/// A program to start, with its arguments.
#[derive(Debug, PartialEq, Eq)]
pub struct ShellCommand {
    pub program: String,
    pub args: Vec<String>,
}

/// A command as plain text.
pub struct ShellCommandView {
    pub program: Seq<char>,
    pub args: Seq<Seq<char>>,
}

impl View for ShellCommand {
    type V = ShellCommandView;

    open spec fn view(&self) -> ShellCommandView {
        ShellCommandView { program: self.program@, args: self.args.deep_view() }
    }
}

/// The name of the folder, below the application's data directory, that
/// holds the user's skins.
pub const SKINS_FOLDER: &'static str = "skins";

/// The program that opens the file manager on `platform`.
pub open spec fn file_manager(platform: Platform) -> Seq<char> {
    match platform {
        Platform::Windows => "explorer"@,
        Platform::MacOs => "open"@,
        Platform::Linux => "xdg-open"@,
    }
}

/// The command that opens the folder `dir` in the file manager.
pub open spec fn open_folder_plan(platform: Platform, dir: Seq<char>) -> ShellCommandView {
    ShellCommandView { program: file_manager(platform), args: seq![dir] }
}

/// The command that shows the file at `path` in the file manager. On Windows
/// and macOS the file manager selects the file itself. On Linux it opens
/// `parent`, the folder that holds the file, and there is no command for a
/// path without one.
pub open spec fn reveal_plan(
    platform: Platform,
    path: Seq<char>,
    parent: Option<Seq<char>>,
) -> Option<ShellCommandView> {
    match platform {
        Platform::Windows => Some(
            ShellCommandView { program: file_manager(platform), args: seq!["/select,"@, path] },
        ),
        Platform::MacOs => Some(
            ShellCommandView { program: file_manager(platform), args: seq!["-R"@, path] },
        ),
        Platform::Linux => match parent {
            Some(dir) => Some(open_folder_plan(platform, dir)),
            None => None,
        },
    }
}

/// A command or none, as plain text.
pub open spec fn command_view(cmd: Option<ShellCommand>) -> Option<ShellCommandView> {
    match cmd {
        Some(c) => Some(c@),
        None => None,
    }
}

/// A path or none, as plain text.
pub open spec fn path_view(path: Option<&str>) -> Option<Seq<char>> {
    match path {
        Some(p) => Some(p@),
        None => None,
    }
}

/// The name of the program that opens the file manager on `platform`.
pub fn file_manager_program(platform: Platform) -> (program: &'static str)
    ensures
        program@ == file_manager(platform),
{
    match platform {
        Platform::Windows => "explorer",
        Platform::MacOs => "open",
        Platform::Linux => "xdg-open",
    }
}

/// Builds the command that opens the folder `dir` in the file manager.
pub fn open_folder_command(platform: Platform, dir: &str) -> (cmd: ShellCommand)
    ensures
        cmd@ == open_folder_plan(platform, dir@),
{
    let mut args: Vec<String> = Vec::new();
    args.push(dir.to_owned());
    let cmd = ShellCommand { program: file_manager_program(platform).to_owned(), args };
    assert(cmd@.args =~= seq![dir@]);
    cmd
}

/// Builds the command that shows the file at `path` in the file manager,
/// given the folder that holds the file.
pub fn reveal_command_in(platform: Platform, path: &str, parent: Option<&str>) -> (cmd: Option<
    ShellCommand,
>)
    ensures
        command_view(cmd) == reveal_plan(platform, path@, path_view(parent)),
{
    match platform {
        Platform::Windows => {
            let mut args: Vec<String> = Vec::new();
            args.push("/select,".to_owned());
            args.push(path.to_owned());
            let cmd = ShellCommand { program: file_manager_program(platform).to_owned(), args };
            assert(cmd@.args =~= seq!["/select,"@, path@]);
            Some(cmd)
        },
        Platform::MacOs => {
            let mut args: Vec<String> = Vec::new();
            args.push("-R".to_owned());
            args.push(path.to_owned());
            let cmd = ShellCommand { program: file_manager_program(platform).to_owned(), args };
            assert(cmd@.args =~= seq!["-R"@, path@]);
            Some(cmd)
        },
        Platform::Linux => match parent {
            Some(dir) => Some(open_folder_command(platform, dir)),
            None => None,
        },
    }
}

/// `std::path::Path::parent`: the path without its last component, or
/// nothing where the path is empty or ends in a root. Where components begin
/// and end differs from platform to platform, so only the empty path's
/// result is stated.
#[verifier::external_body]
fn parent_of(path: &str) -> (parent: Option<&str>)
    ensures
        path@.len() == 0 ==> parent is None,
{
    match std::path::Path::new(path).parent() {
        Some(dir) => dir.to_str(),
        None => None,
    }
}

/// Builds the command that shows the file at `path` in the file manager. On
/// Linux the folder to open is worked out from `path` by the rules of the
/// platform's paths.
pub fn reveal_command(platform: Platform, path: &str) -> (cmd: Option<ShellCommand>)
    ensures
        exists|parent: Option<Seq<char>>|
            command_view(cmd) == reveal_plan(platform, path@, parent) && (path@.len() == 0
                ==> parent is None),
{
    let parent = match platform {
        Platform::Linux => parent_of(path),
        _ => None,
    };
    reveal_command_in(platform, path, parent)
}

} // verus!
