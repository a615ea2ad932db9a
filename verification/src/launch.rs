//! Files handed to the editor on launch, and what the running editor does
//! when it is launched a second time.

use vstd::prelude::*;
use crate::shell::Platform;

verus! {

/// The label of the editor's main window.
pub const MAIN_WINDOW: &'static str = "main";

/// The name of the event that tells the front end which files to open.
pub const OPEN_FILES_EVENT: &'static str = "open-files";

/// The files named on a command line: everything after the program's own
/// path.
pub open spec fn file_arguments(argv: Seq<Seq<char>>) -> Seq<Seq<char>> {
    if argv.len() == 0 {
        Seq::empty()
    } else {
        argv.skip(1)
    }
}

/// Picks the files to open out of a command line.
pub fn opened_files(argv: &[String]) -> (files: Vec<String>)
    ensures
        files.deep_view() == file_arguments(argv.deep_view()),
{
    let mut files: Vec<String> = Vec::new();
    if argv.len() == 0 {
        return files;
    }
    let mut i: usize = 1;
    while i < argv.len()
        invariant
            1 <= i <= argv.len(),
            files.len() == i - 1,
            forall|j: int| 0 <= j < files.len() ==> files[j]@ == argv[j + 1]@,
        decreases argv.len() - i,
    {
        files.push(argv[i].clone());
        i += 1;
    }
    files
}

/// One step that the running editor takes on its main window.
#[derive(Debug, PartialEq, Eq)]
pub enum WindowAction {
    /// Send the front end the files to open.
    OpenFiles(Vec<String>),
    /// Make the window visible.
    Show,
    /// Restore the window if it is minimized.
    Unminimize,
    /// Give the window the keyboard focus.
    Focus,
    /// Pin the window above all others, or release it.
    AlwaysOnTop(bool),
}

/// A window action as plain values.
pub enum WindowActionView {
    OpenFiles(Seq<Seq<char>>),
    Show,
    Unminimize,
    Focus,
    AlwaysOnTop(bool),
}

impl View for WindowAction {
    type V = WindowActionView;

    open spec fn view(&self) -> WindowActionView {
        match self {
            WindowAction::OpenFiles(files) => WindowActionView::OpenFiles(files.deep_view()),
            WindowAction::Show => WindowActionView::Show,
            WindowAction::Unminimize => WindowActionView::Unminimize,
            WindowAction::Focus => WindowActionView::Focus,
            WindowAction::AlwaysOnTop(on) => WindowActionView::AlwaysOnTop(*on),
        }
    }
}

/// The steps by which the window is pinned and released again, which brings
/// it in front of the other windows where focusing alone does not.
pub open spec fn foreground_steps(platform: Platform) -> Seq<WindowActionView> {
    if platform == Platform::Windows {
        seq![WindowActionView::AlwaysOnTop(true), WindowActionView::AlwaysOnTop(false)]
    } else {
        Seq::empty()
    }
}

/// What the running editor does when a second launch hands over its command
/// line. Without a main window nothing is done. With one, the front end is
/// sent the files of the command line, and the window is shown, restored,
/// focused and brought to the foreground.
pub open spec fn second_launch_plan(
    has_main_window: bool,
    argv: Seq<Seq<char>>,
    platform: Platform,
) -> Seq<WindowActionView> {
    if has_main_window {
        seq![
            WindowActionView::OpenFiles(file_arguments(argv)),
            WindowActionView::Show,
            WindowActionView::Unminimize,
            WindowActionView::Focus,
        ] + foreground_steps(platform)
    } else {
        Seq::empty()
    }
}

/// The steps, as plain values.
pub open spec fn actions_view(actions: Seq<WindowAction>) -> Seq<WindowActionView> {
    Seq::new(actions.len(), |i: int| actions[i]@)
}

/// Decides what the running editor does when a second launch hands over its
/// command line `argv`.
pub fn second_launch_actions(has_main_window: bool, argv: &[String], platform: Platform) -> (actions:
    Vec<WindowAction>)
    ensures
        actions_view(actions@) == second_launch_plan(has_main_window, argv.deep_view(), platform),
{
    let mut actions: Vec<WindowAction> = Vec::new();
    if has_main_window {
        actions.push(WindowAction::OpenFiles(opened_files(argv)));
        actions.push(WindowAction::Show);
        actions.push(WindowAction::Unminimize);
        actions.push(WindowAction::Focus);
        match platform {
            Platform::Windows => {
                actions.push(WindowAction::AlwaysOnTop(true));
                actions.push(WindowAction::AlwaysOnTop(false));
            },
            _ => {},
        }
    }
    assert(actions_view(actions@) =~= second_launch_plan(
        has_main_window,
        argv.deep_view(),
        platform,
    ));
    actions
}

} // verus!
