use vstd::prelude::*;
use crate::decide::Decision;

verus! {

/// One command sent to the compositor. `A` is the address type.
#[derive(Debug, PartialEq, Eq)]
pub enum Command<A> {
    /// Focus the window at this address.
    FocusWindow(A),
    /// Move the window at this address to the active workspace.
    MoveToCurrent(A),
    /// Switch to, or create, the nearest workspace without windows.
    GotoEmptyWorkspace,
    /// Run the launch command.
    Launch,
}

impl View for Command<String> {
    type V = Command<Seq<char>>;

    open spec fn view(&self) -> Command<Seq<char>> {
        match self {
            Command::FocusWindow(a) => Command::FocusWindow(a@),
            Command::MoveToCurrent(a) => Command::MoveToCurrent(a@),
            Command::GotoEmptyWorkspace => Command::GotoEmptyWorkspace,
            Command::Launch => Command::Launch,
        }
    }
}

/// The commands that carry out a decision, in the order they are issued.
pub open spec fn commands_of(d: Decision<Seq<char>>) -> Seq<Command<Seq<char>>> {
    match d {
        Decision::Focus(a) => seq![Command::FocusWindow(a)],
        Decision::Move(a) => seq![Command::MoveToCurrent(a)],
        Decision::MoveToEmpty(a) => seq![Command::GotoEmptyWorkspace, Command::MoveToCurrent(a)],
        Decision::Launch => seq![Command::Launch],
        Decision::LaunchInEmpty => seq![Command::GotoEmptyWorkspace, Command::Launch],
        Decision::NoAction => seq![],
    }
}

/// The views of a list of commands.
pub open spec fn commands_view(cs: Seq<Command<String>>) -> Seq<Command<Seq<char>>> {
    cs.map_values(|c: Command<String>| c@)
}

/// The commands that carry out `d`, first to last.
pub fn commands_for(d: &Decision<String>) -> (r: Vec<Command<String>>)
    ensures
        commands_view(r@) == commands_of(d@),
{
    let mut r: Vec<Command<String>> = Vec::new();
    match d {
        Decision::Focus(a) => r.push(Command::FocusWindow(a.clone())),
        Decision::Move(a) => r.push(Command::MoveToCurrent(a.clone())),
        Decision::MoveToEmpty(a) => {
            r.push(Command::GotoEmptyWorkspace);
            r.push(Command::MoveToCurrent(a.clone()));
        },
        Decision::Launch => r.push(Command::Launch),
        Decision::LaunchInEmpty => {
            r.push(Command::GotoEmptyWorkspace);
            r.push(Command::Launch);
        },
        Decision::NoAction => {},
    }
    assert(commands_view(r@) =~= commands_of(d@));
    r
}

impl Command<String> {
    /// Whether a failure to issue this command ends the run. A failed switch
    /// to an empty workspace is ignored and the next command still goes out.
    pub fn is_fatal_on_failure(&self) -> (r: bool)
        ensures
            r == !(self is GotoEmptyWorkspace),
    {
        match self {
            Command::GotoEmptyWorkspace => false,
            _ => true,
        }
    }
}

/// The views of a list of strings.
pub open spec fn strings_view(ss: Seq<String>) -> Seq<Seq<char>> {
    ss.map_values(|s: String| s@)
}

/// The `hyprctl` arguments of a command; `launch` is the launch command line.
pub open spec fn hyprctl_args_of(c: Command<Seq<char>>, launch: Seq<char>) -> Seq<Seq<char>> {
    match c {
        Command::FocusWindow(a) => seq!["dispatch"@, "focuswindow"@, "address:"@ + a],
        Command::MoveToCurrent(a) => seq!["dispatch"@, "movetoworkspace"@, "+0,address:"@ + a],
        Command::GotoEmptyWorkspace => seq!["dispatch"@, "workspace"@, "empty"@],
        Command::Launch => seq!["keyword"@, "exec"@, launch],
    }
}

/// Arguments that run `launch` through the compositor.
pub fn launch_command_args(launch: &String) -> (r: Vec<String>)
    ensures
        strings_view(r@) == hyprctl_args_of(Command::Launch, launch@),
{
    let r = vec!["keyword".to_owned(), "exec".to_owned(), launch.clone()];
    assert(strings_view(r@) =~= hyprctl_args_of(Command::Launch, launch@));
    r
}

/// Arguments that focus the window at `address`.
pub fn focus_window_args(address: &String) -> (r: Vec<String>)
    ensures
        strings_view(r@) == hyprctl_args_of(Command::FocusWindow(address@), Seq::empty()),
{
    let target = "address:".to_owned().concat(address.as_str());
    let r = vec!["dispatch".to_owned(), "focuswindow".to_owned(), target];
    assert(strings_view(r@) =~= hyprctl_args_of(Command::FocusWindow(address@), Seq::empty()));
    r
}

/// Arguments that move the window at `address` to the active workspace.
pub fn move_to_current_args(address: &String) -> (r: Vec<String>)
    ensures
        strings_view(r@) == hyprctl_args_of(Command::MoveToCurrent(address@), Seq::empty()),
{
    let target = "+0,address:".to_owned().concat(address.as_str());
    let r = vec!["dispatch".to_owned(), "movetoworkspace".to_owned(), target];
    assert(strings_view(r@) =~= hyprctl_args_of(Command::MoveToCurrent(address@), Seq::empty()));
    r
}

/// Arguments that switch to the nearest empty workspace.
pub fn goto_empty_workspace_args() -> (r: Vec<String>)
    ensures
        strings_view(r@) == hyprctl_args_of(Command::GotoEmptyWorkspace, Seq::empty()),
{
    let r = vec!["dispatch".to_owned(), "workspace".to_owned(), "empty".to_owned()];
    assert(strings_view(r@) =~= hyprctl_args_of(Command::GotoEmptyWorkspace, Seq::empty()));
    r
}

impl Command<String> {
    /// The `hyprctl` arguments that issue this command.
    pub fn hyprctl_args(&self, launch: &String) -> (r: Vec<String>)
        ensures
            strings_view(r@) == hyprctl_args_of(self@, launch@),
    {
        match self {
            Command::FocusWindow(a) => focus_window_args(a),
            Command::MoveToCurrent(a) => move_to_current_args(a),
            Command::GotoEmptyWorkspace => goto_empty_workspace_args(),
            Command::Launch => launch_command_args(launch),
        }
    }
}

} // verus!
