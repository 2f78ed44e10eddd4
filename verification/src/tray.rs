//! The tray menu and the routing of its activations.
//!
//! The menu is a fixed list of four entries, each with a stable identifier.
//! An activation carries the identifier of the entry that was chosen;
//! [`dispatch`] turns it into the one action that the host then performs.

use vstd::prelude::*;
use crate::text::same_text;

verus! {

/// What a menu identifier stands for. Identifiers outside the menu's fixed set
/// stand for `Unknown`.
#[derive(Clone, Copy, Debug, PartialEq, Eq, Structural)]
pub enum TrayCommand {
    Quit,
    ShowHide,
    About,
    ToggleSleep,
    Unknown,
}

/// A notification sent to the front-end window. It carries no payload.
#[derive(Clone, Copy, Debug, PartialEq, Eq, Structural)]
pub enum FrontendEvent {
    TrayAbout,
    TrayToggleSleep,
}

/// The single action that one menu activation leads to.
#[derive(Clone, Copy, Debug, PartialEq, Eq, Structural)]
pub enum TrayAction {
    /// End the process with this exit code.
    Exit { code: i32 },
    /// Toggle the visibility of the managed window.
    ToggleVisibility,
    /// Send this notification to the managed window.
    Emit { event: FrontendEvent },
    /// Do nothing.
    Nothing,
}

/// One entry of the tray menu: the identifier that activations are routed by,
/// and the text shown to the user.
#[derive(Clone, Copy, Debug, PartialEq, Eq)]
pub struct TrayMenuItem {
    id: &'static str,
    label: &'static str,
}

/// The activation of a menu entry, named by the entry's identifier.
#[derive(Debug, PartialEq, Eq)]
pub struct TrayEvent {
    id: String,
}

/// The command that an identifier stands for.
pub open spec fn command_of(id: Seq<char>) -> TrayCommand {
    if id == "quit"@ {
        TrayCommand::Quit
    } else if id == "show"@ {
        TrayCommand::ShowHide
    } else if id == "about"@ {
        TrayCommand::About
    } else if id == "sleep"@ {
        TrayCommand::ToggleSleep
    } else {
        TrayCommand::Unknown
    }
}

/// The action that a command leads to. Quitting needs no window; the other
/// commands act on the managed window and lead to nothing when it is absent.
pub open spec fn action_of(command: TrayCommand, window_present: bool) -> TrayAction {
    match command {
        TrayCommand::Quit => TrayAction::Exit { code: 0 },
        TrayCommand::ShowHide => if window_present {
            TrayAction::ToggleVisibility
        } else {
            TrayAction::Nothing
        },
        TrayCommand::About => if window_present {
            TrayAction::Emit { event: FrontendEvent::TrayAbout }
        } else {
            TrayAction::Nothing
        },
        TrayCommand::ToggleSleep => if window_present {
            TrayAction::Emit { event: FrontendEvent::TrayToggleSleep }
        } else {
            TrayAction::Nothing
        },
        TrayCommand::Unknown => TrayAction::Nothing,
    }
}

/// The menu's entries in display order, each as identifier and label.
pub open spec fn menu_layout() -> Seq<(Seq<char>, Seq<char>)> {
    seq![
        ("show"@, "Show/Hide"@),
        ("sleep"@, "Toggle Sleep"@),
        ("about"@, "About"@),
        ("quit"@, "Quit Chill"@),
    ]
}

/// The commands behind the menu's entries, in display order.
pub open spec fn menu_commands() -> Seq<TrayCommand> {
    seq![TrayCommand::ShowHide, TrayCommand::ToggleSleep, TrayCommand::About, TrayCommand::Quit]
}

impl TrayCommand {
    /// Reads a raw menu identifier.
    pub fn from_id(id: &str) -> (command: TrayCommand)
        ensures
            command == command_of(id@),
    {
        if same_text(id, "quit") {
            TrayCommand::Quit
        } else if same_text(id, "show") {
            TrayCommand::ShowHide
        } else if same_text(id, "about") {
            TrayCommand::About
        } else if same_text(id, "sleep") {
            TrayCommand::ToggleSleep
        } else {
            TrayCommand::Unknown
        }
    }

    /// The action for this command, given whether the managed window exists.
    pub fn action(self, window_present: bool) -> (action: TrayAction)
        ensures
            action == action_of(self, window_present),
    {
        match self {
            TrayCommand::Quit => TrayAction::Exit { code: 0 },
            TrayCommand::ShowHide => if window_present {
                TrayAction::ToggleVisibility
            } else {
                TrayAction::Nothing
            },
            TrayCommand::About => if window_present {
                TrayAction::Emit { event: FrontendEvent::TrayAbout }
            } else {
                TrayAction::Nothing
            },
            TrayCommand::ToggleSleep => if window_present {
                TrayAction::Emit { event: FrontendEvent::TrayToggleSleep }
            } else {
                TrayAction::Nothing
            },
            TrayCommand::Unknown => TrayAction::Nothing,
        }
    }
}

impl FrontendEvent {
    /// The name under which the front-end listens for this notification.
    pub open spec fn spec_name(self) -> Seq<char> {
        match self {
            FrontendEvent::TrayAbout => "tray-about"@,
            FrontendEvent::TrayToggleSleep => "tray-toggle-sleep"@,
        }
    }

    /// The name under which the front-end listens for this notification.
    pub fn name(self) -> (name: &'static str)
        ensures
            name@ == self.spec_name(),
    {
        match self {
            FrontendEvent::TrayAbout => "tray-about",
            FrontendEvent::TrayToggleSleep => "tray-toggle-sleep",
        }
    }
}

impl TrayAction {
    /// The exit code with which the action ends the process, if it does.
    pub open spec fn exit_code(self) -> Option<i32> {
        match self {
            TrayAction::Exit { code } => Some(code),
            _ => None,
        }
    }

    /// The notifications that the action sends to the front-end, in order.
    pub open spec fn emitted(self) -> Seq<FrontendEvent> {
        match self {
            TrayAction::Emit { event } => seq![event],
            _ => Seq::empty(),
        }
    }

    /// Whether the action changes anything about the managed window.
    pub open spec fn changes_window(self) -> bool {
        self is ToggleVisibility
    }
}

impl View for TrayMenuItem {
    type V = (Seq<char>, Seq<char>);

    closed spec fn view(&self) -> (Seq<char>, Seq<char>) {
        (self.id@, self.label@)
    }
}

impl TrayMenuItem {
    /// The identifier that activations of this entry carry.
    pub fn id(&self) -> (id: &'static str)
        ensures
            id@ == self@.0,
    {
        self.id
    }

    /// The text shown for this entry.
    pub fn label(&self) -> (label: &'static str)
        ensures
            label@ == self@.1,
    {
        self.label
    }
}

impl View for TrayEvent {
    type V = Seq<char>;

    closed spec fn view(&self) -> Seq<char> {
        self.id@
    }
}

impl TrayEvent {
    /// The activation of the entry with this identifier.
    pub fn new(id: &str) -> (event: TrayEvent)
        ensures
            event@ == id@,
    {
        TrayEvent { id: id.to_owned() }
    }

    /// The identifier of the entry that was activated.
    pub fn id(&self) -> (id: &str)
        ensures
            id@ == self@,
    {
        self.id.as_str()
    }
}

/// Builds the tray menu: four entries in a fixed order.
pub fn tray_menu() -> (items: Vec<TrayMenuItem>)
    ensures
        items@.len() == menu_layout().len(),
        forall|i: int| 0 <= i < items@.len() ==> (#[trigger] items@[i])@ == menu_layout()[i],
{
    let mut items: Vec<TrayMenuItem> = Vec::new();
    items.push(TrayMenuItem { id: "show", label: "Show/Hide" });
    items.push(TrayMenuItem { id: "sleep", label: "Toggle Sleep" });
    items.push(TrayMenuItem { id: "about", label: "About" });
    items.push(TrayMenuItem { id: "quit", label: "Quit Chill" });
    items
}

/// Routes one menu activation: reads the identifier and gives the action that
/// the host is to perform. The activation is used up.
pub fn dispatch(event: TrayEvent, window_present: bool) -> (action: TrayAction)
    ensures
        action == action_of(command_of(event@), window_present),
{
    TrayCommand::from_id(event.id()).action(window_present)
}

/// Each identifier of the menu stands for the command of its own entry, so no
/// entry is routed as unknown and no two entries share an identifier.
pub proof fn menu_identifiers_route_to_their_entries(i: int)
    requires
        0 <= i < menu_layout().len(),
    ensures
        command_of(menu_layout()[i].0) == menu_commands()[i],
        command_of(menu_layout()[i].0) != TrayCommand::Unknown,
        forall|j: int|
            0 <= j < menu_layout().len() && j != i ==> menu_layout()[j].0 != menu_layout()[i].0,
{
    menu_identifiers_differ();
}

/// Quitting ends the process with exit code 0, whether or not the managed
/// window exists, and does nothing else: no notification, no window change.
pub proof fn quit_exits_with_zero_and_nothing_else(id: Seq<char>, window_present: bool)
    requires
        id == "quit"@,
    ensures
        action_of(command_of(id), window_present) == (TrayAction::Exit { code: 0 }),
        action_of(command_of(id), window_present).exit_code() == Some(0i32),
        action_of(command_of(id), window_present).emitted().len() == 0,
        !action_of(command_of(id), window_present).changes_window(),
{
}

/// With the managed window present, the about entry sends exactly one
/// notification, the about request, and neither changes the window nor ends
/// the process.
pub proof fn about_emits_one_notification(id: Seq<char>)
    requires
        id == "about"@,
    ensures
        action_of(command_of(id), true).emitted() == seq![FrontendEvent::TrayAbout],
        FrontendEvent::TrayAbout.spec_name() == "tray-about"@,
        !action_of(command_of(id), true).changes_window(),
        action_of(command_of(id), true).exit_code() is None,
{
    menu_identifiers_differ();
}

/// With the managed window present, the sleep entry sends exactly one
/// notification, the sleep toggle request, and neither changes the window nor
/// ends the process.
pub proof fn sleep_emits_one_notification(id: Seq<char>)
    requires
        id == "sleep"@,
    ensures
        action_of(command_of(id), true).emitted() == seq![FrontendEvent::TrayToggleSleep],
        FrontendEvent::TrayToggleSleep.spec_name() == "tray-toggle-sleep"@,
        !action_of(command_of(id), true).changes_window(),
        action_of(command_of(id), true).exit_code() is None,
{
    menu_identifiers_differ();
}

/// An identifier outside the menu's set leads to nothing: no notification, no
/// window change, no exit.
pub proof fn unknown_identifier_is_ignored(id: Seq<char>, window_present: bool)
    requires
        id != "quit"@,
        id != "show"@,
        id != "about"@,
        id != "sleep"@,
    ensures
        command_of(id) == TrayCommand::Unknown,
        action_of(command_of(id), window_present) == TrayAction::Nothing,
        action_of(command_of(id), window_present).emitted().len() == 0,
        !action_of(command_of(id), window_present).changes_window(),
        action_of(command_of(id), window_present).exit_code() is None,
{
}

/// Without the managed window, only quitting has an effect.
pub proof fn absent_window_leaves_only_quit(id: Seq<char>)
    ensures
        action_of(command_of(id), false) == if id == "quit"@ {
            TrayAction::Exit { code: 0 }
        } else {
            TrayAction::Nothing
        },
{
}

/// No two identifiers of the menu are the same text.
proof fn menu_identifiers_differ()
    ensures
        "quit"@ != "show"@,
        "quit"@ != "about"@,
        "quit"@ != "sleep"@,
        "show"@ != "about"@,
        "show"@ != "sleep"@,
        "about"@ != "sleep"@,
{
    reveal_strlit("quit");
    reveal_strlit("show");
    reveal_strlit("about");
    reveal_strlit("sleep");
    assert("quit"@.len() == 4 && "show"@.len() == 4);
    assert("about"@.len() == 5 && "sleep"@.len() == 5);
    assert("quit"@[0] != "show"@[0]);
    assert("about"@[0] != "sleep"@[0]);
}

} // verus!
