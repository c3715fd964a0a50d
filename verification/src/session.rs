use vstd::prelude::*;
use vstd::string::StringExecFns;
use crate::commands::{
    command_texts, create_command, create_commands_of, create_invocation, delete_command,
    delete_commands_of, delete_invocation,
};
use crate::device::{device_views, texts, Device, DeviceView};
use crate::table::{
    listing_row, listing_row_text, menu_row, menu_row_text, progress_line, progress_line_text,
};
use crate::text::{runtime_suffix, runtime_suffix_of};

verus! {

/// Where a run stands. Each stage but the first and the last waits for one
/// event from outside.
#[derive(Clone, Copy, Debug, PartialEq, Eq, Structural)]
pub enum Stage {
    /// Nothing has happened yet.
    Start,
    /// The device directory is being entered for the first time.
    Resolving,
    /// The device manager is listing the devices.
    Enumerating,
    /// The user is choosing devices.
    Selecting,
    /// The chosen devices are being deleted.
    Deleting,
    /// The user is asked whether to recreate them.
    Confirming,
    /// The device directory is being entered again, before recreating.
    ResolvingAgain,
    /// The chosen devices are being recreated.
    Recreating,
    /// The device manager is listing the devices once more.
    Relisting,
    /// The run is over.
    Finished,
}

/// What is to be done outside next.
#[derive(Clone, Copy, Debug, PartialEq, Eq, Structural)]
pub enum Action {
    /// Make the device directory the working directory.
    EnterDirectory,
    /// Ask the device manager for its devices.
    ListDevices,
    /// Show the selection menu.
    Select,
    /// Run the delete command lines.
    Delete,
    /// Ask whether to recreate the devices.
    Confirm,
    /// Run the create command lines.
    Recreate,
    /// Print the final listing and end with success.
    ShowListing,
    /// End with success at once.
    Exit,
}

/// What happened outside.
#[derive(Debug)]
pub enum Event {
    /// The run begins.
    Begin,
    /// The device directory is the working directory.
    DirectoryEntered,
    /// The device manager listed these devices.
    Listed(Vec<Device>),
    /// The user confirmed these rows of the menu, or cancelled.
    Selected(Option<Vec<usize>>),
    /// The command lines of the last action have run.
    CommandsRun,
    /// The user answered the confirmation.
    Answered(bool),
}

/// The mathematical value of an [`Event`].
pub enum EventView {
    Begin,
    DirectoryEntered,
    Listed(Seq<DeviceView>),
    Selected(Option<Seq<usize>>),
    CommandsRun,
    Answered(bool),
}

impl View for Event {
    type V = EventView;

    open spec fn view(&self) -> EventView {
        match *self {
            Event::Begin => EventView::Begin,
            Event::DirectoryEntered => EventView::DirectoryEntered,
            Event::Listed(devices) => EventView::Listed(device_views(devices@)),
            Event::Selected(choice) => EventView::Selected(
                match choice {
                    Some(rows) => Some(rows@),
                    None => None,
                },
            ),
            Event::CommandsRun => EventView::CommandsRun,
            Event::Answered(answer) => EventView::Answered(answer),
        }
    }
}

/// One run of the cleaner: the devices last listed, the rows chosen among
/// them, and the stage reached.
#[derive(Debug)]
pub struct SimCleanerCLI {
    devices: Vec<Device>,
    victims: Vec<usize>,
    stage: Stage,
}

/// The mathematical value of a [`SimCleanerCLI`].
pub struct SessionView {
    pub devices: Seq<DeviceView>,
    pub victims: Seq<usize>,
    pub stage: Stage,
}

/// Every index of `rows` is below `bound`.
pub open spec fn all_below(rows: Seq<usize>, bound: nat) -> bool {
    forall|i: int| 0 <= i < rows.len() ==> rows[i] < bound
}

impl SessionView {
    /// Every chosen row is a row of the current device list.
    pub open spec fn valid(self) -> bool {
        all_below(self.victims, self.devices.len())
    }

    /// The event is one that the stage waits for. A selection must name rows
    /// of the current device list.
    pub open spec fn fits(self, event: EventView) -> bool {
        match event {
            EventView::Begin => self.stage == Stage::Start,
            EventView::DirectoryEntered => self.stage == Stage::Resolving || self.stage
                == Stage::ResolvingAgain,
            EventView::Listed(_) => self.stage == Stage::Enumerating || self.stage
                == Stage::Relisting,
            EventView::Selected(choice) => self.stage == Stage::Selecting && (choice matches Some(
                rows,
            ) ==> all_below(rows, self.devices.len())),
            EventView::CommandsRun => self.stage == Stage::Deleting || self.stage
                == Stage::Recreating,
            EventView::Answered(_) => self.stage == Stage::Confirming,
        }
    }

    /// The session after an event that fits.
    pub open spec fn after(self, event: EventView) -> SessionView {
        match event {
            EventView::Begin => SessionView { stage: Stage::Resolving, ..self },
            EventView::DirectoryEntered => if self.stage == Stage::Resolving {
                SessionView { stage: Stage::Enumerating, ..self }
            } else {
                SessionView { stage: Stage::Recreating, ..self }
            },
            EventView::Listed(devices) => SessionView {
                devices,
                victims: Seq::empty(),
                stage: if self.stage == Stage::Enumerating {
                    Stage::Selecting
                } else {
                    Stage::Finished
                },
            },
            EventView::Selected(choice) => match choice {
                Some(rows) if rows.len() > 0 => SessionView {
                    victims: rows,
                    stage: Stage::Deleting,
                    ..self
                },
                _ => SessionView { stage: Stage::Finished, ..self },
            },
            EventView::CommandsRun => if self.stage == Stage::Deleting {
                SessionView { stage: Stage::Confirming, ..self }
            } else {
                SessionView { stage: Stage::Relisting, ..self }
            },
            EventView::Answered(answer) => if answer {
                SessionView { stage: Stage::ResolvingAgain, ..self }
            } else {
                SessionView { stage: Stage::Relisting, ..self }
            },
        }
    }

    /// What is to be done after an event that fits.
    pub open spec fn reaction(self, event: EventView) -> Action {
        match event {
            EventView::Begin => Action::EnterDirectory,
            EventView::DirectoryEntered => if self.stage == Stage::Resolving {
                Action::ListDevices
            } else {
                Action::Recreate
            },
            EventView::Listed(_) => if self.stage == Stage::Enumerating {
                Action::Select
            } else {
                Action::ShowListing
            },
            EventView::Selected(choice) => match choice {
                Some(rows) if rows.len() > 0 => Action::Delete,
                _ => Action::Exit,
            },
            EventView::CommandsRun => if self.stage == Stage::Deleting {
                Action::Confirm
            } else {
                Action::ListDevices
            },
            EventView::Answered(answer) => if answer {
                Action::EnterDirectory
            } else {
                Action::ListDevices
            },
        }
    }
}

impl View for SimCleanerCLI {
    type V = SessionView;

    closed spec fn view(&self) -> SessionView {
        SessionView {
            devices: device_views(self.devices@),
            victims: self.victims@,
            stage: self.stage,
        }
    }
}

/// The chosen rows always index the current device list: an event that fits
/// keeps a valid session valid.
pub proof fn lemma_valid_is_kept(session: SessionView, event: EventView)
    requires
        session.valid(),
        session.fits(event),
    ensures
        session.after(event).valid(),
{
}

/// Only a listing replaces the devices, and only a listing or a selection
/// changes the chosen rows: from the selection to the recreation the records
/// are those that were listed before the deletion.
pub proof fn lemma_choice_is_kept(session: SessionView, event: EventView)
    requires
        session.fits(event),
    ensures
        !(event is Listed) ==> session.after(event).devices == session.devices,
        !(event is Listed) && !(event is Selected) ==> session.after(event).victims
            == session.victims,
{
}

/// Cancelling the menu, or confirming it with nothing chosen, ends the run
/// with success at once: the reaction is to exit, and the finished run takes
/// no further event, so nothing is deleted or created.
pub proof fn lemma_empty_selection_ends(
    session: SessionView,
    choice: Option<Seq<usize>>,
    later: EventView,
)
    requires
        session.stage == Stage::Selecting,
        choice matches Some(rows) ==> rows.len() == 0,
    ensures
        session.fits(EventView::Selected(choice)),
        session.reaction(EventView::Selected(choice)) == Action::Exit,
        session.after(EventView::Selected(choice)).stage == Stage::Finished,
        !session.after(EventView::Selected(choice)).fits(later),
{
}

/// A finished run takes no event: no action follows its end.
pub proof fn lemma_finished_is_final(session: SessionView, event: EventView)
    requires
        session.stage == Stage::Finished,
    ensures
        !session.fits(event),
{
}

/// Confirming the menu with rows chosen leads to the deletion: the reaction
/// is to delete, the rows become the chosen ones, and there is exactly one
/// delete command line for each, with the udid of the device in that row.
pub proof fn lemma_selection_deletes(session: SessionView, rows: Seq<usize>)
    requires
        session.stage == Stage::Selecting,
        rows.len() > 0,
        all_below(rows, session.devices.len()),
    ensures
        session.fits(EventView::Selected(Some(rows))),
        session.reaction(EventView::Selected(Some(rows))) == Action::Delete,
        session.after(EventView::Selected(Some(rows))) == (SessionView {
            victims: rows,
            stage: Stage::Deleting,
            ..session
        }),
        delete_commands_of(session.devices, rows).len() == rows.len(),
        forall|i: int|
            0 <= i < rows.len() ==> #[trigger] delete_commands_of(session.devices, rows)[i]
                == seq!["xcrun"@, "simctl"@, "delete"@, session.devices[rows[i] as int].udid],
{
}

/// The confirmation is asked only once the delete command lines have run.
pub proof fn lemma_confirm_follows_deletion(session: SessionView, event: EventView)
    requires
        session.fits(event),
        session.reaction(event) == Action::Confirm,
    ensures
        session.stage == Stage::Deleting,
        event == EventView::CommandsRun,
{
}

/// Declining the recreation skips it: the devices are listed again at once,
/// and what follows that listing is the final listing and the end.
pub proof fn lemma_declining_skips_creation(session: SessionView, next: EventView)
    requires
        session.stage == Stage::Confirming,
    ensures
        session.fits(EventView::Answered(false)),
        session.reaction(EventView::Answered(false)) == Action::ListDevices,
        session.after(EventView::Answered(false)).stage == Stage::Relisting,
        session.after(EventView::Answered(false)).fits(next) ==> {
            let declined = session.after(EventView::Answered(false));
            &&& declined.reaction(next) == Action::ShowListing
            &&& declined.after(next).stage == Stage::Finished
        },
{
}

/// Devices are recreated only after the user said yes: the create command
/// lines are run only from the second entry into the device directory, and
/// that stage is reached only by accepting the confirmation.
pub proof fn lemma_recreation_needs_consent(session: SessionView, event: EventView)
    requires
        session.fits(event),
    ensures
        session.reaction(event) == Action::Recreate ==> session.stage == Stage::ResolvingAgain,
        session.after(event).stage == Stage::ResolvingAgain ==> session.stage == Stage::Confirming
            && event == EventView::Answered(true),
{
}

/// Accepting the recreation leads to it: the device directory is entered
/// again, then the create command lines are run, exactly one for each chosen
/// row, with the name, device type and runtime of the device in that row as
/// they were listed before the deletion.
pub proof fn lemma_accepting_recreates(session: SessionView)
    requires
        session.stage == Stage::Confirming,
    ensures
        session.fits(EventView::Answered(true)),
        session.reaction(EventView::Answered(true)) == Action::EnterDirectory,
        session.after(EventView::Answered(true)).fits(EventView::DirectoryEntered),
        session.after(EventView::Answered(true)).reaction(EventView::DirectoryEntered)
            == Action::Recreate,
        session.after(EventView::Answered(true)).after(EventView::DirectoryEntered) == (
        SessionView { stage: Stage::Recreating, ..session }),
        create_commands_of(session.devices, session.victims).len() == session.victims.len(),
        forall|i: int|
            0 <= i < session.victims.len() ==> #[trigger] create_commands_of(
                session.devices,
                session.victims,
            )[i] == seq![
                "xcrun"@,
                "simctl"@,
                "create"@,
                session.devices[session.victims[i] as int].name,
                session.devices[session.victims[i] as int].device_type,
                session.devices[session.victims[i] as int].runtime,
            ],
{
}

/// The heading printed when a stage is entered: before the deletion, before
/// the recreation and before the final listing; none at the other stages.
pub open spec fn heading_text(stage: Stage) -> Option<Seq<char>> {
    match stage {
        Stage::Deleting => Some("\nDeleting device data:"@),
        Stage::ResolvingAgain => Some("Recreating following devices:"@),
        Stage::Relisting => Some("Device data cleared. \nNew devices state:\n"@),
        _ => None,
    }
}

/// Gives the heading to print when `stage` is entered.
pub fn heading(stage: Stage) -> (text: Option<String>)
    ensures
        text is Some <==> heading_text(stage) is Some,
        text matches Some(line) ==> heading_text(stage) == Some(line@),
{
    match stage {
        Stage::Deleting => Some(String::from_str("\nDeleting device data:")),
        Stage::ResolvingAgain => Some(String::from_str("Recreating following devices:")),
        Stage::Relisting => Some(String::from_str("Device data cleared. \nNew devices state:\n")),
        _ => None,
    }
}

/// Tells whether every index of `rows` is below `bound`.
pub fn rows_below(rows: &Vec<usize>, bound: usize) -> (below: bool)
    ensures
        below == all_below(rows@, bound as nat),
{
    let mut i: usize = 0;
    while i < rows.len()
        invariant
            i <= rows.len(),
            forall|k: int| 0 <= k < i ==> rows@[k] < bound,
        decreases rows.len() - i,
    {
        if rows[i] >= bound {
            return false;
        }
        i = i + 1;
    }
    true
}

impl SimCleanerCLI {
    /// A run that has not begun: no devices, nothing chosen.
    pub fn new() -> (session: SimCleanerCLI)
        ensures
            session@.valid(),
            session@.stage == Stage::Start,
            session@.devices.len() == 0,
            session@.victims.len() == 0,
    {
        SimCleanerCLI { devices: Vec::new(), victims: Vec::new(), stage: Stage::Start }
    }

    /// The stage reached.
    pub fn stage(&self) -> (stage: Stage)
        ensures
            stage == self@.stage,
    {
        self.stage
    }

    /// The devices last listed.
    pub fn devices(&self) -> (devices: &Vec<Device>)
        ensures
            device_views(devices@) == self@.devices,
    {
        &self.devices
    }

    /// The rows chosen among the devices.
    pub fn victims(&self) -> (victims: &Vec<usize>)
        ensures
            victims@ == self@.victims,
    {
        &self.victims
    }

    /// Takes in what happened outside and says what to do next. An event
    /// that the stage does not wait for, or a selection that names a row the
    /// device list does not have, is refused and changes nothing.
    pub fn advance(&mut self, event: Event) -> (action: Option<Action>)
        requires
            old(self)@.valid(),
        ensures
            final(self)@.valid(),
            old(self)@.fits(event@) ==> action == Some(old(self)@.reaction(event@)) && final(self)@
                == old(self)@.after(event@),
            !old(self)@.fits(event@) ==> action is None && final(self)@ == old(self)@,
    {
        match event {
            Event::Begin => {
                if self.stage == Stage::Start {
                    self.stage = Stage::Resolving;
                    Some(Action::EnterDirectory)
                } else {
                    None
                }
            },
            Event::DirectoryEntered => {
                if self.stage == Stage::Resolving {
                    self.stage = Stage::Enumerating;
                    Some(Action::ListDevices)
                } else if self.stage == Stage::ResolvingAgain {
                    self.stage = Stage::Recreating;
                    Some(Action::Recreate)
                } else {
                    None
                }
            },
            Event::Listed(devices) => {
                if self.stage == Stage::Enumerating {
                    self.devices = devices;
                    self.victims = Vec::new();
                    self.stage = Stage::Selecting;
                    assert(final(self)@.victims =~= Seq::<usize>::empty());
                    Some(Action::Select)
                } else if self.stage == Stage::Relisting {
                    self.devices = devices;
                    self.victims = Vec::new();
                    self.stage = Stage::Finished;
                    assert(final(self)@.victims =~= Seq::<usize>::empty());
                    Some(Action::ShowListing)
                } else {
                    None
                }
            },
            Event::Selected(choice) => {
                if self.stage != Stage::Selecting {
                    return None;
                }
                match choice {
                    Some(rows) => {
                        if !rows_below(&rows, self.devices.len()) {
                            return None;
                        }
                        if rows.len() == 0 {
                            self.stage = Stage::Finished;
                            Some(Action::Exit)
                        } else {
                            self.victims = rows;
                            self.stage = Stage::Deleting;
                            Some(Action::Delete)
                        }
                    },
                    None => {
                        self.stage = Stage::Finished;
                        Some(Action::Exit)
                    },
                }
            },
            Event::CommandsRun => {
                if self.stage == Stage::Deleting {
                    self.stage = Stage::Confirming;
                    Some(Action::Confirm)
                } else if self.stage == Stage::Recreating {
                    self.stage = Stage::Relisting;
                    Some(Action::ListDevices)
                } else {
                    None
                }
            },
            Event::Answered(answer) => {
                if self.stage != Stage::Confirming {
                    None
                } else if answer {
                    self.stage = Stage::ResolvingAgain;
                    Some(Action::EnterDirectory)
                } else {
                    self.stage = Stage::Relisting;
                    Some(Action::ListDevices)
                }
            },
        }
    }

    /// The displayed runtime of the device in row `device_index`: what
    /// follows the last `.` of its runtime identifier.
    pub fn parse_runtime(&self, device_index: usize) -> (suffix: String)
        requires
            device_index < self@.devices.len(),
        ensures
            suffix@ == runtime_suffix(self@.devices[device_index as int].runtime),
    {
        runtime_suffix_of(self.devices[device_index].runtime.as_str())
    }

    /// The delete command lines for the chosen devices: one for each chosen
    /// row, in the order chosen, with that device's udid.
    pub fn delete_commands(&self) -> (commands: Vec<Vec<String>>)
        requires
            self@.valid(),
        ensures
            commands@.len() == self@.victims.len(),
            command_texts(commands@) == delete_commands_of(self@.devices, self@.victims),
    {
        let mut commands: Vec<Vec<String>> = Vec::new();
        let mut i: usize = 0;
        while i < self.victims.len()
            invariant
                i <= self.victims.len(),
                self@.valid(),
                commands@.len() == i,
                forall|k: int|
                    0 <= k < i ==> texts(commands@[k]@) == delete_command(
                        self@.devices[self@.victims[k] as int],
                    ),
            decreases self.victims.len() - i,
        {
            let row = self.victims[i];
            assert(row < self@.devices.len());
            commands.push(delete_invocation(&self.devices[row]));
            i = i + 1;
        }
        assert(command_texts(commands@) =~= delete_commands_of(self@.devices, self@.victims));
        commands
    }

    /// The create command lines for the chosen devices: one for each chosen
    /// row, in the order chosen, with that device's name, device type and
    /// runtime as they were listed.
    pub fn create_commands(&self) -> (commands: Vec<Vec<String>>)
        requires
            self@.valid(),
        ensures
            commands@.len() == self@.victims.len(),
            command_texts(commands@) == create_commands_of(self@.devices, self@.victims),
    {
        let mut commands: Vec<Vec<String>> = Vec::new();
        let mut i: usize = 0;
        while i < self.victims.len()
            invariant
                i <= self.victims.len(),
                self@.valid(),
                commands@.len() == i,
                forall|k: int|
                    0 <= k < i ==> texts(commands@[k]@) == create_command(
                        self@.devices[self@.victims[k] as int],
                    ),
            decreases self.victims.len() - i,
        {
            let row = self.victims[i];
            assert(row < self@.devices.len());
            commands.push(create_invocation(&self.devices[row]));
            i = i + 1;
        }
        assert(command_texts(commands@) =~= create_commands_of(self@.devices, self@.victims));
        commands
    }

    /// The progress lines of the chosen devices, one for each chosen row.
    pub fn progress_lines(&self) -> (lines: Vec<String>)
        requires
            self@.valid(),
        ensures
            lines@.len() == self@.victims.len(),
            texts(lines@) == Seq::new(
                self@.victims.len(),
                |i: int| progress_line_text(self@.devices[self@.victims[i] as int]),
            ),
    {
        let mut lines: Vec<String> = Vec::new();
        let mut i: usize = 0;
        while i < self.victims.len()
            invariant
                i <= self.victims.len(),
                self@.valid(),
                lines@.len() == i,
                forall|k: int|
                    0 <= k < i ==> lines@[k]@ == progress_line_text(
                        self@.devices[self@.victims[k] as int],
                    ),
            decreases self.victims.len() - i,
        {
            let row = self.victims[i];
            assert(row < self@.devices.len());
            lines.push(progress_line(&self.devices[row]));
            i = i + 1;
        }
        assert(texts(lines@) =~= Seq::new(
            self@.victims.len(),
            |i: int| progress_line_text(self@.devices[self@.victims[i] as int]),
        ));
        lines
    }

    /// The rows of the selection menu: one for each device, with the size
    /// given for it.
    pub fn menu_rows(&self, sizes: &Vec<String>) -> (rows: Vec<String>)
        requires
            sizes@.len() == self@.devices.len(),
        ensures
            rows@.len() == self@.devices.len(),
            texts(rows@) == Seq::new(
                self@.devices.len(),
                |i: int| menu_row_text(self@.devices[i], sizes@[i]@),
            ),
    {
        let mut rows: Vec<String> = Vec::new();
        let mut i: usize = 0;
        while i < self.devices.len()
            invariant
                i <= self.devices.len(),
                sizes@.len() == self.devices@.len(),
                rows@.len() == i,
                forall|k: int|
                    0 <= k < i ==> rows@[k]@ == menu_row_text(self@.devices[k], sizes@[k]@),
            decreases self.devices.len() - i,
        {
            rows.push(menu_row(&self.devices[i], sizes[i].as_str()));
            i = i + 1;
        }
        assert(texts(rows@) =~= Seq::new(
            self@.devices.len(),
            |i: int| menu_row_text(self@.devices[i], sizes@[i]@),
        ));
        rows
    }

    /// The rows of the final listing: one for each device, with the size
    /// given for it.
    pub fn listing_rows(&self, sizes: &Vec<String>) -> (rows: Vec<String>)
        requires
            sizes@.len() == self@.devices.len(),
        ensures
            rows@.len() == self@.devices.len(),
            texts(rows@) == Seq::new(
                self@.devices.len(),
                |i: int| listing_row_text(self@.devices[i], sizes@[i]@),
            ),
    {
        let mut rows: Vec<String> = Vec::new();
        let mut i: usize = 0;
        while i < self.devices.len()
            invariant
                i <= self.devices.len(),
                sizes@.len() == self.devices@.len(),
                rows@.len() == i,
                forall|k: int|
                    0 <= k < i ==> rows@[k]@ == listing_row_text(self@.devices[k], sizes@[k]@),
            decreases self.devices.len() - i,
        {
            rows.push(listing_row(&self.devices[i], sizes[i].as_str()));
            i = i + 1;
        }
        assert(texts(rows@) =~= Seq::new(
            self@.devices.len(),
            |i: int| listing_row_text(self@.devices[i], sizes@[i]@),
        ));
        rows
    }
}

} // verus!
