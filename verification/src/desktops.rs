//! The controller: hotkeys and tray messages, and the table of virtual
//! desktops that are created on first use and kept until exit.
use vstd::prelude::*;
use crate::keys::VK_F1;
use crate::terminal::WM_NCCREATE;

verus! {

/// Number of hotkeys and desktop slots: slot 0 is the desktop the program
/// started on, slots 1 to 5 are created on demand.
pub const DESKTOP_COUNT: usize = 6;
/// Identifier of the first hotkey; hotkey `HOTKEY_BASE + i` selects slot `i`.
pub const HOTKEY_BASE: i32 = 1;
/// `MOD_ALT` hotkey modifier.
pub const MOD_ALT: u32 = 0x0001;
/// `MOD_CONTROL` hotkey modifier.
pub const MOD_CONTROL: u32 = 0x0002;
/// Modifiers of every desktop hotkey: Ctrl+Alt.
pub const HOTKEY_MODIFIERS: u32 = MOD_CONTROL | MOD_ALT;
/// Access requested on desktops: read and create objects, enumerate, write
/// objects and switch.
pub const DESKTOP_ACCESS: u32 = 0x0001 | 0x0002 | 0x0040 | 0x0080 | 0x0100;
/// `WM_DESTROY`: the controller window is being destroyed.
pub const WM_DESTROY: u32 = 0x0002;
/// `WM_COMMAND`: a menu item was chosen; its identifier is in `wparam`.
pub const WM_COMMAND: u32 = 0x0111;
/// `WM_HOTKEY`: a registered hotkey was pressed; its identifier is in
/// `wparam`.
pub const WM_HOTKEY: u32 = 0x0312;
/// `WM_USER`: the first message number free for private window classes.
pub const WM_USER: u32 = 0x0400;
/// Callback message of the tray icon; the mouse message is in `lparam`.
pub const WM_TRAY: u32 = 0x0401;
/// `WM_RBUTTONUP`: the right mouse button was released.
pub const WM_RBUTTONUP: u32 = 0x0205;
/// Identifier of the tray menu's exit item.
pub const ID_EXIT: usize = 1001;
/// Identifier of the tray icon.
pub const TRAY_ICON_ID: u32 = 1;
/// Capacity of the tray tooltip buffer, in UTF-16 units.
pub const TRAY_TIP_CAPACITY: usize = 128;
/// Tooltip of the tray icon.
pub const TRAY_TIP: &'static str = "Virtual Desktop Terminal";

/// What a window message means to the controller window.
#[derive(Clone, Copy, Debug, PartialEq, Eq, Structural)]
pub enum ControllerEvent {
    /// The window is being created.
    Create,
    /// The hotkey of this slot was pressed.
    SwitchTo(usize),
    /// The right mouse button was released over the tray icon.
    TrayMenu,
    /// The exit item of the tray menu was chosen.
    Exit,
    /// The window is being destroyed: the program ends.
    Destroy,
    /// A hotkey or tray message that needs nothing; answered with 0.
    Ignored,
    /// Any other message, left to the default window procedure.
    Other,
}

/// The meaning of a window message for the controller window.
pub open spec fn controller_event(message: u32, wparam: usize, lparam: isize) -> ControllerEvent {
    if message == WM_NCCREATE {
        ControllerEvent::Create
    } else if message == WM_HOTKEY {
        let id = (wparam as i32) as int - HOTKEY_BASE;
        if 0 <= id < DESKTOP_COUNT {
            ControllerEvent::SwitchTo(id as usize)
        } else {
            ControllerEvent::Ignored
        }
    } else if message == WM_TRAY {
        if lparam as u32 == WM_RBUTTONUP {
            ControllerEvent::TrayMenu
        } else {
            ControllerEvent::Ignored
        }
    } else if message == WM_COMMAND && wparam == ID_EXIT {
        ControllerEvent::Exit
    } else if message == WM_DESTROY {
        ControllerEvent::Destroy
    } else {
        ControllerEvent::Other
    }
}

/// Decodes a window message sent to the controller window.
pub fn decode_controller_message(message: u32, wparam: usize, lparam: isize) -> (event: ControllerEvent)
    ensures
        event == controller_event(message, wparam, lparam),
{
    if message == WM_NCCREATE {
        ControllerEvent::Create
    } else if message == WM_HOTKEY {
        let id: i64 = (wparam as i32) as i64 - HOTKEY_BASE as i64;
        if 0 <= id && id < DESKTOP_COUNT as i64 {
            ControllerEvent::SwitchTo(id as usize)
        } else {
            ControllerEvent::Ignored
        }
    } else if message == WM_TRAY {
        if lparam as u32 == WM_RBUTTONUP {
            ControllerEvent::TrayMenu
        } else {
            ControllerEvent::Ignored
        }
    } else if message == WM_COMMAND && wparam == ID_EXIT {
        ControllerEvent::Exit
    } else if message == WM_DESTROY {
        ControllerEvent::Destroy
    } else {
        ControllerEvent::Other
    }
}

/// A tray callback opens the menu exactly when its mouse message (the low
/// 32 bits of `lparam`) is a right-button release (0x0205); any other
/// tray callback is ignored.
pub proof fn tray_menu_only_on_right_click(wparam: usize, lparam: isize)
    ensures
        controller_event(0x0401, wparam, lparam) == ControllerEvent::TrayMenu <==> lparam as u32 == 0x0205u32,
        controller_event(0x0401, wparam, lparam) != ControllerEvent::TrayMenu ==> controller_event(
            0x0401,
            wparam,
            lparam,
        ) == ControllerEvent::Ignored,
{
}

/// The rest of the controller's messages: a hotkey switches exactly when
/// its identifier (the low 32 bits of `wparam`, signed) is 1 to 6, and then
/// to the slot one below it, else it is ignored; a menu command ends the
/// program only for the exit item (1001); destruction ends it always.
pub proof fn controller_message_table(wparam: usize, lparam: isize)
    ensures
        controller_event(0x0312, wparam, lparam) == (if 1 <= (wparam as i32) <= 6 {
            ControllerEvent::SwitchTo(((wparam as i32) - 1) as usize)
        } else {
            ControllerEvent::Ignored
        }),
        controller_event(0x0111, wparam, lparam) == (if wparam == 1001 {
            ControllerEvent::Exit
        } else {
            ControllerEvent::Other
        }),
        controller_event(0x0002, wparam, lparam) == ControllerEvent::Destroy,
        controller_event(0x0081, wparam, lparam) == ControllerEvent::Create,
{
}

/// The hotkey identifier registered for a slot.
pub open spec fn hotkey_id(slot: int) -> int {
    HOTKEY_BASE + slot
}

/// The hotkey registered for a slot: its identifier and its virtual key,
/// F1 for slot 0 up to F6 for slot 5 (always with Ctrl+Alt).
pub fn hotkey_binding(slot: usize) -> (binding: (i32, u32))
    requires
        slot < DESKTOP_COUNT,
    ensures
        binding.0 == hotkey_id(slot as int),
        binding.1 == VK_F1 + slot,
{
    (HOTKEY_BASE + slot as i32, VK_F1 as u32 + slot as u32)
}

/// The hotkey registered for a slot is decoded as a switch to that slot.
pub proof fn hotkey_selects_its_slot(slot: usize, lparam: isize)
    requires
        slot < DESKTOP_COUNT,
    ensures
        controller_event(WM_HOTKEY, hotkey_id(slot as int) as usize, lparam) == ControllerEvent::SwitchTo(
            slot,
        ),
{
    let w = hotkey_id(slot as int) as usize;
    assert(w == slot + 1);
    assert((w as i32) as int == slot + 1);
}

/// A created virtual desktop: the window of its terminal host and the
/// resources the caller keeps for it (the desktop handle, the host thread).
#[derive(Debug)]
pub struct DesktopSlot<T> {
    pub host_window: usize,
    pub resources: T,
}

/// The desktops created so far, one optional entry per slot. Slot 0 is the
/// desktop the program started on and never has an entry.
pub struct DesktopTable<T> {
    slots: Vec<Option<DesktopSlot<T>>>,
}

/// How to carry out a switch to a slot.
#[derive(Clone, Copy, Debug, PartialEq, Eq, Structural)]
pub enum SwitchPlan {
    /// Switch back to the desktop the program started on.
    ToDefault,
    /// The slot's desktop exists: switch to it and activate its terminal.
    Existing,
    /// The slot's desktop does not exist yet: create it, start its terminal
    /// host, record it, then switch to it.
    Create,
}

/// The plan for switching to a slot, given the table's entries.
pub open spec fn switch_plan<T>(slots: Seq<Option<DesktopSlot<T>>>, index: int) -> SwitchPlan {
    if index == 0 {
        SwitchPlan::ToDefault
    } else if slots[index] is Some {
        SwitchPlan::Existing
    } else {
        SwitchPlan::Create
    }
}

/// The entries of the occupied slots, in slot order.
pub open spec fn occupied<T>(slots: Seq<Option<DesktopSlot<T>>>) -> Seq<DesktopSlot<T>>
    decreases slots.len(),
{
    if slots.len() == 0 {
        seq![]
    } else {
        occupied(slots.drop_last()) + match slots.last() {
            Some(s) => seq![s],
            None => seq![],
        }
    }
}

/// A table with every slot empty.
pub open spec fn empty_slots<T>() -> Seq<Option<DesktopSlot<T>>> {
    Seq::new(DESKTOP_COUNT as nat, |i: int| None)
}

impl<T> View for DesktopTable<T> {
    type V = Seq<Option<DesktopSlot<T>>>;

    closed spec fn view(&self) -> Seq<Option<DesktopSlot<T>>> {
        self.slots@
    }
}

/// The table's invariant: one entry per slot, none for slot 0.
pub open spec fn table_wf<T>(slots: Seq<Option<DesktopSlot<T>>>) -> bool {
    slots.len() == DESKTOP_COUNT && slots[0] is None
}

impl<T> DesktopTable<T> {
    /// A table with no desktop created.
    pub fn new() -> (table: DesktopTable<T>)
        ensures
            table@ == empty_slots::<T>(),
            table_wf(table@),
    {
        let mut slots: Vec<Option<DesktopSlot<T>>> = Vec::new();
        let mut i: usize = 0;
        while i < DESKTOP_COUNT
            invariant
                i <= DESKTOP_COUNT,
                slots@ == empty_slots::<T>().take(i as int),
            decreases DESKTOP_COUNT - i,
        {
            slots.push(None);
            assert(slots@ == empty_slots::<T>().take(i + 1));
            i = i + 1;
        }
        assert(slots@ == empty_slots::<T>());
        DesktopTable { slots }
    }

    /// How to switch to slot `index`: slot 0 is the starting desktop, a
    /// slot with an entry is switched to as it is, an empty slot is created
    /// first.
    pub fn plan_switch(&self, index: usize) -> (plan: SwitchPlan)
        requires
            table_wf(self@),
            index < DESKTOP_COUNT,
        ensures
            plan == switch_plan(self@, index as int),
    {
        if index == 0 {
            SwitchPlan::ToDefault
        } else if self.slots[index].is_some() {
            SwitchPlan::Existing
        } else {
            SwitchPlan::Create
        }
    }

    /// The entry of slot `index`, if its desktop exists.
    pub fn get(&self, index: usize) -> (slot: Option<&DesktopSlot<T>>)
        requires
            table_wf(self@),
            index < DESKTOP_COUNT,
        ensures
            match self@[index as int] {
                Some(s) => slot matches Some(r) && *r == s,
                None => slot is None,
            },
    {
        match &self.slots[index] {
            Some(s) => Some(s),
            None => None,
        }
    }

    /// Records the desktop just created for slot `index` (1 to 5).
    pub fn record(&mut self, index: usize, slot: DesktopSlot<T>)
        requires
            table_wf(old(self)@),
            1 <= index < DESKTOP_COUNT,
        ensures
            table_wf(final(self)@),
            final(self)@ == old(self)@.update(index as int, Some(slot)),
    {
        self.slots.set(index, Some(slot));
    }

    /// Takes every created desktop out of the table, in slot order, leaving
    /// every slot empty.
    pub fn take_all(&mut self) -> (taken: Vec<DesktopSlot<T>>)
        requires
            table_wf(old(self)@),
        ensures
            table_wf(final(self)@),
            final(self)@ == empty_slots::<T>(),
            taken@ == occupied(old(self)@),
    {
        let ghost start = self.slots@;
        let mut taken: Vec<DesktopSlot<T>> = Vec::new();
        let mut i: usize = 0;
        while i < DESKTOP_COUNT
            invariant
                i <= DESKTOP_COUNT,
                start.len() == DESKTOP_COUNT,
                self.slots@.len() == DESKTOP_COUNT,
                forall|j: int| 0 <= j < i ==> self.slots@[j] is None,
                forall|j: int| i <= j < DESKTOP_COUNT ==> self.slots@[j] == start[j],
                taken@ == occupied(start.take(i as int)),
            decreases DESKTOP_COUNT - i,
        {
            let mut entry: Option<DesktopSlot<T>> = None;
            std::mem::swap(&mut entry, &mut self.slots[i]);
            assert(start.take(i + 1).drop_last() == start.take(i as int));
            match entry {
                Some(s) => taken.push(s),
                None => {},
            }
            i = i + 1;
        }
        assert(start.take(DESKTOP_COUNT as int) == start);
        assert(self.slots@ == empty_slots::<T>());
        taken
    }
}

/// A desktop is created once: after its entry is recorded, switching to
/// its slot goes to that same entry instead of creating another, and no
/// other slot's plan or entry changes.
pub proof fn recorded_desktop_is_reused<T>(
    slots: Seq<Option<DesktopSlot<T>>>,
    index: int,
    slot: DesktopSlot<T>,
    other: int,
)
    requires
        table_wf(slots),
        1 <= index < DESKTOP_COUNT,
        0 <= other < DESKTOP_COUNT,
        other != index,
    ensures
        table_wf(slots.update(index, Some(slot))),
        switch_plan(slots.update(index, Some(slot)), index) == SwitchPlan::Existing,
        slots.update(index, Some(slot))[index] == Some(slot),
        switch_plan(slots.update(index, Some(slot)), other) == switch_plan(slots, other),
        slots.update(index, Some(slot))[other] == slots[other],
{
}

/// The hotkey of slot 0 (Ctrl+Alt+F1) always leads back to the desktop the
/// program started on, whatever desktops exist.
pub proof fn first_hotkey_returns_to_default<T>(slots: Seq<Option<DesktopSlot<T>>>, lparam: isize)
    ensures
        controller_event(WM_HOTKEY, hotkey_id(0) as usize, lparam) == ControllerEvent::SwitchTo(0),
        switch_plan(slots, 0) == SwitchPlan::ToDefault,
{
    hotkey_selects_its_slot(0, lparam);
}

/// The entries taken at shutdown are exactly the recorded desktops: as many
/// as there are occupied slots, each of them once, in slot order.
pub proof fn occupied_counts_entries<T>(slots: Seq<Option<DesktopSlot<T>>>)
    ensures
        occupied(slots).len() == slots.filter(|e: Option<DesktopSlot<T>>| e is Some).len(),
        forall|i: int| 0 <= i < slots.len() && slots[i] is Some ==> occupied(slots).contains(slots[i]->0),
    decreases slots.len(),
{
    reveal_with_fuel(Seq::filter, 1);
    if slots.len() > 0 {
        occupied_counts_entries(slots.drop_last());
        assert forall|i: int| 0 <= i < slots.len() && slots[i] is Some implies occupied(slots).contains(slots[i]->0) by {
            if i < slots.len() - 1 {
                assert(slots.drop_last()[i] == slots[i]);
                let k = choose|k: int| 0 <= k < occupied(slots.drop_last()).len() && occupied(slots.drop_last())[k] == slots[i]->0;
                assert(occupied(slots)[k] == slots[i]->0);
            } else {
                assert(occupied(slots).last() == slots[i]->0);
            }
        }
    }
}

/// After shutdown every slot but the starting desktop would be created
/// anew.
pub proof fn emptied_table_recreates<T>(index: int)
    requires
        1 <= index < DESKTOP_COUNT,
    ensures
        table_wf(empty_slots::<T>()),
        switch_plan(empty_slots::<T>(), index) == SwitchPlan::Create,
{
}

/// The outcome of one step of creating a slot's desktop and its terminal
/// host.
#[derive(Clone, Copy, Debug, PartialEq, Eq, Structural)]
pub enum CreationEvent {
    /// The desktop was created.
    DesktopCreated,
    /// The desktop could not be created.
    DesktopFailed,
    /// The host thread was started.
    HostStarted,
    /// The host thread could not be started.
    HostFailed,
    /// The host reported its window within the wait.
    HostReady { host_window: usize },
    /// The host did not report its window within the wait.
    HostTimedOut,
}

/// What to do next when creating a slot's desktop.
#[derive(Clone, Copy, Debug, PartialEq, Eq, Structural)]
pub enum CreationAction {
    /// Show the error and give up; nothing was created.
    ReportError,
    /// Start the host thread on the new desktop.
    StartHost,
    /// Wait (up to 5 seconds) for the host to report its window.
    WaitForHost,
    /// Close the new desktop and give up.
    CloseDesktop,
    /// Record the desktop with this host window, then switch to it.
    Record { host_window: usize },
}

/// How long to wait for a new host to report its window, in seconds.
pub const HOST_READY_TIMEOUT_SECS: u64 = 5;

/// The next step of creating a desktop: a failure to create the desktop is
/// reported, a failure after it exists closes it, success goes on to the
/// next step and finally records the desktop.
pub open spec fn creation_action(event: CreationEvent) -> CreationAction {
    match event {
        CreationEvent::DesktopCreated => CreationAction::StartHost,
        CreationEvent::DesktopFailed => CreationAction::ReportError,
        CreationEvent::HostStarted => CreationAction::WaitForHost,
        CreationEvent::HostFailed => CreationAction::CloseDesktop,
        CreationEvent::HostReady { host_window } => CreationAction::Record { host_window },
        CreationEvent::HostTimedOut => CreationAction::CloseDesktop,
    }
}

/// Decides the next step of creating a slot's desktop.
pub fn creation_step(event: CreationEvent) -> (action: CreationAction)
    ensures
        action == creation_action(event),
{
    match event {
        CreationEvent::DesktopCreated => CreationAction::StartHost,
        CreationEvent::DesktopFailed => CreationAction::ReportError,
        CreationEvent::HostStarted => CreationAction::WaitForHost,
        CreationEvent::HostFailed => CreationAction::CloseDesktop,
        CreationEvent::HostReady { host_window } => CreationAction::Record { host_window },
        CreationEvent::HostTimedOut => CreationAction::CloseDesktop,
    }
}

/// A desktop that was created is never left behind: every failure after its
/// creation closes it, and only a host that reported its window is
/// recorded, with that window.
pub proof fn created_desktop_closed_or_recorded(event: CreationEvent)
    ensures
        (event == CreationEvent::HostFailed || event == CreationEvent::HostTimedOut)
            ==> creation_action(event) == CreationAction::CloseDesktop,
        creation_action(event) matches CreationAction::Record { host_window } ==> event == (
        CreationEvent::HostReady { host_window }),
        event == CreationEvent::DesktopFailed ==> creation_action(event) == CreationAction::ReportError,
{
}

/// The character of a decimal digit.
pub open spec fn digit_char(d: int) -> char {
    (('0' as u32) as int + d) as char
}

pub(crate) fn digit_str(d: usize) -> (s: &'static str)
    requires
        d < 10,
    ensures
        s@ == seq![digit_char(d as int)],
{
    proof {
        reveal_strlit("0");
        reveal_strlit("1");
        reveal_strlit("2");
        reveal_strlit("3");
        reveal_strlit("4");
        reveal_strlit("5");
        reveal_strlit("6");
        reveal_strlit("7");
        reveal_strlit("8");
        reveal_strlit("9");
    }
    match d {
        0 => "0",
        1 => "1",
        2 => "2",
        3 => "3",
        4 => "4",
        5 => "5",
        6 => "6",
        7 => "7",
        8 => "8",
        _ => "9",
    }
}

/// The name of the desktop of slot `index`: "VirtualDesktop" and the
/// slot's number counted from 1.
pub fn desktop_name(index: usize) -> (name: String)
    requires
        index < DESKTOP_COUNT,
    ensures
        name@ == "VirtualDesktop"@.push(digit_char(index + 1)),
{
    let mut name = String::from_str("VirtualDesktop");
    name.append(digit_str(index + 1));
    name
}

/// The name of the thread hosting the terminal of slot `index`:
/// "desktop-host-" and the slot's number counted from 1.
pub fn host_thread_name(index: usize) -> (name: String)
    requires
        index < DESKTOP_COUNT,
    ensures
        name@ == "desktop-host-"@.push(digit_char(index + 1)),
{
    let mut name = String::from_str("desktop-host-");
    name.append(digit_str(index + 1));
    name
}

} // verus!
