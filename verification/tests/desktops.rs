use virtual_desktop_terminal::desktops::{
    creation_step, CreationAction, CreationEvent,
    decode_controller_message, desktop_name, host_thread_name, hotkey_binding, ControllerEvent,
    DesktopSlot, DesktopTable, SwitchPlan, DESKTOP_COUNT, ID_EXIT, WM_COMMAND, WM_DESTROY,
    WM_HOTKEY, WM_RBUTTONUP, WM_TRAY,
};
use virtual_desktop_terminal::keys::{VK_F1, VK_F6};
use virtual_desktop_terminal::terminal::{WM_NCCREATE, WM_PAINT};

#[test]
fn hotkeys_bind_f1_to_f6() {
    assert_eq!(hotkey_binding(0), (1, VK_F1 as u32));
    assert_eq!(hotkey_binding(5), (6, VK_F6 as u32));
}

#[test]
fn every_hotkey_selects_its_slot() {
    for slot in 0..DESKTOP_COUNT {
        let (id, _) = hotkey_binding(slot);
        assert_eq!(decode_controller_message(WM_HOTKEY, id as usize, 0), ControllerEvent::SwitchTo(slot));
    }
}

#[test]
fn out_of_range_hotkeys_are_ignored() {
    assert_eq!(decode_controller_message(WM_HOTKEY, 0, 0), ControllerEvent::Ignored);
    assert_eq!(decode_controller_message(WM_HOTKEY, 7, 0), ControllerEvent::Ignored);
    assert_eq!(decode_controller_message(WM_HOTKEY, usize::MAX, 0), ControllerEvent::Ignored);
    assert_eq!(decode_controller_message(WM_HOTKEY, 0x8000_0000, 0), ControllerEvent::Ignored);
    assert_eq!(decode_controller_message(WM_HOTKEY, 0x1_0000_0003, 0), ControllerEvent::SwitchTo(2));
}

#[test]
fn tray_and_menu_messages() {
    assert_eq!(decode_controller_message(WM_TRAY, 0, WM_RBUTTONUP as isize), ControllerEvent::TrayMenu);
    assert_eq!(decode_controller_message(WM_TRAY, 0, 0x0202), ControllerEvent::Ignored);
    assert_eq!(decode_controller_message(WM_COMMAND, ID_EXIT, 0), ControllerEvent::Exit);
    assert_eq!(decode_controller_message(WM_COMMAND, 1002, 0), ControllerEvent::Other);
    assert_eq!(decode_controller_message(WM_DESTROY, 0, 0), ControllerEvent::Destroy);
    assert_eq!(decode_controller_message(WM_NCCREATE, 0, 0), ControllerEvent::Create);
    assert_eq!(decode_controller_message(WM_PAINT, 0, 0), ControllerEvent::Other);
}

#[test]
fn first_slot_is_the_default_desktop() {
    let mut table: DesktopTable<u8> = DesktopTable::new();
    assert_eq!(table.plan_switch(0), SwitchPlan::ToDefault);
    table.record(1, DesktopSlot { host_window: 7, resources: 1 });
    assert_eq!(table.plan_switch(0), SwitchPlan::ToDefault);
}

#[test]
fn desktop_is_created_once_and_reused() {
    let mut table: DesktopTable<&str> = DesktopTable::new();
    for i in 1..DESKTOP_COUNT {
        assert_eq!(table.plan_switch(i), SwitchPlan::Create);
        assert!(table.get(i).is_none());
    }
    table.record(3, DesktopSlot { host_window: 0x1234, resources: "third" });
    assert_eq!(table.plan_switch(3), SwitchPlan::Existing);
    let slot = table.get(3).unwrap();
    assert_eq!((slot.host_window, slot.resources), (0x1234, "third"));
    assert_eq!(table.plan_switch(2), SwitchPlan::Create);
    assert_eq!(table.plan_switch(4), SwitchPlan::Create);
}

#[test]
fn shutdown_takes_every_desktop_in_slot_order() {
    let mut table: DesktopTable<u32> = DesktopTable::new();
    table.record(4, DesktopSlot { host_window: 40, resources: 4 });
    table.record(2, DesktopSlot { host_window: 20, resources: 2 });
    table.record(5, DesktopSlot { host_window: 50, resources: 5 });
    let taken: Vec<(usize, u32)> = table.take_all().into_iter().map(|s| (s.host_window, s.resources)).collect();
    assert_eq!(taken, vec![(20, 2), (40, 4), (50, 5)]);
    for i in 1..DESKTOP_COUNT {
        assert_eq!(table.plan_switch(i), SwitchPlan::Create);
    }
    assert!(table.take_all().is_empty());
}

#[test]
fn desktop_and_thread_names() {
    assert_eq!(desktop_name(1), "VirtualDesktop2");
    assert_eq!(desktop_name(5), "VirtualDesktop6");
    assert_eq!(host_thread_name(1), "desktop-host-2");
    assert_eq!(host_thread_name(4), "desktop-host-5");
}

#[test]
fn creation_steps() {
    assert_eq!(creation_step(CreationEvent::DesktopCreated), CreationAction::StartHost);
    assert_eq!(creation_step(CreationEvent::DesktopFailed), CreationAction::ReportError);
    assert_eq!(creation_step(CreationEvent::HostStarted), CreationAction::WaitForHost);
    assert_eq!(creation_step(CreationEvent::HostFailed), CreationAction::CloseDesktop);
    assert_eq!(creation_step(CreationEvent::HostTimedOut), CreationAction::CloseDesktop);
    assert_eq!(
        creation_step(CreationEvent::HostReady { host_window: 0x42 }),
        CreationAction::Record { host_window: 0x42 }
    );
}
