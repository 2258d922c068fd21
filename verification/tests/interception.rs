use extabbar::desk_band::{
    get_band_info, invoke, BrowserEvent, DeskBandInfo, DBIMF_BKCOLOR, DBIMF_NOMARGINS,
    DBIM_ACTUAL, DBIM_BKCOLOR, DBIM_INTEGRAL, DBIM_MAXSIZE, DBIM_MINSIZE, DBIM_MODEFLAGS,
    DBIM_TITLE, DISPATCH_METHOD, DISP_E_MEMBERNOTFOUND,
};
use extabbar::detour::{
    browse_object_detour, hook_browse_object, hook_show_window, show_window_detour, Detours, Hook,
    Install, Passage, S_OK,
};
use extabbar::host::{
    HostCommand, Reply, TabError, BROWSE_AFTER_STEP, BROWSE_TO_TAB, SBSP_NAVIGATEBACK,
    SBSP_NAVIGATEFORWARD, SBSP_SAMEBROWSER, SBSP_WRITENOHISTORY,
    TB_ENABLEBUTTON, WM_COMMAND, WM_LBUTTONDOWN, WM_MBUTTONDOWN, WM_MOUSEMOVE, WM_PAINT,
    WM_RBUTTONUP,
};
use extabbar::idl::{Idl, ShellName};
use extabbar::settings::{current_settings, Settings};
use extabbar::tabs::explorer_subclass::{ExplorerSubclass, HostSignal};
use extabbar::tabs::geometry::{Point, Rect};
use extabbar::tabs::tab::TabPath;
use extabbar::tabs::tab_bar::{Next, TabBar, Task};
use extabbar::tabs::tab_control::TOGGLE_DARK_MODE;
use extabbar::tabs::travel_bar_control::{TravelBarControl, OWN_MARK};

fn place(id: &str) -> TabPath {
    Some(Idl::new(id.as_bytes().to_vec(), ShellName::Wide(id.encode_utf16().collect())))
}

fn id(path: &TabPath) -> Option<Vec<u8>> {
    path.as_ref().map(|idl| idl.get().clone())
}

fn rects() -> Vec<Rect> {
    vec![
        Rect { left: 0, top: 0, right: 50, bottom: 20 },
        Rect { left: 50, top: 0, right: 100, bottom: 20 },
        Rect { left: 100, top: 0, right: 150, bottom: 20 },
    ]
}

fn at(x: i16, y: i16) -> isize {
    (((y as u16 as u32) << 16) | (x as u16 as u32)) as isize
}

fn bar_of(places: &[&str]) -> TabBar {
    let mut bar = TabBar::new(1, 2, 3, Settings::default());
    for (index, name) in places.iter().enumerate() {
        bar.add_tab(place(name), index).unwrap();
    }
    bar
}

fn current(bar: &TabBar, index: usize) -> Option<Vec<u8>> {
    id(bar.get_tab(index).unwrap().current_path())
}

#[test]
fn every_error_reaches_the_host_as_e_fail() {
    for error in [
        TabError::NotFound,
        TabError::NoHistory,
        TabError::OperationFailed,
        TabError::HostUnavailable,
    ] {
        assert_eq!(error.hresult() as u32, 0x80004005);
    }
}

#[test]
fn settings_default_is_dark() {
    assert!(Settings::default().dark_mode);
}

#[test]
fn current_settings_fall_back_to_default() {
    assert_eq!(current_settings(None), Settings { dark_mode: true });
    assert_eq!(current_settings(Some(Settings { dark_mode: false })), Settings { dark_mode: false });
    assert_eq!(current_settings(Some(Settings { dark_mode: true })), Settings { dark_mode: true });
}

#[test]
fn travel_bar_marks_its_own_messages() {
    let toolbar = TravelBarControl::new(77);
    assert_eq!(toolbar.handle(), 77);
    match toolbar.set_button_active(256, true) {
        HostCommand::EnableButton { handle, button, lparam } => {
            assert_eq!((handle, button, lparam), (77, 256, 0x10001));
        }
        other => panic!("unexpected: {:?}", other),
    }
    match toolbar.set_button_active(257, false) {
        HostCommand::EnableButton { handle, button, lparam } => {
            assert_eq!((handle, button, lparam), (77, 257, 0x10000));
        }
        other => panic!("unexpected: {:?}", other),
    }
    assert_eq!(OWN_MARK, 0x10000);
}

#[test]
fn travel_bar_filters_enable_messages() {
    assert_eq!(TravelBarControl::subclass_proc(TB_ENABLEBUTTON, 1), Reply::Handled(1));
    assert_eq!(TravelBarControl::subclass_proc(TB_ENABLEBUTTON, 0), Reply::Handled(1));
    assert_eq!(TravelBarControl::subclass_proc(TB_ENABLEBUTTON, 0x10001), Reply::Forward(1));
    assert_eq!(TravelBarControl::subclass_proc(TB_ENABLEBUTTON, 0x10000), Reply::Forward(0));
    assert_eq!(TravelBarControl::subclass_proc(TB_ENABLEBUTTON, 0x30001), Reply::Forward(0x20001));
    assert_eq!(TravelBarControl::subclass_proc(WM_PAINT, 1), Reply::Forward(1));
    assert_eq!(TravelBarControl::subclass_proc(WM_PAINT, 0x10001), Reply::Forward(0x10001));
    assert_eq!(TB_ENABLEBUTTON, 0x0401);
}

#[test]
fn explorer_subclass_tells_messages_apart() {
    let subclass = ExplorerSubclass::new(9, 0xC001, 0xC002);
    assert_eq!(subclass.explorer_handle(), 9);
    assert_eq!(subclass.window_procedure(0xC001), HostSignal::NewWindow);
    assert_eq!(subclass.window_procedure(0xC002), HostSignal::BrowseObject);
    assert_eq!(subclass.window_procedure(WM_PAINT), HostSignal::Other);
    let clash = ExplorerSubclass::new(9, 0, 0);
    assert_eq!(clash.window_procedure(0), HostSignal::NewWindow);
}

#[test]
fn explorer_subclass_new_window_reply() {
    assert_eq!(ExplorerSubclass::new_window_reply(true), Reply::Handled(1));
    assert_eq!(ExplorerSubclass::new_window_reply(false), Reply::Handled(0));
}

#[test]
fn explorer_subclass_takes_over_back_and_forward() {
    let mut bar = bar_of(&["/A"]);
    bar.navigated(place("/B")).unwrap();

    let (request, reply) = ExplorerSubclass::browse_object(&mut bar, SBSP_NAVIGATEBACK);
    assert_eq!(reply, Reply::Handled(1));
    match request {
        Some(HostCommand::Browse { path, flags }) => {
            assert_eq!(path.get(), &b"/A".to_vec());
            assert_eq!(flags, BROWSE_AFTER_STEP);
            assert_eq!(flags, SBSP_SAMEBROWSER | SBSP_WRITENOHISTORY);
        }
        other => panic!("unexpected: {:?}", other),
    }
    assert_eq!(current(&bar, 0), Some(b"/A".to_vec()));

    let (request, reply) = ExplorerSubclass::browse_object(&mut bar, SBSP_NAVIGATEFORWARD | 0x2);
    assert_eq!(reply, Reply::Handled(1));
    assert!(matches!(request, Some(HostCommand::Browse { flags: BROWSE_AFTER_STEP, .. })));
    assert_eq!(current(&bar, 0), Some(b"/B".to_vec()));

    let (request, reply) =
        ExplorerSubclass::browse_object(&mut bar, SBSP_NAVIGATEBACK | SBSP_NAVIGATEFORWARD);
    assert_eq!(reply, Reply::Handled(1));
    assert!(request.is_some());
    assert_eq!(current(&bar, 0), Some(b"/A".to_vec()));
}

#[test]
fn explorer_subclass_suppresses_even_without_history() {
    let mut bar = bar_of(&["/A"]);
    let (request, reply) = ExplorerSubclass::browse_object(&mut bar, SBSP_NAVIGATEBACK);
    assert_eq!(reply, Reply::Handled(1));
    assert!(request.is_none());
    let (request, reply) = ExplorerSubclass::browse_object(&mut bar, SBSP_NAVIGATEFORWARD);
    assert_eq!(reply, Reply::Handled(1));
    assert!(request.is_none());
    assert_eq!(current(&bar, 0), Some(b"/A".to_vec()));
}

#[test]
fn explorer_subclass_leaves_the_tab_bars_own_requests_to_host() {
    let mut bar = bar_of(&["/A"]);
    bar.navigated(place("/B")).unwrap();
    let (request, _) = ExplorerSubclass::browse_object(&mut bar, SBSP_NAVIGATEBACK);
    let own = match request {
        Some(HostCommand::Browse { flags, .. }) => flags,
        other => panic!("unexpected: {:?}", other),
    };
    let (request, reply) = ExplorerSubclass::browse_object(&mut bar, own);
    assert_eq!(reply, Reply::Handled(0));
    assert!(request.is_none());
    assert_eq!(current(&bar, 0), Some(b"/A".to_vec()));
}

#[test]
fn explorer_subclass_leaves_other_requests_to_host() {
    let mut bar = bar_of(&["/A"]);
    bar.navigated(place("/B")).unwrap();
    let (request, reply) = ExplorerSubclass::browse_object(&mut bar, SBSP_SAMEBROWSER);
    assert_eq!(reply, Reply::Handled(0));
    assert!(request.is_none());
    assert_eq!(current(&bar, 0), Some(b"/B".to_vec()));
    assert_eq!(SBSP_SAMEBROWSER, 0x0001);
    assert_eq!(SBSP_NAVIGATEBACK, 0x4000);
    assert_eq!(SBSP_NAVIGATEFORWARD, 0x8000);
}

#[test]
fn detour_browse_object_is_hooked_once() {
    let mut detours = Detours::new();
    assert_eq!(detours.browse_object, Hook::Absent);
    assert_eq!(hook_browse_object(&detours), Install::Create);
    detours.browse_object_hooked(0xC002, true);
    assert_eq!(detours.browse_object, Hook::Installed);
    assert_eq!(detours.message_id_browse_object, 0xC002);
    assert_eq!(hook_browse_object(&detours), Install::Nothing);
    detours.browse_object_hooked(0xC003, false);
    assert_eq!(detours.browse_object, Hook::Installed);
    assert_eq!(detours.message_id_browse_object, 0xC002);
}

#[test]
fn detour_failed_hook_disables_the_feature() {
    let mut detours = Detours::new();
    detours.browse_object_hooked(0xC002, false);
    assert_eq!(detours.browse_object, Hook::Failed);
    assert_eq!(hook_browse_object(&detours), Install::Nothing);
    detours.show_window_hooked(0xC001, false);
    assert_eq!(detours.show_window, Hook::Failed);
    assert_eq!(hook_show_window(&mut detours, 5), Install::Nothing);
}

#[test]
fn detour_show_window_is_created_once_and_enabled_again() {
    let mut detours = Detours::new();
    assert_eq!(detours.show_window_target(), Err(TabError::HostUnavailable));
    assert_eq!(hook_show_window(&mut detours, 5), Install::Create);
    assert_eq!(detours.show_window_explorer_handle, Some(5));
    detours.show_window_hooked(0xC001, true);
    assert_eq!(detours.show_window, Hook::Installed);
    assert_eq!(detours.show_window_target(), Ok((5, 0xC001)));
    assert_eq!(hook_show_window(&mut detours, 6), Install::Enable);
    detours.show_window_hooked(0xC009, true);
    assert_eq!(detours.show_window_target(), Ok((6, 0xC001)));
    assert_eq!(hook_show_window(&mut detours, 7), Install::Enable);
    detours.show_window_hooked(0, false);
    assert_eq!(detours.show_window, Hook::Failed);
}

#[test]
fn detour_passages() {
    assert_eq!(browse_object_detour(Some(1)), Passage::CallThrough);
    assert_eq!(browse_object_detour(Some(-1)), Passage::CallThrough);
    assert_eq!(browse_object_detour(Some(0)), Passage::CallThrough);
    assert_eq!(browse_object_detour(Some(2)), Passage::CallThrough);
    assert_eq!(browse_object_detour(None), Passage::CallThrough);
    assert_eq!(show_window_detour(0), Passage::CallThrough);
    assert_eq!(show_window_detour(1), Passage::Return(S_OK));
    assert_eq!(show_window_detour(-1), Passage::Return(S_OK));
    assert_eq!(S_OK, 0);
}

fn blank(mask: u32) -> DeskBandInfo {
    DeskBandInfo {
        mask,
        min_size: Point { x: 1, y: 2 },
        max_size: Point { x: 3, y: 4 },
        integral: Point { x: 5, y: 6 },
        mode_flags: 7,
    }
}

#[test]
fn band_info_fills_what_is_asked_for() {
    let mut info = blank(
        DBIM_MINSIZE | DBIM_MAXSIZE | DBIM_INTEGRAL | DBIM_ACTUAL | DBIM_TITLE | DBIM_MODEFLAGS
            | DBIM_BKCOLOR,
    );
    get_band_info(&mut info);
    assert_eq!(info.min_size, Point { x: 200, y: 25 });
    assert_eq!(info.max_size, Point { x: 3, y: -1 });
    assert_eq!(info.integral, Point { x: 5, y: -1 });
    assert_eq!(info.mode_flags, DBIMF_BKCOLOR | DBIMF_NOMARGINS);
    assert_eq!(info.mode_flags, 0x2040);
    assert_eq!(info.mask, DBIM_MINSIZE | DBIM_MAXSIZE | DBIM_INTEGRAL | DBIM_ACTUAL | DBIM_MODEFLAGS);
}

#[test]
fn band_info_leaves_the_rest_alone() {
    let mut info = blank(0);
    get_band_info(&mut info);
    assert_eq!(info, blank(0));
    let mut info = blank(DBIM_TITLE);
    get_band_info(&mut info);
    assert_eq!(info, blank(0));
    let mut info = blank(DBIM_INTEGRAL | 0x8000_0000);
    get_band_info(&mut info);
    assert_eq!(info, blank(DBIM_INTEGRAL | 0x8000_0000));
    let mut info = blank(DBIM_MINSIZE | DBIM_BKCOLOR);
    get_band_info(&mut info);
    assert_eq!(info.mask, DBIM_MINSIZE);
    assert_eq!(info.min_size, Point { x: 200, y: 25 });
    assert_eq!(info.max_size, Point { x: 3, y: 4 });
    assert_eq!(info.mode_flags, 7);
}

#[test]
fn invoke_dispatches_browser_events() {
    assert_eq!(invoke(0xfc, DISPATCH_METHOD), Ok(BrowserEvent::NavigateComplete));
    assert_eq!(invoke(0xfb, DISPATCH_METHOD), Ok(BrowserEvent::NewWindow));
    assert_eq!(invoke(0x69, DISPATCH_METHOD), Ok(BrowserEvent::Other));
    assert_eq!(invoke(0xfc, 2), Err(DISP_E_MEMBERNOTFOUND));
    assert_eq!(invoke(0xfc, DISPATCH_METHOD | 2), Err(DISP_E_MEMBERNOTFOUND));
    assert_eq!(DISP_E_MEMBERNOTFOUND as u32, 0x80020003);
}

#[test]
fn window_procedure_switches_to_hovered_tab() {
    let mut bar = bar_of(&["/A", "/B", "/C"]);
    let rects = rects();
    assert!(matches!(bar.window_procedure(WM_MOUSEMOVE, 0, at(60, 5), &rects), Ok(Task::Repaint)));
    assert_eq!(bar.tab_control().get_focused_tab_index(), Some(1));
    let task = bar.window_procedure(WM_LBUTTONDOWN, 0, 0, &rects);
    match &task {
        Ok(Task::Run(HostCommand::Browse { path, flags })) => {
            assert_eq!(path.get(), &b"/B".to_vec());
            assert_eq!(*flags, BROWSE_TO_TAB);
            assert_eq!(*flags & SBSP_WRITENOHISTORY, 0);
        }
        other => panic!("unexpected: {:?}", other),
    }
    assert_eq!(bar.tab_control().get_selected_tab_index(), Some(1));
    assert_eq!(TabBar::reply(&task, true, 9), Next::Answer(Reply::Forward(9)));
    assert_eq!(TabBar::reply(&task, false, 9), Next::Answer(Reply::Handled(0)));
}

#[test]
fn window_procedure_clones_hovered_tab_and_consumes_click() {
    let mut bar = bar_of(&["/A", "/B"]);
    let rects = rects();
    bar.window_procedure(WM_MOUSEMOVE, 0, at(10, 5), &rects).unwrap();
    let task = bar.window_procedure(WM_LBUTTONDOWN, 0x0008, 0, &rects);
    assert!(matches!(task, Ok(Task::Done)));
    assert_eq!(bar.tab_control().get_tab_count(), 3);
    assert_eq!(current(&bar, 1), Some(b"/A".to_vec()));
    assert_eq!(bar.tab_control().get_selected_tab_index(), Some(0));
    assert_eq!(TabBar::reply(&task, true, 9), Next::Answer(Reply::Handled(0)));
}

#[test]
fn window_procedure_removes_unselected_hovered_tab() {
    let mut bar = bar_of(&["/A", "/B", "/C"]);
    let rects = rects();
    bar.window_procedure(WM_MOUSEMOVE, 0, at(110, 5), &rects).unwrap();
    let task = bar.window_procedure(WM_MBUTTONDOWN, 0, 0, &rects);
    assert!(matches!(task, Ok(Task::Nothing)));
    assert_eq!(bar.tab_control().get_tab_count(), 2);
    assert_eq!(TabBar::reply(&task, true, 4), Next::Answer(Reply::Forward(4)));
}

#[test]
fn window_procedure_removes_selected_tab_in_two_rounds() {
    let mut bar = bar_of(&["/A", "/B"]);
    let rects = rects();
    bar.window_procedure(WM_MOUSEMOVE, 0, at(10, 5), &rects).unwrap();
    let task = bar.window_procedure(WM_MBUTTONDOWN, 0, 0, &rects);
    match &task {
        Ok(Task::RunAndRepeat(HostCommand::Browse { path, .. })) => {
            assert_eq!(path.get(), &b"/B".to_vec());
        }
        other => panic!("unexpected: {:?}", other),
    }
    assert_eq!(bar.tab_control().get_tab_count(), 2);
    assert_eq!(bar.tab_control().get_selected_tab_index(), Some(1));
    assert_eq!(TabBar::reply(&task, false, 4), Next::Answer(Reply::Handled(0)));
    assert_eq!(TabBar::reply(&task, true, 4), Next::Repeat);

    let task = bar.window_procedure(WM_MBUTTONDOWN, 0, 0, &rects);
    assert!(matches!(task, Ok(Task::Nothing)));
    assert_eq!(bar.tab_control().get_tab_count(), 1);
    assert_eq!(bar.tab_control().get_selected_tab_index(), Some(0));
    assert_eq!(current(&bar, 0), Some(b"/B".to_vec()));
}

#[test]
fn window_procedure_keeps_sole_tab_on_middle_click() {
    let mut bar = bar_of(&["/A"]);
    let rects = rects();
    bar.window_procedure(WM_MOUSEMOVE, 0, at(10, 5), &rects).unwrap();
    let task = bar.window_procedure(WM_MBUTTONDOWN, 0, 0, &rects);
    assert!(matches!(task, Ok(Task::Nothing)));
    assert_eq!(bar.tab_control().get_tab_count(), 1);
}

#[test]
fn window_procedure_swallows_errors() {
    let mut bar = bar_of(&["/A", "/B", "/C"]);
    let rects = rects();
    bar.window_procedure(WM_MOUSEMOVE, 0, at(110, 5), &rects).unwrap();
    assert!(matches!(bar.remove_tab(2), Ok(_)));
    let task = bar.window_procedure(WM_LBUTTONDOWN, 0, 0, &rects);
    assert!(matches!(task, Err(TabError::OperationFailed)));
    assert_eq!(TabBar::reply(&task, true, 4), Next::Answer(Reply::Handled(0)));
    let task = bar.window_procedure(WM_MBUTTONDOWN, 0, 0, &rects);
    assert!(matches!(task, Err(TabError::NotFound)));
    let task = bar.window_procedure(WM_LBUTTONDOWN, 0x0008, 0, &rects);
    assert!(matches!(task, Err(TabError::NotFound)));
    assert_eq!(bar.tab_control().get_tab_count(), 2);
}

#[test]
fn window_procedure_toggles_dark_mode_and_repaints() {
    let mut bar = bar_of(&["/A"]);
    let rects = rects();
    let task = bar.window_procedure(WM_COMMAND, TOGGLE_DARK_MODE, 0, &rects);
    assert!(matches!(task, Ok(Task::Repaint)));
    assert!(!bar.tab_control().dark_mode());
    assert_eq!(TabBar::reply(&task, true, 0), Next::Answer(Reply::Forward(0)));
    let task = bar.window_procedure(WM_PAINT, 0, 0, &rects);
    assert!(matches!(task, Ok(Task::Nothing)));
    bar.window_procedure(WM_COMMAND, TOGGLE_DARK_MODE, 0, &rects).unwrap();
    let task = bar.window_procedure(WM_PAINT, 0, 0, &rects);
    assert!(matches!(task, Ok(Task::Paint)));
    assert_eq!(TabBar::reply(&task, true, 0), Next::Answer(Reply::Handled(1)));
    assert_eq!(TabBar::reply(&task, false, 0), Next::Answer(Reply::Handled(0)));
}

#[test]
fn window_procedure_menu_reply() {
    let mut bar = bar_of(&["/A"]);
    let task = bar.window_procedure(WM_RBUTTONUP, 0, 0, &rects());
    assert!(matches!(task, Ok(Task::PopupMenu)));
    assert_eq!(TabBar::reply(&task, true, 3), Next::Answer(Reply::Handled(1)));
    assert_eq!(TabBar::reply(&task, false, 3), Next::Answer(Reply::Handled(0)));
}
