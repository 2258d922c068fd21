use extabbar::host::{
    HostCommand, TabError, BROWSE_AFTER_STEP, BROWSE_TO_TAB, SBSP_SAMEBROWSER, SBSP_WRITENOHISTORY,
};
use extabbar::idl::{Idl, ShellName};
use extabbar::settings::Settings;
use extabbar::tabs::tab::TabPath;
use extabbar::tabs::tab_bar::{get_tab_name, Removal, TabBar, BACK_BUTTON, FORWARD_BUTTON};

const STRIP: isize = 11;
const EXPLORER: isize = 22;
const TOOLBAR: isize = 33;

fn wide(text: &str) -> Vec<u16> {
    text.encode_utf16().collect()
}

fn place(id: &str) -> TabPath {
    Some(Idl::new(id.as_bytes().to_vec(), ShellName::Wide(wide(id))))
}

fn bytes(text: &str) -> Option<Vec<u8>> {
    Some(text.as_bytes().to_vec())
}

fn id(path: &TabPath) -> Option<Vec<u8>> {
    path.as_ref().map(|idl| idl.get().clone())
}

fn ids(paths: &Vec<TabPath>) -> Vec<Option<Vec<u8>>> {
    paths.iter().map(id).collect()
}

fn new_bar() -> TabBar {
    TabBar::new(STRIP, EXPLORER, TOOLBAR, Settings { dark_mode: true })
}

fn current(bar: &TabBar, index: usize) -> Option<Vec<u8>> {
    id(bar.get_tab(index).expect("no such tab").current_path())
}

fn backward(bar: &TabBar, index: usize) -> Vec<Option<Vec<u8>>> {
    ids(bar.get_tab(index).expect("no such tab").backward_paths())
}

fn forward(bar: &TabBar, index: usize) -> Vec<Option<Vec<u8>>> {
    ids(bar.get_tab(index).expect("no such tab").forward_paths())
}

fn titles(bar: &TabBar) -> Vec<String> {
    (0..bar.tab_control().get_tab_count())
        .map(|index| bar.tab_control().get_tab_text(index).unwrap())
        .collect()
}

fn keys(bar: &TabBar) -> Vec<usize> {
    (0..bar.tab_control().get_tab_count())
        .map(|index| bar.tab_control().get_tab_key(index).unwrap())
        .collect()
}

fn browsed(command: &HostCommand) -> Vec<u8> {
    match command {
        HostCommand::Browse { path, flags } => {
            assert_eq!(*flags, BROWSE_TO_TAB);
            assert_eq!(*flags & SBSP_WRITENOHISTORY, 0);
            path.get().clone()
        }
        other => panic!("not a request to browse: {:?}", other),
    }
}

fn stepped(command: &HostCommand) -> Vec<u8> {
    match command {
        HostCommand::Browse { path, flags } => {
            assert_eq!(*flags, BROWSE_AFTER_STEP);
            assert_ne!(*flags & SBSP_WRITENOHISTORY, 0);
            path.get().clone()
        }
        other => panic!("not a request to browse: {:?}", other),
    }
}

fn buttons(commands: &Vec<HostCommand>) -> Vec<(isize, usize, isize)> {
    commands
        .iter()
        .map(|command| match command {
            HostCommand::EnableButton { handle, button, lparam } => (*handle, *button, *lparam),
            other => panic!("not a button message: {:?}", other),
        })
        .collect()
}

#[test]
fn new_tab_bar_is_empty() {
    let bar = new_bar();
    assert_eq!(bar.tab_control().get_tab_count(), 0);
    assert_eq!(bar.tab_control().get_selected_tab_index(), None);
    assert_eq!(bar.get_handle(), STRIP);
    assert!(bar.tab_control().dark_mode());
    assert!(bar.get_tab(0).is_none());
}

#[test]
fn tab_name_of_nowhere_is_question_marks() {
    assert_eq!(get_tab_name(&None), "???");
}

#[test]
fn tab_name_when_lookup_failed_is_empty() {
    let path = Some(Idl::new(b"/A".to_vec(), ShellName::Unavailable));
    assert_eq!(get_tab_name(&path), "");
}

#[test]
fn tab_name_of_null_string_is_question_marks() {
    let path = Some(Idl::new(b"/A".to_vec(), ShellName::Null));
    assert_eq!(get_tab_name(&path), "???");
}

#[test]
fn tab_name_is_text_before_first_zero() {
    let mut units = wide("Documents");
    units.push(0);
    units.extend(wide("rest"));
    let path = Some(Idl::new(b"/A".to_vec(), ShellName::Wide(units)));
    assert_eq!(get_tab_name(&path), "Documents");
}

#[test]
fn first_tab_is_selected_as_it_comes() {
    let mut bar = new_bar();
    assert_eq!(bar.add_tab(place("/A"), 0), Ok(()));
    assert_eq!(bar.tab_control().get_tab_count(), 1);
    assert_eq!(bar.tab_control().get_selected_tab_index(), Some(0));
    assert_eq!(titles(&bar), vec!["/A"]);
    assert_eq!(keys(&bar), vec![0]);
    assert_eq!(current(&bar, 0), bytes("/A"));
}

#[test]
fn add_tab_past_the_end_is_operation_failed() {
    let mut bar = new_bar();
    assert_eq!(bar.add_tab(place("/A"), 1), Err(TabError::OperationFailed));
    assert_eq!(bar.tab_control().get_tab_count(), 0);
    bar.add_tab(place("/A"), 0).unwrap();
    assert_eq!(bar.add_tab(place("/B"), 3), Err(TabError::OperationFailed));
    assert_eq!(bar.tab_control().get_tab_count(), 1);
    assert_eq!(bar.add_tab(place("/B"), 1), Ok(()));
    assert_eq!(keys(&bar), vec![0, 1]);
}

#[test]
fn keys_are_never_reused() {
    let mut bar = new_bar();
    bar.add_tab(place("/A"), 0).unwrap();
    bar.add_tab(place("/B"), 1).unwrap();
    bar.add_tab(place("/C"), 2).unwrap();
    assert_eq!(keys(&bar), vec![0, 1, 2]);
    assert!(matches!(bar.remove_tab(2), Ok(Removal::Removed)));
    assert!(matches!(bar.remove_tab(1), Ok(Removal::Removed)));
    bar.add_tab(place("/D"), 0).unwrap();
    assert_eq!(keys(&bar), vec![3, 0]);
    assert_eq!(titles(&bar), vec!["/D", "/A"]);
}

#[test]
fn one_history_is_kept_for_each_tab_shown() {
    let mut bar = new_bar();
    assert_eq!(bar.tab_count(), 0);
    bar.add_tab(place("/A"), 0).unwrap();
    bar.add_tab(place("/B"), 1).unwrap();
    assert_eq!(bar.add_tab(place("/C"), 5), Err(TabError::OperationFailed));
    assert_eq!(bar.tab_count(), 2);
    bar.clone_tab(1).unwrap();
    bar.new_window(place("/N")).unwrap();
    assert_eq!(bar.tab_count(), 4);
    assert_eq!(bar.tab_control().get_tab_count(), 4);
    assert!(matches!(bar.remove_tab(0), Ok(Removal::Removed)));
    assert!(matches!(bar.remove_tab(2), Ok(Removal::Switched(_))));
    assert_eq!(bar.tab_count(), 3);
    assert!(matches!(bar.remove_tab(2), Ok(Removal::Removed)));
    assert_eq!(bar.tab_count(), 2);
    assert_eq!(bar.tab_control().get_tab_count(), 2);
}

#[test]
fn insert_left_of_selection_moves_it_right() {
    let mut bar = new_bar();
    bar.add_tab(place("/A"), 0).unwrap();
    bar.add_tab(place("/B"), 0).unwrap();
    assert_eq!(bar.tab_control().get_selected_tab_index(), Some(1));
    assert_eq!(current(&bar, 1), bytes("/A"));
    bar.add_tab(place("/C"), 2).unwrap();
    assert_eq!(bar.tab_control().get_selected_tab_index(), Some(1));
}

#[test]
fn scenario_back_back_forward_forward() {
    let mut bar = new_bar();
    bar.add_tab(place("/A"), 0).unwrap();
    bar.navigated(place("/B")).unwrap();
    bar.navigated(place("/C")).unwrap();

    let command = bar.navigate_back().unwrap();
    assert_eq!(stepped(&command), b"/B".to_vec());
    assert_eq!(current(&bar, 0), bytes("/B"));
    assert_eq!(backward(&bar, 0), vec![bytes("/A")]);
    assert_eq!(forward(&bar, 0), vec![bytes("/C")]);

    let command = bar.navigate_back().unwrap();
    assert_eq!(stepped(&command), b"/A".to_vec());
    assert_eq!(current(&bar, 0), bytes("/A"));
    assert_eq!(backward(&bar, 0), Vec::<Option<Vec<u8>>>::new());
    assert_eq!(forward(&bar, 0), vec![bytes("/C"), bytes("/B")]);

    let command = bar.navigate_forward().unwrap();
    assert_eq!(stepped(&command), b"/B".to_vec());
    let command = bar.navigate_forward().unwrap();
    assert_eq!(stepped(&command), b"/C".to_vec());
    assert_eq!(current(&bar, 0), bytes("/C"));
    assert_eq!(backward(&bar, 0), vec![bytes("/A"), bytes("/B")]);
    assert_eq!(forward(&bar, 0), Vec::<Option<Vec<u8>>>::new());
}

#[test]
fn scenario_clone_tab_inserts_right_of_original() {
    let mut bar = new_bar();
    bar.add_tab(place("/X"), 0).unwrap();
    bar.add_tab(place("/Y"), 1).unwrap();
    bar.switch_tab(1).unwrap();
    bar.navigated(place("/Y2")).unwrap();
    bar.switch_tab(0).unwrap();

    assert_eq!(bar.clone_tab(0), Ok(()));

    assert_eq!(bar.tab_control().get_tab_count(), 3);
    assert_eq!(current(&bar, 0), bytes("/X"));
    assert_eq!(current(&bar, 1), bytes("/X"));
    assert_eq!(backward(&bar, 1), Vec::<Option<Vec<u8>>>::new());
    assert_eq!(forward(&bar, 1), Vec::<Option<Vec<u8>>>::new());
    assert_eq!(current(&bar, 2), bytes("/Y2"));
    assert_eq!(backward(&bar, 2), vec![bytes("/Y")]);
    assert_eq!(titles(&bar), vec!["/X", "/X", "/Y2"]);
    assert_eq!(keys(&bar), vec![0, 2, 1]);
    assert_eq!(bar.tab_control().get_selected_tab_index(), Some(0));
}

#[test]
fn clone_tab_keeps_selection_on_its_tab() {
    let mut bar = new_bar();
    bar.add_tab(place("/X"), 0).unwrap();
    bar.add_tab(place("/Y"), 1).unwrap();
    bar.switch_tab(1).unwrap();
    bar.clone_tab(0).unwrap();
    assert_eq!(bar.tab_control().get_selected_tab_index(), Some(2));
    assert_eq!(current(&bar, 2), bytes("/Y"));
}

#[test]
fn clone_tab_of_missing_index_is_not_found() {
    let mut bar = new_bar();
    bar.add_tab(place("/X"), 0).unwrap();
    assert_eq!(bar.clone_tab(1), Err(TabError::NotFound));
    assert_eq!(bar.tab_control().get_tab_count(), 1);
}

#[test]
fn scenario_remove_tab_with_dead_index_is_not_found() {
    let mut bar = new_bar();
    bar.add_tab(place("/A"), 0).unwrap();
    bar.add_tab(place("/B"), 1).unwrap();
    bar.add_tab(place("/C"), 2).unwrap();
    assert!(matches!(bar.remove_tab(2), Ok(Removal::Removed)));

    assert!(matches!(bar.remove_tab(2), Err(TabError::NotFound)));

    assert_eq!(bar.tab_control().get_tab_count(), 2);
    assert_eq!(titles(&bar), vec!["/A", "/B"]);
    assert_eq!(keys(&bar), vec![0, 1]);
    assert_eq!(bar.tab_control().get_selected_tab_index(), Some(0));
    assert_eq!(current(&bar, 0), bytes("/A"));
    assert_eq!(current(&bar, 1), bytes("/B"));
}

#[test]
fn remove_tab_on_empty_bar_is_not_found() {
    let mut bar = new_bar();
    assert!(matches!(bar.remove_tab(0), Err(TabError::NotFound)));
}

#[test]
fn remove_sole_tab_is_a_no_op() {
    let mut bar = new_bar();
    bar.add_tab(place("/A"), 0).unwrap();
    bar.navigated(place("/B")).unwrap();
    assert!(matches!(bar.remove_tab(0), Ok(Removal::Kept)));
    assert_eq!(bar.tab_control().get_tab_count(), 1);
    assert_eq!(bar.tab_control().get_selected_tab_index(), Some(0));
    assert_eq!(current(&bar, 0), bytes("/B"));
    assert_eq!(backward(&bar, 0), vec![bytes("/A")]);
    assert_eq!(keys(&bar), vec![0]);
}

#[test]
fn remove_selected_tab_selects_left_neighbour() {
    let mut bar = new_bar();
    bar.add_tab(place("/A"), 0).unwrap();
    bar.add_tab(place("/B"), 1).unwrap();
    bar.add_tab(place("/C"), 2).unwrap();
    bar.switch_tab(2).unwrap();

    match bar.remove_tab(2) {
        Ok(Removal::Switched(command)) => assert_eq!(browsed(&command), b"/B".to_vec()),
        other => panic!("unexpected: {:?}", other),
    }
    assert_eq!(bar.tab_control().get_selected_tab_index(), Some(1));
    assert_eq!(bar.tab_control().get_tab_count(), 3);

    assert!(matches!(bar.remove_tab(2), Ok(Removal::Removed)));
    assert_eq!(bar.tab_control().get_selected_tab_index(), Some(1));
    assert_eq!(titles(&bar), vec!["/A", "/B"]);
    assert_eq!(current(&bar, 1), bytes("/B"));
}

#[test]
fn remove_selected_leftmost_tab_selects_right_neighbour() {
    let mut bar = new_bar();
    bar.add_tab(place("/A"), 0).unwrap();
    bar.add_tab(place("/B"), 1).unwrap();
    assert_eq!(bar.tab_control().get_selected_tab_index(), Some(0));

    match bar.remove_tab(0) {
        Ok(Removal::Switched(command)) => assert_eq!(browsed(&command), b"/B".to_vec()),
        other => panic!("unexpected: {:?}", other),
    }
    assert_eq!(bar.tab_control().get_selected_tab_index(), Some(1));

    assert!(matches!(bar.remove_tab(0), Ok(Removal::Removed)));
    assert_eq!(bar.tab_control().get_tab_count(), 1);
    assert_eq!(bar.tab_control().get_selected_tab_index(), Some(0));
    assert_eq!(current(&bar, 0), bytes("/B"));
    assert_eq!(keys(&bar), vec![1]);
}

#[test]
fn remove_selected_tab_with_heir_nowhere_is_not_found() {
    let mut bar = new_bar();
    bar.add_tab(None, 0).unwrap();
    bar.add_tab(place("/B"), 1).unwrap();
    bar.switch_tab(1).unwrap();
    assert!(matches!(bar.remove_tab(1), Err(TabError::NotFound)));
    assert_eq!(bar.tab_control().get_selected_tab_index(), Some(0));
    assert_eq!(bar.tab_control().get_tab_count(), 2);
}

#[test]
fn remove_unselected_tab_left_of_selection_moves_it_left() {
    let mut bar = new_bar();
    bar.add_tab(place("/A"), 0).unwrap();
    bar.add_tab(place("/B"), 1).unwrap();
    bar.add_tab(place("/C"), 2).unwrap();
    bar.switch_tab(2).unwrap();
    assert!(matches!(bar.remove_tab(0), Ok(Removal::Removed)));
    assert_eq!(bar.tab_control().get_selected_tab_index(), Some(1));
    assert_eq!(current(&bar, 1), bytes("/C"));
    assert!(bar.get_tab(2).is_none());
}

#[test]
fn navigated_sets_title_and_reports_buttons() {
    let mut bar = new_bar();
    bar.add_tab(place("/A"), 0).unwrap();
    let commands = bar.navigated(place("/B")).unwrap();
    assert_eq!(
        buttons(&commands),
        vec![(TOOLBAR, BACK_BUTTON, 0x10001), (TOOLBAR, FORWARD_BUTTON, 0x10000)]
    );
    assert_eq!(titles(&bar), vec!["/B"]);
    bar.navigate_back().unwrap();
    let commands = bar.navigated(place("/A")).unwrap();
    assert_eq!(
        buttons(&commands),
        vec![(TOOLBAR, BACK_BUTTON, 0x10000), (TOOLBAR, FORWARD_BUTTON, 0x10001)]
    );
    assert_eq!(titles(&bar), vec!["/A"]);
    assert_eq!(BACK_BUTTON, 256);
    assert_eq!(FORWARD_BUTTON, 257);
}

#[test]
fn navigated_reaches_only_the_selected_tab() {
    let mut bar = new_bar();
    bar.add_tab(place("/A"), 0).unwrap();
    bar.add_tab(place("/B"), 1).unwrap();
    bar.switch_tab(1).unwrap();
    bar.navigated(place("/C")).unwrap();
    assert_eq!(current(&bar, 0), bytes("/A"));
    assert_eq!(backward(&bar, 0), Vec::<Option<Vec<u8>>>::new());
    assert_eq!(current(&bar, 1), bytes("/C"));
    assert_eq!(backward(&bar, 1), vec![bytes("/B")]);
    assert_eq!(titles(&bar), vec!["/A", "/C"]);
}

#[test]
fn navigated_twice_is_navigated_once() {
    let mut bar = new_bar();
    bar.add_tab(place("/A"), 0).unwrap();
    bar.navigated(place("/B")).unwrap();
    bar.navigated(place("/B")).unwrap();
    assert_eq!(backward(&bar, 0), vec![bytes("/A")]);
    assert_eq!(current(&bar, 0), bytes("/B"));
}

#[test]
fn navigated_without_selection_is_not_found() {
    let mut bar = new_bar();
    assert!(matches!(bar.navigated(place("/A")), Err(TabError::NotFound)));
    assert!(matches!(bar.navigate_back(), Err(TabError::NotFound)));
    assert!(matches!(bar.navigate_forward(), Err(TabError::NotFound)));
    assert!(matches!(bar.switch_to_current_tab(), Err(TabError::NotFound)));
}

#[test]
fn navigate_without_history_is_no_history() {
    let mut bar = new_bar();
    bar.add_tab(place("/A"), 0).unwrap();
    assert!(matches!(bar.navigate_back(), Err(TabError::NoHistory)));
    assert!(matches!(bar.navigate_forward(), Err(TabError::NoHistory)));
    assert_eq!(current(&bar, 0), bytes("/A"));
}

#[test]
fn navigate_forward_to_nowhere_is_not_found_after_the_step() {
    let mut bar = new_bar();
    bar.add_tab(place("/A"), 0).unwrap();
    bar.navigated(None).unwrap();
    bar.navigate_back().unwrap();
    assert!(matches!(bar.navigate_forward(), Err(TabError::NotFound)));
    assert_eq!(current(&bar, 0), None);
    assert_eq!(backward(&bar, 0), vec![bytes("/A")]);
}

#[test]
fn back_then_new_place_has_no_forward() {
    let mut bar = new_bar();
    bar.add_tab(place("/A"), 0).unwrap();
    bar.navigated(place("/B")).unwrap();
    bar.navigate_back().unwrap();
    bar.navigated(place("/C")).unwrap();
    assert_eq!(forward(&bar, 0), Vec::<Option<Vec<u8>>>::new());
    assert_eq!(backward(&bar, 0), vec![bytes("/A")]);
}

#[test]
fn request_flags() {
    assert_eq!(SBSP_SAMEBROWSER, 0x0001);
    assert_eq!(SBSP_WRITENOHISTORY, 0x0800_0000);
    assert_eq!(BROWSE_TO_TAB, 0x0001);
    assert_eq!(BROWSE_AFTER_STEP, 0x0800_0001);
}

#[test]
fn only_steps_ask_the_host_to_write_no_history() {
    let mut bar = new_bar();
    bar.add_tab(place("/A"), 0).unwrap();
    bar.add_tab(place("/B"), 1).unwrap();
    bar.navigated(place("/C")).unwrap();
    assert_eq!(stepped(&bar.navigate_back().unwrap()), b"/A".to_vec());
    assert_eq!(stepped(&bar.navigate_forward().unwrap()), b"/C".to_vec());
    assert_eq!(browsed(&bar.switch_tab(1).unwrap()), b"/B".to_vec());
    assert_eq!(browsed(&bar.switch_to_current_tab().unwrap()), b"/B".to_vec());
    match bar.remove_tab(1) {
        Ok(Removal::Switched(command)) => assert_eq!(browsed(&command), b"/C".to_vec()),
        other => panic!("unexpected: {:?}", other),
    }
    let commands = bar.new_window(place("/N")).unwrap();
    assert_eq!(browsed(&commands[0]), b"/N".to_vec());
}

#[test]
fn switch_tab_selects_and_browses() {
    let mut bar = new_bar();
    bar.add_tab(place("/A"), 0).unwrap();
    bar.add_tab(place("/B"), 1).unwrap();
    let command = bar.switch_tab(1).unwrap();
    assert_eq!(browsed(&command), b"/B".to_vec());
    assert_eq!(bar.tab_control().get_selected_tab_index(), Some(1));
    let command = bar.switch_to_current_tab().unwrap();
    assert_eq!(browsed(&command), b"/B".to_vec());
}

#[test]
fn switch_tab_to_missing_index_is_operation_failed() {
    let mut bar = new_bar();
    bar.add_tab(place("/A"), 0).unwrap();
    assert!(matches!(bar.switch_tab(1), Err(TabError::OperationFailed)));
    assert_eq!(bar.tab_control().get_selected_tab_index(), Some(0));
}

#[test]
fn switch_tab_to_tab_nowhere_selects_and_is_not_found() {
    let mut bar = new_bar();
    bar.add_tab(place("/A"), 0).unwrap();
    bar.add_tab(None, 1).unwrap();
    assert!(matches!(bar.switch_tab(1), Err(TabError::NotFound)));
    assert_eq!(bar.tab_control().get_selected_tab_index(), Some(1));
    assert_eq!(titles(&bar), vec!["/A", "???"]);
}

#[test]
fn new_window_adds_at_end_and_switches() {
    let mut bar = new_bar();
    bar.add_tab(place("/A"), 0).unwrap();
    let commands = bar.new_window(place("/N")).unwrap();
    assert_eq!(commands.len(), 2);
    assert_eq!(browsed(&commands[0]), b"/N".to_vec());
    assert!(matches!(commands[1], HostCommand::SetForeground { handle: EXPLORER }));
    assert_eq!(bar.tab_control().get_tab_count(), 2);
    assert_eq!(bar.tab_control().get_selected_tab_index(), Some(1));
    assert_eq!(current(&bar, 1), bytes("/N"));
    assert_eq!(titles(&bar), vec!["/A", "/N"]);
}

#[test]
fn new_window_nowhere_opens_tab_and_is_not_found() {
    let mut bar = new_bar();
    bar.add_tab(place("/A"), 0).unwrap();
    assert!(matches!(bar.new_window(None), Err(TabError::NotFound)));
    assert_eq!(bar.tab_control().get_tab_count(), 2);
    assert_eq!(bar.tab_control().get_selected_tab_index(), Some(1));
}

#[test]
fn toggle_dark_mode_flips() {
    let mut bar = new_bar();
    bar.toggle_dark_mode();
    assert!(!bar.tab_control().dark_mode());
    bar.toggle_dark_mode();
    assert!(bar.tab_control().dark_mode());
}
