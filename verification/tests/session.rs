use nmaint::frame::Row;
use nmaint::input::Command;
use nmaint::input::Key;
use nmaint::menu_item::MenuItem;
use nmaint::menu_item::MenuItemKind;
use nmaint::menu_item::MenuItemMeaning;
use nmaint::ui::Action;
use nmaint::ui::Fault;
use nmaint::ui::NmaintUi;
use nmaint::ui::Reply;
use nmaint::ui::Stage;

fn action(meaning: MenuItemMeaning) -> MenuItem<'static> {
    MenuItem { kind: MenuItemKind::Basic(&[]), meaning }
}

fn checkbox(on: bool, meaning: MenuItemMeaning) -> MenuItem<'static> {
    MenuItem { kind: MenuItemKind::Checkbox(on), meaning }
}

fn startup_menu() -> Vec<MenuItem<'static>> {
    vec![
        action(MenuItemMeaning::Update),
        action(MenuItemMeaning::Upgrade),
        action(MenuItemMeaning::Use),
        checkbox(false, MenuItemMeaning::Update),
    ]
}

fn row(label: &str, highlighted: bool) -> Row {
    Row { label: String::from(label), highlighted }
}

fn startup_rows(focus: usize, checked: bool) -> Vec<Row> {
    vec![
        row("update pkg db", focus == 0),
        row("upgrade system", focus == 1),
        row("config use flags", focus == 2),
        row(if checked { "[*] update pkg db" } else { "[ ] update pkg db" }, focus == 3),
    ]
}

/// A session that has acquired the terminal, presented once, and waits for
/// input.
fn reading() -> NmaintUi<'static> {
    let mut ui = NmaintUi::new();
    assert_eq!(ui.step(Reply::Done), Action::Present(startup_rows(0, false)));
    assert_eq!(ui.step(Reply::Done), Action::Read);
    ui
}

/// What a terminal answers to each effect, and what was asked of it.
struct Script {
    acquire: Reply,
    present_fails_at: Option<usize>,
    keys: Vec<Result<Key, ()>>,
    release: Reply,
    acquires: usize,
    presents: Vec<Vec<Row>>,
    reads: usize,
    releases: usize,
}

fn script(keys: Vec<Result<Key, ()>>) -> Script {
    Script {
        acquire: Reply::Done,
        present_fails_at: None,
        keys,
        release: Reply::Done,
        acquires: 0,
        presents: Vec::new(),
        reads: 0,
        releases: 0,
    }
}

fn chars(text: &str) -> Vec<Result<Key, ()>> {
    text.chars().map(|c| Ok(Key::Char(c))).collect()
}

/// Runs a session against a script until it asks to exit.
fn drive(ui: &mut NmaintUi<'_>, script: &mut Script) -> Result<(), Fault> {
    let mut action = ui.pending();
    for _ in 0..10_000 {
        let reply = match action {
            Action::Acquire => {
                script.acquires += 1;
                script.acquire
            }
            Action::Present(frame) => {
                script.presents.push(frame);
                if script.present_fails_at == Some(script.presents.len()) {
                    Reply::Failed
                } else {
                    Reply::Done
                }
            }
            Action::Read => {
                script.reads += 1;
                if script.keys.is_empty() {
                    Reply::Failed
                } else {
                    match script.keys.remove(0) {
                        Ok(key) => Reply::Input(key),
                        Err(()) => Reply::Failed,
                    }
                }
            }
            Action::Release => {
                script.releases += 1;
                script.release
            }
            Action::Exit(outcome) => return outcome,
        };
        action = ui.step(reply);
    }
    panic!("the session did not end");
}

#[test]
fn new_session_is_idle_on_the_first_entry() {
    let ui = NmaintUi::new();
    assert_eq!(ui.stage(), Stage::Idle);
    assert_eq!(ui.focus(), 0);
    assert!(!ui.is_running());
    assert_eq!(ui.pending(), Action::Acquire);
}

#[test]
fn new_session_has_the_default_menu() {
    let ui = NmaintUi::new();
    assert_eq!(ui.menu(), &startup_menu()[..]);
    for item in ui.menu().iter().take(3) {
        match item.kind {
            MenuItemKind::Basic(children) => assert!(children.is_empty()),
            MenuItemKind::Checkbox(_) => panic!("the first three entries are actions"),
        }
    }
}

#[test]
fn with_menu_refuses_an_empty_menu() {
    assert!(NmaintUi::with_menu(Vec::new()).is_none());
}

#[test]
fn with_menu_takes_a_single_entry() {
    let ui = NmaintUi::with_menu(vec![checkbox(true, MenuItemMeaning::Use)]).unwrap();
    assert_eq!(ui.stage(), Stage::Idle);
    assert_eq!(ui.focus(), 0);
    assert_eq!(ui.menu(), &[checkbox(true, MenuItemMeaning::Use)][..]);
    assert_eq!(ui.render(), vec![row("[*] config use flags", true)]);
}

#[test]
fn startup() {
    let ui = NmaintUi::new();
    let frame = ui.render();
    assert_eq!(frame.len(), 4);
    assert!(frame[0].highlighted);
    assert!(!frame[1].highlighted && !frame[2].highlighted && !frame[3].highlighted);
    assert_eq!(frame[3].label, "[ ] update pkg db");
    assert_eq!(frame, startup_rows(0, false));
}

#[test]
fn navigate_and_toggle() {
    let mut ui = NmaintUi::new();
    ui.apply(Some(Command::FocusDown));
    assert_eq!(ui.focus(), 1);
    ui.apply(Some(Command::FocusDown));
    assert_eq!(ui.focus(), 2);
    ui.apply(Some(Command::FocusDown));
    assert_eq!(ui.focus(), 3);
    ui.apply(Some(Command::Toggle));
    let frame = ui.render();
    assert_eq!(frame[3].label, "[*] update pkg db");
    assert!(frame[3].highlighted);
    assert_eq!(frame, startup_rows(3, true));
}

#[test]
fn navigate_and_toggle_by_keys() {
    let mut ui = reading();
    for focus in 1..=3 {
        assert_eq!(ui.step(Reply::Input(Key::Char('j'))), Action::Present(startup_rows(focus, false)));
        assert_eq!(ui.step(Reply::Done), Action::Read);
    }
    assert_eq!(ui.step(Reply::Input(Key::Char(' '))), Action::Present(startup_rows(3, true)));
    assert_eq!(ui.step(Reply::Done), Action::Read);
    assert_eq!(ui.step(Reply::Input(Key::Enter)), Action::Present(startup_rows(3, false)));
}

#[test]
fn focus_up_stops_at_the_first_entry() {
    let mut ui = NmaintUi::new();
    for _ in 0..10 {
        ui.apply(Some(Command::FocusUp));
        assert_eq!(ui.focus(), 0);
    }
    assert_eq!(ui.menu(), &startup_menu()[..]);
    assert_eq!(ui.stage(), Stage::Idle);
}

#[test]
fn focus_down_stops_at_the_last_entry() {
    let mut ui = NmaintUi::new();
    for _ in 0..3 {
        ui.apply(Some(Command::FocusDown));
    }
    for _ in 0..10 {
        ui.apply(Some(Command::FocusDown));
        assert_eq!(ui.focus(), 3);
    }
    assert_eq!(ui.menu(), &startup_menu()[..]);
}

#[test]
fn focus_stays_put_on_a_single_entry() {
    let mut ui = NmaintUi::with_menu(vec![action(MenuItemMeaning::Use)]).unwrap();
    ui.apply(Some(Command::FocusDown));
    assert_eq!(ui.focus(), 0);
    ui.apply(Some(Command::FocusUp));
    assert_eq!(ui.focus(), 0);
}

#[test]
fn focus_moves_by_one() {
    let mut ui = NmaintUi::new();
    ui.apply(Some(Command::FocusDown));
    ui.apply(Some(Command::FocusDown));
    assert_eq!(ui.focus(), 2);
    ui.apply(Some(Command::FocusUp));
    assert_eq!(ui.focus(), 1);
}

#[test]
fn toggle_twice_restores_the_session() {
    let mut ui = NmaintUi::new();
    for _ in 0..3 {
        ui.apply(Some(Command::FocusDown));
    }
    ui.apply(Some(Command::Toggle));
    assert_eq!(ui.menu()[3], checkbox(true, MenuItemMeaning::Update));
    ui.apply(Some(Command::Toggle));
    assert_eq!(ui.menu(), &startup_menu()[..]);
    assert_eq!(ui.focus(), 3);
}

#[test]
fn toggle_on_an_action_changes_nothing() {
    let mut ui = NmaintUi::new();
    for focus in 0..3 {
        assert_eq!(ui.focus(), focus);
        ui.apply(Some(Command::Toggle));
        assert_eq!(ui.menu(), &startup_menu()[..]);
        assert_eq!(ui.focus(), focus);
        assert_eq!(ui.stage(), Stage::Idle);
        ui.apply(Some(Command::FocusDown));
    }
}

#[test]
fn select_toggles_the_focused_entry_only() {
    let menu = vec![
        checkbox(false, MenuItemMeaning::Update),
        checkbox(false, MenuItemMeaning::Upgrade),
        checkbox(true, MenuItemMeaning::Use),
    ];
    let mut ui = NmaintUi::with_menu(menu).unwrap();
    ui.apply(Some(Command::FocusDown));
    ui.select();
    assert_eq!(
        ui.menu(),
        &[
            checkbox(false, MenuItemMeaning::Update),
            checkbox(true, MenuItemMeaning::Upgrade),
            checkbox(true, MenuItemMeaning::Use),
        ][..]
    );
    assert_eq!(ui.focus(), 1);
}

#[test]
fn no_command_changes_nothing() {
    let mut ui = reading();
    ui.apply(None);
    assert_eq!(ui.stage(), Stage::Reading);
    assert_eq!(ui.focus(), 0);
    assert_eq!(ui.menu(), &startup_menu()[..]);
}

#[test]
fn quit_outside_the_loop_changes_nothing() {
    let mut ui = NmaintUi::new();
    ui.apply(Some(Command::Quit));
    assert_eq!(ui.stage(), Stage::Idle);
    assert_eq!(ui.pending(), Action::Acquire);
}

#[test]
fn quit_in_the_loop_ends_it() {
    let mut ui = reading();
    assert!(ui.is_running());
    ui.apply(Some(Command::Quit));
    assert!(!ui.is_running());
    assert_eq!(ui.stage(), Stage::Releasing(Ok(())));
    assert_eq!(ui.pending(), Action::Release);
}

#[test]
fn activation_names_the_focused_action() {
    let mut ui = NmaintUi::new();
    assert_eq!(ui.activation(Some(Command::Toggle)), Some(MenuItemMeaning::Update));
    ui.apply(Some(Command::FocusDown));
    assert_eq!(ui.activation(Some(Command::Toggle)), Some(MenuItemMeaning::Upgrade));
    ui.apply(Some(Command::FocusDown));
    assert_eq!(ui.activation(Some(Command::Toggle)), Some(MenuItemMeaning::Use));
}

#[test]
fn activation_is_for_toggles_on_actions_only() {
    let mut ui = NmaintUi::new();
    assert_eq!(ui.activation(None), None);
    assert_eq!(ui.activation(Some(Command::FocusDown)), None);
    assert_eq!(ui.activation(Some(Command::FocusUp)), None);
    assert_eq!(ui.activation(Some(Command::Quit)), None);
    for _ in 0..3 {
        ui.apply(Some(Command::FocusDown));
    }
    assert_eq!(ui.activation(Some(Command::Toggle)), None);
}

#[test]
fn acquire_starts_the_loop_on_the_first_entry() {
    let mut ui = NmaintUi::new();
    ui.apply(Some(Command::FocusDown));
    ui.apply(Some(Command::FocusDown));
    assert_eq!(ui.focus(), 2);
    assert_eq!(ui.step(Reply::Done), Action::Present(startup_rows(0, false)));
    assert_eq!(ui.focus(), 0);
    assert_eq!(ui.stage(), Stage::Presenting);
    assert!(ui.is_running());
}

#[test]
fn quit() {
    let mut ui = reading();
    assert_eq!(ui.step(Reply::Input(Key::Char('q'))), Action::Release);
    assert!(!ui.is_running());
    assert_eq!(ui.step(Reply::Done), Action::Exit(Ok(())));
    assert_eq!(ui.stage(), Stage::Stopped(Ok(())));

    let mut ui = NmaintUi::new();
    let mut terminal = script(chars("q"));
    assert_eq!(drive(&mut ui, &mut terminal), Ok(()));
    assert_eq!(terminal.acquires, 1);
    assert_eq!(terminal.releases, 1);
    assert_eq!(terminal.presents, vec![startup_rows(0, false)]);
    assert_eq!(terminal.reads, 1);
    assert_eq!(ui.stage(), Stage::Stopped(Ok(())));
}

#[test]
fn init_failure() {
    let mut ui = NmaintUi::new();
    assert_eq!(ui.step(Reply::Failed), Action::Exit(Err(Fault::TerminalInit)));
    assert_eq!(ui.stage(), Stage::Stopped(Err(Fault::TerminalInit)));
    assert!(!ui.is_running());

    let mut ui = NmaintUi::new();
    let mut terminal = script(chars("jq"));
    terminal.acquire = Reply::Failed;
    assert_eq!(drive(&mut ui, &mut terminal), Err(Fault::TerminalInit));
    assert_eq!(terminal.acquires, 1);
    assert!(terminal.presents.is_empty());
    assert_eq!(terminal.reads, 0);
    assert_eq!(terminal.releases, 0);
}

#[test]
fn present_failure_releases_and_reports_render_fault() {
    let mut ui = NmaintUi::new();
    let mut terminal = script(chars("jjq"));
    terminal.present_fails_at = Some(2);
    assert_eq!(drive(&mut ui, &mut terminal), Err(Fault::RenderFault));
    assert_eq!(terminal.presents.len(), 2);
    assert_eq!(terminal.reads, 1);
    assert_eq!(terminal.releases, 1);
    assert_eq!(ui.focus(), 1);
}

#[test]
fn first_present_failure_releases_and_reports_render_fault() {
    let mut ui = NmaintUi::new();
    assert_eq!(ui.step(Reply::Done), Action::Present(startup_rows(0, false)));
    assert_eq!(ui.step(Reply::Failed), Action::Release);
    assert_eq!(ui.stage(), Stage::Releasing(Err(Fault::RenderFault)));
    assert_eq!(ui.step(Reply::Done), Action::Exit(Err(Fault::RenderFault)));
}

#[test]
fn read_failure_releases_and_reports_input_fault() {
    let mut ui = NmaintUi::new();
    let mut terminal = script(vec![Ok(Key::Char('j')), Err(()), Ok(Key::Char('j'))]);
    assert_eq!(drive(&mut ui, &mut terminal), Err(Fault::InputFault));
    assert_eq!(terminal.presents, vec![startup_rows(0, false), startup_rows(1, false)]);
    assert_eq!(terminal.reads, 2);
    assert_eq!(terminal.releases, 1);
    assert_eq!(ui.stage(), Stage::Stopped(Err(Fault::InputFault)));
}

#[test]
fn failed_release_does_not_hide_the_fault() {
    let mut ui = reading();
    assert_eq!(ui.step(Reply::Failed), Action::Release);
    assert_eq!(ui.step(Reply::Failed), Action::Exit(Err(Fault::InputFault)));

    let mut ui = NmaintUi::new();
    let mut terminal = script(Vec::new());
    terminal.present_fails_at = Some(1);
    terminal.release = Reply::Failed;
    assert_eq!(drive(&mut ui, &mut terminal), Err(Fault::RenderFault));
    assert_eq!(terminal.releases, 1);
}

#[test]
fn failed_release_after_quit_still_exits_with_success() {
    let mut ui = NmaintUi::new();
    let mut terminal = script(chars("q"));
    terminal.release = Reply::Failed;
    assert_eq!(drive(&mut ui, &mut terminal), Ok(()));
    assert_eq!(terminal.releases, 1);
}

#[test]
fn unbound_input_is_ignored() {
    let mut ui = reading();
    for key in [Key::Other, Key::Char('x'), Key::Char('J'), Key::Char('\n')] {
        assert_eq!(ui.step(Reply::Input(key)), Action::Present(startup_rows(0, false)));
        assert_eq!(ui.focus(), 0);
        assert_eq!(ui.menu(), &startup_menu()[..]);
        assert_eq!(ui.step(Reply::Done), Action::Read);
    }
}

#[test]
fn each_turn_presents_then_reads() {
    let mut ui = NmaintUi::new();
    let mut terminal = script(chars("jxk q"));
    assert_eq!(drive(&mut ui, &mut terminal), Ok(()));
    assert_eq!(
        terminal.presents,
        vec![
            startup_rows(0, false),
            startup_rows(1, false),
            startup_rows(1, false),
            startup_rows(0, false),
            startup_rows(0, false),
        ]
    );
    assert_eq!(terminal.reads, 5);
    assert_eq!(terminal.acquires, 1);
    assert_eq!(terminal.releases, 1);
}

#[test]
fn long_session_keeps_the_focus_on_the_menu() {
    let mut ui = NmaintUi::new();
    let mut terminal = script(chars("kkjjjjjjjj kkkkkkkk jjjq"));
    assert_eq!(drive(&mut ui, &mut terminal), Ok(()));
    for frame in &terminal.presents {
        assert_eq!(frame.len(), 4);
        assert_eq!(frame.iter().filter(|row| row.highlighted).count(), 1);
    }
    assert_eq!(ui.focus(), 3);
    assert_eq!(ui.menu()[3], checkbox(true, MenuItemMeaning::Update));
    assert_eq!(terminal.releases, 1);
}

#[test]
fn reply_that_does_not_answer_is_ignored() {
    let mut ui = NmaintUi::new();
    assert_eq!(ui.step(Reply::Input(Key::Char('q'))), Action::Acquire);
    assert_eq!(ui.stage(), Stage::Idle);
    assert_eq!(ui.step(Reply::Done), Action::Present(startup_rows(0, false)));
    assert_eq!(ui.step(Reply::Input(Key::Char('j'))), Action::Present(startup_rows(0, false)));
    assert_eq!(ui.stage(), Stage::Presenting);
    assert_eq!(ui.step(Reply::Done), Action::Read);
    assert_eq!(ui.step(Reply::Done), Action::Read);
    assert_eq!(ui.stage(), Stage::Reading);
    assert_eq!(ui.step(Reply::Input(Key::Char('q'))), Action::Release);
    assert_eq!(ui.step(Reply::Input(Key::Char('q'))), Action::Release);
    assert_eq!(ui.stage(), Stage::Releasing(Ok(())));
}

#[test]
fn stopped_session_stays_stopped() {
    let mut ui = reading();
    ui.step(Reply::Failed);
    ui.step(Reply::Done);
    assert_eq!(ui.stage(), Stage::Stopped(Err(Fault::InputFault)));
    for reply in [Reply::Done, Reply::Failed, Reply::Input(Key::Char(' ')), Reply::Input(Key::Other)] {
        assert_eq!(ui.step(reply), Action::Exit(Err(Fault::InputFault)));
        assert_eq!(ui.stage(), Stage::Stopped(Err(Fault::InputFault)));
        assert_eq!(ui.menu(), &startup_menu()[..]);
    }
}

#[test]
fn pending_repeats_the_due_effect() {
    let mut ui = NmaintUi::new();
    assert_eq!(ui.pending(), ui.pending());
    let asked = ui.step(Reply::Done);
    assert_eq!(ui.pending(), asked);
    let asked = ui.step(Reply::Done);
    assert_eq!(ui.pending(), asked);
}

#[test]
fn render_shows_the_session_it_is_called_on() {
    let mut ui = reading();
    assert_eq!(ui.render(), ui.render());
    ui.step(Reply::Input(Key::Char('j')));
    assert_eq!(ui.render(), startup_rows(1, false));
    assert_eq!(ui.pending(), Action::Present(ui.render()));
}
