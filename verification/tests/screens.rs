use tui_core::{
    Area, Command, CommandBus, DrawCall, Error, Event, Eventful, Key, KeyKind, Main, RawInput,
    Renderable, Screen, ScreenManager, Tab, TabOne, TabTwo,
};

fn area() -> Area {
    Area { x: 0, y: 0, width: 80, height: 24 }
}

#[test]
fn default_tab_is_one() {
    assert_eq!(Tab::default(), Tab::One);
    assert_eq!(ScreenManager::new().current(), Screen::Tab(Tab::One));
    assert_eq!(ScreenManager::with_main().current(), Screen::Main);
}

#[test]
fn toggled_tab_is_the_other() {
    assert_eq!(Tab::One.toggled(), Tab::Two);
    assert_eq!(Tab::Two.toggled(), Tab::One);
}

#[test]
fn main_screen_answers() {
    let mut main = Main::new();
    assert_eq!(main.handle_key(&Key::Char('q')), Command::Quit);
    assert_eq!(main.handle_key(&Key::Tab), Command::Nothing);
    assert_eq!(main.handle_key(&Key::Esc), Command::Nothing);
    assert_eq!(main.handle_key(&Key::Char('Q')), Command::Nothing);
}

#[test]
fn tab_one_answers() {
    let mut tab = TabOne {};
    assert_eq!(tab.handle_key(&Key::Char('q')), Command::Quit);
    assert_eq!(tab.handle_key(&Key::Tab), Command::SwitchTab(Tab::Two));
    assert_eq!(tab.handle_key(&Key::Char('1')), Command::Nothing);
    assert_eq!(tab.handle_key(&Key::Enter), Command::Nothing);
}

#[test]
fn tab_two_answers() {
    let mut tab = TabTwo {};
    assert_eq!(tab.handle_key(&Key::Char('q')), Command::Quit);
    assert_eq!(tab.handle_key(&Key::Tab), Command::SwitchTab(Tab::One));
    assert_eq!(tab.handle_key(&Key::Other), Command::Nothing);
}

#[test]
fn leaves_draw_themselves() {
    assert_eq!(Main::new().draw(area()), DrawCall { screen: Screen::Main, area: area() });
    assert_eq!((TabOne {}).draw(area()), DrawCall { screen: Screen::Tab(Tab::One), area: area() });
    assert_eq!((TabTwo {}).draw(area()), DrawCall { screen: Screen::Tab(Tab::Two), area: area() });
}

#[test]
fn tab_key_switches_there_and_back() {
    let mut bus = CommandBus::new();
    let mut screens = ScreenManager::new();
    let tab_one_before = TabOne {};
    assert_eq!(screens.current(), Screen::Tab(Tab::One));
    assert_eq!(screens.handle_key(&Key::Tab, &mut bus), Ok(()));
    assert_eq!(screens.current(), Screen::Tab(Tab::Two));
    assert_eq!(screens.draw(area()).screen, Screen::Tab(Tab::Two));
    assert_eq!(screens.handle_key(&Key::Tab, &mut bus), Ok(()));
    assert_eq!(screens.current(), Screen::Tab(Tab::One));
    assert_eq!(screens.draw(area()), (TabOne {}).draw(area()));
    assert_eq!(tab_one_before, TabOne {});
    assert!(bus.is_empty());
}

#[test]
fn quit_key_on_tab_two_sends_quit() {
    let mut bus = CommandBus::new();
    let mut screens = ScreenManager::new();
    assert_eq!(screens.handle_key(&Key::Tab, &mut bus), Ok(()));
    assert_eq!(screens.handle_key(&Key::Char('q'), &mut bus), Ok(()));
    assert_eq!(screens.current(), Screen::Tab(Tab::Two));
    assert_eq!(bus.len(), 1);
    assert_eq!(bus.try_recv(), Some(Event::Quit));
}

#[test]
fn quit_key_on_main_sends_quit() {
    let mut bus = CommandBus::new();
    let mut screens = ScreenManager::with_main();
    assert_eq!(screens.handle_key(&Key::Tab, &mut bus), Ok(()));
    assert_eq!(screens.current(), Screen::Main);
    assert!(bus.is_empty());
    assert_eq!(screens.handle_key(&Key::Char('q'), &mut bus), Ok(()));
    assert_eq!(bus.try_recv(), Some(Event::Quit));
    assert_eq!(screens.draw(area()), DrawCall { screen: Screen::Main, area: area() });
}

#[test]
fn quit_on_closed_bus_is_a_channel_error() {
    let mut bus = CommandBus::new();
    bus.close();
    let mut screens = ScreenManager::new();
    assert_eq!(screens.handle_key(&Key::Char('q'), &mut bus), Err(Error::Channel));
    assert_eq!(screens.apply(Command::Quit, &mut bus), Err(Error::Channel));
    assert_eq!(screens.handle_key(&Key::Tab, &mut bus), Ok(()));
    assert_eq!(screens.current(), Screen::Tab(Tab::Two));
    assert_eq!(screens.apply(Command::Nothing, &mut bus), Ok(()));
    assert!(bus.is_empty());
}

#[test]
fn switch_to_selected_tab_changes_nothing() {
    let mut bus = CommandBus::new();
    let mut screens = ScreenManager::new();
    assert_eq!(screens.apply(Command::SwitchTab(Tab::One), &mut bus), Ok(()));
    assert_eq!(screens.current(), Screen::Tab(Tab::One));
    assert_eq!(screens.apply(Command::SwitchTab(Tab::Two), &mut bus), Ok(()));
    assert_eq!(screens.apply(Command::SwitchTab(Tab::Two), &mut bus), Ok(()));
    assert_eq!(screens.current(), Screen::Tab(Tab::Two));
    assert!(bus.is_empty());
}

#[test]
fn switch_from_main_selects_the_tab() {
    let mut bus = CommandBus::new();
    let mut screens = ScreenManager::with_main();
    assert_eq!(screens.apply(Command::SwitchTab(Tab::Two), &mut bus), Ok(()));
    assert_eq!(screens.current(), Screen::Tab(Tab::Two));
}

#[test]
fn toggle_tab_selects_the_other_tab() {
    let mut screens = ScreenManager::new();
    screens.toggle_tab();
    assert_eq!(screens.current(), Screen::Tab(Tab::Two));
    screens.toggle_tab();
    assert_eq!(screens.current(), Screen::Tab(Tab::One));
    let mut single = ScreenManager::with_main();
    single.toggle_tab();
    assert_eq!(single.current(), Screen::Main);
}

#[test]
fn unhandled_keys_change_nothing() {
    let mut bus = CommandBus::new();
    let mut screens = ScreenManager::new();
    for key in [Key::Char('3'), Key::Char('x'), Key::Esc, Key::Enter, Key::Other] {
        assert_eq!(screens.handle_key(&key, &mut bus), Ok(()));
        assert_eq!(screens.current(), Screen::Tab(Tab::One));
    }
    assert!(bus.is_empty());
}

#[test]
fn number_keys_select_tabs() {
    let mut bus = CommandBus::new();
    let mut screens = ScreenManager::new();
    assert_eq!(screens.handle_key(&Key::Char('1'), &mut bus), Ok(()));
    assert_eq!(screens.current(), Screen::Tab(Tab::One));
    assert_eq!(screens.handle_key(&Key::Char('2'), &mut bus), Ok(()));
    assert_eq!(screens.current(), Screen::Tab(Tab::Two));
    assert_eq!(screens.handle_key(&Key::Char('2'), &mut bus), Ok(()));
    assert_eq!(screens.current(), Screen::Tab(Tab::Two));
    assert_eq!(screens.handle_key(&Key::Char('1'), &mut bus), Ok(()));
    assert_eq!(screens.current(), Screen::Tab(Tab::One));
    assert!(bus.is_empty());
    let mut single = ScreenManager::with_main();
    assert_eq!(single.handle_key(&Key::Char('2'), &mut bus), Ok(()));
    assert_eq!(single.current(), Screen::Main);
}

#[test]
fn only_key_presses_pass_the_input_boundary() {
    assert_eq!(RawInput::Key(KeyKind::Press, Key::Tab).key_press(), Some(Key::Tab));
    assert_eq!(RawInput::Key(KeyKind::Press, Key::Char('q')).key_press(), Some(Key::Char('q')));
    assert_eq!(RawInput::Key(KeyKind::Release, Key::Tab).key_press(), None);
    assert_eq!(RawInput::Key(KeyKind::Repeat, Key::Char('q')).key_press(), None);
    assert_eq!(RawInput::Other.key_press(), None);
}
