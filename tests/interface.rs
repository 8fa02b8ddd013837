use synth::combinators::{MixRange, TwoChannelConfig};
use synth::config::{ComposeConfig, ValidatedConfig};
use synth::controllers::{KBCConfig, KBConfigAction, KeyboardReducer};
use synth::ui::{
    parse_key_code, parse_keyboard_action, ChainComponent, Direction, InputEvent, Key,
    KeyboardInputComponent, Mode, NavigationContainer, TwoChannelComponent, UIComponent,
    UILocation, UIModel,
};

fn two_channel_component() -> (TwoChannelComponent, ValidatedConfig<TwoChannelConfig, MixRange>) {
    let mut holder = ValidatedConfig::new_validated(
        TwoChannelConfig { a_mix: 32768, b_mix: 32768 },
        MixRange,
    );
    let client = holder.get_client().unwrap();
    (TwoChannelComponent { client, selected_channel: 0 }, holder)
}

#[test]
fn keys_map_to_events() {
    assert_eq!(parse_key_code(Key::Char('h')), InputEvent::Left);
    assert_eq!(parse_key_code(Key::Char('l')), InputEvent::Right);
    assert_eq!(parse_key_code(Key::Char('j')), InputEvent::Down);
    assert_eq!(parse_key_code(Key::Char('k')), InputEvent::Up);
    assert_eq!(parse_key_code(Key::Enter), InputEvent::Enter);
    assert_eq!(parse_key_code(Key::Char('r')), InputEvent::Replace);
    assert_eq!(parse_key_code(Key::Char('b')), InputEvent::Back);
    assert_eq!(parse_key_code(Key::Tab), InputEvent::SwitchMode);
    assert_eq!(parse_key_code(Key::Char('a')), InputEvent::Unmapped(Key::Char('a')));
    assert_eq!(parse_key_code(Key::Other), InputEvent::Unmapped(Key::Other));
}

#[test]
fn note_keys_map_to_notes() {
    let note = |c| parse_keyboard_action(InputEvent::Unmapped(Key::Char(c)));
    assert_eq!(note('a'), Some(KBConfigAction::Play(300 * 65536)));
    assert_eq!(note('g'), Some(KBConfigAction::Play(380 * 65536)));
    assert_eq!(note('e'), Some(KBConfigAction::Play(440 * 65536)));
    assert_eq!(note('t'), Some(KBConfigAction::Play(480 * 65536)));
    assert_eq!(note('z'), None);
    assert_eq!(parse_keyboard_action(InputEvent::Left), None);
}

#[test]
fn keyboard_component_plays_on_every_controller() {
    let mut first = ComposeConfig::new(KBCConfig::default(), KeyboardReducer);
    let mut second = ComposeConfig::new(KBCConfig::default(), KeyboardReducer);
    let mut keyboard = KeyboardInputComponent {
        controller_clients: vec![first.get_client().unwrap(), second.get_client().unwrap()],
    };
    keyboard.dispatch(InputEvent::Unmapped(Key::Char('e')));
    keyboard.dispatch(InputEvent::Up);
    for client in &keyboard.controller_clients {
        assert_eq!(client.get().playing_note, Some(440 * 65536));
    }
    assert_eq!(first.try_update(), 1);
    assert_eq!(second.try_update(), 1);
}

#[test]
fn two_channel_component_moves_selected_ratio() {
    let (mut component, mut holder) = two_channel_component();
    component.dispatch(InputEvent::Up);
    assert_eq!(component.client.get(), TwoChannelConfig { a_mix: 32768 + 6554, b_mix: 32768 });
    component.dispatch(InputEvent::Right);
    assert_eq!(component.selected_channel, 1);
    component.dispatch(InputEvent::Down);
    assert_eq!(
        component.client.get(),
        TwoChannelConfig { a_mix: 32768 + 6554, b_mix: 32768 - 6554 }
    );
    component.dispatch(InputEvent::Left);
    assert_eq!(component.selected_channel, 0);
    assert_eq!(holder.try_update(), 2);
}

#[test]
fn two_channel_component_stops_at_full_volume() {
    let (mut component, _holder) = two_channel_component();
    for _ in 0..10 {
        component.dispatch(InputEvent::Up);
    }
    let a = component.client.get().a_mix;
    assert!(a <= 65536);
    assert!(a > 65536 - 6554);
}

#[test]
fn navigation_moves_within_bounds_then_focuses() {
    let components = vec![two_channel_component().0, two_channel_component().0];
    let mut nav = NavigationContainer::new(components, Direction::Horizontal);
    nav.dispatch(InputEvent::Left);
    assert_eq!(nav.selected, 0);
    nav.dispatch(InputEvent::Down);
    assert_eq!(nav.selected, 0);
    nav.dispatch(InputEvent::Right);
    assert_eq!(nav.selected, 1);
    nav.dispatch(InputEvent::Right);
    assert_eq!(nav.selected, 1);
    nav.dispatch(InputEvent::Enter);
    assert_eq!(nav.focused, Some(1));
    nav.dispatch(InputEvent::Up);
    assert_eq!(nav.components[1].client.get().a_mix, 32768 + 6554);
    assert_eq!(nav.components[0].client.get().a_mix, 32768);
}

#[test]
fn vertical_navigation_uses_up_and_down() {
    let components = vec![two_channel_component().0, two_channel_component().0];
    let mut nav = NavigationContainer::new(components, Direction::Vertical);
    nav.dispatch(InputEvent::Right);
    assert_eq!(nav.selected, 0);
    nav.dispatch(InputEvent::Down);
    assert_eq!(nav.selected, 1);
    nav.dispatch(InputEvent::Up);
    assert_eq!(nav.selected, 0);
}

#[test]
fn empty_navigation_ignores_events() {
    let mut nav: NavigationContainer<TwoChannelComponent> =
        NavigationContainer::new(Vec::new(), Direction::Horizontal);
    nav.dispatch(InputEvent::Right);
    assert_eq!(nav.selected, 0);
    nav.dispatch(InputEvent::Enter);
    nav.dispatch(InputEvent::Up);
    assert_eq!(nav.focused, Some(0));
}

#[test]
fn chain_component_forwards_to_all() {
    let mut chain = ChainComponent { components: vec![two_channel_component().0, two_channel_component().0] };
    chain.dispatch(InputEvent::Right);
    assert!(chain.components.iter().all(|c| c.selected_channel == 1));
}

#[test]
fn model_switches_between_keyboard_and_panels() {
    let mut controller = ComposeConfig::new(KBCConfig::default(), KeyboardReducer);
    let keyboard = KeyboardInputComponent { controller_clients: vec![controller.get_client().unwrap()] };
    let mut model = UIModel::new(keyboard, two_channel_component().0);
    assert_eq!(model.mode, Mode::Keyboard);
    assert_eq!(model.mode.label(), "K");
    model.dispatch(InputEvent::Unmapped(Key::Char('a')));
    assert_eq!(model.keyboard_input.controller_clients[0].get().playing_note, Some(300 * 65536));
    model.dispatch(InputEvent::Right);
    assert_eq!(model.component.selected_channel, 0);
    model.dispatch(InputEvent::SwitchMode);
    assert_eq!(model.mode, Mode::Config);
    assert_eq!(model.mode.label(), "C");
    model.dispatch(InputEvent::Right);
    assert_eq!(model.component.selected_channel, 1);
    model.dispatch(InputEvent::SwitchMode);
    assert_eq!(model.mode, Mode::Keyboard);
}

#[test]
fn location_tracks_selection_and_focus() {
    let mut location = UILocation::default();
    assert!(location.at_root());
    location.right();
    location.right();
    location.left();
    assert_eq!(location.selected, 1);
    location.enter();
    assert_eq!(location.focused, Some(1));
    assert!(!location.at_root());
    location.up();
    assert!(location.at_root());
}
