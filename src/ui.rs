//! What the terminal interface decides: which key means what, how focus
//! moves between panels, and which producer handle an event reaches.
//! Drawing is left to the caller.
use crate::combinators::{valid_two_channel, MixerClient, TwoChannelClient, TwoChannelConfig};
use crate::config::UpdateError;
use crate::controllers::{keyboard_next, KBConfigAction, KeyboardControllerClient};
use crate::sample::{magnitude, Sample};
use crate::voices::AdditiveClient;
use vstd::prelude::*;

verus! {

/// A key, as far as the interface tells keys apart.
#[derive(Clone, Copy, Debug, PartialEq, Eq, Structural)]
pub enum Key {
    Char(char),
    Enter,
    Tab,
    Other,
}

/// An input event after key mapping.
#[derive(Clone, Copy, Debug, PartialEq, Eq, Structural)]
pub enum InputEvent {
    Left,
    Right,
    Up,
    Down,
    Back,
    Enter,
    Replace,
    SwitchMode,
    Unmapped(Key),
}

/// The event a key stands for.
pub open spec fn key_event(key: Key) -> InputEvent {
    match key {
        Key::Char('h') => InputEvent::Left,
        Key::Char('l') => InputEvent::Right,
        Key::Char('j') => InputEvent::Down,
        Key::Char('k') => InputEvent::Up,
        Key::Enter => InputEvent::Enter,
        Key::Char('r') => InputEvent::Replace,
        Key::Char('b') => InputEvent::Back,
        Key::Tab => InputEvent::SwitchMode,
        _ => InputEvent::Unmapped(key),
    }
}

/// Maps a key press to its event: `h` `j` `k` `l` move, `r` replaces, `b`
/// goes back, Enter enters, Tab switches mode; any other key is passed on
/// unmapped.
pub fn parse_key_code(key: Key) -> (r: InputEvent)
    ensures
        r == key_event(key),
{
    match key {
        Key::Char('h') => InputEvent::Left,
        Key::Char('l') => InputEvent::Right,
        Key::Char('j') => InputEvent::Down,
        Key::Char('k') => InputEvent::Up,
        Key::Enter => InputEvent::Enter,
        Key::Char('r') => InputEvent::Replace,
        Key::Char('b') => InputEvent::Back,
        Key::Tab => InputEvent::SwitchMode,
        _ => InputEvent::Unmapped(key),
    }
}

/// A panel of the interface that reacts to events.
pub trait UIComponent: Sized {
    /// `next` is a state this panel may be in after handling `event`.
    spec fn dispatched(&self, event: InputEvent, next: Self) -> bool;

    fn dispatch(&mut self, event: InputEvent)
        ensures
            old(self).dispatched(event, *final(self)),
    ;
}

/// One tenth, the step of a mix ratio.
pub const MIX_STEP: Sample = 6554;

/// The channel selected after moving from `selected`: the other of the two.
pub open spec fn other_channel(selected: isize) -> isize {
    (magnitude(selected - 1) % 2) as isize
}

/// The mix proposed by moving channel `ch` of `cf` by `amount`.
pub open spec fn nudged(cf: TwoChannelConfig, ch: isize, amount: int) -> TwoChannelConfig {
    TwoChannelConfig {
        a_mix: if ch == 0 {
            (cf.a_mix + amount) as Sample
        } else {
            cf.a_mix
        },
        b_mix: if ch == 1 {
            (cf.b_mix + amount) as Sample
        } else {
            cf.b_mix
        },
    }
}

/// Whether `nudged` stays within the range of `Sample`.
pub open spec fn nudge_fits(cf: TwoChannelConfig, amount: int) -> bool {
    i32::MIN <= cf.a_mix + amount <= i32::MAX && i32::MIN <= cf.b_mix + amount <= i32::MAX
}

/// Proposes moving channel `ch` of the mixer by `amount`; the channel's
/// predicate decides whether it is sent.
fn increment_channel(mixer: &mut TwoChannelClient, ch: isize, amount: Sample) -> (r: Result<
    (),
    UpdateError,
>)
    requires
        -MIX_STEP <= amount <= MIX_STEP,
    ensures
        final(mixer).validator() == old(mixer).validator(),
        nudge_fits(old(mixer).cached(), amount as int) && valid_two_channel(
            nudged(old(mixer).cached(), ch, amount as int),
        ) ==> final(mixer).cached() == nudged(old(mixer).cached(), ch, amount as int),
        !(nudge_fits(old(mixer).cached(), amount as int) && valid_two_channel(
            nudged(old(mixer).cached(), ch, amount as int),
        )) ==> final(mixer).cached() == old(mixer).cached(),
{
    let cf = mixer.get();
    if cf.a_mix < i32::MIN + MIX_STEP || cf.a_mix > i32::MAX - MIX_STEP || cf.b_mix < i32::MIN
        + MIX_STEP || cf.b_mix > i32::MAX - MIX_STEP {
        return Err(UpdateError::Rejected);
    }
    mixer.update(
        TwoChannelConfig {
            a_mix: if ch == 0 {
                cf.a_mix + amount
            } else {
                cf.a_mix
            },
            b_mix: if ch == 1 {
                cf.b_mix + amount
            } else {
                cf.b_mix
            },
        },
    )
}

/// Edits a two-channel blend: left and right pick the channel, up and down
/// move its ratio by one tenth.
pub struct TwoChannelComponent {
    pub client: TwoChannelClient,
    pub selected_channel: isize,
}

impl UIComponent for TwoChannelComponent {
    open spec fn dispatched(&self, event: InputEvent, next: Self) -> bool {
        let cf = self.client.cached();
        let amount: int = if event == InputEvent::Up {
            MIX_STEP as int
        } else {
            -(MIX_STEP as int)
        };
        match event {
            InputEvent::Left | InputEvent::Right => next == (TwoChannelComponent {
                selected_channel: other_channel(self.selected_channel),
                ..*self
            }),
            InputEvent::Up | InputEvent::Down => {
                &&& next.selected_channel == self.selected_channel
                &&& next.client.validator() == self.client.validator()
                &&& if nudge_fits(cf, amount) && valid_two_channel(
                    nudged(cf, self.selected_channel, amount),
                ) {
                    next.client.cached() == nudged(cf, self.selected_channel, amount)
                } else {
                    next.client.cached() == cf
                }
            },
            _ => next == *self,
        }
    }

    fn dispatch(&mut self, event: InputEvent) {
        match event {
            InputEvent::Left | InputEvent::Right => {
                let sel = self.selected_channel as i128;
                let moved = if event == InputEvent::Left {
                    sel - 1
                } else {
                    sel + 1
                };
                let size = if moved < 0 {
                    -moved
                } else {
                    moved
                };
                self.selected_channel = (size % 2) as isize;
                assert(self.selected_channel == other_channel(old(self).selected_channel)) by {
                    if event == InputEvent::Right {
                        assert(magnitude(sel + 1) % 2 == magnitude(sel - 1) % 2) by {
                            if sel >= 1 {
                                assert(sel + 1 == (sel - 1) + 2);
                            } else if sel <= -1 {
                                assert(-(sel - 1) == -(sel + 1) + 2);
                            }
                        }
                    }
                }
            },
            InputEvent::Down => {
                let _ = increment_channel(&mut self.client, self.selected_channel, -MIX_STEP);
            },
            InputEvent::Up => {
                let _ = increment_channel(&mut self.client, self.selected_channel, MIX_STEP);
            },
            _ => {},
        }
    }
}

/// The note a key plays, if it is one of the note keys.
pub open spec fn key_note(event: InputEvent) -> Option<KBConfigAction> {
    match event {
        InputEvent::Unmapped(Key::Char(c)) => {
            if c == 'a' {
                Some(KBConfigAction::Play(19660800))
            } else if c == 's' {
                Some(KBConfigAction::Play(20971520))
            } else if c == 'd' {
                Some(KBConfigAction::Play(22282240))
            } else if c == 'f' {
                Some(KBConfigAction::Play(23592960))
            } else if c == 'g' {
                Some(KBConfigAction::Play(24903680))
            } else if c == 'q' {
                Some(KBConfigAction::Play(26214400))
            } else if c == 'w' {
                Some(KBConfigAction::Play(27525120))
            } else if c == 'e' {
                Some(KBConfigAction::Play(28835840))
            } else if c == 'r' {
                Some(KBConfigAction::Play(30146560))
            } else if c == 't' {
                Some(KBConfigAction::Play(31457280))
            } else {
                None
            }
        },
        _ => None,
    }
}

/// Maps the note keys `a s d f g q w e r t` to notes from 300 Hz to 480 Hz
/// in steps of 20 Hz.
pub fn parse_keyboard_action(event: InputEvent) -> (r: Option<KBConfigAction>)
    ensures
        r == key_note(event),
{
    match event {
        InputEvent::Unmapped(Key::Char(c)) => {
            if c == 'a' {
                Some(KBConfigAction::Play(19660800))
            } else if c == 's' {
                Some(KBConfigAction::Play(20971520))
            } else if c == 'd' {
                Some(KBConfigAction::Play(22282240))
            } else if c == 'f' {
                Some(KBConfigAction::Play(23592960))
            } else if c == 'g' {
                Some(KBConfigAction::Play(24903680))
            } else if c == 'q' {
                Some(KBConfigAction::Play(26214400))
            } else if c == 'w' {
                Some(KBConfigAction::Play(27525120))
            } else if c == 'e' {
                Some(KBConfigAction::Play(28835840))
            } else if c == 'r' {
                Some(KBConfigAction::Play(30146560))
            } else if c == 't' {
                Some(KBConfigAction::Play(31457280))
            } else {
                None
            }
        },
        _ => None,
    }
}

/// Sends the note of each note key to every keyboard controller.
pub struct KeyboardInputComponent {
    pub controller_clients: Vec<KeyboardControllerClient>,
}

impl UIComponent for KeyboardInputComponent {
    open spec fn dispatched(&self, event: InputEvent, next: Self) -> bool {
        match key_note(event) {
            Some(action) => {
                &&& next.controller_clients@.len() == self.controller_clients@.len()
                &&& forall|i: int|
                    0 <= i < self.controller_clients@.len() ==> (#[trigger] next.controller_clients@[i]).cached()
                        == keyboard_next(self.controller_clients@[i].cached(), action)
                        && next.controller_clients@[i].reducer()
                        == self.controller_clients@[i].reducer()
            },
            None => next == *self,
        }
    }

    fn dispatch(&mut self, event: InputEvent) {
        if let Some(action) = parse_keyboard_action(event) {
            let ghost start = self.controller_clients@;
            let mut i: usize = 0;
            while i < self.controller_clients.len()
                invariant
                    start == old(self).controller_clients@,
                    key_note(event) == Some(action),
                    0 <= i <= start.len(),
                    self.controller_clients@.len() == start.len(),
                    forall|j: int|
                        i <= j < start.len() ==> self.controller_clients@[j] == start[j],
                    forall|j: int|
                        0 <= j < i ==> (#[trigger] self.controller_clients@[j]).cached()
                            == keyboard_next(start[j].cached(), action)
                            && self.controller_clients@[j].reducer() == start[j].reducer(),
                decreases start.len() - i,
            {
                let _ = self.controller_clients[i].update(action);
                i = i + 1;
            }
        }
    }
}

/// Shows a mixer's weights; it takes no input.
pub struct MixerComponent {
    pub client: MixerClient,
}

impl UIComponent for MixerComponent {
    open spec fn dispatched(&self, event: InputEvent, next: Self) -> bool {
        next == *self
    }

    fn dispatch(&mut self, event: InputEvent) {
    }
}

/// Shows an additive voice's overtones; it takes no input.
pub struct AdditiveComponent {
    pub client: AdditiveClient,
}

impl UIComponent for AdditiveComponent {
    open spec fn dispatched(&self, event: InputEvent, next: Self) -> bool {
        next == *self
    }

    fn dispatch(&mut self, event: InputEvent) {
    }
}

/// Panels side by side that all receive every event.
pub struct ChainComponent<C> {
    pub components: Vec<C>,
}

impl<C: UIComponent> UIComponent for ChainComponent<C> {
    open spec fn dispatched(&self, event: InputEvent, next: Self) -> bool {
        &&& next.components@.len() == self.components@.len()
        &&& forall|i: int|
            0 <= i < self.components@.len() ==> #[trigger] self.components@[i].dispatched(
                event,
                next.components@[i],
            )
    }

    fn dispatch(&mut self, event: InputEvent) {
        let ghost start = self.components@;
        let mut i: usize = 0;
        while i < self.components.len()
            invariant
                start == old(self).components@,
                0 <= i <= start.len(),
                self.components@.len() == start.len(),
                forall|j: int| i <= j < start.len() ==> self.components@[j] == start[j],
                forall|j: int|
                    0 <= j < i ==> #[trigger] start[j].dispatched(event, self.components@[j]),
            decreases start.len() - i,
        {
            self.components[i].dispatch(event);
            i = i + 1;
        }
    }
}

/// One of the configuration panels.
pub enum ConfigPanel {
    Mixer(MixerComponent),
    Additive(AdditiveComponent),
    TwoChannel(TwoChannelComponent),
}

impl UIComponent for ConfigPanel {
    open spec fn dispatched(&self, event: InputEvent, next: Self) -> bool {
        match (*self, next) {
            (ConfigPanel::Mixer(a), ConfigPanel::Mixer(b)) => a.dispatched(event, b),
            (ConfigPanel::Additive(a), ConfigPanel::Additive(b)) => a.dispatched(event, b),
            (ConfigPanel::TwoChannel(a), ConfigPanel::TwoChannel(b)) => a.dispatched(event, b),
            _ => false,
        }
    }

    fn dispatch(&mut self, event: InputEvent) {
        match self {
            ConfigPanel::Mixer(c) => c.dispatch(event),
            ConfigPanel::Additive(c) => c.dispatch(event),
            ConfigPanel::TwoChannel(c) => c.dispatch(event),
        }
    }
}

/// The axis along which a container lays out its panels.
#[derive(Clone, Copy, Debug, PartialEq, Eq, Structural)]
pub enum Direction {
    Horizontal,
    Vertical,
}

/// The selection after `event` in a container of `len` panels: the keys
/// along its axis move by one, stopping at either end.
pub open spec fn moved(selected: usize, len: nat, direction: Direction, event: InputEvent) -> usize {
    let back = (direction == Direction::Horizontal && event == InputEvent::Left) || (direction
        == Direction::Vertical && event == InputEvent::Up);
    let forward = (direction == Direction::Horizontal && event == InputEvent::Right) || (direction
        == Direction::Vertical && event == InputEvent::Down);
    if back && selected > 0 {
        (selected - 1) as usize
    } else if forward && selected + 1 < len {
        (selected + 1) as usize
    } else {
        selected
    }
}

/// Panels along one axis: moves a selection among them until Enter
/// focuses the selected one, which then receives every event.
pub struct NavigationContainer<C> {
    pub components: Vec<C>,
    pub direction: Direction,
    pub selected: usize,
    pub focused: Option<usize>,
}

impl<C: UIComponent> NavigationContainer<C> {
    pub fn new(components: Vec<C>, direction: Direction) -> (r: Self)
        ensures
            r.components == components,
            r.direction == direction,
            r.selected == 0,
            r.focused is None,
    {
        Self { components, direction, focused: None, selected: 0 }
    }

    /// Moves the selection, or focuses the selected panel on Enter.
    fn handle_movement(&mut self, event: InputEvent)
        ensures
            event == InputEvent::Enter ==> *final(self) == (NavigationContainer {
                focused: Some(old(self).selected),
                ..*old(self)
            }),
            event != InputEvent::Enter ==> *final(self) == (NavigationContainer {
                selected: moved(
                    old(self).selected,
                    old(self).components@.len(),
                    old(self).direction,
                    event,
                ),
                ..*old(self)
            }),
    {
        if event == InputEvent::Enter {
            self.focused = Some(self.selected);
            return;
        }
        let len = self.components.len();
        match self.direction {
            Direction::Horizontal => match event {
                InputEvent::Left => {
                    if self.selected > 0 {
                        self.selected = self.selected - 1;
                    }
                },
                InputEvent::Right => {
                    if self.selected < len && self.selected + 1 < len {
                        self.selected = self.selected + 1;
                    }
                },
                _ => {},
            },
            Direction::Vertical => match event {
                InputEvent::Up => {
                    if self.selected > 0 {
                        self.selected = self.selected - 1;
                    }
                },
                InputEvent::Down => {
                    if self.selected < len && self.selected + 1 < len {
                        self.selected = self.selected + 1;
                    }
                },
                _ => {},
            },
        }
    }
}

impl<C: UIComponent> UIComponent for NavigationContainer<C> {
    open spec fn dispatched(&self, event: InputEvent, next: Self) -> bool {
        match self.focused {
            Some(i) => if i < self.components@.len() {
                &&& next.direction == self.direction
                &&& next.selected == self.selected
                &&& next.focused == self.focused
                &&& next.components@.len() == self.components@.len()
                &&& forall|j: int|
                    0 <= j < self.components@.len() && j != i ==> next.components@[j]
                        == self.components@[j]
                &&& self.components@[i as int].dispatched(event, next.components@[i as int])
            } else {
                next == *self
            },
            None => if event == InputEvent::Enter {
                next == (NavigationContainer { focused: Some(self.selected), ..*self })
            } else {
                next == (NavigationContainer {
                    selected: moved(self.selected, self.components@.len(), self.direction, event),
                    ..*self
                })
            },
        }
    }

    /// A focused panel receives the event; otherwise it moves the selection.
    fn dispatch(&mut self, event: InputEvent) {
        if let Some(index) = self.focused {
            if index < self.components.len() {
                self.components[index].dispatch(event);
            }
        } else {
            self.handle_movement(event);
        }
    }
}

/// Where key presses go: to the keyboard, or to the panels.
#[derive(Clone, Copy, Debug, PartialEq, Eq, Structural)]
pub enum Mode {
    Keyboard,
    Config,
}

impl Mode {
    /// The one-letter label shown for the mode.
    pub fn label(&self) -> (r: &'static str)
        ensures
            *self == Mode::Keyboard ==> r@ == "K"@,
            *self == Mode::Config ==> r@ == "C"@,
    {
        proof {
            reveal_strlit("K");
            reveal_strlit("C");
        }
        if *self == Mode::Keyboard {
            "K"
        } else {
            "C"
        }
    }
}

/// A place in a tree of panels: the selected child, and the focused one
/// if a child has been entered.
#[derive(Clone, Copy, Debug, PartialEq, Eq, Structural)]
pub struct UILocation {
    pub selected: usize,
    pub focused: Option<usize>,
}

impl Default for UILocation {
    fn default() -> (r: Self)
        ensures
            r == (UILocation { selected: 0, focused: None }),
    {
        Self { selected: 0, focused: None }
    }
}

impl UILocation {
    /// No child has been entered.
    pub fn at_root(&self) -> (r: bool)
        ensures
            r == self.focused is None,
    {
        self.focused.is_none()
    }

    pub fn right(&mut self)
        requires
            old(self).selected < usize::MAX,
        ensures
            *final(self) == (UILocation { selected: (old(self).selected + 1) as usize, ..*old(self) }),
    {
        self.selected = self.selected + 1;
    }

    pub fn left(&mut self)
        requires
            old(self).selected > 0,
        ensures
            *final(self) == (UILocation { selected: (old(self).selected - 1) as usize, ..*old(self) }),
    {
        self.selected = self.selected - 1;
    }

    /// Enters the selected child.
    pub fn enter(&mut self)
        ensures
            *final(self) == (UILocation { focused: Some(old(self).selected), ..*old(self) }),
    {
        self.focused = Some(self.selected);
    }

    /// Leaves the entered child.
    pub fn up(&mut self)
        ensures
            *final(self) == (UILocation { focused: None, ..*old(self) }),
    {
        self.focused = None;
    }
}

/// The interface's root: Tab switches between playing notes on the
/// keyboard and editing the panels.
pub struct UIModel<C> {
    pub keyboard_input: KeyboardInputComponent,
    pub component: C,
    pub mode: Mode,
    pub location: UILocation,
}

impl<C: UIComponent> UIModel<C> {
    /// Starts in keyboard mode.
    pub fn new(keyboard_input: KeyboardInputComponent, component: C) -> (r: Self)
        ensures
            r.keyboard_input == keyboard_input,
            r.component == component,
            r.mode == Mode::Keyboard,
            r.location == (UILocation { selected: 0, focused: None }),
    {
        Self { mode: Mode::Keyboard, keyboard_input, component, location: UILocation::default() }
    }

    fn play_key(&mut self, event: InputEvent)
        ensures
            old(self).keyboard_input.dispatched(event, final(self).keyboard_input),
            final(self).component == old(self).component,
            final(self).mode == old(self).mode,
            final(self).location == old(self).location,
    {
        self.keyboard_input.dispatch(event);
    }
}

impl<C: UIComponent> UIComponent for UIModel<C> {
    open spec fn dispatched(&self, event: InputEvent, next: Self) -> bool {
        if event == InputEvent::SwitchMode {
            next == (UIModel {
                mode: if self.mode == Mode::Config {
                    Mode::Keyboard
                } else {
                    Mode::Config
                },
                ..*self
            })
        } else if self.mode == Mode::Keyboard {
            &&& self.keyboard_input.dispatched(event, next.keyboard_input)
            &&& next.component == self.component
            &&& next.mode == self.mode
            &&& next.location == self.location
        } else {
            &&& self.component.dispatched(event, next.component)
            &&& next.keyboard_input == self.keyboard_input
            &&& next.mode == self.mode
            &&& next.location == self.location
        }
    }

    fn dispatch(&mut self, event: InputEvent) {
        if event == InputEvent::SwitchMode {
            self.mode = if self.mode == Mode::Config {
                Mode::Keyboard
            } else {
                Mode::Config
            };
            return;
        }
        if self.mode == Mode::Keyboard {
            self.play_key(event)
        } else {
            self.component.dispatch(event)
        }
    }
}

} // verus!
