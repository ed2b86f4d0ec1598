use vstd::prelude::*;

verus! {

/// A button of an NES joypad.
#[derive(Debug, Clone, Copy, PartialEq, Eq, Structural)]
pub enum JoypadBtn {
    A,
    B,
    Select,
    Start,
    Up,
    Down,
    Left,
    Right,
}

/// The player whose joypad an event is for.
#[derive(Debug, Clone, Copy, PartialEq, Eq, Structural)]
pub enum Player {
    One,
    Two,
    Three,
    Four,
}

/// Whether a button went down or came up.
#[derive(Debug, Clone, Copy, PartialEq, Eq, Structural)]
pub enum ButtonState {
    Pressed,
    Released,
}

/// A joypad event that the on-screen gamepad sends to the emulation.
#[derive(Debug, Clone, Copy, PartialEq, Eq, Structural)]
pub struct JoypadEvent {
    pub player: Player,
    pub button: JoypadBtn,
    pub state: ButtonState,
}

/// The on-screen gamepad. It keeps no state of its own: what it remembers
/// between frames lives in the GUI's memory, and each frame it is handed back.
#[derive(Debug, Default)]
pub struct VirtualGamepad;

/// The state that a button event reports for a button that is held or not.
pub open spec fn state_of(down: bool) -> ButtonState {
    if down {
        ButtonState::Pressed
    } else {
        ButtonState::Released
    }
}

/// The event for player one's `button` going to `down`.
pub open spec fn player_one_event(button: JoypadBtn, down: bool) -> JoypadEvent {
    JoypadEvent { player: Player::One, button, state: state_of(down) }
}

/// The GUI memory after an update that asks to write `write`:
/// a write replaces what was stored, no write leaves it as it was.
pub open spec fn memory_after<T>(stored: Option<T>, write: Option<T>) -> Option<T> {
    match write {
        Some(v) => Some(v),
        None => stored,
    }
}

fn state_for(down: bool) -> (s: ButtonState)
    ensures
        s == state_of(down),
{
    if down {
        ButtonState::Pressed
    } else {
        ButtonState::Released
    }
}

impl VirtualGamepad {
    pub fn new() -> (pad: Self)
        ensures
            pad == (VirtualGamepad {}),
    {
        VirtualGamepad
    }
}

/// What an on-screen action button remembers between frames: whether it was
/// held in the last frame. A button that has never been seen counts as up.
pub open spec fn remembered_down(stored: Option<bool>) -> bool {
    match stored {
        Some(down) => down,
        None => false,
    }
}

/// The event that one frame of an action button sends: one event when the
/// button is held now and was not before, or the other way round, and none
/// when nothing changed.
pub open spec fn button_event(stored: Option<bool>, is_down: bool, btn: JoypadBtn) -> Option<
    JoypadEvent,
> {
    if is_down != remembered_down(stored) {
        Some(player_one_event(btn, is_down))
    } else {
        None
    }
}

/// What one frame of an action button writes to the GUI memory: the new
/// held state, exactly when it changed.
pub open spec fn button_write(stored: Option<bool>, is_down: bool) -> Option<bool> {
    if is_down != remembered_down(stored) {
        Some(is_down)
    } else {
        None
    }
}

/// The outcome of one frame of an on-screen action button.
#[derive(Debug, Clone, Copy, PartialEq, Eq)]
pub struct ButtonUpdate {
    /// The value to write to the GUI memory, if any.
    pub write: Option<bool>,
    /// The event to send to the emulation, if any.
    pub event: Option<JoypadEvent>,
}

impl VirtualGamepad {
    /// One frame of an on-screen action button (A, B, Start, Select).
    ///
    /// `stored` is what the GUI memory holds for this button, `is_down`
    /// whether the pointer holds it in this frame. The held state is tracked
    /// across frames so that a press and its release always come in separate
    /// frames: a frame sends at most one event.
    pub fn button(&self, stored: Option<bool>, is_down: bool, btn: JoypadBtn) -> (update:
        ButtonUpdate)
        ensures
            update.event == button_event(stored, is_down, btn),
            update.write == button_write(stored, is_down),
    {
        let was_down: bool = match stored {
            Some(down) => down,
            None => false,
        };
        if is_down != was_down {
            let event = JoypadEvent { player: Player::One, button: btn, state: state_for(is_down) };
            ButtonUpdate { write: Some(is_down), event: Some(event) }
        } else {
            ButtonUpdate { write: None, event: None }
        }
    }
}

/// After a frame of an action button, the GUI memory holds the button's
/// current held state.
pub proof fn lemma_button_memory_tracks_pointer(stored: Option<bool>, is_down: bool)
    ensures
        remembered_down(memory_after(stored, button_write(stored, is_down))) == is_down,
{
}

/// A second frame with the pointer in the same state sends nothing and
/// writes nothing.
pub proof fn lemma_button_repeat_is_quiet(stored: Option<bool>, is_down: bool, btn: JoypadBtn)
    ensures
        ({
            let next = memory_after(stored, button_write(stored, is_down));
            button_event(next, is_down, btn) is None && button_write(next, is_down) is None
        }),
{
}

/// A tap on an action button that was up, pressed in one frame and let go in
/// the next, sends `Pressed` in the first frame and `Released` in the second.
pub proof fn lemma_button_tap(stored: Option<bool>, btn: JoypadBtn)
    requires
        !remembered_down(stored),
    ensures
        ({
            let held = memory_after(stored, button_write(stored, true));
            &&& button_event(stored, true, btn) == Some(
                JoypadEvent { player: Player::One, button: btn, state: ButtonState::Pressed },
            )
            &&& button_event(held, false, btn) == Some(
                JoypadEvent { player: Player::One, button: btn, state: ButtonState::Released },
            )
        }),
{
}

/// The direction that the pointer holds the d-pad in.
#[derive(Debug, Clone, Copy, PartialEq, Eq, Structural)]
pub enum DpadDirection {
    Up,
    Down,
    Left,
    Right,
}

/// Which d-pad arrows are held in a frame.
#[derive(Debug, Clone, Copy, PartialEq, Eq, Structural)]
pub struct DpadPress {
    pub up: bool,
    pub down: bool,
    pub left: bool,
    pub right: bool,
}

/// The joypad button that a d-pad direction stands for.
pub open spec fn direction_button(dir: DpadDirection) -> JoypadBtn {
    match dir {
        DpadDirection::Up => JoypadBtn::Up,
        DpadDirection::Down => JoypadBtn::Down,
        DpadDirection::Left => JoypadBtn::Left,
        DpadDirection::Right => JoypadBtn::Right,
    }
}

/// The arrows held when the pointer holds the d-pad in `dir` (none outside
/// the d-pad or inside its dead zone).
pub open spec fn direction_press(dir: Option<DpadDirection>) -> DpadPress {
    DpadPress {
        up: dir == Some(DpadDirection::Up),
        down: dir == Some(DpadDirection::Down),
        left: dir == Some(DpadDirection::Left),
        right: dir == Some(DpadDirection::Right),
    }
}

/// Whether `btn` is one of the four d-pad buttons.
pub open spec fn is_dpad_button(btn: JoypadBtn) -> bool {
    btn == JoypadBtn::Up || btn == JoypadBtn::Down || btn == JoypadBtn::Left || btn
        == JoypadBtn::Right
}

/// Whether the d-pad arrow for `btn` is held in `press`.
pub open spec fn arrow_held(press: DpadPress, btn: JoypadBtn) -> bool {
    match btn {
        JoypadBtn::Up => press.up,
        JoypadBtn::Down => press.down,
        JoypadBtn::Left => press.left,
        JoypadBtn::Right => press.right,
        _ => false,
    }
}

/// The bit set that records which of the four arrows are held: up in the
/// lowest bit, then down, left and right.
pub open spec fn mask_of(up: bool, down: bool, left: bool, right: bool) -> u8 {
    ((if up { 1int } else { 0int }) + (if down { 2int } else { 0int }) + (if left { 4int } else {
        0int
    }) + (if right { 8int } else { 0int })) as u8
}

/// The stored form of a d-pad press.
pub open spec fn dpad_mask(press: DpadPress) -> u8 {
    mask_of(press.up, press.down, press.left, press.right)
}

/// Whether the stored d-pad state `mask` records `btn` as held.
pub open spec fn mask_holds(mask: u8, btn: JoypadBtn) -> bool {
    match btn {
        JoypadBtn::Up => mask % 2 == 1,
        JoypadBtn::Down => (mask / 2) % 2 == 1,
        JoypadBtn::Left => (mask / 4) % 2 == 1,
        JoypadBtn::Right => (mask / 8) % 2 == 1,
        _ => false,
    }
}

/// What the d-pad remembers between frames; a d-pad never seen holds nothing.
pub open spec fn remembered_mask(stored: Option<u8>) -> u8 {
    match stored {
        Some(mask) => mask,
        None => 0,
    }
}

/// The event, if any, that a frame of the d-pad sends for `btn`: one when the
/// arrow's held state differs from the remembered one.
pub open spec fn dpad_change(stored: Option<u8>, press: DpadPress, btn: JoypadBtn) -> Seq<
    JoypadEvent,
> {
    if arrow_held(press, btn) != mask_holds(remembered_mask(stored), btn) {
        seq![player_one_event(btn, arrow_held(press, btn))]
    } else {
        seq![]
    }
}

/// The events that a frame of the d-pad sends, in the order up, down, left,
/// right: one for each arrow whose held state changed.
pub open spec fn dpad_events(stored: Option<u8>, press: DpadPress) -> Seq<JoypadEvent> {
    dpad_change(stored, press, JoypadBtn::Up) + dpad_change(stored, press, JoypadBtn::Down)
        + dpad_change(stored, press, JoypadBtn::Left) + dpad_change(
        stored,
        press,
        JoypadBtn::Right,
    )
}

/// What a frame of the d-pad writes to the GUI memory: the new state, exactly
/// when it differs from the remembered one.
pub open spec fn dpad_write(stored: Option<u8>, press: DpadPress) -> Option<u8> {
    if dpad_mask(press) != remembered_mask(stored) {
        Some(dpad_mask(press))
    } else {
        None
    }
}

/// The outcome of one frame of the d-pad.
#[derive(Debug, PartialEq, Eq)]
pub struct DpadUpdate {
    /// The value to write to the GUI memory, if any.
    pub write: Option<u8>,
    /// The events to send to the emulation, in order.
    pub events: Vec<JoypadEvent>,
}

proof fn lemma_mask_bits(up: bool, down: bool, left: bool, right: bool)
    ensures
        mask_holds(mask_of(up, down, left, right), JoypadBtn::Up) == up,
        mask_holds(mask_of(up, down, left, right), JoypadBtn::Down) == down,
        mask_holds(mask_of(up, down, left, right), JoypadBtn::Left) == left,
        mask_holds(mask_of(up, down, left, right), JoypadBtn::Right) == right,
        mask_of(up, down, left, right) < 16,
{
}

proof fn lemma_bit_differs(x: u8, y: u8)
    ensures
        ((x & 1u8) != (y & 1u8)) == (mask_holds(x, JoypadBtn::Up) != mask_holds(y, JoypadBtn::Up)),
        ((x & 2u8) != (y & 2u8)) == (mask_holds(x, JoypadBtn::Down) != mask_holds(
            y,
            JoypadBtn::Down,
        )),
        ((x & 4u8) != (y & 4u8)) == (mask_holds(x, JoypadBtn::Left) != mask_holds(
            y,
            JoypadBtn::Left,
        )),
        ((x & 8u8) != (y & 8u8)) == (mask_holds(x, JoypadBtn::Right) != mask_holds(
            y,
            JoypadBtn::Right,
        )),
{
    assert(((x & 1u8) != (y & 1u8)) == ((x % 2 == 1) != (y % 2 == 1))) by (bit_vector);
    assert(((x & 2u8) != (y & 2u8)) == (((x / 2) % 2 == 1) != ((y / 2) % 2 == 1))) by (bit_vector);
    assert(((x & 4u8) != (y & 4u8)) == (((x / 4) % 2 == 1) != ((y / 4) % 2 == 1))) by (bit_vector);
    assert(((x & 8u8) != (y & 8u8)) == (((x / 8) % 2 == 1) != ((y / 8) % 2 == 1))) by (bit_vector);
}

impl DpadPress {
    /// The arrows held when the pointer holds the d-pad in `dir`.
    pub fn from_direction(dir: Option<DpadDirection>) -> (press: DpadPress)
        ensures
            press == direction_press(dir),
    {
        match dir {
            Some(DpadDirection::Up) => DpadPress { up: true, down: false, left: false, right: false },
            Some(DpadDirection::Down) => DpadPress { up: false, down: true, left: false, right: false },
            Some(DpadDirection::Left) => DpadPress { up: false, down: false, left: true, right: false },
            Some(DpadDirection::Right) => DpadPress { up: false, down: false, left: false, right: true },
            None => DpadPress { up: false, down: false, left: false, right: false },
        }
    }

    /// The bit set that the GUI memory keeps for this press.
    pub fn mask(&self) -> (mask: u8)
        ensures
            mask == dpad_mask(*self),
    {
        let mut current: u8 = 0;
        if self.up {
            current |= 1;
            assert(0u8 | 1u8 == 1u8) by (bit_vector);
        }
        if self.down {
            let c = current;
            current |= 2;
            assert(c | 2u8 == c + 2) by (bit_vector)
                requires
                    c < 2u8,
            ;
        }
        if self.left {
            let c = current;
            current |= 4;
            assert(c | 4u8 == c + 4) by (bit_vector)
                requires
                    c < 4u8,
            ;
        }
        if self.right {
            let c = current;
            current |= 8;
            assert(c | 8u8 == c + 8) by (bit_vector)
                requires
                    c < 8u8,
            ;
        }
        current
    }
}

fn dpad_event(btn: JoypadBtn, held: bool) -> (event: JoypadEvent)
    ensures
        event == player_one_event(btn, held),
{
    JoypadEvent { player: Player::One, button: btn, state: state_for(held) }
}

impl VirtualGamepad {
    /// One frame of the on-screen d-pad.
    ///
    /// `stored` is what the GUI memory holds for the d-pad, `press` which
    /// arrows the pointer holds in this frame. The d-pad sends an event only
    /// for an arrow whose held state changed since the last frame, so that a
    /// held arrow does not flood the emulation with events.
    #[verifier::rlimit(30)]
    pub fn dpad(&self, stored: Option<u8>, press: DpadPress) -> (update: DpadUpdate)
        ensures
            update.write == dpad_write(stored, press),
            update.events@ == dpad_events(stored, press),
    {
        let prev: u8 = match stored {
            Some(mask) => mask,
            None => 0,
        };
        let current = press.mask();
        let mut events: Vec<JoypadEvent> = Vec::new();
        proof {
            lemma_mask_bits(press.up, press.down, press.left, press.right);
            lemma_bit_differs(current, prev);
        }
        if current != prev {
            let up_changed = (current & 1) != (prev & 1);
            let down_changed = (current & 2) != (prev & 2);
            let left_changed = (current & 4) != (prev & 4);
            let right_changed = (current & 8) != (prev & 8);
            if up_changed {
                events.push(dpad_event(JoypadBtn::Up, press.up));
            }
            assert(events@ == dpad_change(stored, press, JoypadBtn::Up));
            if down_changed {
                events.push(dpad_event(JoypadBtn::Down, press.down));
            }
            assert(events@ == dpad_change(stored, press, JoypadBtn::Up) + dpad_change(
                stored,
                press,
                JoypadBtn::Down,
            ));
            if left_changed {
                events.push(dpad_event(JoypadBtn::Left, press.left));
            }
            assert(events@ == dpad_change(stored, press, JoypadBtn::Up) + dpad_change(
                stored,
                press,
                JoypadBtn::Down,
            ) + dpad_change(stored, press, JoypadBtn::Left));
            if right_changed {
                events.push(dpad_event(JoypadBtn::Right, press.right));
            }
            DpadUpdate { write: Some(current), events }
        } else {
            assert(dpad_events(stored, press) =~= seq![]);
            DpadUpdate { write: None, events }
        }
    }
}

/// The stored form of a d-pad press records exactly the held arrows, and
/// nothing outside the four d-pad bits.
pub proof fn lemma_dpad_mask_decodes(press: DpadPress)
    ensures
        dpad_mask(press) < 16,
        forall|btn: JoypadBtn|
            is_dpad_button(btn) ==> mask_holds(dpad_mask(press), btn) == arrow_held(press, btn),
{
    lemma_mask_bits(press.up, press.down, press.left, press.right);
}

/// After a frame of the d-pad, the GUI memory holds the stored form of the
/// arrows held in that frame.
pub proof fn lemma_dpad_memory_tracks_press(stored: Option<u8>, press: DpadPress)
    ensures
        remembered_mask(memory_after(stored, dpad_write(stored, press))) == dpad_mask(press),
{
}

/// A second frame with the same arrows held sends nothing and writes nothing.
pub proof fn lemma_dpad_repeat_is_quiet(stored: Option<u8>, press: DpadPress)
    ensures
        ({
            let next = memory_after(stored, dpad_write(stored, press));
            dpad_events(next, press) == Seq::<JoypadEvent>::empty() && dpad_write(next, press) is None
        }),
{
    lemma_mask_bits(press.up, press.down, press.left, press.right);
    let next = memory_after(stored, dpad_write(stored, press));
    assert(dpad_events(next, press) =~= Seq::<JoypadEvent>::empty());
}

/// A tap on the d-pad in one direction, from a d-pad that holds nothing, sends
/// `Pressed` for that direction's button in the first frame and `Released` for
/// it in the next, and nothing else.
pub proof fn lemma_dpad_tap(stored: Option<u8>, dir: DpadDirection)
    requires
        remembered_mask(stored) == 0,
    ensures
        ({
            let held = direction_press(Some(dir));
            let next = memory_after(stored, dpad_write(stored, held));
            &&& dpad_events(stored, held) == seq![
                JoypadEvent {
                    player: Player::One,
                    button: direction_button(dir),
                    state: ButtonState::Pressed,
                },
            ]
            &&& dpad_events(next, direction_press(None)) == seq![
                JoypadEvent {
                    player: Player::One,
                    button: direction_button(dir),
                    state: ButtonState::Released,
                },
            ]
        }),
{
    let held = direction_press(Some(dir));
    let next = memory_after(stored, dpad_write(stored, held));
    lemma_mask_bits(held.up, held.down, held.left, held.right);
    lemma_mask_bits(false, false, false, false);
    match dir {
        DpadDirection::Up => {
            assert(dpad_events(stored, held) =~= seq![player_one_event(JoypadBtn::Up, true)]);
            assert(dpad_events(next, direction_press(None)) =~= seq![
                player_one_event(JoypadBtn::Up, false),
            ]);
        },
        DpadDirection::Down => {
            assert(dpad_events(stored, held) =~= seq![player_one_event(JoypadBtn::Down, true)]);
            assert(dpad_events(next, direction_press(None)) =~= seq![
                player_one_event(JoypadBtn::Down, false),
            ]);
        },
        DpadDirection::Left => {
            assert(dpad_events(stored, held) =~= seq![player_one_event(JoypadBtn::Left, true)]);
            assert(dpad_events(next, direction_press(None)) =~= seq![
                player_one_event(JoypadBtn::Left, false),
            ]);
        },
        DpadDirection::Right => {
            assert(dpad_events(stored, held) =~= seq![player_one_event(JoypadBtn::Right, true)]);
            assert(dpad_events(next, direction_press(None)) =~= seq![
                player_one_event(JoypadBtn::Right, false),
            ]);
        },
    }
}

/// How many events a move of the pointer on the d-pad from `from` to `to`
/// sends: none when it stays, else one for each side that is a direction.
pub open spec fn direction_change_count(from: Option<DpadDirection>, to: Option<DpadDirection>) -> int {
    if from == to {
        0
    } else {
        (if from is Some { 1int } else { 0int }) + (if to is Some { 1int } else { 0int })
    }
}

/// When the pointer moves on the d-pad from one direction (or none) to
/// another, the frame sends `Released` for the old direction's button and
/// `Pressed` for the new one's, and nothing else: at most two events.
pub proof fn lemma_dpad_direction_change(
    stored: Option<u8>,
    from: Option<DpadDirection>,
    to: Option<DpadDirection>,
)
    requires
        remembered_mask(stored) == dpad_mask(direction_press(from)),
    ensures
        dpad_events(stored, direction_press(to)).len() == direction_change_count(from, to),
        forall|i: int|
            0 <= i < dpad_events(stored, direction_press(to)).len() ==> {
                let e = #[trigger] dpad_events(stored, direction_press(to))[i];
                ||| from matches Some(f) && e == player_one_event(direction_button(f), false)
                ||| to matches Some(t) && e == player_one_event(direction_button(t), true)
            },
{
    let prev = direction_press(from);
    let next = direction_press(to);
    lemma_mask_bits(prev.up, prev.down, prev.left, prev.right);
    lemma_mask_bits(next.up, next.down, next.left, next.right);
    lemma_dpad_events_are_changes(stored, next);
    assert(dpad_events(stored, next).len() == dpad_change(stored, next, JoypadBtn::Up).len()
        + dpad_change(stored, next, JoypadBtn::Down).len() + dpad_change(
        stored,
        next,
        JoypadBtn::Left,
    ).len() + dpad_change(stored, next, JoypadBtn::Right).len());
}

/// A frame of the d-pad sends at most one event per arrow, so an arrow's
/// press and its release never come in the same frame; each event is for a
/// d-pad button whose held state changed, and reports its new state.
pub proof fn lemma_dpad_events_are_changes(stored: Option<u8>, press: DpadPress)
    ensures
        dpad_events(stored, press).len() <= 4,
        forall|i: int, j: int|
            0 <= i < j < dpad_events(stored, press).len() ==> (#[trigger] dpad_events(
                stored,
                press,
            )[i]).button != (#[trigger] dpad_events(stored, press)[j]).button,
        forall|i: int|
            0 <= i < dpad_events(stored, press).len() ==> {
                let e = #[trigger] dpad_events(stored, press)[i];
                &&& is_dpad_button(e.button)
                &&& e.player == Player::One
                &&& e.state == state_of(arrow_held(press, e.button))
                &&& arrow_held(press, e.button) != mask_holds(remembered_mask(stored), e.button)
            },
{
    let u = dpad_change(stored, press, JoypadBtn::Up);
    let d = dpad_change(stored, press, JoypadBtn::Down);
    let l = dpad_change(stored, press, JoypadBtn::Left);
    let r = dpad_change(stored, press, JoypadBtn::Right);
    let all = dpad_events(stored, press);
    assert(all == u + d + l + r);
    assert forall|i: int| 0 <= i < all.len() implies {
        let e = #[trigger] all[i];
        &&& is_dpad_button(e.button)
        &&& e.player == Player::One
        &&& e.state == state_of(arrow_held(press, e.button))
        &&& arrow_held(press, e.button) != mask_holds(remembered_mask(stored), e.button)
        &&& (e.button == JoypadBtn::Up ==> i < u.len())
        &&& (e.button == JoypadBtn::Down ==> u.len() <= i < u.len() + d.len())
        &&& (e.button == JoypadBtn::Left ==> u.len() + d.len() <= i < u.len() + d.len() + l.len())
        &&& (e.button == JoypadBtn::Right ==> u.len() + d.len() + l.len() <= i)
    } by {
        if i < u.len() {
            assert(all[i] == u[i]);
        } else if i < u.len() + d.len() {
            assert(all[i] == d[i - u.len()]);
        } else if i < u.len() + d.len() + l.len() {
            assert(all[i] == l[i - u.len() - d.len()]);
        } else {
            assert(all[i] == r[i - u.len() - d.len() - l.len()]);
        }
    }
}

/// The states that `n` events for one button report when they alternate,
/// the first one reporting `first_down`.
pub open spec fn alternates_from(events: Seq<JoypadEvent>, first_down: bool) -> bool {
    forall|i: int|
        0 <= i < events.len() ==> (#[trigger] events[i]).state == state_of(
            if i % 2 == 0 {
                first_down
            } else {
                !first_down
            },
        )
}

/// The event of a frame, as a sequence of none or one.
pub open spec fn optional_event(event: Option<JoypadEvent>) -> Seq<JoypadEvent> {
    match event {
        Some(e) => seq![e],
        None => seq![],
    }
}

/// The events that an action button sends over the frames `frames` (whether
/// the pointer holds it in each), the GUI memory starting as `stored` and
/// written by nothing else.
pub open spec fn button_run(stored: Option<bool>, frames: Seq<bool>, btn: JoypadBtn) -> Seq<
    JoypadEvent,
>
    decreases frames.len(),
{
    if frames.len() == 0 {
        seq![]
    } else {
        optional_event(button_event(stored, frames[0], btn)) + button_run(
            memory_after(stored, button_write(stored, frames[0])),
            frames.drop_first(),
            btn,
        )
    }
}

/// What the GUI memory holds for an action button after the frames `frames`.
pub open spec fn button_run_memory(stored: Option<bool>, frames: Seq<bool>) -> Option<bool>
    decreases frames.len(),
{
    if frames.len() == 0 {
        stored
    } else {
        button_run_memory(
            memory_after(stored, button_write(stored, frames[0])),
            frames.drop_first(),
        )
    }
}

/// Over any run of frames, an action button sends at most one event a frame;
/// all are player one's events for that button; they alternate, the first one
/// being the opposite of the remembered state (`Pressed` from a button never
/// seen); the memory ends holding the last frame's state, and there is an odd
/// number of events exactly when that differs from where it started.
pub proof fn lemma_button_run_alternates(stored: Option<bool>, frames: Seq<bool>, btn: JoypadBtn)
    ensures
        button_run(stored, frames, btn).len() <= frames.len(),
        forall|i: int|
            0 <= i < button_run(stored, frames, btn).len() ==> (#[trigger] button_run(
                stored,
                frames,
                btn,
            )[i]).button == btn && button_run(stored, frames, btn)[i].player == Player::One,
        alternates_from(button_run(stored, frames, btn), !remembered_down(stored)),
        frames.len() > 0 ==> remembered_down(button_run_memory(stored, frames)) == frames.last(),
        (button_run(stored, frames, btn).len() % 2 == 1) == (remembered_down(
            button_run_memory(stored, frames),
        ) != remembered_down(stored)),
    decreases frames.len(),
{
    if frames.len() > 0 {
        let next = memory_after(stored, button_write(stored, frames[0]));
        let rest = frames.drop_first();
        lemma_button_run_alternates(next, rest, btn);
        let first = optional_event(button_event(stored, frames[0], btn));
        let tail = button_run(next, rest, btn);
        let all = button_run(stored, frames, btn);
        assert(all == first + tail);
        if rest.len() > 0 {
            assert(rest.last() == frames.last());
        }
        assert forall|i: int| 0 <= i < all.len() implies (#[trigger] all[i]).button == btn
            && all[i].player == Player::One && all[i].state == state_of(
            if i % 2 == 0 {
                !remembered_down(stored)
            } else {
                remembered_down(stored)
            },
        ) by {
            if i >= first.len() {
                assert(all[i] == tail[i - first.len()]);
            }
        }
    }
}

/// Holding an action button over any number of frames, from a button that
/// was up, sends a single `Pressed`.
pub proof fn lemma_button_hold_presses_once(stored: Option<bool>, frames: Seq<bool>, btn: JoypadBtn)
    requires
        !remembered_down(stored),
        frames.len() > 0,
        forall|i: int| 0 <= i < frames.len() ==> #[trigger] frames[i],
    ensures
        button_run(stored, frames, btn) == seq![player_one_event(btn, true)],
{
    let next = memory_after(stored, button_write(stored, frames[0]));
    assert(remembered_down(next));
    lemma_button_held_is_quiet(next, frames.drop_first(), btn);
    assert(button_run(stored, frames, btn) =~= seq![player_one_event(btn, true)]);
}

proof fn lemma_button_held_is_quiet(stored: Option<bool>, frames: Seq<bool>, btn: JoypadBtn)
    requires
        remembered_down(stored),
        forall|i: int| 0 <= i < frames.len() ==> #[trigger] frames[i],
    ensures
        button_run(stored, frames, btn) == Seq::<JoypadEvent>::empty(),
    decreases frames.len(),
{
    if frames.len() > 0 {
        let next = memory_after(stored, button_write(stored, frames[0]));
        let rest = frames.drop_first();
        assert forall|i: int| 0 <= i < rest.len() implies #[trigger] rest[i] by {
            assert(rest[i] == frames[i + 1]);
        }
        lemma_button_held_is_quiet(next, rest, btn);
        assert(button_run(stored, frames, btn) =~= Seq::<JoypadEvent>::empty());
    }
}

/// The events for `btn` among `events`, in order.
pub open spec fn events_for(events: Seq<JoypadEvent>, btn: JoypadBtn) -> Seq<JoypadEvent> {
    events.filter(|e: JoypadEvent| e.button == btn)
}

/// The events that the d-pad sends over the frames `presses`, the GUI memory
/// starting as `stored` and written by nothing else.
pub open spec fn dpad_run(stored: Option<u8>, presses: Seq<DpadPress>) -> Seq<JoypadEvent>
    decreases presses.len(),
{
    if presses.len() == 0 {
        seq![]
    } else {
        dpad_events(stored, presses[0]) + dpad_run(
            memory_after(stored, dpad_write(stored, presses[0])),
            presses.drop_first(),
        )
    }
}

/// What the GUI memory holds for the d-pad after the frames `presses`.
pub open spec fn dpad_run_memory(stored: Option<u8>, presses: Seq<DpadPress>) -> Option<u8>
    decreases presses.len(),
{
    if presses.len() == 0 {
        stored
    } else {
        dpad_run_memory(
            memory_after(stored, dpad_write(stored, presses[0])),
            presses.drop_first(),
        )
    }
}

proof fn lemma_events_for_short(events: Seq<JoypadEvent>, btn: JoypadBtn)
    requires
        events.len() <= 1,
    ensures
        events_for(events, btn) == (if events.len() == 1 && events[0].button == btn {
            events
        } else {
            Seq::<JoypadEvent>::empty()
        }),
{
    reveal_with_fuel(Seq::filter, 2);
    if events.len() == 1 {
        assert(events.drop_last() =~= Seq::<JoypadEvent>::empty());
    }
    assert(events_for(events, btn) =~= (if events.len() == 1 && events[0].button == btn {
        events
    } else {
        Seq::<JoypadEvent>::empty()
    }));
}

proof fn lemma_events_for_add(a: Seq<JoypadEvent>, b: Seq<JoypadEvent>, btn: JoypadBtn)
    ensures
        events_for(a + b, btn) == events_for(a, btn) + events_for(b, btn),
{
    Seq::filter_distributes_over_add(a, b, |e: JoypadEvent| e.button == btn);
}

/// The events for one d-pad button in a frame are that button's change.
proof fn lemma_dpad_events_for(stored: Option<u8>, press: DpadPress, btn: JoypadBtn)
    requires
        is_dpad_button(btn),
    ensures
        events_for(dpad_events(stored, press), btn) == dpad_change(stored, press, btn),
{
    let u = dpad_change(stored, press, JoypadBtn::Up);
    let d = dpad_change(stored, press, JoypadBtn::Down);
    let l = dpad_change(stored, press, JoypadBtn::Left);
    let r = dpad_change(stored, press, JoypadBtn::Right);
    lemma_events_for_add(u + d + l, r, btn);
    lemma_events_for_add(u + d, l, btn);
    lemma_events_for_add(u, d, btn);
    lemma_events_for_short(u, btn);
    lemma_events_for_short(d, btn);
    lemma_events_for_short(l, btn);
    lemma_events_for_short(r, btn);
    assert(events_for(dpad_events(stored, press), btn) =~= dpad_change(stored, press, btn));
}

/// Over any run of frames, the events that the d-pad sends for each arrow
/// alternate, the first one being the opposite of what the memory held for
/// it (`Pressed` from a d-pad never seen); the memory ends holding the last
/// frame's arrows, and an arrow has an odd number of events exactly when its
/// final state differs from where it started.
pub proof fn lemma_dpad_run_alternates(stored: Option<u8>, presses: Seq<DpadPress>, btn: JoypadBtn)
    requires
        is_dpad_button(btn),
    ensures
        forall|i: int|
            0 <= i < events_for(dpad_run(stored, presses), btn).len() ==> (#[trigger] events_for(
                dpad_run(stored, presses),
                btn,
            )[i]).button == btn && events_for(dpad_run(stored, presses), btn)[i].player
                == Player::One,
        alternates_from(
            events_for(dpad_run(stored, presses), btn),
            !mask_holds(remembered_mask(stored), btn),
        ),
        presses.len() > 0 ==> mask_holds(remembered_mask(dpad_run_memory(stored, presses)), btn)
            == arrow_held(presses.last(), btn),
        (events_for(dpad_run(stored, presses), btn).len() % 2 == 1) == (mask_holds(
            remembered_mask(dpad_run_memory(stored, presses)),
            btn,
        ) != mask_holds(remembered_mask(stored), btn)),
    decreases presses.len(),
{
    if presses.len() == 0 {
        reveal_with_fuel(Seq::filter, 1);
        assert(events_for(dpad_run(stored, presses), btn) =~= Seq::<JoypadEvent>::empty());
    } else {
        let p = presses[0];
        let next = memory_after(stored, dpad_write(stored, p));
        let rest = presses.drop_first();
        lemma_dpad_run_alternates(next, rest, btn);
        lemma_dpad_memory_tracks_press(stored, p);
        lemma_dpad_mask_decodes(p);
        lemma_events_for_add(dpad_events(stored, p), dpad_run(next, rest), btn);
        lemma_dpad_events_for(stored, p, btn);
        let first = dpad_change(stored, p, btn);
        let tail = events_for(dpad_run(next, rest), btn);
        let all = events_for(dpad_run(stored, presses), btn);
        assert(all == first + tail);
        if rest.len() > 0 {
            assert(rest.last() == presses.last());
        }
        lemma_alternation_step(
            first,
            tail,
            btn,
            mask_holds(remembered_mask(stored), btn),
            arrow_held(p, btn),
            mask_holds(remembered_mask(dpad_run_memory(stored, presses)), btn),
        );
    }
}

/// One frame's event for a button (none or one), followed by events that
/// alternate from the new state on, alternate from the old state on.
proof fn lemma_alternation_step(
    first: Seq<JoypadEvent>,
    tail: Seq<JoypadEvent>,
    btn: JoypadBtn,
    before: bool,
    after: bool,
    last: bool,
)
    requires
        first == (if after != before {
            seq![player_one_event(btn, after)]
        } else {
            Seq::<JoypadEvent>::empty()
        }),
        forall|i: int|
            0 <= i < tail.len() ==> (#[trigger] tail[i]).button == btn && tail[i].player
                == Player::One,
        alternates_from(tail, !after),
        (tail.len() % 2 == 1) == (last != after),
    ensures
        forall|i: int|
            0 <= i < (first + tail).len() ==> (#[trigger] (first + tail)[i]).button == btn && (
            first + tail)[i].player == Player::One,
        alternates_from(first + tail, !before),
        ((first + tail).len() % 2 == 1) == (last != before),
{
    let all = first + tail;
    assert forall|i: int| 0 <= i < all.len() implies (#[trigger] all[i]).button == btn
        && all[i].player == Player::One && all[i].state == state_of(
        if i % 2 == 0 {
            !before
        } else {
            before
        },
    ) by {
        if i >= first.len() {
            assert(all[i] == tail[i - first.len()]);
        }
    }
}

/// From a d-pad that holds nothing, each arrow's events over a run of frames
/// alternate `Pressed`, `Released`, ..., starting with `Pressed`; after a
/// frame in which the pointer holds no direction, every arrow pressed before
/// has been released (each arrow has an even number of events).
pub proof fn lemma_dpad_run_from_rest(stored: Option<u8>, presses: Seq<DpadPress>, btn: JoypadBtn)
    requires
        remembered_mask(stored) == 0,
        is_dpad_button(btn),
    ensures
        alternates_from(events_for(dpad_run(stored, presses), btn), true),
        presses.len() > 0 && presses.last() == direction_press(None) ==> events_for(
            dpad_run(stored, presses),
            btn,
        ).len() % 2 == 0,
        presses.len() > 0 && presses.last() == direction_press(None) && events_for(
            dpad_run(stored, presses),
            btn,
        ).len() > 0 ==> events_for(dpad_run(stored, presses), btn).last().state
            == ButtonState::Released,
{
    lemma_mask_bits(false, false, false, false);
    lemma_dpad_run_alternates(stored, presses, btn);
    let evs = events_for(dpad_run(stored, presses), btn);
    if presses.len() > 0 && presses.last() == direction_press(None) && evs.len() > 0 {
        assert(evs[evs.len() - 1].state == ButtonState::Released);
    }
}

} // verus!
