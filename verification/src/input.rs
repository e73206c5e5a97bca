use vstd::prelude::*;

verus! {

/// Whether a button went down or came up.
#[derive(Clone, Copy, Debug, PartialEq, Eq, Structural)]
pub enum InputEventType {
    Pressed,
    Released,
}

/// The actions that buttons trigger.
#[derive(Clone, Copy, Debug, PartialEq, Eq, Structural)]
pub enum InputEventAction {
    Shoot,
    Shield,
    Pause,
}

/// A button of an action went down or came up.
#[derive(Clone, Copy, Debug, PartialEq, Eq, Structural)]
pub struct InputTriggerMessage {
    pub action: InputEventAction,
    pub input_type: InputEventType,
}

impl InputTriggerMessage {
    pub fn new(action: InputEventAction, input_type: InputEventType) -> (m: Self)
        ensures
            m.action == action,
            m.input_type == input_type,
    {
        InputTriggerMessage { action, input_type }
    }
}

/// The keyboard keys that the game binds; every other key is `Other`.
#[derive(Clone, Copy, Debug, PartialEq, Eq, Structural)]
pub enum Key {
    KeyW,
    KeyA,
    KeyS,
    KeyD,
    ArrowUp,
    ArrowDown,
    ArrowLeft,
    ArrowRight,
    Space,
    ShiftRight,
    ControlLeft,
    ControlRight,
    Escape,
    Pause,
    Other,
}

/// The keys that trigger an action.
pub struct KeyCommand {
    pub action: InputEventAction,
    pub keys: Vec<Key>,
}

impl KeyCommand {
    pub fn new(action: InputEventAction, keys: Vec<Key>) -> (c: Self)
        ensures
            c.action == action,
            c.keys@ == keys@,
    {
        KeyCommand { action, keys }
    }
}

/// The keys that steer the ship and the keys of each action.
pub struct KeyBindings {
    pub up_keys: Vec<Key>,
    pub down_keys: Vec<Key>,
    pub left_keys: Vec<Key>,
    pub right_keys: Vec<Key>,
    pub commands: Vec<KeyCommand>,
}

impl Default for KeyBindings {
    /// W or the up arrow thrusts, S or the down arrow brakes, A or the left
    /// arrow and D or the right arrow turn; space or right shift shoots,
    /// either control key raises the shield, escape or pause pauses.
    fn default() -> (b: Self)
        ensures
            b.up_keys@ == seq![Key::KeyW, Key::ArrowUp],
            b.down_keys@ == seq![Key::KeyS, Key::ArrowDown],
            b.left_keys@ == seq![Key::KeyA, Key::ArrowLeft],
            b.right_keys@ == seq![Key::KeyD, Key::ArrowRight],
            b.commands@.len() == 3,
            b.commands@[0].action == InputEventAction::Shoot,
            b.commands@[0].keys@ == seq![Key::Space, Key::ShiftRight],
            b.commands@[1].action == InputEventAction::Shield,
            b.commands@[1].keys@ == seq![Key::ControlLeft, Key::ControlRight],
            b.commands@[2].action == InputEventAction::Pause,
            b.commands@[2].keys@ == seq![Key::Escape, Key::Pause],
    {
        let mut commands: Vec<KeyCommand> = Vec::new();
        commands.push(KeyCommand::new(InputEventAction::Shoot, vec![Key::Space, Key::ShiftRight]));
        commands.push(
            KeyCommand::new(InputEventAction::Shield, vec![Key::ControlLeft, Key::ControlRight]),
        );
        commands.push(KeyCommand::new(InputEventAction::Pause, vec![Key::Escape, Key::Pause]));
        KeyBindings {
            up_keys: vec![Key::KeyW, Key::ArrowUp],
            down_keys: vec![Key::KeyS, Key::ArrowDown],
            left_keys: vec![Key::KeyA, Key::ArrowLeft],
            right_keys: vec![Key::KeyD, Key::ArrowRight],
            commands,
        }
    }
}

/// A steering direction whose components are -1, 0 or 1: `x` turns (negative
/// to the left), `y` thrusts (positive forward).
#[derive(Clone, Copy, Debug, PartialEq, Eq, Structural)]
pub struct Direction {
    pub x: i8,
    pub y: i8,
}

/// Some key of `keys` is in `held`.
pub open spec fn any_held(held: Seq<Key>, keys: Seq<Key>) -> bool {
    exists|i: int| 0 <= i < keys.len() && held.contains(#[trigger] keys[i])
}

/// Whether `key` is in `held`.
fn key_in(held: &Vec<Key>, key: Key) -> (b: bool)
    ensures
        b == held@.contains(key),
{
    let mut i: usize = 0;
    while i < held.len()
        invariant
            i <= held@.len(),
            forall|j: int| 0 <= j < i ==> held@[j] != key,
        decreases held@.len() - i,
    {
        if held[i] == key {
            return true;
        }
        i = i + 1;
    }
    false
}

/// Whether some key of `keys` is in `held`.
pub fn any_key_held(held: &Vec<Key>, keys: &Vec<Key>) -> (b: bool)
    ensures
        b == any_held(held@, keys@),
{
    let mut i: usize = 0;
    while i < keys.len()
        invariant
            i <= keys@.len(),
            forall|j: int| 0 <= j < i ==> !held@.contains(#[trigger] keys@[j]),
        decreases keys@.len() - i,
    {
        if key_in(held, keys[i]) {
            return true;
        }
        i = i + 1;
    }
    false
}

/// 1 if `b`, else 0.
pub open spec fn unit(b: bool) -> int {
    if b {
        1
    } else {
        0
    }
}

/// The direction that the held keys steer in: right minus left, up minus
/// down.
pub open spec fn steering(held: Seq<Key>, bindings: KeyBindings) -> Direction {
    Direction {
        x: (unit(any_held(held, bindings.right_keys@)) - unit(any_held(held, bindings.left_keys@))) as i8,
        y: (unit(any_held(held, bindings.up_keys@)) - unit(any_held(held, bindings.down_keys@))) as i8,
    }
}

/// The trigger messages of commands `0`, ..., `n - 1`: for each command in
/// order, a press if one of its keys went down and a release if one came up.
pub open spec fn command_triggers(
    commands: Seq<KeyCommand>,
    went_down: Seq<Key>,
    came_up: Seq<Key>,
    n: int,
) -> Seq<InputTriggerMessage>
    decreases n,
{
    if n <= 0 {
        Seq::empty()
    } else {
        let c = commands[n - 1];
        let pressed = if any_held(went_down, c.keys@) {
            seq![InputTriggerMessage { action: c.action, input_type: InputEventType::Pressed }]
        } else {
            Seq::empty()
        };
        let released = if any_held(came_up, c.keys@) {
            seq![InputTriggerMessage { action: c.action, input_type: InputEventType::Released }]
        } else {
            Seq::empty()
        };
        command_triggers(commands, went_down, came_up, n - 1) + pressed + released
    }
}

/// What the keyboard gives in one frame.
pub struct KeyReadout {
    /// The steering direction, when it is to be sent.
    pub movement: Option<Direction>,
    /// The action presses and releases, in the order of the commands.
    pub triggers: Vec<InputTriggerMessage>,
}

/// Reads the keyboard: `held` are the keys that are down, `went_down` those
/// that went down this frame and `came_up` those that came up. The steering
/// direction is sent when it differs from the last one sent or is not zero,
/// and then becomes the last one sent.
pub fn read_keys(
    held: &Vec<Key>,
    went_down: &Vec<Key>,
    came_up: &Vec<Key>,
    bindings: &KeyBindings,
    last_dir: &mut Direction,
) -> (r: KeyReadout)
    ensures
        ({
            let d = steering(held@, *bindings);
            let send = d != *old(last_dir) || d != (Direction { x: 0, y: 0 });
            &&& r.movement == (if send { Some(d) } else { None::<Direction> })
            &&& *final(last_dir) == (if send { d } else { *old(last_dir) })
        }),
        r.triggers@ == command_triggers(
            bindings.commands@,
            went_down@,
            came_up@,
            bindings.commands@.len() as int,
        ),
{
    let mut x: i8 = 0;
    let mut y: i8 = 0;
    if any_key_held(held, &bindings.left_keys) {
        x = x - 1;
    }
    if any_key_held(held, &bindings.right_keys) {
        x = x + 1;
    }
    if any_key_held(held, &bindings.up_keys) {
        y = y + 1;
    }
    if any_key_held(held, &bindings.down_keys) {
        y = y - 1;
    }
    let dir = Direction { x, y };
    let zero = Direction { x: 0, y: 0 };
    let movement = if dir != *last_dir || dir != zero {
        *last_dir = dir;
        Some(dir)
    } else {
        None
    };
    let mut triggers: Vec<InputTriggerMessage> = Vec::new();
    let mut i: usize = 0;
    while i < bindings.commands.len()
        invariant
            i <= bindings.commands@.len(),
            triggers@ == command_triggers(bindings.commands@, went_down@, came_up@, i as int),
        decreases bindings.commands@.len() - i,
    {
        let command = &bindings.commands[i];
        let ghost before = triggers@;
        let down = any_key_held(went_down, &command.keys);
        let up = any_key_held(came_up, &command.keys);
        if down {
            triggers.push(InputTriggerMessage::new(command.action, InputEventType::Pressed));
        }
        if up {
            triggers.push(InputTriggerMessage::new(command.action, InputEventType::Released));
        }
        proof {
            let c = bindings.commands@[i as int];
            let pressed = if any_held(went_down@, c.keys@) {
                seq![InputTriggerMessage { action: c.action, input_type: InputEventType::Pressed }]
            } else {
                Seq::empty()
            };
            let released = if any_held(came_up@, c.keys@) {
                seq![InputTriggerMessage { action: c.action, input_type: InputEventType::Released }]
            } else {
                Seq::empty()
            };
            assert(triggers@ =~= before + pressed + released);
        }
        i = i + 1;
    }
    KeyReadout { movement, triggers }
}

/// Holding both a key that steers one way and a key that steers the other way
/// cancels out, and each steering component is -1, 0 or 1.
pub proof fn law_opposite_keys_cancel(held: Seq<Key>, bindings: KeyBindings)
    ensures
        -1 <= steering(held, bindings).x <= 1,
        -1 <= steering(held, bindings).y <= 1,
        any_held(held, bindings.left_keys@) && any_held(held, bindings.right_keys@) ==> steering(
            held,
            bindings,
        ).x == 0,
        any_held(held, bindings.up_keys@) && any_held(held, bindings.down_keys@) ==> steering(
            held,
            bindings,
        ).y == 0,
{
}

/// Each steering component follows the keys held for it alone: a right key
/// with no left key turns right (`x == 1`), a left key with no right key
/// turns left (`x == -1`), and neither leaves `x` at 0; likewise an up key
/// alone thrusts (`y == 1`), a down key alone reverses (`y == -1`), and
/// neither leaves `y` at 0.
pub proof fn law_keys_steer(held: Seq<Key>, bindings: KeyBindings)
    ensures
        any_held(held, bindings.right_keys@) && !any_held(held, bindings.left_keys@)
            ==> steering(held, bindings).x == 1,
        any_held(held, bindings.left_keys@) && !any_held(held, bindings.right_keys@)
            ==> steering(held, bindings).x == -1,
        !any_held(held, bindings.left_keys@) && !any_held(held, bindings.right_keys@)
            ==> steering(held, bindings).x == 0,
        any_held(held, bindings.up_keys@) && !any_held(held, bindings.down_keys@) ==> steering(
            held,
            bindings,
        ).y == 1,
        any_held(held, bindings.down_keys@) && !any_held(held, bindings.up_keys@) ==> steering(
            held,
            bindings,
        ).y == -1,
        !any_held(held, bindings.up_keys@) && !any_held(held, bindings.down_keys@) ==> steering(
            held,
            bindings,
        ).y == 0,
{
}

/// A held key steers: when some right, left, up or down key is held in a way
/// that does not cancel out, `read_keys` sends a direction whatever was sent
/// before, and it is the steering direction.
pub proof fn law_held_keys_are_sent(held: Seq<Key>, bindings: KeyBindings, last: Direction)
    requires
        any_held(held, bindings.right_keys@) != any_held(held, bindings.left_keys@) || any_held(
            held,
            bindings.up_keys@,
        ) != any_held(held, bindings.down_keys@),
    ensures
        steering(held, bindings) != last || steering(held, bindings) != (Direction { x: 0, y: 0 }),
        steering(held, bindings) != (Direction { x: 0, y: 0 }),
{
}

/// The press of a second finger is a shot.
pub open spec fn shoot_pressed() -> InputTriggerMessage {
    InputTriggerMessage { action: InputEventAction::Shoot, input_type: InputEventType::Pressed }
}

/// The lifting of a finger other than the steering one ends shooting.
pub open spec fn shoot_released() -> InputTriggerMessage {
    InputTriggerMessage { action: InputEventAction::Shoot, input_type: InputEventType::Released }
}

/// The steering finger and the shots after the first `n` new touches: the
/// first new touch while no finger steers becomes the steering finger, every
/// other new touch shoots.
pub open spec fn after_touches(finger: Option<u64>, touched: Seq<u64>, n: int) -> (
    Option<u64>,
    Seq<InputTriggerMessage>,
)
    decreases n,
{
    if n <= 0 {
        (finger, Seq::empty())
    } else {
        let (f, t) = after_touches(finger, touched, n - 1);
        if f is None {
            (Some(touched[n - 1]), t)
        } else {
            (f, t.push(shoot_pressed()))
        }
    }
}

/// The steering finger and the shot releases after the first `n` lifted
/// fingers: lifting the steering finger frees it, lifting another finger
/// ends shooting.
pub open spec fn after_lifts(finger: Option<u64>, lifted: Seq<u64>, n: int) -> (
    Option<u64>,
    Seq<InputTriggerMessage>,
)
    decreases n,
{
    if n <= 0 {
        (finger, Seq::empty())
    } else {
        let (f, t) = after_lifts(finger, lifted, n - 1);
        if f == Some(lifted[n - 1]) {
            (None, t)
        } else {
            (f, t.push(shoot_released()))
        }
    }
}

/// Which finger steers the ship on a touch screen.
#[derive(Clone, Copy, Debug, PartialEq, Eq, Structural)]
pub struct TouchTracker {
    pub move_finger: Option<u64>,
}

/// What the touch screen gives in one frame.
pub struct TouchReadout {
    /// The finger that started steering this frame, if one did.
    pub new_finger: Option<u64>,
    /// Whether the steering finger is still on the screen, so that its
    /// movement steers the ship.
    pub steering: bool,
    /// The shots and shot releases, presses first.
    pub triggers: Vec<InputTriggerMessage>,
}

impl TouchTracker {
    pub fn new() -> (t: Self)
        ensures
            t.move_finger is None,
    {
        TouchTracker { move_finger: None }
    }

    /// Follows the fingers through one frame: `touched` are the fingers put
    /// down this frame, `lifted` those lifted, `active` those on the screen.
    /// A steering finger that is no longer on the screen is forgotten.
    pub fn read_touch(&mut self, touched: &Vec<u64>, lifted: &Vec<u64>, active: &Vec<u64>) -> (r:
        TouchReadout)
        ensures
            ({
                let (f1, t1) = after_touches(old(self).move_finger, touched@, touched@.len() as int);
                let (f2, t2) = after_lifts(f1, lifted@, lifted@.len() as int);
                let on_screen = f2 is Some && active@.contains(f2->0);
                &&& r.triggers@ == t1 + t2
                &&& r.new_finger == (if old(self).move_finger is None && touched@.len() > 0 {
                    Some(touched@[0])
                } else {
                    None::<u64>
                })
                &&& r.steering == on_screen
                &&& final(self).move_finger == (if on_screen {
                    f2
                } else {
                    None::<u64>
                })
            }),
    {
        let ghost start = self.move_finger;
        let mut triggers: Vec<InputTriggerMessage> = Vec::new();
        let mut new_finger: Option<u64> = None;
        let mut i: usize = 0;
        while i < touched.len()
            invariant
                i <= touched@.len(),
                (self.move_finger, triggers@) == after_touches(start, touched@, i as int),
                new_finger == (if start is None && i > 0 {
                    Some(touched@[0])
                } else {
                    None::<u64>
                }),
                start is Some ==> self.move_finger == start,
                start is None && i > 0 ==> self.move_finger == Some(touched@[0]),
                start is None && i == 0 ==> self.move_finger is None,
            decreases touched@.len() - i,
        {
            if self.move_finger.is_none() {
                self.move_finger = Some(touched[i]);
                new_finger = Some(touched[i]);
            } else {
                triggers.push(InputTriggerMessage::new(InputEventAction::Shoot, InputEventType::Pressed));
            }
            i = i + 1;
        }
        let ghost after_press = triggers@;
        let ghost f1 = self.move_finger;
        let mut released: Vec<InputTriggerMessage> = Vec::new();
        let mut j: usize = 0;
        while j < lifted.len()
            invariant
                j <= lifted@.len(),
                (self.move_finger, released@) == after_lifts(f1, lifted@, j as int),
            decreases lifted@.len() - j,
        {
            let id = lifted[j];
            let is_finger = match self.move_finger {
                Some(f) => f == id,
                None => false,
            };
            if is_finger {
                self.move_finger = None;
            } else {
                released.push(InputTriggerMessage::new(InputEventAction::Shoot, InputEventType::Released));
            }
            j = j + 1;
        }
        triggers.append(&mut released);
        let mut found = false;
        match self.move_finger {
            Some(f) => {
                found = id_in(active, f);
                if !found {
                    self.move_finger = None;
                }
            },
            None => {},
        }
        TouchReadout { new_finger, steering: found, triggers }
    }
}

/// Whether `id` is in `ids`.
fn id_in(ids: &Vec<u64>, id: u64) -> (b: bool)
    ensures
        b == ids@.contains(id),
{
    let mut i: usize = 0;
    while i < ids.len()
        invariant
            i <= ids@.len(),
            forall|j: int| 0 <= j < i ==> ids@[j] != id,
        decreases ids@.len() - i,
    {
        if ids[i] == id {
            return true;
        }
        i = i + 1;
    }
    false
}

/// The state of a gamepad button this frame.
#[derive(Clone, Copy, Debug, PartialEq, Eq, Structural)]
pub struct ButtonEdge {
    pub just_pressed: bool,
    pub just_released: bool,
}

/// The message of a button bound to `action`: a press when it went down, or
/// else a release when it came up.
pub open spec fn edge_trigger(action: InputEventAction, edge: ButtonEdge) -> Seq<InputTriggerMessage> {
    if edge.just_pressed {
        seq![InputTriggerMessage { action, input_type: InputEventType::Pressed }]
    } else if edge.just_released {
        seq![InputTriggerMessage { action, input_type: InputEventType::Released }]
    } else {
        Seq::empty()
    }
}

/// The action messages of a gamepad: the east button raises the shield, the
/// south button shoots; the shield's message comes first.
pub fn gamepad_triggers(east: ButtonEdge, south: ButtonEdge) -> (t: Vec<InputTriggerMessage>)
    ensures
        t@ == edge_trigger(InputEventAction::Shield, east) + edge_trigger(
            InputEventAction::Shoot,
            south,
        ),
{
    let mut t: Vec<InputTriggerMessage> = Vec::new();
    if east.just_pressed {
        t.push(InputTriggerMessage::new(InputEventAction::Shield, InputEventType::Pressed));
    } else if east.just_released {
        t.push(InputTriggerMessage::new(InputEventAction::Shield, InputEventType::Released));
    }
    let ghost first = t@;
    if south.just_pressed {
        t.push(InputTriggerMessage::new(InputEventAction::Shoot, InputEventType::Pressed));
    } else if south.just_released {
        t.push(InputTriggerMessage::new(InputEventAction::Shoot, InputEventType::Released));
    }
    assert(t@ =~= first + edge_trigger(InputEventAction::Shoot, south));
    t
}

/// The value the directional pad's left and right buttons force on the
/// horizontal axis: 1 when right is held (whatever left does), else -1 when
/// left is held, else none (the stick decides).
pub fn dpad_x(left: bool, right: bool) -> (v: Option<i8>)
    ensures
        v == (if right {
            Some(1i8)
        } else if left {
            Some(-1i8)
        } else {
            None::<i8>
        }),
{
    let mut v: Option<i8> = None;
    if left {
        v = Some(-1);
    }
    if right {
        v = Some(1);
    }
    v
}

/// The value the directional pad's up and down buttons force on the vertical
/// axis: -1 when down is held (whatever up does), else 1 when up is held,
/// else none (the stick decides).
pub fn dpad_y(up: bool, down: bool) -> (v: Option<i8>)
    ensures
        v == (if down {
            Some(-1i8)
        } else if up {
            Some(1i8)
        } else {
            None::<i8>
        }),
{
    let mut v: Option<i8> = None;
    if up {
        v = Some(1);
    }
    if down {
        v = Some(-1);
    }
    v
}

} // verus!
