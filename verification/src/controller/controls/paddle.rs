use vstd::prelude::*;
use vstd::string::StringExecFns;

use crate::controller::{chord1, chord2, chord3, meta_is, ControlModeMeta};
use crate::fake_input::Key;

verus! {

/// `v` limited to `lo..=hi`.
pub open spec fn clamp(v: int, lo: int, hi: int) -> int {
    if v < lo {
        lo
    } else if v > hi {
        hi
    } else {
        v
    }
}

/// Absolute value.
pub open spec fn abs(v: int) -> int {
    if v < 0 {
        -v
    } else {
        v
    }
}

/// Integer division rounding toward zero, of a non-negative `a`.
pub open spec fn trunc_div(a: int, d: int) -> int {
    if d > 0 {
        a / d
    } else {
        -(a / (-d))
    }
}

/// Whether a rotation turns the other way than the previous one.
pub open spec fn direction_changed(last_delta: i32, delta: i32) -> bool {
    (delta < 0) != (last_delta < 0)
}

/// The velocity after a rotation of `delta`: it restarts from zero when the
/// direction changes, and stays within `-cap..=cap`.
pub open spec fn delta_velocity(velocity: i32, last_delta: i32, delta: i32, cap: i32) -> int {
    let v = if direction_changed(last_delta, delta) {
        0
    } else {
        velocity as int
    };
    clamp(v + delta, -(cap as int), cap as int)
}

/// The rotations for which adding to the velocity does not overflow.
pub open spec fn delta_fits(velocity: i32, last_delta: i32, delta: i32) -> bool {
    direction_changed(last_delta, delta) || i32::MIN <= velocity + delta <= i32::MAX
}

/// How much one step of decay takes off a velocity.
pub open spec fn falloff_amount(velocity: i32, falloff_divisor: i32) -> int {
    trunc_div(abs(velocity as int), falloff_divisor as int) + 1
}

/// The velocity after one step of decay: it moves toward zero by
/// `|velocity| / falloff_divisor + 1`, and stays within `-cap..=cap`.
pub open spec fn falloff_velocity(velocity: i32, falloff_divisor: i32, cap: i32) -> int {
    let f = falloff_amount(velocity, falloff_divisor);
    let v = if velocity < 0 {
        velocity + f
    } else if velocity > 0 {
        velocity - f
    } else {
        0
    };
    clamp(v, -(cap as int), cap as int)
}

/// The velocities and divisors for which a step of decay does not overflow.
pub open spec fn falloff_fits(velocity: i32, falloff_divisor: i32) -> bool {
    let f = falloff_amount(velocity, falloff_divisor);
    &&& velocity != i32::MIN
    &&& falloff_divisor != 0
    &&& f <= i32::MAX
    &&& velocity < 0 ==> i32::MIN <= velocity + f <= i32::MAX
    &&& velocity > 0 ==> i32::MIN <= velocity - f <= i32::MAX
}

/// `v` limited to `lo..=hi`, as `Ord::clamp` computes it.
fn clamp_i32(v: i32, lo: i32, hi: i32) -> (r: i32)
    requires
        lo <= hi,
    ensures
        r == clamp(v as int, lo as int, hi as int),
{
    if v < lo {
        lo
    } else if v > hi {
        hi
    } else {
        v
    }
}

/// Applies a rotation delta to the velocity, resetting it when the direction
/// changes. Returns the new velocity and the delta, which becomes the last
/// delta.
pub fn apply_delta(velocity: i32, last_delta: i32, delta: i32, cap: i32) -> (r: (i32, i32))
    requires
        cap >= 0,
        delta_fits(velocity, last_delta, delta),
    ensures
        r.0 == delta_velocity(velocity, last_delta, delta, cap),
        r.1 == delta,
{
    let v = if (delta < 0) != (last_delta < 0) {
        0
    } else {
        velocity
    };
    let v = clamp_i32(v + delta, -cap, cap);
    (v, delta)
}

/// `a / d` rounded toward zero, for a non-negative `a`.
fn trunc_div_nonneg(a: i32, d: i32) -> (r: i32)
    requires
        a >= 0,
        d != 0,
    ensures
        r == trunc_div(a as int, d as int),
{
    if d > 0 {
        a / d
    } else if d == i32::MIN {
        0
    } else {
        -(a / (-d))
    }
}

/// Applies one step of decay to the velocity (when no rotation came in
/// time).
pub fn apply_falloff(velocity: i32, falloff_divisor: i32, cap: i32) -> (r: i32)
    requires
        cap >= 0,
        falloff_fits(velocity, falloff_divisor),
    ensures
        r == falloff_velocity(velocity, falloff_divisor, cap),
{
    let speed = if velocity < 0 {
        -velocity
    } else {
        velocity
    };
    let falloff = trunc_div_nonneg(speed, falloff_divisor) + 1;
    let v = if velocity < 0 {
        velocity + falloff
    } else if velocity > 0 {
        velocity - falloff
    } else {
        0
    };
    clamp_i32(v, -cap, cap)
}

/// A message to the paddle's worker.
#[derive(Clone, Copy, Debug, PartialEq, Eq, Structural)]
pub enum Msg {
    Kill,
    ButtonDown,
    ButtonUp,
    Delta(i32),
    Enabled(bool),
}

/// What the worker's wait for a message gave: a message, or nothing within
/// the worker's timeout.
#[derive(Clone, Copy, Debug, PartialEq, Eq, Structural)]
pub enum WorkerInput {
    Msg(Msg),
    Timeout,
}

/// A change to the virtual keyboard: a chord pressed or released.
#[derive(Debug)]
pub enum KeyAction {
    Press(Vec<Key>),
    Release(Vec<Key>),
}

/// A key action as whether it presses, and its keys.
pub open spec fn action_view(a: KeyAction) -> (bool, Seq<Key>) {
    match a {
        KeyAction::Press(keys) => (true, keys@),
        KeyAction::Release(keys) => (false, keys@),
    }
}

/// Milliseconds that the worker waits for a rotation before the velocity
/// decays.
pub const PADDLE_TIMEOUT_MS: u64 = 5;

/// Divisor of the velocity's decay.
pub const PADDLE_FALLOFF: i32 = 10;

/// Largest speed of the paddle.
pub const PADDLE_CAP: i32 = 250;

/// Speeds below this keep the paddle still.
pub const PADDLE_DEADZONE: i32 = 10;

/// The state of the paddle that its decisions depend on.
#[derive(Clone, Copy, Debug, PartialEq, Eq, Structural)]
pub struct PaddleState {
    pub enabled: bool,
    pub last_delta: i32,
    pub velocity: i32,
}

/// The inputs that the worker handles without overflow: rotations whose
/// sum with the velocity fits.
pub open spec fn input_fits(s: PaddleState, input: WorkerInput) -> bool {
    input matches WorkerInput::Msg(Msg::Delta(d)) ==> delta_fits(s.velocity, s.last_delta, d)
}

/// The state after the worker handles an input other than `Kill`.
pub open spec fn state_after(s: PaddleState, input: WorkerInput) -> PaddleState {
    match input {
        WorkerInput::Msg(Msg::Enabled(e)) => PaddleState { enabled: e, ..s },
        WorkerInput::Msg(Msg::Delta(d)) => PaddleState {
            last_delta: d,
            velocity: delta_velocity(s.velocity, s.last_delta, d, PADDLE_CAP) as i32,
            ..s
        },
        WorkerInput::Timeout => PaddleState {
            velocity: falloff_velocity(s.velocity, PADDLE_FALLOFF, PADDLE_CAP) as i32,
            ..s
        },
        _ => s,
    }
}

/// The key actions that a message itself calls for: disabling releases
/// every key of the paddle, the button presses and releases space.
pub open spec fn message_actions(input: WorkerInput) -> Seq<(bool, Seq<Key>)> {
    match input {
        WorkerInput::Msg(Msg::Enabled(false)) => seq![(false, seq![Key::KEY_SPACE, Key::KEY_LEFT, Key::KEY_RIGHT])],
        WorkerInput::Msg(Msg::ButtonDown) => seq![(true, seq![Key::KEY_SPACE])],
        WorkerInput::Msg(Msg::ButtonUp) => seq![(false, seq![Key::KEY_SPACE])],
        _ => seq![],
    }
}

/// The key actions for a velocity: below the dead zone both arrows are
/// released, otherwise the arrow of the velocity's direction is pressed.
pub open spec fn velocity_actions(velocity: i32) -> Seq<(bool, Seq<Key>)> {
    if abs(velocity as int) < PADDLE_DEADZONE {
        seq![(false, seq![Key::KEY_LEFT, Key::KEY_RIGHT])]
    } else if velocity < 0 {
        seq![(true, seq![Key::KEY_LEFT])]
    } else {
        seq![(true, seq![Key::KEY_RIGHT])]
    }
}

/// The state after `n` inputs that are all timeouts.
pub open spec fn after_timeouts(s: PaddleState, n: nat) -> PaddleState
    decreases n,
{
    if n == 0 {
        s
    } else {
        after_timeouts(state_after(s, WorkerInput::Timeout), (n - 1) as nat)
    }
}

/// Left alone, the paddle comes to rest: timeouts never raise the speed,
/// as many timeouts as the speed bring the velocity to zero, and once the
/// speed is inside the dead zone (at the start or after any number of the
/// timeouts) every later timeout releases both arrows and presses none.
pub proof fn timeouts_bring_paddle_to_rest(s: PaddleState, n: nat)
    requires
        -PADDLE_CAP <= s.velocity <= PADDLE_CAP,
    ensures
        -PADDLE_CAP <= after_timeouts(s, n).velocity <= PADDLE_CAP,
        abs(after_timeouts(s, n).velocity as int) <= abs(s.velocity as int),
        n >= abs(s.velocity as int) ==> after_timeouts(s, n).velocity == 0,
        abs(s.velocity as int) < PADDLE_DEADZONE ==> velocity_actions(after_timeouts(s, n).velocity)
            == seq![(false, seq![Key::KEY_LEFT, Key::KEY_RIGHT])],
        forall|k: nat|
            k <= n && abs(#[trigger] after_timeouts(s, k).velocity as int) < PADDLE_DEADZONE
                ==> velocity_actions(after_timeouts(s, n).velocity) == seq![
                (false, seq![Key::KEY_LEFT, Key::KEY_RIGHT]),
            ],
    decreases n,
{
    if n > 0 {
        falloff_moves_toward_rest(s.velocity, PADDLE_FALLOFF, PADDLE_CAP);
        let next = state_after(s, WorkerInput::Timeout);
        timeouts_bring_paddle_to_rest(next, (n - 1) as nat);
        assert forall|k: nat|
            k <= n && abs(#[trigger] after_timeouts(s, k).velocity as int) < PADDLE_DEADZONE
                implies velocity_actions(after_timeouts(s, n).velocity) == seq![
                (false, seq![Key::KEY_LEFT, Key::KEY_RIGHT]),
            ] by {
            if k > 0 {
                assert(after_timeouts(s, k) == after_timeouts(next, (k - 1) as nat));
            }
        }
    }
}

/// The last key action of a step follows the new velocity: both arrows are
/// released inside the dead zone, otherwise the arrow of its direction is
/// pressed.
pub proof fn last_action_follows_velocity(input: WorkerInput, velocity: i32)
    requires
        -PADDLE_CAP <= velocity <= PADDLE_CAP,
    ensures
        ({
            let actions = message_actions(input) + velocity_actions(velocity);
            &&& actions.len() >= 1
            &&& actions.last() == if abs(velocity as int) < PADDLE_DEADZONE {
                (false, seq![Key::KEY_LEFT, Key::KEY_RIGHT])
            } else if velocity <= -PADDLE_DEADZONE {
                (true, seq![Key::KEY_LEFT])
            } else {
                (true, seq![Key::KEY_RIGHT])
            }
        }),
{
}

/// Turns the dial into left/right arrow keys with momentum: rotations add
/// to a velocity that decays while the dial rests, and the arrow of the
/// velocity's direction is held while the speed is outside the dead zone.
#[derive(Debug)]
pub struct Worker {
    timeout: u64,
    falloff: i32,
    cap: i32,
    deadzone: i32,
    enabled: bool,
    last_delta: i32,
    velocity: i32,
}

impl Worker {
    /// The worker's state.
    pub closed spec fn state(&self) -> PaddleState {
        PaddleState { enabled: self.enabled, last_delta: self.last_delta, velocity: self.velocity }
    }

    /// The worker's tuning is fixed, and its velocity stays within the cap.
    pub closed spec fn wf(&self) -> bool {
        &&& self.timeout == PADDLE_TIMEOUT_MS
        &&& self.falloff == PADDLE_FALLOFF
        &&& self.cap == PADDLE_CAP
        &&& self.deadzone == PADDLE_DEADZONE
        &&& -PADDLE_CAP <= self.velocity <= PADDLE_CAP
    }

    /// A disabled worker at rest.
    pub fn new() -> (r: Worker)
        ensures
            r.wf(),
            r.state() == (PaddleState { enabled: false, last_delta: 0, velocity: 0 }),
    {
        Worker {
            timeout: 5,
            falloff: 10,
            cap: 250,
            deadzone: 10,
            enabled: false,
            last_delta: 0,
            velocity: 0,
        }
    }

    /// Whether the worker is enabled; only then does it wait with a timeout.
    pub fn is_enabled(&self) -> (r: bool)
        ensures
            r == self.state().enabled,
    {
        self.enabled
    }

    /// How long an enabled worker waits for a message, in milliseconds.
    pub fn timeout_ms(&self) -> (r: u64)
        requires
            self.wf(),
        ensures
            r == PADDLE_TIMEOUT_MS,
    {
        self.timeout
    }

    /// Whether the worker can handle `input` without overflow.
    pub fn accepts(&self, input: WorkerInput) -> (r: bool)
        requires
            self.wf(),
        ensures
            r == input_fits(self.state(), input),
    {
        match input {
            WorkerInput::Msg(Msg::Delta(d)) => {
                if (d < 0) != (self.last_delta < 0) {
                    true
                } else {
                    let sum = self.velocity as i64 + d as i64;
                    i32::MIN as i64 <= sum && sum <= i32::MAX as i64
                }
            },
            _ => true,
        }
    }

    /// Handles one input. `None` means that the worker stops; otherwise the
    /// key actions to perform, in order.
    pub fn step(&mut self, input: WorkerInput) -> (r: Option<Vec<KeyAction>>)
        requires
            old(self).wf(),
            input_fits(old(self).state(), input),
        ensures
            final(self).wf(),
            -PADDLE_CAP <= final(self).state().velocity <= PADDLE_CAP,
            input == WorkerInput::Msg(Msg::Kill) ==> r is None && final(self).state() == old(self).state(),
            input != WorkerInput::Msg(Msg::Kill) ==> {
                &&& final(self).state() == state_after(old(self).state(), input)
                &&& r matches Some(actions)
                &&& actions@.map_values(|a: KeyAction| action_view(a)) == message_actions(input)
                    + velocity_actions(final(self).state().velocity)
            },
    {
        let mut actions: Vec<KeyAction> = Vec::new();
        match input {
            WorkerInput::Msg(Msg::Kill) => {
                return None;
            },
            WorkerInput::Msg(Msg::Enabled(enabled)) => {
                self.enabled = enabled;
                if !enabled {
                    actions.push(KeyAction::Release(chord3(Key::KEY_SPACE, Key::KEY_LEFT, Key::KEY_RIGHT)));
                }
            },
            WorkerInput::Msg(Msg::ButtonDown) => {
                actions.push(KeyAction::Press(chord1(Key::KEY_SPACE)));
            },
            WorkerInput::Msg(Msg::ButtonUp) => {
                actions.push(KeyAction::Release(chord1(Key::KEY_SPACE)));
            },
            WorkerInput::Msg(Msg::Delta(delta)) => {
                let (v, ld) = apply_delta(self.velocity, self.last_delta, delta, self.cap);
                self.velocity = v;
                self.last_delta = ld;
            },
            WorkerInput::Timeout => {
                proof {
                    lemma_falloff_fits(self.velocity);
                }
                self.velocity = apply_falloff(self.velocity, self.falloff, self.cap);
            },
        }
        // keep the velocity within the cap
        if self.velocity > self.cap {
            self.velocity = self.cap;
        } else if self.velocity < -self.cap {
            self.velocity = -self.cap;
        }
        let ghost first = actions@.map_values(|a: KeyAction| action_view(a));
        assert(first =~= message_actions(input));
        let speed = if self.velocity < 0 {
            -self.velocity
        } else {
            self.velocity
        };
        if speed < self.deadzone {
            actions.push(KeyAction::Release(chord2(Key::KEY_LEFT, Key::KEY_RIGHT)));
        } else if self.velocity < 0 {
            actions.push(KeyAction::Press(chord1(Key::KEY_LEFT)));
        } else if self.velocity > 0 {
            actions.push(KeyAction::Press(chord1(Key::KEY_RIGHT)));
        }
        assert(actions@.map_values(|a: KeyAction| action_view(a)) =~= first + velocity_actions(self.velocity));
        Some(actions)
    }
}

/// One step of decay, when the divisor is at least 2, moves a velocity
/// toward zero without passing it, and leaves zero at zero.
pub proof fn falloff_moves_toward_rest(velocity: i32, falloff_divisor: i32, cap: i32)
    requires
        falloff_divisor >= 2,
        cap >= 0,
        -cap <= velocity <= cap,
    ensures
        falloff_fits(velocity, falloff_divisor),
        velocity == 0 ==> falloff_velocity(velocity, falloff_divisor, cap) == 0,
        velocity > 0 ==> 0 <= falloff_velocity(velocity, falloff_divisor, cap) < velocity,
        velocity < 0 ==> velocity < falloff_velocity(velocity, falloff_divisor, cap) <= 0,
{
    let a = abs(velocity as int);
    let d = falloff_divisor as int;
    assert(a / d <= a / 2) by (nonlinear_arith)
        requires
            a >= 0,
            d >= 2,
    {
        vstd::arithmetic::div_mod::lemma_div_is_ordered_by_denominator(a, 2, d);
    }
    assert(a / d >= 0) by (nonlinear_arith)
        requires
            a >= 0,
            d >= 2,
    ;
}

/// The velocity after `n` steps of decay.
pub open spec fn falloff_steps(velocity: i32, falloff_divisor: i32, cap: i32, n: nat) -> i32
    decreases n,
{
    if n == 0 {
        velocity
    } else {
        falloff_steps(falloff_velocity(velocity, falloff_divisor, cap) as i32, falloff_divisor, cap, (n - 1) as nat)
    }
}

/// Left alone, the paddle comes to rest: with a divisor of at least 2, as
/// many steps of decay as the speed bring any velocity within the cap to
/// zero.
pub proof fn falloff_reaches_rest(velocity: i32, falloff_divisor: i32, cap: i32, n: nat)
    requires
        falloff_divisor >= 2,
        cap >= 0,
        -cap <= velocity <= cap,
        n >= abs(velocity as int),
    ensures
        falloff_steps(velocity, falloff_divisor, cap, n) == 0,
    decreases n,
{
    falloff_moves_toward_rest(velocity, falloff_divisor, cap);
    if n > 0 {
        let next = falloff_velocity(velocity, falloff_divisor, cap) as i32;
        falloff_reaches_rest(next, falloff_divisor, cap, (n - 1) as nat);
    }
}

/// A rotation's new velocity: when it turns the other way than the last
/// rotation (one of the two is negative and the other is not), the old
/// velocity is dropped and the new one is the rotation alone; otherwise the
/// rotation adds to the old velocity. Either way the result is limited to
/// `-cap..=cap`.
pub proof fn rotation_restarts_on_direction_change(velocity: i32, last_delta: i32, delta: i32, cap: i32)
    requires
        cap >= 0,
    ensures
        ({
            let r = delta_velocity(velocity, last_delta, delta, cap);
            let sum = if (delta < 0 && last_delta >= 0) || (delta >= 0 && last_delta < 0) {
                delta as int
            } else {
                velocity + delta
            };
            &&& -cap <= r <= cap
            &&& -cap <= sum <= cap ==> r == sum
            &&& sum > cap ==> r == cap
            &&& sum < -cap ==> r == -cap
        }),
        delta > 0 && last_delta < 0 ==> delta_velocity(velocity, last_delta, delta, cap) == if delta > cap {
            cap as int
        } else {
            delta as int
        },
        delta < 0 && last_delta >= 0 ==> delta_velocity(velocity, last_delta, delta, cap) == if delta < -cap {
            -cap
        } else {
            delta as int
        },
{
}

/// One step of decay with a divisor of at least 2 moves a velocity within
/// the cap toward zero by exactly `|velocity| / divisor + 1` (the quotient
/// rounded down), never past zero.
pub proof fn decay_takes_a_fraction_plus_one(velocity: i32, falloff_divisor: i32, cap: i32)
    requires
        falloff_divisor >= 2,
        cap >= 0,
        -cap <= velocity <= cap,
    ensures
        velocity > 0 ==> falloff_velocity(velocity, falloff_divisor, cap) == velocity - (velocity as int
            / falloff_divisor as int + 1),
        velocity < 0 ==> falloff_velocity(velocity, falloff_divisor, cap) == velocity + ((-velocity) as int
            / falloff_divisor as int + 1),
        velocity == 0 ==> falloff_velocity(velocity, falloff_divisor, cap) == 0,
{
    falloff_moves_toward_rest(velocity, falloff_divisor, cap);
    let a = abs(velocity as int);
    let d = falloff_divisor as int;
    assert(a / d < a || a == 0) by (nonlinear_arith)
        requires
            a >= 0,
            d >= 2,
    ;
}

/// The space bar follows the dial's button: a press of the button presses
/// space first and nothing after it touches space; a release of the button,
/// or disabling the paddle, releases space first and nothing after it
/// presses space; every other input leaves space alone. The velocity's own
/// action comes last in each case.
pub proof fn space_follows_the_button(input: WorkerInput, velocity: i32)
    ensures
        ({
            let acts = message_actions(input) + velocity_actions(velocity);
            &&& input == WorkerInput::Msg(Msg::ButtonUp) ==> {
                &&& acts.len() == 2
                &&& acts[0] == (false, seq![Key::KEY_SPACE])
                &&& forall|i: int| 0 <= i < acts.len() && (#[trigger] acts[i]).0 ==> !acts[i].1.contains(Key::KEY_SPACE)
            }
            &&& input == WorkerInput::Msg(Msg::ButtonDown) ==> {
                &&& acts.len() == 2
                &&& acts[0] == (true, seq![Key::KEY_SPACE])
                &&& forall|i: int| 1 <= i < acts.len() ==> !(#[trigger] acts[i]).1.contains(Key::KEY_SPACE)
            }
            &&& input == WorkerInput::Msg(Msg::Enabled(false)) ==> {
                &&& acts.len() == 2
                &&& acts[0] == (false, seq![Key::KEY_SPACE, Key::KEY_LEFT, Key::KEY_RIGHT])
                &&& forall|i: int| 0 <= i < acts.len() && (#[trigger] acts[i]).0 ==> !acts[i].1.contains(Key::KEY_SPACE)
            }
            &&& (input != WorkerInput::Msg(Msg::ButtonUp) && input != WorkerInput::Msg(Msg::ButtonDown) && input
                != WorkerInput::Msg(Msg::Enabled(false))) ==> {
                &&& acts.len() == 1
                &&& forall|i: int| 0 <= i < acts.len() ==> !(#[trigger] acts[i]).1.contains(Key::KEY_SPACE)
            }
        }),
{
    let va = velocity_actions(velocity);
    assert(va.len() == 1);
    assert(!va[0].1.contains(Key::KEY_SPACE)) by {
        if va[0].1.contains(Key::KEY_SPACE) {
            let k = choose|k: int| 0 <= k < va[0].1.len() && va[0].1[k] == Key::KEY_SPACE;
        }
    }
    let acts = message_actions(input) + va;
    if message_actions(input).len() == 1 {
        assert(acts[1] == va[0]);
    } else {
        assert(acts[0] == va[0]);
    }
}

/// A velocity within the cap decays without overflow.
proof fn lemma_falloff_fits(velocity: i32)
    requires
        -PADDLE_CAP <= velocity <= PADDLE_CAP,
    ensures
        falloff_fits(velocity, PADDLE_FALLOFF),
        -PADDLE_CAP <= falloff_velocity(velocity, PADDLE_FALLOFF, PADDLE_CAP) <= PADDLE_CAP,
{
}

/// The paddle: a bit of a misnomer, since it only moves left and right.
/// The button is the space bar.
#[derive(Debug)]
pub struct Paddle {}

impl Paddle {
    pub fn new() -> Paddle {
        Paddle {}
    }

    pub fn meta(&self) -> (r: ControlModeMeta)
        ensures
            meta_is(r, "Paddle"@, "input-gaming"@, false, 3600),
    {
        ControlModeMeta {
            name: String::from_str("Paddle"),
            icon: String::from_str("input-gaming"),
            haptics: false,
            steps: 3600,
        }
    }

    /// Starting the mode enables the worker.
    pub fn on_start(&mut self) -> (r: Msg)
        ensures
            r == Msg::Enabled(true),
    {
        Msg::Enabled(true)
    }

    /// Ending the mode disables the worker.
    pub fn on_end(&mut self) -> (r: Msg)
        ensures
            r == Msg::Enabled(false),
    {
        Msg::Enabled(false)
    }

    pub fn on_btn_press(&mut self) -> (r: Msg)
        ensures
            r == Msg::ButtonDown,
    {
        Msg::ButtonDown
    }

    pub fn on_btn_release(&mut self) -> (r: Msg)
        ensures
            r == Msg::ButtonUp,
    {
        Msg::ButtonUp
    }

    pub fn on_dial(&mut self, delta: i32) -> (r: Msg)
        ensures
            r == Msg::Delta(delta),
    {
        Msg::Delta(delta)
    }
}

} // verus!
