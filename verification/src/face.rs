//! The face controller: a state machine that decides, once per tick, which
//! animation is active, and advances that animation's frame pointer.

use vstd::prelude::*;

use crate::animation::Animation;
use crate::animation::lemma_tick_advances;
use crate::animation::DrawCommand;
use crate::animation::FrameArea;
use crate::animation::Player;
use crate::dice::hits;
use crate::dice::next_roll;
use crate::dice::roll_hits;
use crate::jolt::did_jolt;
use crate::jolt::jolted;
use crate::HEIGHT;
use crate::WIDTH;

verus! {

/// Number of frames in the startup animation.
pub const STARTUP_FRAMES: u32 = 27;

/// Number of frames in the blink animation.
pub const BLINK_FRAMES: u32 = 9;

/// Number of frames in the animation that leads from idling into sleep.
pub const IDLE_TO_EEPY_FRAMES: u32 = 5;

/// Number of frames in the sleep animation.
pub const EEPY_FRAMES: u32 = 16;

/// Number of idle ticks after which the face falls asleep.
pub const EEPY_TIMEOUT: u32 = 200;

/// Chance, in percent per idle tick, that the face blinks.
pub const BLINK_CHANCE: u8 = 1;

/// Chance, in percent per tick, that the face gets over a jolt.
pub const JOLT_RECOVERY_CHANCE: u8 = 20;

/// Red part of the colour that fills the display after a jolt.
pub const ALERT_RED: u8 = 255;

/// Green part of the colour that fills the display after a jolt.
pub const ALERT_GREEN: u8 = 99;

/// Blue part of the colour that fills the display after a jolt.
pub const ALERT_BLUE: u8 = 71;

/// What the face is doing.
#[derive(Clone, Copy, Debug, PartialEq, Eq, Structural)]
pub enum State {
    Startup,
    Idle,
    Blink,
    Jolt,
    IdleToEepy,
    Eepy,
}

/// The decoded images of the face: one atlas for each animated state, and
/// the still image of the idle face.
pub struct Assets<T> {
    pub startup: T,
    pub blink: T,
    pub idle_to_eepy: T,
    pub eepy: T,
    pub idle_image: T,
}

/// The mathematical state of the face controller.
pub struct Controller {
    pub state: State,
    pub eepy_timer: nat,
    pub startup: Player,
    pub blink: Player,
    pub idle_to_eepy: Player,
    pub eepy: Player,
}

impl Controller {
    /// Every frame player is well formed.
    pub open spec fn wf(self) -> bool {
        &&& self.startup.wf()
        &&& self.blink.wf()
        &&& self.idle_to_eepy.wf()
        &&& self.eepy.wf()
    }

    /// The controller right after construction.
    pub open spec fn initial() -> Controller {
        Controller {
            state: State::Startup,
            eepy_timer: 0,
            startup: Player::fresh(STARTUP_FRAMES as nat),
            blink: Player::fresh(BLINK_FRAMES as nat),
            idle_to_eepy: Player::fresh(IDLE_TO_EEPY_FRAMES as nat),
            eepy: Player::fresh(EEPY_FRAMES as nat),
        }
    }

    /// The state whose rule is applied on a tick: a jolt overrides whatever
    /// the face was doing.
    pub open spec fn acting_state(self, jolt: bool) -> State {
        if jolt {
            State::Jolt
        } else {
            self.state
        }
    }

    /// Whether a tick rolls the dice.
    pub open spec fn rolls(self, jolt: bool) -> bool {
        self.acting_state(jolt) == State::Idle || self.acting_state(jolt) == State::Jolt
    }

    /// Whether a tick is defined: an idle tick needs a countdown that has
    /// not run out.
    pub open spec fn can_step(self, jolt: bool) -> bool {
        self.acting_state(jolt) == State::Idle ==> self.eepy_timer > 0
    }

    /// The controller after one tick on which `jolt` tells whether the face
    /// was jolted and `roll` is what the dice gave. The roll matters only
    /// where [`Controller::rolls`] holds. Nothing is said of a tick for
    /// which [`Controller::can_step`] fails.
    pub open spec fn step(self, jolt: bool, roll: u32) -> Controller {
        match self.acting_state(jolt) {
            State::Startup => Controller {
                state: if self.startup.completes() {
                    State::Idle
                } else {
                    State::Startup
                },
                eepy_timer: if self.startup.completes() {
                    EEPY_TIMEOUT as nat
                } else {
                    self.eepy_timer
                },
                startup: self.startup.tick(),
                ..self
            },
            State::Blink => Controller {
                state: if self.blink.completes() {
                    State::Idle
                } else {
                    State::Blink
                },
                blink: self.blink.tick(),
                ..self
            },
            State::IdleToEepy => Controller {
                state: if self.idle_to_eepy.completes() {
                    State::Eepy
                } else {
                    State::IdleToEepy
                },
                idle_to_eepy: self.idle_to_eepy.tick(),
                ..self
            },
            State::Eepy => Controller { state: State::Eepy, eepy: self.eepy.tick(), ..self },
            State::Idle => Controller {
                state: if self.eepy_timer == 1 {
                    State::IdleToEepy
                } else if roll_hits(roll, BLINK_CHANCE as nat) {
                    State::Blink
                } else {
                    State::Idle
                },
                eepy_timer: (self.eepy_timer - 1) as nat,
                ..self
            },
            State::Jolt => Controller {
                state: if roll_hits(roll, JOLT_RECOVERY_CHANCE as nat) {
                    State::Blink
                } else {
                    State::Jolt
                },
                ..self
            },
        }
    }

    /// The controller after one tick for each entry of `inputs`, in order.
    /// An entry tells whether the face was jolted on that tick, and what the
    /// dice gave.
    pub open spec fn run(self, inputs: Seq<(bool, u32)>) -> Controller
        decreases inputs.len(),
    {
        if inputs.len() == 0 {
            self
        } else {
            self.run(inputs.drop_last()).step(inputs.last().0, inputs.last().1)
        }
    }
}

/// A tick keeps every frame player well formed and never changes the number
/// of frames of one.
pub proof fn lemma_step_keeps_players(c: Controller, jolt: bool, roll: u32)
    requires
        c.wf(),
    ensures
        c.step(jolt, roll).wf(),
        c.step(jolt, roll).startup.frame_count == c.startup.frame_count,
        c.step(jolt, roll).blink.frame_count == c.blink.frame_count,
        c.step(jolt, roll).idle_to_eepy.frame_count == c.idle_to_eepy.frame_count,
        c.step(jolt, roll).eepy.frame_count == c.eepy.frame_count,
{
    lemma_tick_advances(c.startup);
    lemma_tick_advances(c.blink);
    lemma_tick_advances(c.idle_to_eepy);
    lemma_tick_advances(c.eepy);
}

/// Where a tick does not roll the dice, its outcome does not depend on the
/// roll.
pub proof fn lemma_roll_unused(c: Controller, jolt: bool, roll: u32, other: u32)
    requires
        !c.rolls(jolt),
    ensures
        c.step(jolt, roll) == c.step(jolt, other),
{
}

/// A new controller is in the startup state and shows the first frame of
/// the startup atlas.
pub proof fn lemma_initial_scene<T>(assets: &Assets<T>)
    ensures
        Controller::initial().wf(),
        Controller::initial().state == State::Startup,
        scene(Controller::initial(), assets) == (DrawCommand::Frame {
            atlas: &assets.startup,
            area: FrameArea { x: 0, y: 0, width: WIDTH, height: HEIGHT },
        }),
{
}

/// Without a jolt, a new controller stays in the startup state for as many
/// ticks as the startup animation has frames, whatever the dice give: the
/// last of them leads into the idle state and sets the countdown to sleep.
pub proof fn lemma_startup_length(inputs: Seq<(bool, u32)>)
    requires
        inputs.len() <= STARTUP_FRAMES,
        forall|i: int| 0 <= i < inputs.len() ==> !(#[trigger] inputs[i]).0,
    ensures
        Controller::initial().run(inputs).startup.frame_count == STARTUP_FRAMES,
        inputs.len() < STARTUP_FRAMES ==> Controller::initial().run(inputs) == (Controller {
            startup: Player { frame_count: STARTUP_FRAMES as nat, index: inputs.len() },
            ..Controller::initial()
        }),
        inputs.len() == STARTUP_FRAMES ==> Controller::initial().run(inputs) == (Controller {
            state: State::Idle,
            eepy_timer: EEPY_TIMEOUT as nat,
            ..Controller::initial()
        }),
    decreases inputs.len(),
{
    if inputs.len() > 0 {
        lemma_startup_length(inputs.drop_last());
    }
}

/// Running through two sequences of ticks, one after the other, is running
/// through their concatenation.
pub proof fn lemma_run_concat(c: Controller, first: Seq<(bool, u32)>, second: Seq<(bool, u32)>)
    ensures
        c.run(first + second) == c.run(first).run(second),
    decreases second.len(),
{
    if second.len() == 0 {
        assert(first + second =~= first);
    } else {
        lemma_run_concat(c, first, second.drop_last());
        assert((first + second).drop_last() =~= first + second.drop_last());
    }
}

/// Without a jolt, a blink lasts for as many ticks as the blink animation
/// has frames, whatever the dice give, and leaves the countdown as it was.
pub proof fn lemma_blink_length(c: Controller, inputs: Seq<(bool, u32)>)
    requires
        c.state == State::Blink,
        c.blink == Player::fresh(BLINK_FRAMES as nat),
        inputs.len() <= BLINK_FRAMES,
        forall|i: int| 0 <= i < inputs.len() ==> !(#[trigger] inputs[i]).0,
    ensures
        inputs.len() < BLINK_FRAMES ==> c.run(inputs) == (Controller {
            blink: Player { frame_count: BLINK_FRAMES as nat, index: inputs.len() },
            ..c
        }),
        inputs.len() == BLINK_FRAMES ==> c.run(inputs) == (Controller { state: State::Idle, ..c }),
    decreases inputs.len(),
{
    if inputs.len() > 0 {
        lemma_blink_length(c, inputs.drop_last());
    }
}

/// Once asleep, the face stays asleep until it is jolted.
pub proof fn lemma_sleep_lasts(c: Controller, inputs: Seq<(bool, u32)>)
    requires
        c.state == State::Eepy,
        forall|i: int| 0 <= i < inputs.len() ==> !(#[trigger] inputs[i]).0,
    ensures
        c.run(inputs).state == State::Eepy,
        c.run(inputs).eepy_timer == c.eepy_timer,
    decreases inputs.len(),
{
    if inputs.len() > 0 {
        lemma_sleep_lasts(c, inputs.drop_last());
    }
}

/// The countdown can run out while the face idles. A jolt during startup
/// that the dice end at once leads, through one blink, into idling with a
/// countdown that was never set; from there, only a tick with a jolt is
/// defined.
pub proof fn lemma_countdown_can_run_out(roll: u32, blink: Seq<(bool, u32)>)
    requires
        roll_hits(roll, JOLT_RECOVERY_CHANCE as nat),
        blink.len() == BLINK_FRAMES,
        forall|i: int| 0 <= i < blink.len() ==> !(#[trigger] blink[i]).0,
    ensures
        Controller::initial().run(seq![(true, roll)] + blink).state == State::Idle,
        Controller::initial().run(seq![(true, roll)] + blink).eepy_timer == 0,
        !Controller::initial().run(seq![(true, roll)] + blink).can_step(false),
        Controller::initial().run(seq![(true, roll)] + blink).can_step(true),
{
    let jolt = seq![(true, roll)];
    let jolted = Controller::initial().step(true, roll);
    assert(jolt.drop_last() =~= Seq::<(bool, u32)>::empty());
    assert(Controller::initial().run(jolt.drop_last()) == Controller::initial());
    assert(Controller::initial().run(jolt) == jolted);
    lemma_run_concat(Controller::initial(), jolt, blink);
    lemma_blink_length(jolted, blink);
}

/// The last idle tick of the countdown leads into falling asleep, whether
/// or not the dice call for a blink.
pub proof fn lemma_idle_timeout(c: Controller, roll: u32)
    requires
        c.state == State::Idle,
        c.eepy_timer == 1,
    ensures
        c.step(false, roll) == (Controller { state: State::IdleToEepy, eepy_timer: 0, ..c }),
{
}

/// Before that, an idle tick counts down by one, and the face blinks
/// exactly when the dice hit the blink chance.
pub proof fn lemma_idle_tick(c: Controller, roll: u32)
    requires
        c.state == State::Idle,
        c.eepy_timer > 1,
    ensures
        c.step(false, roll) == (Controller {
            state: if roll_hits(roll, BLINK_CHANCE as nat) {
                State::Blink
            } else {
                State::Idle
            },
            eepy_timer: (c.eepy_timer - 1) as nat,
            ..c
        }),
{
}

/// A jolt overrides every state: whatever the face was doing, the tick
/// touches neither the countdown nor any frame player, and leaves the face
/// jolted unless the dice hit the chance of getting over it at once, in
/// which case the face blinks.
pub proof fn lemma_jolt_overrides(c: Controller, roll: u32)
    ensures
        c.can_step(true),
        c.step(true, roll) == (Controller {
            state: if roll_hits(roll, JOLT_RECOVERY_CHANCE as nat) {
                State::Blink
            } else {
                State::Jolt
            },
            ..c
        }),
        !roll_hits(roll, JOLT_RECOVERY_CHANCE as nat) ==> c.step(true, roll).state == State::Jolt,
{
}

/// What has to be on the display for a controller in state `c` that owns
/// `assets`.
pub open spec fn scene<'a, T>(c: Controller, assets: &'a Assets<T>) -> DrawCommand<'a, T> {
    match c.state {
        State::Startup => DrawCommand::Frame { atlas: &assets.startup, area: c.startup.area() },
        State::Blink => DrawCommand::Frame { atlas: &assets.blink, area: c.blink.area() },
        State::IdleToEepy => DrawCommand::Frame {
            atlas: &assets.idle_to_eepy,
            area: c.idle_to_eepy.area(),
        },
        State::Eepy => DrawCommand::Frame { atlas: &assets.eepy, area: c.eepy.area() },
        State::Idle => DrawCommand::Image { image: &assets.idle_image },
        State::Jolt => DrawCommand::Clear {
            red: ALERT_RED,
            green: ALERT_GREEN,
            blue: ALERT_BLUE,
        },
    }
}

/// The face controller. It owns the dice, the countdown to sleep, one frame
/// player for each animated state and the still image of the idle face.
pub struct App<T> {
    state: State,
    dice: fastrand::Rng,
    eepy_timer: u32,
    startup_anim: Animation<T>,
    blink_anim: Animation<T>,
    idle_to_eepy_anim: Animation<T>,
    eepy_anim: Animation<T>,
    idle_image: T,
}

impl<T> View for App<T> {
    type V = Controller;

    closed spec fn view(&self) -> Controller {
        Controller {
            state: self.state,
            eepy_timer: self.eepy_timer as nat,
            startup: self.startup_anim@,
            blink: self.blink_anim@,
            idle_to_eepy: self.idle_to_eepy_anim@,
            eepy: self.eepy_anim@,
        }
    }
}

impl<T> App<T> {
    /// The images that the controller owns.
    pub closed spec fn assets(&self) -> Assets<T> {
        Assets {
            startup: self.startup_anim.atlas(),
            blink: self.blink_anim.atlas(),
            idle_to_eepy: self.idle_to_eepy_anim.atlas(),
            eepy: self.eepy_anim.atlas(),
            idle_image: self.idle_image,
        }
    }

    /// A controller in the startup state, with every animation at its first
    /// frame and dice that start from `seed`.
    pub fn new(assets: Assets<T>, seed: u64) -> (app: Self)
        ensures
            app@ == Controller::initial(),
            app.assets() == assets,
            scene(app@, &app.assets()) == (DrawCommand::Frame {
                atlas: &assets.startup,
                area: FrameArea { x: 0, y: 0, width: WIDTH, height: HEIGHT },
            }),
    {
        App {
            state: State::Startup,
            dice: fastrand::Rng::with_seed(seed),
            eepy_timer: 0,
            startup_anim: Animation::new(assets.startup, STARTUP_FRAMES),
            blink_anim: Animation::new(assets.blink, BLINK_FRAMES),
            idle_to_eepy_anim: Animation::new(assets.idle_to_eepy, IDLE_TO_EEPY_FRAMES),
            eepy_anim: Animation::new(assets.eepy, EEPY_FRAMES),
            idle_image: assets.idle_image,
        }
    }

    /// The current state.
    pub fn state(&self) -> (state: State)
        ensures
            state == self@.state,
    {
        self.state
    }

    /// Idle ticks left before the face falls asleep.
    pub fn eepy_timer(&self) -> (ticks: u32)
        ensures
            ticks == self@.eepy_timer,
    {
        self.eepy_timer
    }

    /// Tells whether a tick with this sample is defined.
    pub fn can_update(&self, accel: Option<(i32, i32, i32)>) -> (defined: bool)
        ensures
            defined == self@.can_step(jolted(accel)),
    {
        if did_jolt(accel) {
            true
        } else {
            match self.state {
                State::Idle => self.eepy_timer > 0,
                _ => true,
            }
        }
    }

    /// One tick with the roll given by the caller.
    pub fn update_with_roll(&mut self, accel: Option<(i32, i32, i32)>, roll: u32)
        requires
            old(self)@.can_step(jolted(accel)),
        ensures
            final(self)@ == old(self)@.step(jolted(accel), roll),
            final(self)@.wf(),
            final(self).assets() == old(self).assets(),
    {
        if did_jolt(accel) {
            self.state = State::Jolt;
        }
        match self.state {
            State::Startup => {
                if self.startup_anim.tick() {
                    self.state = State::Idle;
                    self.eepy_timer = EEPY_TIMEOUT;
                }
            },
            State::Blink => {
                if self.blink_anim.tick() {
                    self.state = State::Idle;
                }
            },
            State::IdleToEepy => {
                if self.idle_to_eepy_anim.tick() {
                    self.state = State::Eepy;
                }
            },
            State::Eepy => {
                self.eepy_anim.tick();
            },
            State::Idle => {
                if hits(roll, BLINK_CHANCE) {
                    self.state = State::Blink;
                }
                self.eepy_timer -= 1;
                if self.eepy_timer == 0 {
                    self.state = State::IdleToEepy;
                }
            },
            State::Jolt => {
                if hits(roll, JOLT_RECOVERY_CHANCE) {
                    self.state = State::Blink;
                }
            },
        }
        proof {
            use_type_invariant(&self.startup_anim);
            use_type_invariant(&self.blink_anim);
            use_type_invariant(&self.idle_to_eepy_anim);
            use_type_invariant(&self.eepy_anim);
        }
    }

    /// One tick: a jolt overrides the current state, then the rule of the
    /// state is applied, with a roll of the dice where the rule needs one.
    pub fn update(&mut self, accel: Option<(i32, i32, i32)>)
        requires
            old(self)@.can_step(jolted(accel)),
        ensures
            exists|roll: u32| final(self)@ == #[trigger] old(self)@.step(jolted(accel), roll),
            !old(self)@.rolls(jolted(accel)) ==> final(self)@ == old(self)@.step(jolted(accel), 0),
            final(self)@.wf(),
            final(self).assets() == old(self).assets(),
    {
        let rolls = if did_jolt(accel) {
            true
        } else {
            match self.state {
                State::Idle | State::Jolt => true,
                _ => false,
            }
        };
        let roll: u32 = if rolls {
            next_roll(&mut self.dice)
        } else {
            0
        };
        self.update_with_roll(accel, roll);
    }

    /// The command that shows the face as it is now.
    pub fn draw(&self) -> (cmd: DrawCommand<'_, T>)
        ensures
            cmd == scene(self@, &self.assets()),
    {
        match self.state {
            State::Startup => self.startup_anim.draw(),
            State::Blink => self.blink_anim.draw(),
            State::IdleToEepy => self.idle_to_eepy_anim.draw(),
            State::Eepy => self.eepy_anim.draw(),
            State::Idle => DrawCommand::Image { image: &self.idle_image },
            State::Jolt => DrawCommand::Clear {
                red: ALERT_RED,
                green: ALERT_GREEN,
                blue: ALERT_BLUE,
            },
        }
    }
}

} // verus!
