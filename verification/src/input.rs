//! Keys that steer the camera, and what a set of held keys asks of it.

use vstd::prelude::*;

verus! {

/// Whether a key is held down.
#[derive(Clone, Copy, Debug, PartialEq, Eq, Structural)]
pub enum KeyState {
    Pressed,
    Released,
}

/// The keys that steer the camera.
#[derive(Clone, Copy, Debug, PartialEq, Eq, Structural)]
pub enum Key {
    A,
    D,
    S,
    W,
    J,
    L,
    K,
    I,
}

/// The state of every steering key.
#[derive(Clone, Copy, Debug, PartialEq, Eq)]
#[allow(non_snake_case)]
pub struct KeyStates {
    pub A: KeyState,
    pub D: KeyState,
    pub S: KeyState,
    pub W: KeyState,
    pub J: KeyState,
    pub L: KeyState,
    pub K: KeyState,
    pub I: KeyState,
}

/// A way in which the camera can move.
#[derive(Clone, Copy, Debug, PartialEq, Eq, Structural)]
pub enum Motion {
    /// Sideways, along the right axis of the camera.
    MoveRight,
    /// Along the viewing direction.
    MoveForward,
    /// Around the vertical axis.
    RotateRight,
    /// Around the right axis.
    RotateUp,
}

/// One step of camera motion. The frame loop turns it into a distance or
/// an angle: the rate of the motion times the frame time, negated when
/// `negative` is set.
#[derive(Clone, Copy, Debug, PartialEq, Eq, Structural)]
pub struct CameraStep {
    pub motion: Motion,
    pub negative: bool,
}

/// The step that a held key asks for.
pub open spec fn step_of(key: Key) -> CameraStep {
    match key {
        Key::A => CameraStep { motion: Motion::MoveRight, negative: false },
        Key::D => CameraStep { motion: Motion::MoveRight, negative: true },
        Key::S => CameraStep { motion: Motion::MoveForward, negative: true },
        Key::W => CameraStep { motion: Motion::MoveForward, negative: false },
        Key::J => CameraStep { motion: Motion::RotateRight, negative: false },
        Key::L => CameraStep { motion: Motion::RotateRight, negative: true },
        Key::K => CameraStep { motion: Motion::RotateUp, negative: true },
        Key::I => CameraStep { motion: Motion::RotateUp, negative: false },
    }
}

/// The step of a key if it is pressed, nothing otherwise.
pub open spec fn step_if_pressed(state: KeyState, key: Key) -> Seq<CameraStep> {
    if state == KeyState::Pressed {
        seq![step_of(key)]
    } else {
        Seq::empty()
    }
}

impl KeyStates {
    /// The state in which every key is released.
    pub open spec fn released() -> KeyStates {
        KeyStates {
            A: KeyState::Released,
            D: KeyState::Released,
            S: KeyState::Released,
            W: KeyState::Released,
            J: KeyState::Released,
            L: KeyState::Released,
            K: KeyState::Released,
            I: KeyState::Released,
        }
    }

    /// The state of one key.
    pub open spec fn state_of(self, key: Key) -> KeyState {
        match key {
            Key::A => self.A,
            Key::D => self.D,
            Key::S => self.S,
            Key::W => self.W,
            Key::J => self.J,
            Key::L => self.L,
            Key::K => self.K,
            Key::I => self.I,
        }
    }

    /// The steps that the held keys ask for, in the fixed order A, D, S, W,
    /// J, L, K, I. Opposite keys held together ask for both steps.
    pub open spec fn steps(self) -> Seq<CameraStep> {
        step_if_pressed(self.A, Key::A) + step_if_pressed(self.D, Key::D) + step_if_pressed(
            self.S,
            Key::S,
        ) + step_if_pressed(self.W, Key::W) + step_if_pressed(self.J, Key::J) + step_if_pressed(
            self.L,
            Key::L,
        ) + step_if_pressed(self.K, Key::K) + step_if_pressed(self.I, Key::I)
    }

    /// Every key released.
    pub fn new() -> (states: KeyStates)
        ensures
            states == KeyStates::released(),
    {
        KeyStates {
            A: KeyState::Released,
            D: KeyState::Released,
            S: KeyState::Released,
            W: KeyState::Released,
            J: KeyState::Released,
            L: KeyState::Released,
            K: KeyState::Released,
            I: KeyState::Released,
        }
    }

    /// The state of one key.
    pub fn get(&self, key: Key) -> (state: KeyState)
        ensures
            state == self.state_of(key),
    {
        match key {
            Key::A => self.A,
            Key::D => self.D,
            Key::S => self.S,
            Key::W => self.W,
            Key::J => self.J,
            Key::L => self.L,
            Key::K => self.K,
            Key::I => self.I,
        }
    }

    /// Records that a key went down or up. The other keys keep their state.
    pub fn set(&mut self, key: Key, state: KeyState)
        ensures
            final(self).state_of(key) == state,
            forall|other: Key| other != key ==> final(self).state_of(other) == old(self).state_of(other),
    {
        match key {
            Key::A => self.A = state,
            Key::D => self.D = state,
            Key::S => self.S = state,
            Key::W => self.W = state,
            Key::J => self.J = state,
            Key::L => self.L = state,
            Key::K => self.K = state,
            Key::I => self.I = state,
        }
    }

    /// The steps that the held keys ask of the camera for one frame.
    pub fn camera_steps(&self) -> (steps: Vec<CameraStep>)
        ensures
            steps@ == self.steps(),
    {
        let mut steps: Vec<CameraStep> = Vec::new();
        push_if_pressed(&mut steps, self.A, Key::A);
        push_if_pressed(&mut steps, self.D, Key::D);
        push_if_pressed(&mut steps, self.S, Key::S);
        push_if_pressed(&mut steps, self.W, Key::W);
        push_if_pressed(&mut steps, self.J, Key::J);
        push_if_pressed(&mut steps, self.L, Key::L);
        push_if_pressed(&mut steps, self.K, Key::K);
        push_if_pressed(&mut steps, self.I, Key::I);
        assert(steps@ =~= self.steps());
        steps
    }
}

/// The step that a held key asks for.
pub fn key_step(key: Key) -> (step: CameraStep)
    ensures
        step == step_of(key),
{
    match key {
        Key::A => CameraStep { motion: Motion::MoveRight, negative: false },
        Key::D => CameraStep { motion: Motion::MoveRight, negative: true },
        Key::S => CameraStep { motion: Motion::MoveForward, negative: true },
        Key::W => CameraStep { motion: Motion::MoveForward, negative: false },
        Key::J => CameraStep { motion: Motion::RotateRight, negative: false },
        Key::L => CameraStep { motion: Motion::RotateRight, negative: true },
        Key::K => CameraStep { motion: Motion::RotateUp, negative: true },
        Key::I => CameraStep { motion: Motion::RotateUp, negative: false },
    }
}

fn push_if_pressed(steps: &mut Vec<CameraStep>, state: KeyState, key: Key)
    ensures
        final(steps)@ == old(steps)@ + step_if_pressed(state, key),
{
    match state {
        KeyState::Pressed => {
            steps.push(key_step(key));
            assert(steps@ =~= old(steps)@ + step_if_pressed(state, key));
        },
        KeyState::Released => {
            assert(steps@ =~= old(steps)@ + step_if_pressed(state, key));
        },
    }
}

} // verus!
