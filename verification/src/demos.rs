//! The registry of demos: an ordered list of effects, one of them active.
//!
//! The settings panel offers the effects by name. Only the active effect
//! takes the panel's input, and only the active effect draws.

use vstd::prelude::*;
use crate::draw::{is_quad_draw, DrawCommand};
use crate::orbit::{OrbitDemo, OrbitInput, OrbitParams};
use crate::pipeline::Setup;
use crate::scalar::Scalar;

verus! {

/// An effect. The set of effects is closed.
#[derive(Clone, Copy, Debug)]
pub enum WgpuDemo {
    Orbit(OrbitDemo),
}

/// What the controls of an effect hold.
#[derive(Clone, Copy, Debug, PartialEq, Eq, Structural)]
pub enum DemoInput {
    Orbit(OrbitInput),
}

impl OrbitDemo {
    /// The effect as a member of the registry.
    pub fn convert(self) -> (demo: WgpuDemo)
        ensures
            demo == WgpuDemo::Orbit(self),
    {
        WgpuDemo::Orbit(self)
    }
}

impl WgpuDemo {
    /// The name that the selector shows.
    pub open spec fn name_of(self) -> Seq<char> {
        match self {
            WgpuDemo::Orbit(_) => "Orbit"@,
        }
    }

    /// What the controls hold before the user touches them.
    pub open spec fn controls(self) -> DemoInput {
        match self {
            WgpuDemo::Orbit(demo) => DemoInput::Orbit(demo@.controls()),
        }
    }

    /// The elapsed angle, in tenths of a degree.
    pub open spec fn elapsed(self) -> u64 {
        match self {
            WgpuDemo::Orbit(demo) => demo@.time,
        }
    }

    /// The effect is `before` after one update of the settings panel that
    /// left the controls at `input`.
    pub open spec fn is_update_of(self, before: WgpuDemo, input: DemoInput) -> bool {
        match (self, before, input) {
            (WgpuDemo::Orbit(now), WgpuDemo::Orbit(then), DemoInput::Orbit(input)) => now@
                == then@.updated(input),
        }
    }

    /// `commands` draw this effect at the elapsed angle `time`, in radians.
    pub open spec fn draws(self, commands: Seq<DrawCommand>, time: Scalar) -> bool {
        match self {
            WgpuDemo::Orbit(demo) => is_quad_draw(commands, demo@.words(time)),
        }
    }

    /// `setup` is what is created once for this effect.
    pub open spec fn is_setup(self, setup: Setup) -> bool {
        match self {
            WgpuDemo::Orbit(_) => OrbitDemo::is_setup(setup),
        }
    }

    /// The name that the selector shows.
    pub fn name(&self) -> (name: &'static str)
        ensures
            name@ == self.name_of(),
    {
        match self {
            WgpuDemo::Orbit(demo) => demo.name(),
        }
    }

    /// What the controls hold before the user touches them.
    pub fn input(&self) -> (input: DemoInput)
        ensures
            input == self.controls(),
    {
        match self {
            WgpuDemo::Orbit(demo) => DemoInput::Orbit(demo.input()),
        }
    }

    /// The elapsed angle, in tenths of a degree.
    pub fn time(&self) -> (time: u64)
        ensures
            time == self.elapsed(),
    {
        match self {
            WgpuDemo::Orbit(demo) => demo.params().time,
        }
    }

    /// One update of the settings panel that left the controls at `input`.
    pub fn ui(&mut self, input: &DemoInput)
        ensures
            final(self).is_update_of(*old(self), *input),
            final(self).elapsed() >= old(self).elapsed(),
    {
        match (self, input) {
            (WgpuDemo::Orbit(demo), DemoInput::Orbit(input)) => demo.ui(input),
        }
    }

    /// The commands that draw the effect at the elapsed angle `time`, in
    /// radians.
    pub fn render(&self, time: Scalar) -> (commands: Vec<DrawCommand>)
        ensures
            self.draws(commands@, time),
    {
        match self {
            WgpuDemo::Orbit(demo) => demo.render(time),
        }
    }

    /// What is created once for the effect.
    pub fn setup(&self) -> (setup: Setup)
        ensures
            self.is_setup(setup),
    {
        match self {
            WgpuDemo::Orbit(_) => OrbitDemo::setup(),
        }
    }
}

/// The registry: the effects in the order of the selector, and which of
/// them is active. There is always an active effect.
pub struct WgpuDemos {
    curr_demo: usize,
    demos: Vec<WgpuDemo>,
}

impl WgpuDemos {
    #[verifier::type_invariant]
    spec fn valid(&self) -> bool {
        self.curr_demo < self.demos.len()
    }

    /// The effects, in the order of the selector.
    pub closed spec fn units(&self) -> Seq<WgpuDemo> {
        self.demos@
    }

    /// Index of the active effect.
    pub closed spec fn active(&self) -> int {
        self.curr_demo as int
    }

    /// The registry is `before` after the selector chose `index`: an index
    /// of the list becomes the active one, any other changes nothing. The
    /// effects stay as they are.
    pub open spec fn is_selection_of(&self, before: &WgpuDemos, index: usize) -> bool {
        &&& self.units() == before.units()
        &&& self.active() == if index < before.units().len() {
            index as int
        } else {
            before.active()
        }
    }

    /// The registry is `before` after one update of the settings panel that
    /// left the controls of the active effect at `input`: the active effect
    /// is updated, the others are untouched, and the same effect is active.
    pub open spec fn is_update_of(&self, before: &WgpuDemos, input: DemoInput) -> bool {
        &&& self.active() == before.active()
        &&& self.units().len() == before.units().len()
        &&& self.units()[self.active()].is_update_of(before.units()[before.active()], input)
        &&& forall|j: int|
            0 <= j < self.units().len() && j != self.active() ==> self.units()[j]
                == before.units()[j]
    }

    /// `commands` draw the active effect, and nothing else, at the elapsed
    /// angle `time`, in radians.
    pub open spec fn draws(&self, commands: Seq<DrawCommand>, time: Scalar) -> bool {
        self.units()[self.active()].draws(commands, time)
    }

    /// The registry with the orbit effect, which is active.
    pub fn new() -> (demos: WgpuDemos)
        ensures
            demos.active() == 0,
            demos.units().len() == 1,
            demos.units()[0] matches WgpuDemo::Orbit(demo) && demo@ == OrbitParams::defaults(),
    {
        let mut demos: Vec<WgpuDemo> = Vec::new();
        demos.push(OrbitDemo::new().convert());
        WgpuDemos { curr_demo: 0, demos }
    }

    /// Number of effects. It is never zero.
    pub fn len(&self) -> (len: usize)
        ensures
            len == self.units().len(),
            len > 0,
    {
        proof {
            use_type_invariant(self);
        }
        self.demos.len()
    }

    /// Index of the active effect. It is an index of the list in every
    /// state of the registry.
    pub fn selected(&self) -> (index: usize)
        ensures
            index == self.active(),
            0 <= self.active() < self.units().len(),
    {
        proof {
            use_type_invariant(self);
        }
        self.curr_demo
    }

    /// The names of the effects, in the order of the selector.
    pub fn names(&self) -> (names: Vec<&'static str>)
        ensures
            names@.len() == self.units().len(),
            forall|i: int| 0 <= i < names@.len() ==> names@[i]@ == self.units()[i].name_of(),
    {
        let mut names: Vec<&'static str> = Vec::new();
        let mut i: usize = 0;
        while i < self.demos.len()
            invariant
                i <= self.demos@.len(),
                names@.len() == i,
                forall|k: int| 0 <= k < i ==> names@[k]@ == self.demos@[k].name_of(),
            decreases self.demos@.len() - i,
        {
            names.push(self.demos[i].name());
            i += 1;
        }
        names
    }

    /// Makes the effect at `index` the active one. An index outside the
    /// list changes nothing.
    pub fn select(&mut self, index: usize)
        ensures
            final(self).is_selection_of(old(self), index),
    {
        if index < self.demos.len() {
            self.curr_demo = index;
        }
    }

    /// What the controls of the active effect hold before the user touches
    /// them.
    pub fn input(&self) -> (input: DemoInput)
        ensures
            input == self.units()[self.active()].controls(),
    {
        proof {
            use_type_invariant(self);
        }
        self.demos[self.curr_demo].input()
    }

    /// The elapsed angle of the active effect, in tenths of a degree.
    pub fn time(&self) -> (time: u64)
        ensures
            time == self.units()[self.active()].elapsed(),
    {
        proof {
            use_type_invariant(self);
        }
        self.demos[self.curr_demo].time()
    }

    /// One update of the settings panel that left the controls of the
    /// active effect at `input`.
    pub fn ui(&mut self, input: &DemoInput)
        ensures
            final(self).is_update_of(old(self), *input),
    {
        proof {
            use_type_invariant(&*self);
        }
        let i = self.curr_demo;
        self.demos[i].ui(input);
    }

    /// The commands that draw the active effect at the elapsed angle
    /// `time`, in radians. No other effect takes part.
    pub fn render(&self, time: Scalar) -> (commands: Vec<DrawCommand>)
        ensures
            self.draws(commands@, time),
    {
        proof {
            use_type_invariant(self);
        }
        self.demos[self.curr_demo].render(time)
    }

    /// What is created once for the effect at `index`, if there is one.
    pub fn setup(&self, index: usize) -> (setup: Option<Setup>)
        ensures
            setup is Some <==> index < self.units().len(),
            setup matches Some(setup) ==> self.units()[index as int].is_setup(setup),
    {
        if index < self.demos.len() {
            Some(self.demos[index].setup())
        } else {
            None
        }
    }
}

/// Selecting an effect and then drawing draws that effect: the commands
/// are those of the effect at the chosen index.
pub proof fn lemma_select_then_draw(
    before: WgpuDemos,
    after: WgpuDemos,
    index: usize,
    commands: Seq<DrawCommand>,
    time: Scalar,
)
    requires
        index < before.units().len(),
        after.is_selection_of(&before, index),
        after.draws(commands, time),
    ensures
        before.units()[index as int].draws(commands, time),
{
}

/// A draw depends on the active effect alone: two registries whose active
/// effects are equal are drawn by the same commands, whatever their other
/// effects hold.
pub proof fn lemma_draw_ignores_inactive(
    one: WgpuDemos,
    other: WgpuDemos,
    commands: Seq<DrawCommand>,
    time: Scalar,
)
    requires
        one.units()[one.active()] == other.units()[other.active()],
    ensures
        one.draws(commands, time) <==> other.draws(commands, time),
{
}

} // verus!
