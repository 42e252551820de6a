//! Slots for the peripheral handles that both execution contexts reach: the
//! output port, the input port and the interrupt controller. They are filled
//! once at startup and read afterwards.
use vstd::prelude::*;

verus! {

/// One slot per peripheral handle, each empty until the hand-off.
pub struct PeripheralRegistry<O, I, E> {
    output: Option<O>,
    input: Option<I>,
    interrupts: Option<E>,
}

impl<O, I, E> PeripheralRegistry<O, I, E> {
    pub closed spec fn output_slot(&self) -> Option<O> {
        self.output
    }

    pub closed spec fn input_slot(&self) -> Option<I> {
        self.input
    }

    pub closed spec fn interrupts_slot(&self) -> Option<E> {
        self.interrupts
    }

    /// No slot holds a handle yet.
    pub open spec fn is_empty(&self) -> bool {
        &&& self.output_slot() is None
        &&& self.input_slot() is None
        &&& self.interrupts_slot() is None
    }

    /// Every slot holds its handle.
    pub open spec fn is_initialized(&self) -> bool {
        &&& self.output_slot() is Some
        &&& self.input_slot() is Some
        &&& self.interrupts_slot() is Some
    }

    /// The registry before the hand-off: every slot empty.
    pub fn new() -> (r: Self)
        ensures
            r.is_empty(),
    {
        PeripheralRegistry { output: None, input: None, interrupts: None }
    }

    /// The one hand-off: moves each handle into its slot.
    pub fn initialize(&mut self, output: O, input: I, interrupts: E)
        requires
            old(self).is_empty(),
        ensures
            final(self).output_slot() == Some(output),
            final(self).input_slot() == Some(input),
            final(self).interrupts_slot() == Some(interrupts),
            final(self).is_initialized(),
    {
        self.output = Some(output);
        self.input = Some(input);
        self.interrupts = Some(interrupts);
    }

    /// Whether the hand-off has taken place.
    pub fn is_ready(&self) -> (r: bool)
        ensures
            r == self.is_initialized(),
    {
        self.output.is_some() && self.input.is_some() && self.interrupts.is_some()
    }

    /// The output port handle.
    pub fn output(&self) -> (r: &O)
        requires
            self.output_slot() is Some,
        ensures
            Some(*r) == self.output_slot(),
    {
        self.output.as_ref().unwrap()
    }

    /// The input port handle.
    pub fn input(&self) -> (r: &I)
        requires
            self.input_slot() is Some,
        ensures
            Some(*r) == self.input_slot(),
    {
        self.input.as_ref().unwrap()
    }

    /// The interrupt controller handle.
    pub fn interrupts(&self) -> (r: &E)
        requires
            self.interrupts_slot() is Some,
        ensures
            Some(*r) == self.interrupts_slot(),
    {
        self.interrupts.as_ref().unwrap()
    }
}

} // verus!
