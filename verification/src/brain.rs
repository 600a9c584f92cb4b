//! The fixed-topology recurrent controller.
//!
//! A brain is an `NUM_NEURONS` x `NUM_NEURONS` weight matrix together with
//! an activation vector. A contiguous prefix of the neuron indices are the
//! designated input slots, the next block are the designated motor outputs,
//! and the remaining indices are free interior neurons. The synchronous
//! numeric update of the activation vector is floating-point work and is
//! performed by the unverified shell; the library owns the data layout,
//! the slot discipline and the weight/genome correspondence.

use vstd::prelude::*;

use crate::scalar::Scalar;

verus! {

/// Number of neurons in every controller of a run.
pub const NUM_NEURONS: usize = 32;

/// Number of designated input slots.
pub const NUM_INPUTS: usize = 7;

/// Number of designated motor-output slots.
pub const NUM_OUTPUTS: usize = 2;

/// Number of fixed (input or output) slots; the rest are interior neurons.
pub const NUM_FIXED: usize = NUM_INPUTS + NUM_OUTPUTS;

/// The designated input slots, in slot order.
#[derive(Clone, Copy, Debug, PartialEq, Eq, Structural)]
pub enum Input {
    /// Constant bias, fed the value one every tick.
    Constant,
    /// Oscillator signal derived from the virtual time.
    Oscillator,
    /// The agent's own x position.
    X,
    /// The agent's own y position.
    Y,
    /// The safe zone's center x coordinate.
    SafeX,
    /// The safe zone's center y coordinate.
    SafeY,
    /// The safe zone's radius.
    SafeRadius,
}

/// The designated motor-output slots, in slot order after the inputs.
#[derive(Clone, Copy, Debug, PartialEq, Eq, Structural)]
pub enum Output {
    /// Displacement added to the agent's x position each tick.
    SpeedX,
    /// Displacement added to the agent's y position each tick.
    SpeedY,
}

impl Input {
    /// The neuron index of this input slot.
    pub open spec fn slot_spec(self) -> int {
        match self {
            Input::Constant => 0,
            Input::Oscillator => 1,
            Input::X => 2,
            Input::Y => 3,
            Input::SafeX => 4,
            Input::SafeY => 5,
            Input::SafeRadius => 6,
        }
    }

    /// The neuron index of this input slot.
    pub fn slot(self) -> (r: usize)
        ensures
            r as int == self.slot_spec(),
            r < NUM_INPUTS,
    {
        match self {
            Input::Constant => 0,
            Input::Oscillator => 1,
            Input::X => 2,
            Input::Y => 3,
            Input::SafeX => 4,
            Input::SafeY => 5,
            Input::SafeRadius => 6,
        }
    }
}

impl Output {
    /// The neuron index of this output slot.
    pub open spec fn slot_spec(self) -> int {
        match self {
            Output::SpeedX => NUM_INPUTS as int,
            Output::SpeedY => NUM_INPUTS as int + 1,
        }
    }

    /// The neuron index of this output slot.
    pub fn slot(self) -> (r: usize)
        ensures
            r as int == self.slot_spec(),
            NUM_INPUTS <= r < NUM_FIXED,
    {
        match self {
            Output::SpeedX => NUM_INPUTS,
            Output::SpeedY => NUM_INPUTS + 1,
        }
    }
}

/// Whether neuron index `i` is a designated input slot.
pub open spec fn is_input_slot(i: int) -> bool {
    0 <= i < NUM_INPUTS
}

/// Whether neuron index `i` is a designated motor-output slot.
pub open spec fn is_output_slot(i: int) -> bool {
    NUM_INPUTS <= i < NUM_FIXED
}

/// The recurrent controller: a square weight matrix and the current
/// activation vector. `weights[i][j]` is the weight from neuron `i` to
/// neuron `j`; the diagonal entry `weights[j][j]` acts as a bias.
#[derive(Debug)]
pub struct Brain {
    /// The weight matrix, row `i` holding the weights out of neuron `i`.
    pub weights: Vec<Vec<Scalar>>,
    /// The per-neuron activation, overwritten every tick.
    pub activation: Vec<Scalar>,
}

impl Brain {
    /// The shape every brain keeps: a square `NUM_NEURONS` matrix and an
    /// activation vector of the same height.
    pub open spec fn wf(self) -> bool {
        &&& self.weights@.len() == NUM_NEURONS
        &&& forall|i: int|
            0 <= i < NUM_NEURONS ==> (#[trigger] self.weights@[i])@.len() == NUM_NEURONS
        &&& self.activation@.len() == NUM_NEURONS
    }

    /// The weight from neuron `i` to neuron `j`.
    pub open spec fn weight_spec(self, i: int, j: int) -> Scalar {
        self.weights@[i]@[j]
    }

    /// A brain with every weight and every activation set to zero.
    pub fn new() -> (brain: Brain)
        ensures
            brain.wf(),
            forall|i: int, j: int|
                0 <= i < NUM_NEURONS && 0 <= j < NUM_NEURONS
                    ==> #[trigger] brain.weight_spec(i, j).bits == 0,
            forall|i: int| 0 <= i < NUM_NEURONS ==> #[trigger] brain.activation@[i].bits == 0,
    {
        let mut weights: Vec<Vec<Scalar>> = Vec::new();
        let mut i: usize = 0;
        while i < NUM_NEURONS
            invariant
                i <= NUM_NEURONS,
                weights@.len() == i,
                forall|r: int|
                    0 <= r < i ==> (#[trigger] weights@[r])@.len() == NUM_NEURONS,
                forall|r: int, c: int|
                    0 <= r < i && 0 <= c < NUM_NEURONS
                        ==> (#[trigger] weights@[r]@[c]).bits == 0,
            decreases NUM_NEURONS - i,
        {
            weights.push(zero_row());
            i = i + 1;
        }
        let activation = zero_row();
        Brain { weights, activation }
    }

    /// Assigns `value` to the designated input slot `input`.
    pub fn input(&mut self, input: Input, value: Scalar)
        requires
            old(self).wf(),
        ensures
            final(self).wf(),
            final(self).activation@ == old(self).activation@.update(input.slot_spec(), value),
            final(self).weights == old(self).weights,
    {
        let slot = input.slot();
        self.activation.set(slot, value);
    }

    /// Reads the designated output slot `output`.
    pub fn output(&self, output: Output) -> (r: Scalar)
        requires
            self.wf(),
        ensures
            r == self.activation@[output.slot_spec()],
    {
        let slot = output.slot();
        self.activation[slot]
    }
}

/// A vector of `NUM_NEURONS` zero scalars.
fn zero_row() -> (row: Vec<Scalar>)
    ensures
        row@.len() == NUM_NEURONS,
        forall|c: int| 0 <= c < NUM_NEURONS ==> #[trigger] row@[c].bits == 0,
{
    let mut row: Vec<Scalar> = Vec::new();
    let mut c: usize = 0;
    while c < NUM_NEURONS
        invariant
            c <= NUM_NEURONS,
            row@.len() == c,
            forall|t: int| 0 <= t < c ==> #[trigger] row@[t].bits == 0,
        decreases NUM_NEURONS - c,
    {
        row.push(Scalar::zero());
        c = c + 1;
    }
    row
}

} // verus!
