use vstd::prelude::*;

verus! {

/// Why a gear selection was refused.
#[derive(Debug, Clone, Copy, PartialEq, Eq, Structural)]
pub enum GearboxError {
    /// The requested index is outside the ratio table; it carries that index.
    InvalidGear(usize),
}

/// A scalar transform through a selectable input and output ratio.
///
/// Ratios are whole numbers in one common unit (for instance tooth counts),
/// so that only their quotient matters.
#[derive(Debug, Clone, Copy)]
pub struct Gearbox<const I: usize, const O: usize> {
    pub input: [u64; I],
    pub output: [u64; O],
    pub current_input: usize,
    pub current_output: usize,
}

/// The exact quotient `value * input / output`, rounded down.
pub open spec fn transformed(value: int, input: int, output: int) -> int {
    (value * input) / output
}

impl<const I: usize, const O: usize> Gearbox<I, O> {
    /// Both selected indices lie in their tables, and no output ratio is zero.
    pub open spec fn wf(&self) -> bool {
        &&& self.current_input < I
        &&& self.current_output < O
        &&& forall|k: int| 0 <= k < O ==> #[trigger] self.output@[k] > 0
    }

    /// The ratio quotient currently in effect applied to `value`.
    pub open spec fn spec_transform(&self, value: int) -> int {
        transformed(
            value,
            self.input@[self.current_input as int] as int,
            self.output@[self.current_output as int] as int,
        )
    }

    /// A gearbox on the first input and first output ratio.
    pub fn new(input: [u64; I], output: [u64; O]) -> (r: Self)
        requires
            I > 0,
            O > 0,
            forall|k: int| 0 <= k < O ==> #[trigger] output@[k] > 0,
        ensures
            r.wf(),
            r.input == input,
            r.output == output,
            r.current_input == 0,
            r.current_output == 0,
    {
        Gearbox { input, output, current_input: 0, current_output: 0 }
    }

    /// `value * input[current_input] / output[current_output]`, rounded down.
    pub fn transform(&self, value: u64) -> (r: u128)
        requires
            self.wf(),
        ensures
            r as int == self.spec_transform(value as int),
    {
        let num: u64 = self.input[self.current_input];
        let den: u64 = self.output[self.current_output];
        assert(den > 0);
        assert(value as int * num as int <= u64::MAX as int * u64::MAX as int) by (nonlinear_arith)
            requires
                value <= u64::MAX,
                num <= u64::MAX,
        {}
        let product: u128 = (value as u128) * (num as u128);
        product / (den as u128)
    }

    /// Selects input ratio `gear`; an index outside the table is refused and
    /// nothing changes.
    pub fn set_input_gear(&mut self, gear: usize) -> (r: Result<(), GearboxError>)
        requires
            old(self).wf(),
        ensures
            final(self).wf(),
            gear < I ==> r == Ok::<(), GearboxError>(()) && *final(self) == (Gearbox {
                current_input: gear,
                ..*old(self)
            }),
            gear >= I ==> r == Err::<(), GearboxError>(GearboxError::InvalidGear(gear))
                && *final(self) == *old(self),
    {
        if gear >= self.input.len() {
            return Err(GearboxError::InvalidGear(gear));
        }
        self.current_input = gear;
        Ok(())
    }

    /// Selects output ratio `gear`; an index outside the table is refused and
    /// nothing changes.
    pub fn set_output_gear(&mut self, gear: usize) -> (r: Result<(), GearboxError>)
        requires
            old(self).wf(),
        ensures
            final(self).wf(),
            gear < O ==> r == Ok::<(), GearboxError>(()) && *final(self) == (Gearbox {
                current_output: gear,
                ..*old(self)
            }),
            gear >= O ==> r == Err::<(), GearboxError>(GearboxError::InvalidGear(gear))
                && *final(self) == *old(self),
    {
        if gear >= self.output.len() {
            return Err(GearboxError::InvalidGear(gear));
        }
        self.current_output = gear;
        Ok(())
    }
}

/// For every valid pair of selected indices, the transform is the value times
/// the chosen input ratio over the chosen output ratio.
pub proof fn lemma_transform_any_gear<const I: usize, const O: usize>(
    g: Gearbox<I, O>,
    i: usize,
    j: usize,
    value: int,
)
    requires
        g.wf(),
        i < I,
        j < O,
    ensures
        (Gearbox { current_input: i, current_output: j, ..g }).wf(),
        (Gearbox { current_input: i, current_output: j, ..g }).spec_transform(value) == (value
            * g.input@[i as int]) / g.output@[j as int] as int,
{
}

} // verus!
