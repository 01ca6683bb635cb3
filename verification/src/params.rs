//! Validated cost configuration for one ROM generation.
use vstd::prelude::*;

verus! {

/// The tunable sizes and counts that control the computational and memory
/// cost of ROM generation and hashing. All fields must be positive and the
/// ROM must be at least as large as the pre-buffer it is expanded from.
#[derive(Clone, Copy, Debug, PartialEq, Eq, Structural)]
pub struct CostParameters {
    /// Iterations of the data-dependent traversal in one hash call.
    pub loop_count: u32,
    /// Per-iteration instruction budget; validated but not otherwise read,
    /// since no call site shapes the traversal with it.
    pub instruction_budget: u32,
    /// Words in the seed-expanded pre-buffer (phase one).
    pub pre_buffer_size: u32,
    /// Words in the finished ROM (phase two output).
    pub rom_size: u32,
    /// Diffusion passes applied over the whole ROM.
    pub mixing_rounds: u32,
}

impl CostParameters {
    /// Well-formedness of a cost configuration.
    pub open spec fn valid(self) -> bool {
        &&& self.loop_count > 0
        &&& self.instruction_budget > 0
        &&& self.pre_buffer_size > 0
        &&& self.rom_size > 0
        &&& self.mixing_rounds > 0
        &&& self.pre_buffer_size <= self.rom_size
    }

    /// Runtime check of `valid`.
    pub fn is_valid(&self) -> (b: bool)
        ensures
            b == self.valid(),
    {
        self.loop_count > 0 && self.instruction_budget > 0 && self.pre_buffer_size > 0
            && self.rom_size > 0 && self.mixing_rounds > 0
            && self.pre_buffer_size <= self.rom_size
    }
}

} // verus!
