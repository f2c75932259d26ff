//! The random draws of one task.
//!
//! Each task owns a small pseudo-random generator that is seeded from the
//! task's index alone, so that a task makes the same draws in every trial.

use rand::rngs::SmallRng;
use rand::{Rng, SeedableRng};
use vstd::prelude::*;

use crate::params::Probability;

verus! {

/// `rand::rngs::SmallRng`, a small pseudo-random generator. Its state is
/// hidden; the library only hands it to the draws below.
#[verifier::external_type_specification]
#[verifier::external_body]
pub struct ExSmallRng(SmallRng);

/// The constant that every task's seed is derived from.
pub const SEED_BASE: u64 = 0xA110C;

/// The seed of task `task_index`: the index, mixed into `SEED_BASE`.
pub open spec fn seed_of(task_index: usize) -> u64 {
    SEED_BASE ^ (task_index as u64)
}

/// The seed of a task depends on its index and on nothing else.
pub fn task_seed(task_index: usize) -> (seed: u64)
    ensures
        seed == seed_of(task_index),
{
    SEED_BASE ^ (task_index as u64)
}

/// Different tasks get different seeds.
pub proof fn lemma_seeds_distinct(a: usize, b: usize)
    requires
        a != b,
    ensures
        seed_of(a) != seed_of(b),
{
    let x = a as u64;
    let y = b as u64;
    assert(x != y ==> 0xA110Cu64 ^ x != 0xA110Cu64 ^ y) by (bit_vector);
}

/// `SmallRng::seed_from_u64`: a generator whose state is derived from `seed`,
/// handed out together with that seed. Nothing is claimed of what the
/// generator will draw.
#[verifier::external_body]
fn seeded(seed: u64) -> (rng: TaskRng)
    ensures
        rng.seed() == seed,
{
    TaskRng { inner: SmallRng::seed_from_u64(seed), seed }
}

/// `Rng::random_range` on an inclusive range of `usize`: a value in
/// `low..=high`. The call panics on an empty range, which `requires` leaves
/// out.
#[verifier::external_body]
fn draw_inclusive(rng: &mut SmallRng, low: usize, high: usize) -> (value: usize)
    requires
        low <= high,
    ensures
        low <= value <= high,
{
    rng.random_range(low..=high)
}

/// `Rng::random_range` on a half-open range of `usize`: a value in
/// `low..end`. The call panics on an empty range, which `requires` leaves
/// out.
#[verifier::external_body]
fn draw_below(rng: &mut SmallRng, low: usize, end: usize) -> (value: usize)
    requires
        low < end,
    ensures
        low <= value < end,
{
    rng.random_range(low..end)
}

/// `Rng::random_ratio`: true with a chance of `numerator` in `denominator`;
/// always true where the two are equal, never where `numerator` is 0. The
/// call panics on a ratio above 1 or with denominator 0, which `requires`
/// leaves out.
#[verifier::external_body]
fn draw_ratio(rng: &mut SmallRng, numerator: u32, denominator: u32) -> (hit: bool)
    requires
        0 < denominator,
        numerator <= denominator,
    ensures
        numerator == denominator ==> hit,
        numerator == 0 ==> !hit,
{
    rng.random_ratio(numerator, denominator)
}

/// The generator of one task.
pub struct TaskRng {
    inner: SmallRng,
    seed: u64,
}

impl TaskRng {
    /// The seed that the generator was made from.
    pub closed spec fn seed(self) -> u64 {
        self.seed
    }

    /// The generator of task `task_index`. Its seed is that of the task: it
    /// depends on the index alone, not on the workload, the clock or the
    /// worker that runs the task.
    pub fn for_task(task_index: usize) -> (rng: TaskRng)
        ensures
            rng.seed() == seed_of(task_index),
    {
        seeded(task_seed(task_index))
    }

    /// The seed that the generator was made from.
    pub fn made_from(&self) -> (seed: u64)
        ensures
            seed == self.seed(),
    {
        self.seed
    }

    /// Draws the size of the next buffer, between 1 and `max_size` bytes.
    pub fn size(&mut self, max_size: usize) -> (size: usize)
        requires
            1 <= max_size,
        ensures
            1 <= size <= max_size,
            final(self).seed() == old(self).seed(),
    {
        draw_inclusive(&mut self.inner, 1, max_size)
    }

    /// Decides whether the next buffer is kept: surely where `chance` is 1,
    /// surely not where it is 0.
    pub fn keep(&mut self, chance: Probability) -> (kept: bool)
        requires
            chance.valid(),
        ensures
            chance.certain() ==> kept,
            chance.impossible() ==> !kept,
            final(self).seed() == old(self).seed(),
    {
        draw_ratio(&mut self.inner, chance.numerator, chance.denominator)
    }

    /// Picks which of `len` held buffers is evicted.
    pub fn victim(&mut self, len: usize) -> (index: usize)
        requires
            0 < len,
        ensures
            index < len,
            final(self).seed() == old(self).seed(),
    {
        draw_below(&mut self.inner, 0, len)
    }
}

} // verus!
