//! The length of epochs.
use vstd::arithmetic::power2::lemma2_to64;
use vstd::arithmetic::power2::lemma2_to64_rest;
use vstd::arithmetic::power2::lemma_pow2_strictly_increases;
use vstd::arithmetic::power2::lemma_pow2_unfold;
use vstd::arithmetic::power2::pow2;
use vstd::prelude::*;

verus! {

/// How many slots each epoch has. Epochs before `first_normal_epoch` are short and
/// double in length from one to the next.
#[derive(Debug, Clone, Copy, PartialEq, Eq, Structural)]
pub struct EpochSchedule {
    /// The maximum number of slots in each epoch.
    pub slots_per_epoch: u64,
    /// A number of slots before beginning of an epoch to calculate a leader
    /// schedule for that epoch.
    pub leader_schedule_slot_offset: u64,
    /// Whether epochs start short and grow.
    pub warmup: bool,
    /// The first epoch after the warmup period.
    pub first_normal_epoch: u64,
    /// The first slot after the warmup period.
    pub first_normal_slot: u64,
}

/// The power of two with the given exponent, or the largest `u64` if that is less.
pub open spec fn saturating_pow2(exponent: nat) -> u64 {
    if exponent >= 64 {
        u64::MAX
    } else {
        pow2(exponent) as u64
    }
}

impl EpochSchedule {
    /// The number of slots in an epoch. A short epoch has thirty-two slots, doubled
    /// once for each epoch before it; of its number only the low thirty-two bits
    /// count.
    pub open spec fn slots_in_epoch(&self, epoch: u64) -> u64 {
        if epoch < self.first_normal_epoch {
            saturating_pow2((epoch as int % 0x1_0000_0000 + 5) as nat)
        } else {
            self.slots_per_epoch
        }
    }

    /// `solana_epoch_schedule::EpochSchedule::get_slots_in_epoch`: two to the power
    /// of the epoch's low thirty-two bits plus five, saturating, in the warmup
    /// period, and `slots_per_epoch` after it.
    #[verifier::external_body]
    pub(crate) fn get_slots_in_epoch(&self, epoch: u64) -> (r: u64)
        ensures
            r == self.slots_in_epoch(epoch),
    {
        solana_epoch_schedule::EpochSchedule {
            slots_per_epoch: self.slots_per_epoch,
            leader_schedule_slot_offset: self.leader_schedule_slot_offset,
            warmup: self.warmup,
            first_normal_epoch: self.first_normal_epoch,
            first_normal_slot: self.first_normal_slot,
        }.get_slots_in_epoch(epoch)
    }
}

/// `solana_epoch_schedule::EpochSchedule::default`: 432000 slots per epoch after a
/// warmup that starts at 32 slots and doubles until the next power of two, 524288.
#[verifier::external_body]
fn default_schedule() -> (r: EpochSchedule)
    ensures
        r == (EpochSchedule {
            slots_per_epoch: 432_000,
            leader_schedule_slot_offset: 432_000,
            warmup: true,
            first_normal_epoch: 14,
            first_normal_slot: 524_256,
        }),
{
    let schedule = solana_epoch_schedule::EpochSchedule::default();
    EpochSchedule {
        slots_per_epoch: schedule.slots_per_epoch,
        leader_schedule_slot_offset: schedule.leader_schedule_slot_offset,
        warmup: schedule.warmup,
        first_normal_epoch: schedule.first_normal_epoch,
        first_normal_slot: schedule.first_normal_slot,
    }
}

impl Default for EpochSchedule {
    fn default() -> (r: Self)
        ensures
            r == (EpochSchedule {
                slots_per_epoch: 432_000,
                leader_schedule_slot_offset: 432_000,
                warmup: true,
                first_normal_epoch: 14,
                first_normal_slot: 524_256,
            }),
    {
        default_schedule()
    }
}

/// From the first normal epoch on, every epoch has the same number of slots. Before it
/// the first epoch has thirty-two, and each has twice as many as the one before, up to
/// the largest `u64`.
pub proof fn law_epochs_double_until_normal(schedule: EpochSchedule, epoch: u64)
    ensures
        epoch >= schedule.first_normal_epoch ==> schedule.slots_in_epoch(epoch)
            == schedule.slots_per_epoch,
        0 < schedule.first_normal_epoch ==> schedule.slots_in_epoch(0) == 32,
        epoch < 58 && epoch + 1 < schedule.first_normal_epoch ==> schedule.slots_in_epoch(
            (epoch + 1) as u64,
        ) == 2 * schedule.slots_in_epoch(epoch),
        59 <= epoch < 0x1_0000_0000 && epoch < schedule.first_normal_epoch
            ==> schedule.slots_in_epoch(epoch) == u64::MAX,
        0x1_0000_0000 <= epoch < schedule.first_normal_epoch ==> schedule.slots_in_epoch(epoch)
            == schedule.slots_in_epoch((epoch - 0x1_0000_0000) as u64),
{
    assert(pow2(5) == 32) by {
        lemma2_to64();
    }
    if epoch < 58 {
        assert(pow2(63) == 0x8000_0000_0000_0000) by {
            lemma2_to64_rest();
        }
        lemma_pow2_unfold((epoch + 6) as nat);
        if epoch + 6 < 63 {
            lemma_pow2_strictly_increases((epoch + 6) as nat, 63);
        }
    }
    if epoch >= 0x1_0000_0000 {
        assert((epoch - 0x1_0000_0000) % 0x1_0000_0000 == epoch as int % 0x1_0000_0000);
    }
}

} // verus!
