//! Rent collection.
//!
//! The rent that falls due over a number of years is not computed with integers. The
//! functions that need it take the computation as an argument; they fix what it is
//! given and what is done with its result.
use crate::account::AccountSharedData;
use crate::account::AccountView;
use crate::account::IndexOfAccount;
use crate::account::TransactionContext;
use crate::account::empty_account;
use crate::epoch_schedule::EpochSchedule;
use crate::float_bits::are_same_number;
use crate::float_bits::stand_for_same;
use crate::float_bits::stands_for_zero;
use crate::pubkey::Pubkey;
use crate::pubkey::incinerator_address;
use crate::pubkey::incinerator_id;
use crate::pubkey::is_incinerator;
use crate::rent::are_rents_equal;
use crate::rent::burn_percent_of;
use crate::rent::default_rent;
use crate::rent::equal_rents;
use crate::rent::exempt;
use crate::rent::exemption_threshold_bits_of;
use crate::rent::is_exempt;
use crate::rent::is_rent_computable;
use crate::rent::lamports_per_byte_year_of;
use crate::rent::minimum_balance_of;
use crate::rent::rent_fits;
use crate::rent_state::RentState;
use crate::rent_state::allows_transition;
use vstd::prelude::*;
use vstd::std_specs::cmp::PartialEqSpec;
use vstd::std_specs::ops::AddSpec;

verus! {

/// The sum of two numbers, or the largest `u64` if that is less.
pub open spec fn saturating_sum(a: u64, b: u64) -> u64 {
    if a + b > u64::MAX {
        u64::MAX
    } else {
        (a + b) as u64
    }
}

/// Information computed during rent collection
#[derive(Debug, Copy, Clone, Eq, PartialEq)]
pub struct CollectedInfo {
    /// Amount of rent collected from account
    pub rent_amount: u64,
    /// Size of data reclaimed from account (happens when account's lamports go to zero)
    pub account_data_len_reclaimed: u64,
}

/// Nothing collected.
pub open spec fn nothing_collected() -> CollectedInfo {
    CollectedInfo { rent_amount: 0, account_data_len_reclaimed: 0 }
}

impl CollectedInfo {
    /// What was collected in two steps.
    pub open spec fn combined_with(self, other: CollectedInfo) -> CollectedInfo {
        CollectedInfo {
            rent_amount: saturating_sum(self.rent_amount, other.rent_amount),
            account_data_len_reclaimed: saturating_sum(
                self.account_data_len_reclaimed,
                other.account_data_len_reclaimed,
            ),
        }
    }
}

impl Default for CollectedInfo {
    fn default() -> (r: Self)
        ensures
            r == nothing_collected(),
    {
        CollectedInfo { rent_amount: 0, account_data_len_reclaimed: 0 }
    }
}

impl std::ops::Add for CollectedInfo {
    type Output = Self;

    fn add(self, other: Self) -> (r: Self) {
        Self {
            rent_amount: self.rent_amount.saturating_add(other.rent_amount),
            account_data_len_reclaimed: self.account_data_len_reclaimed.saturating_add(
                other.account_data_len_reclaimed,
            ),
        }
    }
}

impl vstd::std_specs::ops::AddSpecImpl for CollectedInfo {
    open spec fn obeys_add_spec() -> bool {
        true
    }

    open spec fn add_req(self, rhs: Self) -> bool {
        true
    }

    open spec fn add_spec(self, rhs: Self) -> Self {
        self.combined_with(rhs)
    }
}

impl std::ops::AddAssign for CollectedInfo {
    fn add_assign(&mut self, other: Self)
        ensures
            *final(self) == old(self).combined_with(other),
    {
        *self = *self + other;
    }
}

/// It does not matter in which order what was collected is added up, nor does
/// nothing collected add anything.
pub proof fn law_collected_info_adds_up(a: CollectedInfo, b: CollectedInfo, c: CollectedInfo)
    ensures
        a.combined_with(b) == b.combined_with(a),
        a.combined_with(b).combined_with(c) == a.combined_with(b.combined_with(c)),
        a.combined_with(nothing_collected()) == a,
{
}

/// When rent is collected from an exempt account, rent_epoch is set to this
/// value. The idea is to have a fixed, consistent value for rent_epoch for all accounts that do not collect rent.
/// This enables us to get rid of the field completely.
pub const RENT_EXEMPT_RENT_EPOCH: u64 = 0xffff_ffff_ffff_ffff;

/// What an account owes.
#[derive(Debug, Copy, Clone, Eq, PartialEq)]
pub enum RentDue {
    /// Used to indicate the account is rent exempt.
    Exempt,
    /// The account owes this much rent.
    Paying(u64),
}

/// when rent is collected for this account, this is the action to apply to the account
#[derive(Debug, Copy, Clone, Eq, PartialEq)]
pub enum RentResult {
    /// this account will never have rent collected from it
    Exempt,
    /// maybe we collect rent later, but not now
    NoRentCollectionNow,
    /// collect rent
    CollectRent {
        new_rent_epoch: u64,
        rent_due: u64,  // lamports, could be 0
    },
}

/// The years for which an account owes rent.
#[derive(Debug, Copy, Clone, Eq, PartialEq)]
pub enum YearsElapsed {
    /// none, since a year has no slots: avoids infinite rent
    Zero,
    /// the slots that elapsed, divided by the slots in a year, a number in the
    /// 64-bit format of IEEE 754
    Ratio { slots_elapsed: u64, slots_per_year_bits: u64 },
}

/// The slots in each year by default, 78892314.984, in the 64-bit format of IEEE 754:
/// the seconds in a tropical year, times 160 ticks per second, divided by 64 ticks per
/// slot.
pub const DEFAULT_SLOTS_PER_YEAR_BITS: u64 = 0x4192_cf34_6bef_9db2;

/// Decides which accounts owe rent, how much, and collects it.
#[derive(Debug)]
pub struct RentCollector {
    pub epoch: u64,
    pub epoch_schedule: EpochSchedule,
    /// the slots in each year, in the 64-bit format of IEEE 754
    pub slots_per_year_bits: u64,
    pub rent: solana_rent::Rent,
}

impl PartialEq for RentCollector {
    fn eq(&self, other: &Self) -> (r: bool) {
        self.epoch == other.epoch && self.epoch_schedule == other.epoch_schedule && are_same_number(
            self.slots_per_year_bits,
            other.slots_per_year_bits,
        ) && are_rents_equal(&self.rent, &other.rent)
    }
}

impl vstd::std_specs::cmp::PartialEqSpecImpl for RentCollector {
    open spec fn obeys_eq_spec() -> bool {
        true
    }

    open spec fn eq_spec(&self, other: &Self) -> bool {
        &&& self.epoch == other.epoch
        &&& self.epoch_schedule == other.epoch_schedule
        &&& stand_for_same(self.slots_per_year_bits, other.slots_per_year_bits)
        &&& equal_rents(self.rent, other.rent)
    }
}

impl Clone for RentCollector {
    fn clone(&self) -> (r: Self)
        ensures
            r == *self,
    {
        RentCollector {
            epoch: self.epoch,
            epoch_schedule: self.epoch_schedule,
            slots_per_year_bits: self.slots_per_year_bits,
            rent: self.rent.clone(),
        }
    }
}

impl Default for RentCollector {
    fn default() -> (r: Self)
        ensures
            r.epoch == 0,
            r.epoch_schedule == (EpochSchedule {
                slots_per_epoch: 432_000,
                leader_schedule_slot_offset: 432_000,
                warmup: true,
                first_normal_epoch: 14,
                first_normal_slot: 524_256,
            }),
            r.slots_per_year_bits == DEFAULT_SLOTS_PER_YEAR_BITS,
            lamports_per_byte_year_of(r.rent) == 3480,
            exemption_threshold_bits_of(r.rent) == 0x4000_0000_0000_0000,
            burn_percent_of(r.rent) == 50,
            forall|data_len: usize|
                (128 + data_len) * 3480 <= 0x20_0000_0000_0000 ==> #[trigger] minimum_balance_of(
                    r.rent,
                    data_len,
                ) == (128 + data_len) * 6960,
    {
        RentCollector {
            epoch: 0,
            epoch_schedule: EpochSchedule::default(),
            slots_per_year_bits: DEFAULT_SLOTS_PER_YEAR_BITS,
            rent: default_rent(),
        }
    }
}

/// The slots for which rent is owed from one epoch to another, both included: those
/// of the epochs that follow each of them.
pub open spec fn slots_between(schedule: EpochSchedule, first: int, last: int) -> nat
    decreases last - first + 1,
{
    if first > last {
        0
    } else {
        slots_between(schedule, first, last - 1) + schedule.slots_in_epoch(
            saturating_sum(last as u64, 1),
        ) as nat
    }
}

/// A longer time has no fewer slots.
proof fn lemma_slots_between_monotonic(schedule: EpochSchedule, first: int, mid: int, last: int)
    requires
        mid <= last,
    ensures
        slots_between(schedule, first, mid) <= slots_between(schedule, first, last),
    decreases last - mid,
{
    if mid < last {
        lemma_slots_between_monotonic(schedule, first, mid, last - 1);
    }
}

/// Where the time for which rent is owed is divided in two, no slot is owed twice
/// and none is left out.
pub proof fn law_slots_add_up(schedule: EpochSchedule, first: int, mid: int, last: int)
    requires
        first <= mid + 1,
        mid <= last,
    ensures
        slots_between(schedule, first, last) == slots_between(schedule, first, mid)
            + slots_between(schedule, mid + 1, last),
    decreases last - mid,
{
    if mid < last {
        law_slots_add_up(schedule, first, mid, last - 1);
    }
}

/// The longer rent was not paid, the more slots are owed: there are no more of them
/// from a later epoch on.
pub proof fn law_later_epoch_owes_no_more_slots(
    schedule: EpochSchedule,
    first: int,
    later: int,
    last: int,
)
    requires
        first <= later,
    ensures
        slots_between(schedule, later, last) <= slots_between(schedule, first, last),
{
    if later <= last {
        law_slots_add_up(schedule, first, later - 1, last);
    }
}

/// Whether a time is at most as long as another, as far as that shows: both are
/// measured in years of the same length.
pub open spec fn at_most_as_long(a: YearsElapsed, b: YearsElapsed) -> bool {
    match (a, b) {
        (YearsElapsed::Zero, YearsElapsed::Zero) => true,
        (
            YearsElapsed::Ratio { slots_elapsed: a_slots, slots_per_year_bits: a_year },
            YearsElapsed::Ratio { slots_elapsed: b_slots, slots_per_year_bits: b_year },
        ) => a_year == b_year && a_slots <= b_slots,
        _ => false,
    }
}

/// Whether no less rent falls due over a time that is as long or longer.
pub open spec fn grows_with_time<F: Fn(&solana_rent::Rent, usize, YearsElapsed) -> u64>(
    due_amount: F,
    rent: &solana_rent::Rent,
    data_len: usize,
) -> bool {
    forall|short: YearsElapsed, long: YearsElapsed, less: u64, more: u64|
        #![trigger call_ensures(due_amount, (rent, data_len, short), less), call_ensures(due_amount, (rent, data_len, long), more)]
        at_most_as_long(short, long) && call_ensures(due_amount, (rent, data_len, short), less)
            && call_ensures(due_amount, (rent, data_len, long), more) ==> less <= more
}

/// Whether the rent that falls due depends on nothing but what it is computed from.
pub open spec fn gives_one_amount<F: Fn(&solana_rent::Rent, usize, YearsElapsed) -> u64>(
    due_amount: F,
    rent: &solana_rent::Rent,
) -> bool {
    forall|data_len: usize, years: YearsElapsed, a: u64, b: u64|
        #![trigger call_ensures(due_amount, (rent, data_len, years), a), call_ensures(due_amount, (rent, data_len, years), b)]
        call_ensures(due_amount, (rent, data_len, years), a) && call_ensures(
            due_amount,
            (rent, data_len, years),
            b,
        ) ==> a == b
}

/// Whether an account may owe rent: it is neither executable nor the incinerator.
pub open spec fn may_owe_rent(address: Seq<u8>, executable: bool) -> bool {
    !executable && address != incinerator_address()
}

/// What becomes of an account when rent is collected from it, and what is collected.
pub open spec fn collected(account: AccountView, result: RentResult) -> (AccountView, CollectedInfo) {
    match result {
        RentResult::Exempt => (
            AccountView { rent_epoch: RENT_EXEMPT_RENT_EPOCH, ..account },
            nothing_collected(),
        ),
        RentResult::NoRentCollectionNow => (account, nothing_collected()),
        RentResult::CollectRent { new_rent_epoch, rent_due } => if account.lamports <= rent_due {
            (
                empty_account(),
                CollectedInfo {
                    rent_amount: account.lamports,
                    account_data_len_reclaimed: account.data.len() as u64,
                },
            )
        } else {
            (
                AccountView {
                    lamports: (account.lamports - rent_due) as u64,
                    rent_epoch: new_rent_epoch,
                    ..account
                },
                CollectedInfo { rent_amount: rent_due, account_data_len_reclaimed: 0 },
            )
        },
    }
}

impl RentResult {
    /// Applies the action to an account.
    pub fn apply_to(self, account: &mut AccountSharedData) -> (r: CollectedInfo)
        ensures
            (final(account)@, r) == collected(old(account)@, self),
    {
        match self {
            RentResult::Exempt => {
                account.rent_epoch = RENT_EXEMPT_RENT_EPOCH;
                CollectedInfo::default()
            },
            RentResult::NoRentCollectionNow => CollectedInfo::default(),
            RentResult::CollectRent { new_rent_epoch, rent_due } => match account.lamports.checked_sub(
                rent_due,
            ) {
                None | Some(0) => {
                    let mut taken = AccountSharedData::default();
                    std::mem::swap(account, &mut taken);
                    CollectedInfo {
                        rent_amount: taken.lamports,
                        account_data_len_reclaimed: taken.data.len() as u64,
                    }
                },
                Some(lamports) => {
                    account.lamports = lamports;
                    account.rent_epoch = new_rent_epoch;
                    CollectedInfo { rent_amount: rent_due, account_data_len_reclaimed: 0 }
                },
            },
        }
    }
}

impl RentCollector {
    /// The years for which an account owes rent.
    pub open spec fn years_since(&self, account_rent_epoch: u64) -> YearsElapsed {
        if stands_for_zero(self.slots_per_year_bits) {
            YearsElapsed::Zero
        } else {
            YearsElapsed::Ratio {
                slots_elapsed: slots_between(
                    self.epoch_schedule,
                    account_rent_epoch as int,
                    self.epoch as int,
                ) as u64,
                slots_per_year_bits: self.slots_per_year_bits,
            }
        }
    }

    /// Whether the rent due of an account can be computed: the rent of a year must
    /// be a `u64`, and so must be, unless the account is exempt, the slots for which
    /// it owes rent.
    pub open spec fn assessable(
        &self,
        lamports: u64,
        data_len: usize,
        account_rent_epoch: u64,
    ) -> bool {
        &&& rent_fits(self.rent, data_len)
        &&& exempt(self.rent, lamports, data_len) || slots_between(
            self.epoch_schedule,
            account_rent_epoch as int,
            self.epoch as int,
        ) <= u64::MAX
    }

    /// Whether what an account owes has to be looked into: it is not marked as exempt
    /// or paid for this epoch, and it may owe rent.
    pub open spec fn looks_into(&self, address: Seq<u8>, account: AccountView) -> bool {
        &&& account.rent_epoch != RENT_EXEMPT_RENT_EPOCH
        &&& account.rent_epoch <= self.epoch
        &&& may_owe_rent(address, account.executable)
    }

    /// Whether rent can be collected from an account.
    pub open spec fn collectable(&self, address: Seq<u8>, account: AccountView) -> bool {
        self.looks_into(address, account) ==> self.assessable(
            account.lamports,
            account.data.len() as usize,
            account.rent_epoch,
        )
    }

    /// Whether rent that falls due has to be computed for an account.
    pub open spec fn owes(&self, address: Seq<u8>, account: AccountView) -> bool {
        self.looks_into(address, account) && !exempt(
            self.rent,
            account.lamports,
            account.data.len() as usize,
        )
    }

    /// What should happen to collect rent from an account that, if it owes any rent,
    /// owes `due`.
    pub open spec fn rent_result(&self, address: Seq<u8>, account: AccountView, due: u64) -> RentResult {
        if account.rent_epoch == RENT_EXEMPT_RENT_EPOCH || account.rent_epoch > self.epoch {
            RentResult::NoRentCollectionNow
        } else if !self.owes(address, account) {
            RentResult::Exempt
        } else if due == 0 {
            RentResult::NoRentCollectionNow
        } else {
            RentResult::CollectRent { new_rent_epoch: saturating_sum(self.epoch, 1), rent_due: due }
        }
    }

    /// Whether that much may fall due for an account, if it owes any rent: it is an
    /// outcome of `due_amount` for the account's data and the years since it paid.
    pub open spec fn may_be_due<F: Fn(&solana_rent::Rent, usize, YearsElapsed) -> u64>(
        &self,
        address: Seq<u8>,
        account: AccountView,
        due_amount: F,
        due: u64,
    ) -> bool {
        self.owes(address, account) ==> call_ensures(
            due_amount,
            (&self.rent, account.data.len() as usize, self.years_since(account.rent_epoch)),
            due,
        )
    }

    /// Whether collecting the rent that may fall due for an account leaves `after` of
    /// it and collects `info`.
    pub open spec fn collects<F: Fn(&solana_rent::Rent, usize, YearsElapsed) -> u64>(
        &self,
        address: Seq<u8>,
        account: AccountView,
        due_amount: F,
        after: AccountView,
        info: CollectedInfo,
    ) -> bool {
        exists|due: u64|
            {
                &&& self.may_be_due(address, account, due_amount, due)
                &&& (after, info) == collected(
                    account,
                    #[trigger] self.rent_result(address, account, due),
                )
            }
    }

    pub fn new(
        epoch: u64,
        epoch_schedule: EpochSchedule,
        slots_per_year_bits: u64,
        rent: solana_rent::Rent,
    ) -> (r: Self)
        ensures
            r == (RentCollector { epoch, epoch_schedule, slots_per_year_bits, rent }),
    {
        RentCollector { epoch, epoch_schedule, slots_per_year_bits, rent }
    }

    pub fn clone_with_epoch(&self, epoch: u64) -> (r: Self)
        ensures
            r == (RentCollector { epoch, ..*self }),
    {
        RentCollector { epoch, ..self.clone() }
    }

    /// true if it is easy to determine this account should consider having rent collected from it
    pub fn should_collect_rent(&self, address: &Pubkey, executable: bool) -> (r: bool)
        ensures
            r == may_owe_rent(address@, executable),
    {
        !(executable // executable accounts must be rent-exempt balance
         || address.same_as(&incinerator_id()))
    }

    /// The slots for which an account owes rent, unless they are too many for a
    /// `u64`.
    pub fn slots_elapsed(&self, account_rent_epoch: u64) -> (r: Option<u64>)
        ensures
            ({
                let slots = slots_between(
                    self.epoch_schedule,
                    account_rent_epoch as int,
                    self.epoch as int,
                );
                match r {
                    Some(elapsed) => elapsed == slots,
                    None => slots > u64::MAX,
                }
            }),
    {
        let ghost first = account_rent_epoch as int;
        let mut elapsed: u64 = 0;
        let mut epoch: u64 = account_rent_epoch;
        while epoch <= self.epoch
            invariant_except_break
                elapsed == slots_between(self.epoch_schedule, first, epoch - 1),
            invariant
                first == account_rent_epoch,
                account_rent_epoch <= epoch,
                epoch <= self.epoch || epoch == account_rent_epoch,
            ensures
                elapsed == slots_between(self.epoch_schedule, first, self.epoch as int),
            decreases self.epoch - epoch,
        {
            let slots: u64 = self.epoch_schedule.get_slots_in_epoch(epoch.saturating_add(1));
            proof {
                lemma_slots_between_monotonic(
                    self.epoch_schedule,
                    first,
                    epoch as int,
                    self.epoch as int,
                );
            }
            match elapsed.checked_add(slots) {
                None => {
                    return None;
                },
                Some(sum) => {
                    elapsed = sum;
                },
            }
            if epoch == self.epoch {
                break;
            }
            epoch = epoch + 1;
        }
        Some(elapsed)
    }

    /// Whether the rent due of an account can be computed.
    pub fn can_assess(&self, lamports: u64, data_len: usize, account_rent_epoch: u64) -> (r: bool)
        ensures
            r == self.assessable(lamports, data_len, account_rent_epoch),
    {
        is_rent_computable(&self.rent, data_len) && (is_exempt(&self.rent, lamports, data_len)
            || self.slots_elapsed(account_rent_epoch).is_some())
    }

    /// given an account that 'should_collect_rent'
    /// returns (amount rent due, is_exempt_from_rent)
    ///
    /// `due_amount` gives the rent that falls due for data of some length over some
    /// years; it is asked only of an account that is not exempt.
    pub fn get_rent_due<F: Fn(&solana_rent::Rent, usize, YearsElapsed) -> u64>(
        &self,
        lamports: u64,
        data_len: usize,
        account_rent_epoch: u64,
        due_amount: F,
    ) -> (r: RentDue)
        requires
            self.assessable(lamports, data_len, account_rent_epoch),
            !exempt(self.rent, lamports, data_len) ==> call_requires(
                due_amount,
                (&self.rent, data_len, self.years_since(account_rent_epoch)),
            ),
        ensures
            match r {
                RentDue::Exempt => exempt(self.rent, lamports, data_len),
                RentDue::Paying(due) => !exempt(self.rent, lamports, data_len) && call_ensures(
                    due_amount,
                    (&self.rent, data_len, self.years_since(account_rent_epoch)),
                    due,
                ),
            },
    {
        if is_exempt(&self.rent, lamports, data_len) {
            RentDue::Exempt
        } else {
            let slots_elapsed: u64 = self.slots_elapsed(account_rent_epoch).unwrap();
            // avoid infinite rent
            let years_elapsed = if self.slots_per_year_bits != 0 && self.slots_per_year_bits
                != 0x8000_0000_0000_0000 {
                YearsElapsed::Ratio {
                    slots_elapsed,
                    slots_per_year_bits: self.slots_per_year_bits,
                }
            } else {
                YearsElapsed::Zero
            };
            // we know this account is not exempt
            RentDue::Paying(due_amount(&self.rent, data_len, years_elapsed))
        }
    }

    /// Updates the account's lamports and status, and returns the amount of rent collected, if any.
    /// This is NOT thread safe at some level. If we try to collect from the same account in
    /// parallel, we may collect twice.
    #[must_use]
    pub fn collect_from_existing_account<F: Fn(&solana_rent::Rent, usize, YearsElapsed) -> u64>(
        &self,
        address: &Pubkey,
        account: &mut AccountSharedData,
        due_amount: F,
    ) -> (r: CollectedInfo)
        requires
            self.collectable(address@, old(account)@),
            self.owes(address@, old(account)@) ==> call_requires(
                due_amount,
                (&self.rent, old(account).data@.len() as usize, self.years_since(old(account).rent_epoch)),
            ),
        ensures
            self.collects(address@, old(account)@, due_amount, final(account)@, r),
    {
        self.calculate_rent_result(address, account, due_amount).apply_to(account)
    }

    /// Collects rent from an account if it can be computed what the account owes, and
    /// otherwise leaves the account alone.
    pub fn try_collect_from_existing_account<
        F: Fn(&solana_rent::Rent, usize, YearsElapsed) -> u64,
    >(&self, address: &Pubkey, account: &mut AccountSharedData, due_amount: F) -> (r: Option<CollectedInfo>)
        requires
            self.collectable(address@, old(account)@) && self.owes(address@, old(account)@)
                ==> call_requires(
                due_amount,
                (&self.rent, old(account).data@.len() as usize, self.years_since(old(account).rent_epoch)),
            ),
        ensures
            r is Some <==> self.collectable(address@, old(account)@),
            r is None ==> final(account)@ == old(account)@,
            r is Some ==> self.collects(address@, old(account)@, due_amount, final(account)@, r->0),
    {
        let settled = account.rent_epoch == RENT_EXEMPT_RENT_EPOCH || account.rent_epoch
            > self.epoch || !self.should_collect_rent(address, account.executable);
        if settled || self.can_assess(account.lamports, account.data.len(), account.rent_epoch) {
            Some(self.collect_from_existing_account(address, account, due_amount))
        } else {
            None
        }
    }

    /// determine what should happen to collect rent from this account
    #[must_use]
    pub fn calculate_rent_result<F: Fn(&solana_rent::Rent, usize, YearsElapsed) -> u64>(
        &self,
        address: &Pubkey,
        account: &AccountSharedData,
        due_amount: F,
    ) -> (r: RentResult)
        requires
            self.collectable(address@, account@),
            self.owes(address@, account@) ==> call_requires(
                due_amount,
                (&self.rent, account.data@.len() as usize, self.years_since(account.rent_epoch)),
            ),
        ensures
            exists|due: u64|
                {
                    &&& self.may_be_due(address@, account@, due_amount, due)
                    &&& r == #[trigger] self.rent_result(address@, account@, due)
                },
    {
        if account.rent_epoch == RENT_EXEMPT_RENT_EPOCH || account.rent_epoch > self.epoch {
            // potentially rent paying account (or known and already marked exempt)
            // Maybe collect rent later, leave account alone for now.
            assert(self.rent_result(address@, account@, 0) is NoRentCollectionNow);
            return RentResult::NoRentCollectionNow;
        }
        if !self.should_collect_rent(address, account.executable) {
            // easy to determine this account should not consider having rent collected from it
            assert(self.rent_result(address@, account@, 0) is Exempt);
            return RentResult::Exempt;
        }
        match self.get_rent_due(
            account.lamports,
            account.data.len(),
            account.rent_epoch,
            due_amount,
        ) {
            // account will not have rent collected ever
            RentDue::Exempt => {
                assert(self.rent_result(address@, account@, 0) is Exempt);
                RentResult::Exempt
            },
            // potentially rent paying account
            // Maybe collect rent later, leave account alone for now.
            RentDue::Paying(0) => {
                assert(self.rent_result(address@, account@, 0) is NoRentCollectionNow);
                RentResult::NoRentCollectionNow
            },
            // Rent is collected for next epoch.
            RentDue::Paying(rent_due) => {
                let result = RentResult::CollectRent {
                    new_rent_epoch: self.epoch.saturating_add(1),
                    rent_due,
                };
                assert(result == self.rent_result(address@, account@, rent_due));
                result
            },
        }
    }
}

/// Collection neither makes nor loses lamports or data: what was collected and what
/// is left add up to what was there.
pub proof fn law_collection_conserves(account: AccountView, result: RentResult)
    requires
        account.data.len() <= u64::MAX,
    ensures
        ({
            let (after, info) = collected(account, result);
            &&& after.lamports + info.rent_amount == account.lamports
            &&& after.data.len() + info.account_data_len_reclaimed == account.data.len()
        }),
{
}

/// No more is collected than is due.
pub proof fn law_no_more_than_due(
    collector: RentCollector,
    address: Seq<u8>,
    account: AccountView,
    due: u64,
)
    ensures
        collected(account, collector.rent_result(address, account, due)).1.rent_amount <= due,
{
}

/// Rent is collected once per epoch: a second collection in the same epoch takes
/// nothing, and it leaves the account as the first one left it unless even an account
/// without lamports and data is exempt. What is due by then does not matter, but where
/// the first collection left the account alone, the same must be due.
pub proof fn law_second_collection_takes_nothing(
    collector: RentCollector,
    address: Seq<u8>,
    account: AccountView,
    due: u64,
    due_again: u64,
)
    requires
        collector.rent_result(address, account, due) is NoRentCollectionNow ==> due_again == due,
    ensures
        ({
            let (after, _) = collected(account, collector.rent_result(address, account, due));
            let (after_again, info_again) = collected(
                after,
                collector.rent_result(address, after, due_again),
            );
            &&& info_again == nothing_collected()
            &&& minimum_balance_of(collector.rent, 0) > 0 ==> after_again == after
        }),
{
    let (after, _) = collected(account, collector.rent_result(address, account, due));
    let (after_again, _) = collected(after, collector.rent_result(address, after, due_again));
    if minimum_balance_of(collector.rent, 0) > 0 {
        assert(after_again =~= after);
    }
}

/// Collecting twice is collecting once: of two calls in a row with the same collector
/// the second collects nothing and leaves the account as the first one left it,
/// provided that the rent that falls due depends on nothing but what it is computed
/// from, and that an account without lamports and data is not exempt.
pub proof fn law_collecting_twice_is_collecting_once<
    F: Fn(&solana_rent::Rent, usize, YearsElapsed) -> u64,
>(
    collector: RentCollector,
    address: Seq<u8>,
    account: AccountView,
    due_amount: F,
    after: AccountView,
    info: CollectedInfo,
    after_again: AccountView,
    info_again: CollectedInfo,
)
    requires
        gives_one_amount(due_amount, &collector.rent),
        minimum_balance_of(collector.rent, 0) > 0,
        collector.collects(address, account, due_amount, after, info),
        collector.collects(address, after, due_amount, after_again, info_again),
    ensures
        info_again == nothing_collected(),
        after_again == after,
{
    let due = choose|due: u64|
        {
            &&& collector.may_be_due(address, account, due_amount, due)
            &&& (after, info) == collected(
                account,
                #[trigger] collector.rent_result(address, account, due),
            )
        };
    let due_again = choose|due: u64|
        {
            &&& collector.may_be_due(address, after, due_amount, due)
            &&& (after_again, info_again) == collected(
                after,
                #[trigger] collector.rent_result(address, after, due),
            )
        };
    if collector.rent_result(address, account, due) is NoRentCollectionNow && !collector.owes(
        address,
        account,
    ) {
        assert(collector.rent_result(address, after, due_again) is NoRentCollectionNow);
    } else {
        law_second_collection_takes_nothing(collector, address, account, due, due_again);
    }
}

/// The longer rent was not paid, the more is due, and the balance matters only through
/// exemption: of two accounts of the same size that are not exempt, the one that has
/// paid until a later epoch owes no more than the other, and as much if they have paid
/// until the same epoch. This holds for any `due_amount` that grows with time.
pub proof fn law_longer_unpaid_owes_more<F: Fn(&solana_rent::Rent, usize, YearsElapsed) -> u64>(
    collector: &RentCollector,
    lamports: u64,
    later_lamports: u64,
    data_len: usize,
    rent_epoch: u64,
    later_rent_epoch: u64,
    due_amount: F,
    due: RentDue,
    later_due: RentDue,
)
    requires
        rent_epoch <= later_rent_epoch,
        !exempt(collector.rent, lamports, data_len),
        !exempt(collector.rent, later_lamports, data_len),
        slots_between(collector.epoch_schedule, rent_epoch as int, collector.epoch as int)
            <= u64::MAX,
        grows_with_time(due_amount, &collector.rent, data_len),
        call_ensures(
            RentCollector::get_rent_due::<F>,
            (collector, lamports, data_len, rent_epoch, due_amount),
            due,
        ),
        call_ensures(
            RentCollector::get_rent_due::<F>,
            (collector, later_lamports, data_len, later_rent_epoch, due_amount),
            later_due,
        ),
    ensures
        due is Paying,
        later_due is Paying,
        later_due->Paying_0 <= due->Paying_0,
        rent_epoch == later_rent_epoch ==> later_due == due,
{
    law_later_epoch_owes_no_more_slots(
        collector.epoch_schedule,
        rent_epoch as int,
        later_rent_epoch as int,
        collector.epoch as int,
    );
    assert(at_most_as_long(
        collector.years_since(later_rent_epoch),
        collector.years_since(rent_epoch),
    ));
}

/// Exemption is one fact seen twice: an account with lamports has the rent state
/// exempt if and only if no rent can be due from it, whatever the epoch.
pub proof fn law_exempt_state_means_no_rent_due<
    F: Fn(&solana_rent::Rent, usize, YearsElapsed) -> u64,
>(
    collector: &RentCollector,
    account: &AccountSharedData,
    rent_epoch: u64,
    due_amount: F,
    state: RentState,
    due: RentDue,
)
    requires
        account.lamports > 0,
        call_ensures(RentCollector::get_account_rent_state, (collector, account), state),
        call_ensures(
            RentCollector::get_rent_due::<F>,
            (collector, account.lamports, account.data@.len() as usize, rent_epoch, due_amount),
            due,
        ),
    ensures
        state is RentExempt <==> due is Exempt,
        state == rent_state_of(collector.rent, account@),
{
}

/// Nothing is collected from executable accounts, from the incinerator and from
/// exempt accounts.
pub proof fn law_exempt_accounts_pay_nothing(
    collector: RentCollector,
    address: Seq<u8>,
    account: AccountView,
    due: u64,
)
    requires
        account.executable || address == incinerator_address() || exempt(
            collector.rent,
            account.lamports,
            account.data.len() as usize,
        ),
    ensures
        ({
            let (after, info) = collected(account, collector.rent_result(address, account, due));
            &&& info == nothing_collected()
            &&& after == (AccountView { rent_epoch: after.rent_epoch, ..account })
        }),
{
}

/// An account that is marked as exempt, or that has paid beyond the current epoch, is
/// left alone.
pub proof fn law_settled_accounts_are_left_alone(
    collector: RentCollector,
    address: Seq<u8>,
    account: AccountView,
    due: u64,
)
    requires
        account.rent_epoch == RENT_EXEMPT_RENT_EPOCH || account.rent_epoch > collector.epoch,
    ensures
        collected(account, collector.rent_result(address, account, due)) == (
            account,
            nothing_collected(),
        ),
{
}

/// Why a transaction may not leave an account as it did.
#[derive(Debug, Clone, Copy, PartialEq, Eq)]
pub enum RentCheckError {
    /// The account does not hold what its rent calls for. Of its index the low eight
    /// bits are kept.
    InsufficientFundsForRent { account_index: u8 },
}

/// The rent state of an account: it counts as uninitialized without lamports, and
/// otherwise pays rent unless it is exempt.
pub open spec fn rent_state_of(rent: solana_rent::Rent, account: AccountView) -> RentState {
    if account.lamports == 0 {
        RentState::Uninitialized
    } else if exempt(rent, account.lamports, account.data.len() as usize) {
        RentState::RentExempt
    } else {
        RentState::RentPaying {
            lamports: account.lamports,
            data_size: account.data.len() as usize,
        }
    }
}

/// What the check of a transition says, given whether it is allowed: the incinerator
/// may end up in any state.
pub open spec fn transition_check(
    address: Seq<u8>,
    allowed: bool,
    account_index: IndexOfAccount,
) -> Result<(), RentCheckError> {
    if address == incinerator_address() || allowed {
        Ok(())
    } else {
        Err(RentCheckError::InsufficientFundsForRent { account_index: account_index as u8 })
    }
}

/// Rent collector trait. Represents an entity that can evaluate the rent state
/// of an account, determine rent due, and collect rent.
///
/// Implementors are responsible for evaluating rent due and collecting rent
/// from accounts, if required. Methods for evaluating account rent state have
/// default implementations, which can be overridden for customized rent
/// management.
pub trait SVMRentCollector {
    /// The terms of rent, which an implementation names.
    open spec fn terms(&self) -> solana_rent::Rent {
        arbitrary()
    }

    /// Whether the rent due of an account can be computed: always, unless an
    /// implementation asks for more.
    open spec fn can_compute_due(&self, lamports: u64, data_len: usize, account_rent_epoch: u64) -> bool {
        true
    }

    /// Whether rent can be collected from an account: always, unless an
    /// implementation asks for more.
    open spec fn can_collect(&self, address: Seq<u8>, account: AccountView) -> bool {
        true
    }

    /// Whether rent that falls due has to be computed to say what is due: always,
    /// unless an implementation asks for less.
    open spec fn due_asks_amount(&self, lamports: u64, data_len: usize) -> bool {
        true
    }

    /// Whether rent that falls due has to be computed to collect from an account:
    /// always, unless an implementation asks for less.
    open spec fn collection_asks_amount(&self, address: Seq<u8>, account: AccountView) -> bool {
        true
    }

    /// The years for which an account owes rent, which an implementation names.
    open spec fn years_due(&self, account_rent_epoch: u64) -> YearsElapsed {
        arbitrary()
    }

    /// Check rent state transition for an account in a transaction.
    ///
    /// This method has a default implementation that calls into
    /// `check_rent_state_with_account`.
    fn check_rent_state(
        &self,
        pre_rent_state: Option<&RentState>,
        post_rent_state: Option<&RentState>,
        transaction_context: &TransactionContext,
        index: IndexOfAccount,
    ) -> (r: Result<(), RentCheckError>)
        requires
            transaction_context.wf(),
            pre_rent_state is Some && post_rent_state is Some ==> index
                < transaction_context.accounts@.len(),
        default_ensures
            match (pre_rent_state, post_rent_state) {
                (Some(pre), Some(post)) => call_ensures(
                    Self::check_rent_state_with_account,
                    (
                        self,
                        pre,
                        post,
                        &transaction_context.account_keys@[index as int],
                        &transaction_context.accounts@[index as int],
                        index,
                    ),
                    r,
                ),
                _ => r == Ok::<(), RentCheckError>(()),
            },
    {
        match (pre_rent_state, post_rent_state) {
            (Some(pre_rent_state), Some(post_rent_state)) => {
                self.check_rent_state_with_account(
                    pre_rent_state,
                    post_rent_state,
                    &transaction_context.account_keys[index as usize],
                    &transaction_context.accounts[index as usize],
                    index,
                )
            },
            _ => Ok(()),
        }
    }

    /// Check rent state transition for an account directly.
    ///
    /// This method has a default implementation that checks whether the
    /// transition is allowed and returns an error if it is not. It also
    /// verifies that the account is not the incinerator.
    fn check_rent_state_with_account(
        &self,
        pre_rent_state: &RentState,
        post_rent_state: &RentState,
        address: &Pubkey,
        _account_state: &AccountSharedData,
        account_index: IndexOfAccount,
    ) -> (r: Result<(), RentCheckError>)
        default_ensures
            address@ == incinerator_address() ==> r == Ok::<(), RentCheckError>(()),
            address@ != incinerator_address() ==> exists|allowed: bool|
                {
                    &&& call_ensures(
                        Self::transition_allowed,
                        (self, pre_rent_state, post_rent_state),
                        allowed,
                    )
                    &&& r == #[trigger] transition_check(address@, allowed, account_index)
                },
    {
        if is_incinerator(address) {
            return Ok(());
        }
        let allowed = self.transition_allowed(pre_rent_state, post_rent_state);
        if allowed {
            assert(transition_check(address@, allowed, account_index) is Ok);
            Ok(())
        } else {
            let result = Err(
                RentCheckError::InsufficientFundsForRent { account_index: account_index as u8 },
            );
            assert(result == transition_check(address@, allowed, account_index));
            result
        }
    }

    /// Collect rent from an account.
    fn collect_rent<F: Fn(&solana_rent::Rent, usize, YearsElapsed) -> u64>(
        &self,
        address: &Pubkey,
        account: &mut AccountSharedData,
        due_amount: F,
    ) -> (r: CollectedInfo) where Self: Sized
        requires
            self.can_collect(address@, old(account)@),
            self.collection_asks_amount(address@, old(account)@) ==> call_requires(
                due_amount,
                (
                    &self.terms(),
                    old(account).data@.len() as usize,
                    self.years_due(old(account).rent_epoch),
                ),
            ),
    ;

    /// Determine the rent state of an account.
    ///
    /// This method has a default implementation that treats accounts with zero
    /// lamports as uninitialized and uses the implemented `get_rent` to
    /// determine whether an account is rent-exempt.
    fn get_account_rent_state(&self, account: &AccountSharedData) -> (r: RentState)
        requires
            account.lamports == 0 || rent_fits(self.terms(), account.data@.len() as usize),
        default_ensures
            r == rent_state_of(self.terms(), account@),
    {
        if account.lamports == 0 {
            RentState::Uninitialized
        } else if is_exempt(self.get_rent(), account.lamports, account.data.len()) {
            RentState::RentExempt
        } else {
            RentState::RentPaying { lamports: account.lamports, data_size: account.data.len() }
        }
    }

    /// Get the rent collector's rent instance.
    fn get_rent(&self) -> (r: &solana_rent::Rent)
        ensures
            *r == self.terms(),
    ;

    /// Get the rent due for an account.
    fn get_rent_due<F: Fn(&solana_rent::Rent, usize, YearsElapsed) -> u64>(
        &self,
        lamports: u64,
        data_len: usize,
        account_rent_epoch: u64,
        due_amount: F,
    ) -> (r: RentDue) where Self: Sized
        requires
            self.can_compute_due(lamports, data_len, account_rent_epoch),
            self.due_asks_amount(lamports, data_len) ==> call_requires(
                due_amount,
                (&self.terms(), data_len, self.years_due(account_rent_epoch)),
            ),
    ;

    /// Check whether a transition from the pre_rent_state to the
    /// post_rent_state is valid.
    ///
    /// This method has a default implementation that allows transitions from
    /// any state to `RentState::Uninitialized` or `RentState::RentExempt`.
    /// Pre-state `RentState::RentPaying` can only transition to
    /// `RentState::RentPaying` if the data size remains the same and the
    /// account is not credited.
    fn transition_allowed(&self, pre_rent_state: &RentState, post_rent_state: &RentState) -> (r: bool)
        default_ensures
            r == allows_transition(*pre_rent_state, *post_rent_state),
    {
        match post_rent_state {
            RentState::Uninitialized | RentState::RentExempt => true,
            RentState::RentPaying { data_size: post_data_size, lamports: post_lamports } => {
                match pre_rent_state {
                    RentState::Uninitialized | RentState::RentExempt => false,
                    RentState::RentPaying { data_size: pre_data_size, lamports: pre_lamports } => {
                        // Cannot remain RentPaying if resized or credited.
                        *post_data_size == *pre_data_size && *post_lamports <= *pre_lamports
                    },
                }
            },
        }
    }
}

impl SVMRentCollector for RentCollector {
    open spec fn terms(&self) -> solana_rent::Rent {
        self.rent
    }

    open spec fn can_compute_due(&self, lamports: u64, data_len: usize, account_rent_epoch: u64) -> bool {
        self.assessable(lamports, data_len, account_rent_epoch)
    }

    open spec fn can_collect(&self, address: Seq<u8>, account: AccountView) -> bool {
        self.collectable(address, account)
    }

    open spec fn due_asks_amount(&self, lamports: u64, data_len: usize) -> bool {
        !exempt(self.rent, lamports, data_len)
    }

    open spec fn collection_asks_amount(&self, address: Seq<u8>, account: AccountView) -> bool {
        self.owes(address, account)
    }

    open spec fn years_due(&self, account_rent_epoch: u64) -> YearsElapsed {
        self.years_since(account_rent_epoch)
    }

    fn collect_rent<F: Fn(&solana_rent::Rent, usize, YearsElapsed) -> u64>(
        &self,
        address: &Pubkey,
        account: &mut AccountSharedData,
        due_amount: F,
    ) -> (r: CollectedInfo)
        ensures
            self.collects(address@, old(account)@, due_amount, final(account)@, r),
    {
        self.collect_from_existing_account(address, account, due_amount)
    }

    fn get_rent(&self) -> (r: &solana_rent::Rent) {
        &self.rent
    }

    fn get_rent_due<F: Fn(&solana_rent::Rent, usize, YearsElapsed) -> u64>(
        &self,
        lamports: u64,
        data_len: usize,
        account_rent_epoch: u64,
        due_amount: F,
    ) -> (r: RentDue)
        ensures
            match r {
                RentDue::Exempt => exempt(self.rent, lamports, data_len),
                RentDue::Paying(due) => !exempt(self.rent, lamports, data_len) && call_ensures(
                    due_amount,
                    (&self.rent, data_len, self.years_since(account_rent_epoch)),
                    due,
                ),
            },
    {
        RentCollector::get_rent_due(self, lamports, data_len, account_rent_epoch, due_amount)
    }
}

/// A transaction that takes an account from one rent state to another passes the
/// check of a [`RentCollector`] if and only if the transition is allowed or the
/// account is the incinerator.
pub proof fn law_rent_check_decides(
    collector: &RentCollector,
    pre: &RentState,
    post: &RentState,
    context: &TransactionContext,
    index: IndexOfAccount,
    result: Result<(), RentCheckError>,
)
    requires
        context.wf(),
        index < context.accounts@.len(),
        call_ensures(
            RentCollector::check_rent_state,
            (collector, Some(pre), Some(post), context, index),
            result,
        ),
    ensures
        result == transition_check(
            context.account_keys@[index as int]@,
            allows_transition(*pre, *post),
            index,
        ),
{
    assert(call_ensures(
        RentCollector::check_rent_state_with_account,
        (
            collector,
            pre,
            post,
            &context.account_keys@[index as int],
            &context.accounts@[index as int],
            index,
        ),
        result,
    ));
    let address = context.account_keys@[index as int]@;
    if address != incinerator_address() {
        let allowed = choose|allowed: bool|
            {
                &&& call_ensures(RentCollector::transition_allowed, (collector, pre, post), allowed)
                &&& result == #[trigger] transition_check(address, allowed, index)
            };
        assert(call_ensures(RentCollector::transition_allowed, (collector, pre, post), allowed));
        assert(allowed == allows_transition(*pre, *post));
    }
}

/// Collecting rent never takes an account to a rent state that a transaction could
/// not take it to.
pub proof fn law_collection_is_an_allowed_transition(
    collector: RentCollector,
    address: Seq<u8>,
    account: AccountView,
    due: u64,
)
    ensures
        ({
            let (after, _) = collected(account, collector.rent_result(address, account, due));
            allows_transition(
                rent_state_of(collector.rent, account),
                rent_state_of(collector.rent, after),
            )
        }),
{
}

/// Two amounts that were collected add up to their sum, or to the largest `u64` if the
/// sum is larger, the rent apart from the data.
pub proof fn law_amounts_are_summed(a: CollectedInfo, b: CollectedInfo)
    ensures
        ({
            let sum = a.add_spec(b);
            let rent = a.rent_amount + b.rent_amount;
            let reclaimed = a.account_data_len_reclaimed + b.account_data_len_reclaimed;
            &&& rent <= u64::MAX ==> sum.rent_amount == rent
            &&& rent > u64::MAX ==> sum.rent_amount == u64::MAX
            &&& reclaimed <= u64::MAX ==> sum.account_data_len_reclaimed == reclaimed
            &&& reclaimed > u64::MAX ==> sum.account_data_len_reclaimed == u64::MAX
            &&& sum == a.combined_with(b)
        }),
{
}

/// By default nothing was collected.
pub proof fn law_default_is_nothing(info: CollectedInfo)
    requires
        call_ensures(CollectedInfo::default, (), info),
    ensures
        info.rent_amount == 0,
        info.account_data_len_reclaimed == 0,
{
}

/// Two collectors are equal if and only if they have the same epoch and schedule, the
/// same number of slots in a year, and the same terms. A number is the same if its bits
/// are, unless they stand for none, and zero is the same with either sign.
pub proof fn law_equal_collectors(a: RentCollector, b: RentCollector)
    ensures
        ({
            let s = a.slots_per_year_bits;
            let t = b.slots_per_year_bits;
            a.eq_spec(&b) <==> {
                &&& a.epoch == b.epoch
                &&& a.epoch_schedule == b.epoch_schedule
                &&& {
                    ||| s == t && !(0x7ff0_0000_0000_0000 < s < 0x8000_0000_0000_0000) && s
                        <= 0xfff0_0000_0000_0000
                    ||| (s == 0 || s == 0x8000_0000_0000_0000) && (t == 0 || t
                        == 0x8000_0000_0000_0000)
                }
                &&& equal_rents(a.rent, b.rent)
            }
        }),
{
}

/// For an epoch an account owes the slots of the epoch after it, and for no epoch it
/// owes none.
pub proof fn law_one_epoch_owes_the_next(schedule: EpochSchedule, epoch: u64, later: int)
    requires
        epoch < later,
    ensures
        epoch < u64::MAX ==> slots_between(schedule, epoch as int, epoch as int)
            == schedule.slots_in_epoch((epoch + 1) as u64),
        epoch == u64::MAX ==> slots_between(schedule, epoch as int, epoch as int)
            == schedule.slots_in_epoch(epoch),
        slots_between(schedule, later, epoch as int) == 0,
{
    reveal_with_fuel(slots_between, 2);
}

/// For normal epochs an account owes as many slots as their number times the slots of
/// one.
pub proof fn law_normal_epochs_owe_alike(schedule: EpochSchedule, first: int, last: int)
    requires
        0 <= first <= last + 1,
        schedule.first_normal_epoch <= first + 1,
        last < u64::MAX,
    ensures
        slots_between(schedule, first, last) == (last - first + 1) * schedule.slots_per_epoch,
    decreases last - first + 1,
{
    let n = last - first;
    let slots = schedule.slots_per_epoch as int;
    if first <= last {
        law_normal_epochs_owe_alike(schedule, first, last - 1);
        assert(saturating_sum(last as u64, 1) == last + 1);
        assert(schedule.slots_in_epoch((last + 1) as u64) == slots);
        assert(slots_between(schedule, first, last) == slots_between(schedule, first, last - 1)
            + slots);
        assert(slots_between(schedule, first, last - 1) == n * slots);
        assert((n + 1) * slots == n * slots + slots) by (nonlinear_arith);
    } else {
        assert((n + 1) * slots == 0) by (nonlinear_arith)
            requires
                n + 1 == 0,
        ;
    }
}

/// The slots for which an account owes rent are counted exactly, if they can be.
pub proof fn law_slots_are_counted(
    collector: &RentCollector,
    rent_epoch: u64,
    result: Option<u64>,
)
    requires
        call_ensures(RentCollector::slots_elapsed, (collector, rent_epoch), result),
    ensures
        rent_epoch > collector.epoch ==> result == Some(0u64),
        rent_epoch == collector.epoch && rent_epoch < u64::MAX ==> result == Some(
            collector.epoch_schedule.slots_in_epoch((rent_epoch + 1) as u64),
        ),
        collector.epoch_schedule.first_normal_epoch <= rent_epoch + 1 && rent_epoch
            <= collector.epoch < u64::MAX ==> ({
            let slots = (collector.epoch - rent_epoch + 1)
                * collector.epoch_schedule.slots_per_epoch;
            match result {
                Some(elapsed) => elapsed == slots,
                None => slots > u64::MAX,
            }
        }),
{
    if rent_epoch > collector.epoch {
    } else {
        if rent_epoch == collector.epoch {
            law_one_epoch_owes_the_next(collector.epoch_schedule, rent_epoch, rent_epoch + 1);
        }
        if collector.epoch_schedule.first_normal_epoch <= rent_epoch + 1 && collector.epoch
            < u64::MAX {
            law_normal_epochs_owe_alike(
                collector.epoch_schedule,
                rent_epoch as int,
                collector.epoch as int,
            );
        }
    }
}

/// Accounts that are executable and the incinerator are passed over, and no others.
pub proof fn law_who_is_passed_over(
    collector: &RentCollector,
    address: &Pubkey,
    executable: bool,
    result: bool,
)
    requires
        call_ensures(RentCollector::should_collect_rent, (collector, address, executable), result),
    ensures
        executable ==> !result,
        address@ == incinerator_address() ==> !result,
        !executable && address@ != incinerator_address() ==> result,
{
}

/// The rent due is computed from the terms of the collector, the size of the account's
/// data, and the years since it paid: the slots elapsed, divided by the slots per year
/// with which this collector was made, or none if that number is zero. It is computed
/// for exactly the accounts that hold less than the minimum balance of their size.
pub proof fn law_rent_due_uses_the_collectors_year<
    F: Fn(&solana_rent::Rent, usize, YearsElapsed) -> u64,
>(
    collector: &RentCollector,
    lamports: u64,
    data_len: usize,
    rent_epoch: u64,
    due_amount: F,
    result: RentDue,
)
    requires
        slots_between(collector.epoch_schedule, rent_epoch as int, collector.epoch as int)
            <= u64::MAX,
        call_ensures(
            RentCollector::get_rent_due::<F>,
            (collector, lamports, data_len, rent_epoch, due_amount),
            result,
        ),
    ensures
        result is Exempt <==> lamports >= minimum_balance_of(collector.rent, data_len),
        result is Paying && collector.slots_per_year_bits != 0 && collector.slots_per_year_bits
            != 0x8000_0000_0000_0000 ==> exists|slots_elapsed: u64|
            {
                &&& slots_elapsed == slots_between(
                    collector.epoch_schedule,
                    rent_epoch as int,
                    collector.epoch as int,
                )
                &&& #[trigger] call_ensures(
                    due_amount,
                    (
                        &collector.rent,
                        data_len,
                        YearsElapsed::Ratio {
                            slots_elapsed,
                            slots_per_year_bits: collector.slots_per_year_bits,
                        },
                    ),
                    result->Paying_0,
                )
            },
        result is Paying && (collector.slots_per_year_bits == 0 || collector.slots_per_year_bits
            == 0x8000_0000_0000_0000) ==> call_ensures(
            due_amount,
            (&collector.rent, data_len, YearsElapsed::Zero),
            result->Paying_0,
        ),
{
    if result is Paying {
        let slots_elapsed = slots_between(
            collector.epoch_schedule,
            rent_epoch as int,
            collector.epoch as int,
        ) as u64;
        assert(call_ensures(
            due_amount,
            (&collector.rent, data_len, collector.years_since(rent_epoch)),
            result->Paying_0,
        ));
        assert(collector.slots_per_year_bits != 0 && collector.slots_per_year_bits
            != 0x8000_0000_0000_0000 ==> collector.years_since(rent_epoch) == (
        YearsElapsed::Ratio {
            slots_elapsed,
            slots_per_year_bits: collector.slots_per_year_bits,
        }));
    }
}

/// The years of two collectors differ where the slots in their years do: no collector
/// counts in the years of another.
pub proof fn law_years_are_the_collectors_own(
    collector: RentCollector,
    slots_per_year_bits: u64,
    rent_epoch: u64,
)
    requires
        slots_between(collector.epoch_schedule, rent_epoch as int, collector.epoch as int)
            <= u64::MAX,
    ensures
        ({
            let other = RentCollector { slots_per_year_bits, ..collector };
            let years = other.years_since(rent_epoch);
            &&& slots_per_year_bits == 0 || slots_per_year_bits == 0x8000_0000_0000_0000
                <==> years is Zero
            &&& years is Ratio ==> years->slots_per_year_bits == slots_per_year_bits
            &&& years is Ratio ==> years->slots_elapsed == slots_between(
                collector.epoch_schedule,
                rent_epoch as int,
                collector.epoch as int,
            )
        }),
{
}

/// An account that can pay keeps everything but its lamports and its rent epoch. One
/// that cannot is emptied, and all that it held is collected. A mark as exempt changes
/// the rent epoch alone, and no action changes nothing.
pub proof fn law_what_an_action_changes(account: AccountView, new_rent_epoch: u64, rent_due: u64)
    ensures
        ({
            let (after, info) = collected(
                account,
                RentResult::CollectRent { new_rent_epoch, rent_due },
            );
            &&& rent_due < account.lamports ==> {
                &&& after.lamports == account.lamports - rent_due
                &&& after.rent_epoch == new_rent_epoch
                &&& after.data == account.data
                &&& after.owner == account.owner
                &&& after.executable == account.executable
                &&& info.rent_amount == rent_due
                &&& info.account_data_len_reclaimed == 0
            }
            &&& rent_due >= account.lamports ==> {
                &&& after.lamports == 0
                &&& after.rent_epoch == 0
                &&& after.data.len() == 0
                &&& after.owner.len() == 32
                &&& forall|i: int| 0 <= i < 32 ==> #[trigger] after.owner[i] == 0
                &&& !after.executable
                &&& info.rent_amount == account.lamports
                &&& account.data.len() <= u64::MAX ==> info.account_data_len_reclaimed
                    == account.data.len()
            }
        }),
        ({
            let (after, info) = collected(account, RentResult::Exempt);
            &&& after.rent_epoch == u64::MAX
            &&& after.lamports == account.lamports
            &&& after.data == account.data
            &&& after.owner == account.owner
            &&& after.executable == account.executable
            &&& info.rent_amount == 0
            &&& info.account_data_len_reclaimed == 0
        }),
        ({
            let (after, info) = collected(account, RentResult::NoRentCollectionNow);
            &&& after == account
            &&& info.rent_amount == 0
            &&& info.account_data_len_reclaimed == 0
        }),
{
}

/// What is decided for an account: it is left alone for now if it is marked as exempt,
/// has paid beyond the current epoch or owes an amount of zero. It is exempt if it is
/// executable, the incinerator or not below the minimum balance. Otherwise the rent is
/// collected that was computed for its size and the years since it paid, and the next
/// epoch is the one that it owes rent for.
pub proof fn law_what_is_decided<F: Fn(&solana_rent::Rent, usize, YearsElapsed) -> u64>(
    collector: &RentCollector,
    address: &Pubkey,
    account: &AccountSharedData,
    due_amount: F,
    result: RentResult,
)
    requires
        call_ensures(
            RentCollector::calculate_rent_result::<F>,
            (collector, address, account, due_amount),
            result,
        ),
    ensures
        ({
            let settled = account.rent_epoch == u64::MAX || account.rent_epoch > collector.epoch;
            let spared = account.executable || address@ == incinerator_address()
                || account.lamports >= minimum_balance_of(
                collector.rent,
                account.data@.len() as usize,
            );
            &&& settled ==> result is NoRentCollectionNow
            &&& !settled && spared ==> result is Exempt
            &&& !settled && !spared ==> exists|due: u64|
                {
                    &&& #[trigger] call_ensures(
                        due_amount,
                        (
                            &collector.rent,
                            account.data@.len() as usize,
                            collector.years_since(account.rent_epoch),
                        ),
                        due,
                    )
                    &&& due == 0 ==> result is NoRentCollectionNow
                    &&& due > 0 ==> {
                        &&& result is CollectRent
                        &&& result->rent_due == due
                        &&& collector.epoch < u64::MAX ==> result->new_rent_epoch
                            == collector.epoch + 1
                        &&& collector.epoch == u64::MAX ==> result->new_rent_epoch == u64::MAX
                    }
                }
        }),
{
    let due = choose|due: u64|
        {
            &&& collector.may_be_due(address@, account@, due_amount, due)
            &&& result == #[trigger] collector.rent_result(address@, account@, due)
        };
    assert(collector.may_be_due(address@, account@, due_amount, due));
    assert(collector.owes(address@, account@) ==> call_ensures(
        due_amount,
        (
            &collector.rent,
            account.data@.len() as usize,
            collector.years_since(account.rent_epoch),
        ),
        due,
    ));
}

/// What collecting does to an account, from beginning to end: nothing if it is marked
/// as exempt or has paid beyond the current epoch; a mark as exempt if it is spared;
/// and else what the rent calls for that was computed for it.
pub proof fn law_what_collecting_does<F: Fn(&solana_rent::Rent, usize, YearsElapsed) -> u64>(
    collector: RentCollector,
    address: Seq<u8>,
    account: AccountView,
    due_amount: F,
    after: AccountView,
    info: CollectedInfo,
)
    requires
        collector.collects(address, account, due_amount, after, info),
    ensures
        ({
            let settled = account.rent_epoch == u64::MAX || account.rent_epoch > collector.epoch;
            let spared = account.executable || address == incinerator_address()
                || account.lamports >= minimum_balance_of(
                collector.rent,
                account.data.len() as usize,
            );
            &&& settled ==> {
                &&& after == account
                &&& info.rent_amount == 0
                &&& info.account_data_len_reclaimed == 0
            }
            &&& !settled && spared ==> {
                &&& after == (AccountView { rent_epoch: u64::MAX, ..account })
                &&& info.rent_amount == 0
                &&& info.account_data_len_reclaimed == 0
            }
            &&& !settled && !spared ==> exists|due: u64|
                {
                    &&& #[trigger] call_ensures(
                        due_amount,
                        (
                            &collector.rent,
                            account.data.len() as usize,
                            collector.years_since(account.rent_epoch),
                        ),
                        due,
                    )
                    &&& due == 0 ==> after == account && info.rent_amount == 0
                        && info.account_data_len_reclaimed == 0
                    &&& 0 < due < account.lamports ==> {
                        &&& after.lamports == account.lamports - due
                        &&& after.data == account.data
                        &&& after.owner == account.owner
                        &&& after.executable == account.executable
                        &&& collector.epoch < u64::MAX ==> after.rent_epoch == collector.epoch + 1
                        &&& collector.epoch == u64::MAX ==> after.rent_epoch == u64::MAX
                        &&& info.rent_amount == due
                        &&& info.account_data_len_reclaimed == 0
                    }
                    &&& due > 0 && due >= account.lamports ==> {
                        &&& after.lamports == 0
                        &&& after.data.len() == 0
                        &&& after.rent_epoch == 0
                        &&& info.rent_amount == account.lamports
                    }
                }
        }),
{
    let due = choose|due: u64|
        {
            &&& collector.may_be_due(address, account, due_amount, due)
            &&& (after, info) == collected(
                account,
                #[trigger] collector.rent_result(address, account, due),
            )
        };
    assert(collector.may_be_due(address, account, due_amount, due));
    assert(collector.owes(address, account) ==> call_ensures(
        due_amount,
        (
            &collector.rent,
            account.data.len() as usize,
            collector.years_since(account.rent_epoch),
        ),
        due,
    ));
}

/// What an account owes can be computed if and only if the rate times its size, with
/// 128 bytes on top, is a `u64`, and it holds the minimum balance or the slots for which
/// it owes rent are a `u64`.
pub proof fn law_what_can_be_assessed(
    collector: &RentCollector,
    lamports: u64,
    data_len: usize,
    rent_epoch: u64,
    result: bool,
)
    requires
        call_ensures(
            RentCollector::can_assess,
            (collector, lamports, data_len, rent_epoch),
            result,
        ),
    ensures
        result <==> {
            &&& 128 + data_len <= u64::MAX
            &&& lamports_per_byte_year_of(collector.rent) * (128 + data_len) <= u64::MAX
            &&& lamports >= minimum_balance_of(collector.rent, data_len) || slots_between(
                collector.epoch_schedule,
                rent_epoch as int,
                collector.epoch as int,
            ) <= u64::MAX
        },
        result == collector.assessable(lamports, data_len, rent_epoch),
        result == collector.can_compute_due(lamports, data_len, rent_epoch),
{
    assert(lamports_per_byte_year_of(collector.rent) * (128 + data_len) == (128 + data_len)
        * lamports_per_byte_year_of(collector.rent)) by (nonlinear_arith);
}

/// Rent can be collected from every account that is left alone or spared without a look
/// at its balance, and from any other whose rent can be computed.
pub proof fn law_what_can_be_collected(
    collector: RentCollector,
    address: Seq<u8>,
    account: AccountView,
)
    ensures
        ({
            let passed_over = {
                ||| account.rent_epoch == u64::MAX
                ||| account.rent_epoch > collector.epoch
                ||| account.executable
                ||| address == incinerator_address()
            };
            &&& collector.collectable(address, account) <==> passed_over || collector.assessable(
                account.lamports,
                account.data.len() as usize,
                account.rent_epoch,
            )
            &&& collector.can_collect(address, account) == collector.collectable(address, account)
            &&& collector.owes(address, account) <==> !passed_over && account.lamports
                < minimum_balance_of(collector.rent, account.data.len() as usize)
        }),
{
}

/// The check of an account passes if and only if the account is the incinerator, ends
/// up without lamports or exempt, or goes on to pay with its size kept and no lamports
/// gained. Otherwise the error holds the low eight bits of the account's index, whatever
/// the index is.
pub proof fn law_refused_transitions(
    collector: &RentCollector,
    pre: &RentState,
    post: &RentState,
    address: &Pubkey,
    account: &AccountSharedData,
    index: IndexOfAccount,
    result: Result<(), RentCheckError>,
)
    requires
        call_ensures(
            RentCollector::check_rent_state_with_account,
            (collector, pre, post, address, account, index),
            result,
        ),
    ensures
        ({
            let allowed = match (*pre, *post) {
                (_, RentState::Uninitialized) => true,
                (_, RentState::RentExempt) => true,
                (
                    RentState::RentPaying { lamports: pre_lamports, data_size: pre_size },
                    RentState::RentPaying { lamports: post_lamports, data_size: post_size },
                ) => pre_size == post_size && post_lamports <= pre_lamports,
                _ => false,
            };
            &&& result is Ok <==> address@ == incinerator_address() || allowed
            &&& result is Err ==> result->Err_0->account_index == index % 256
        }),
{
    assert(index as u8 == index % 256) by (bit_vector);
    if address@ != incinerator_address() {
        let allowed = choose|allowed: bool|
            {
                &&& call_ensures(RentCollector::transition_allowed, (collector, pre, post), allowed)
                &&& result == #[trigger] transition_check(address@, allowed, index)
            };
        assert(call_ensures(RentCollector::transition_allowed, (collector, pre, post), allowed));
    }
}

/// The check of an account in a transaction is that of the account and the key at its
/// index, and it passes where one of the states is not known.
pub proof fn law_transaction_check_is_that_of_its_account(
    collector: &RentCollector,
    pre: Option<&RentState>,
    post: Option<&RentState>,
    context: &TransactionContext,
    index: IndexOfAccount,
    result: Result<(), RentCheckError>,
)
    requires
        context.account_keys@.len() == context.accounts@.len(),
        pre is Some && post is Some ==> index < context.accounts@.len(),
        call_ensures(
            RentCollector::check_rent_state,
            (collector, pre, post, context, index),
            result,
        ),
    ensures
        pre is None || post is None ==> result is Ok,
        pre is Some && post is Some ==> ({
            let address = context.account_keys@[index as int]@;
            let allowed = match (*pre->0, *post->0) {
                (_, RentState::Uninitialized) => true,
                (_, RentState::RentExempt) => true,
                (
                    RentState::RentPaying { lamports: pre_lamports, data_size: pre_size },
                    RentState::RentPaying { lamports: post_lamports, data_size: post_size },
                ) => pre_size == post_size && post_lamports <= pre_lamports,
                _ => false,
            };
            &&& result is Ok <==> address == incinerator_address() || allowed
            &&& result is Err ==> result->Err_0->account_index == index % 256
        }),
{
    if pre is Some && post is Some {
        law_refused_transitions(
            collector,
            pre->0,
            post->0,
            &context.account_keys@[index as int],
            &context.accounts@[index as int],
            index,
            result,
        );
    }
}

/// Whether a transition is allowed depends on the two states alone.
pub proof fn law_transition_is_decided_by_the_states(
    collector: &RentCollector,
    pre: &RentState,
    post: &RentState,
    result: bool,
)
    requires
        call_ensures(RentCollector::transition_allowed, (collector, pre, post), result),
    ensures
        !(post is RentPaying) ==> result,
        post is RentPaying && !(pre is RentPaying) ==> !result,
        post is RentPaying && pre is RentPaying ==> (result <==> pre->data_size == post->data_size
            && post->lamports <= pre->lamports),
{
}

/// The rent state of an account: without lamports it is uninitialized, from the minimum
/// balance of its size on exempt, and in between it pays, with its lamports and size.
pub proof fn law_state_of_an_account(
    collector: &RentCollector,
    account: &AccountSharedData,
    state: RentState,
)
    requires
        call_ensures(RentCollector::get_account_rent_state, (collector, account), state),
    ensures
        state is Uninitialized <==> account.lamports == 0,
        state is RentExempt <==> account.lamports > 0 && account.lamports >= minimum_balance_of(
            collector.rent,
            account.data@.len() as usize,
        ),
        state is RentPaying ==> state->lamports == account.lamports && state->data_size
            == account.data@.len() as usize,
{
}

} // verus!
