//! Rent collection.
use solana_rent::Rent;
use svm_core::account::AccountSharedData;
use svm_core::account::TransactionContext;
use svm_core::epoch_schedule::EpochSchedule;
use svm_core::pubkey::Pubkey;
use svm_core::rent::are_rents_equal;
use svm_core::rent::is_rent_computable;
use svm_core::rent_state::RentState;
use svm_core::svm_rent_collector::RentCheckError;
use svm_core::svm_rent_collector::RentDue;
use svm_core::svm_rent_collector::RentResult;
use svm_core::svm_rent_collector::SVMRentCollector;
use svm_core::svm_rent_collector::YearsElapsed;
use svm_core::svm_rent_collector::DEFAULT_SLOTS_PER_YEAR_BITS;
use svm_core::CollectedInfo;
use svm_core::RentCollector;
use svm_core::RENT_EXEMPT_RENT_EPOCH;

/// The rent that falls due, computed as the runtime does.
fn due_amount(rent: &Rent, data_len: usize, years_elapsed: YearsElapsed) -> u64 {
    let years = match years_elapsed {
        YearsElapsed::Zero => 0.0,
        YearsElapsed::Ratio {
            slots_elapsed,
            slots_per_year_bits,
        } => slots_elapsed as f64 / f64::from_bits(slots_per_year_bits),
    };
    rent.due_amount(data_len, years)
}

fn collector(epoch: u64) -> RentCollector {
    RentCollector::default().clone_with_epoch(epoch)
}

fn account(lamports: u64, data_len: usize, rent_epoch: u64) -> AccountSharedData {
    AccountSharedData {
        lamports,
        data: vec![1; data_len],
        owner: Pubkey { bytes: [5; 32] },
        executable: false,
        rent_epoch,
    }
}

fn incinerator() -> Pubkey {
    Pubkey {
        bytes: solana_sdk_ids::incinerator::id().to_bytes(),
    }
}

const NOTHING: CollectedInfo = CollectedInfo {
    rent_amount: 0,
    account_data_len_reclaimed: 0,
};

#[test]
fn default_collector() {
    let collector = RentCollector::default();
    assert_eq!(collector.epoch, 0);
    assert_eq!(collector.rent, Rent::default());
    let slots_per_year = solana_time_utils::years_as_slots(
        1.0,
        &solana_poh_config::PohConfig::default().target_tick_duration,
        solana_clock::DEFAULT_TICKS_PER_SLOT,
    );
    assert_eq!(DEFAULT_SLOTS_PER_YEAR_BITS, slots_per_year.to_bits());
    assert_eq!(collector.slots_per_year_bits, slots_per_year.to_bits());
    let schedule = solana_epoch_schedule::EpochSchedule::default();
    assert_eq!(
        collector.epoch_schedule,
        EpochSchedule {
            slots_per_epoch: schedule.slots_per_epoch,
            leader_schedule_slot_offset: schedule.leader_schedule_slot_offset,
            warmup: schedule.warmup,
            first_normal_epoch: schedule.first_normal_epoch,
            first_normal_slot: schedule.first_normal_slot,
        }
    );
    assert_eq!(collector.epoch_schedule.first_normal_epoch, 14);
    assert_eq!(collector.epoch_schedule.first_normal_slot, 524_256);
}

#[test]
fn new_keeps_its_arguments() {
    let schedule = EpochSchedule {
        slots_per_epoch: 1,
        leader_schedule_slot_offset: 2,
        warmup: false,
        first_normal_epoch: 3,
        first_normal_slot: 4,
    };
    let collector = RentCollector::new(5, schedule, 6, Rent::free());
    assert_eq!(collector.epoch, 5);
    assert_eq!(collector.epoch_schedule, schedule);
    assert_eq!(collector.slots_per_year_bits, 6);
    assert_eq!(collector.rent, Rent::free());
    let other = collector.clone_with_epoch(9);
    assert_eq!(other.epoch, 9);
    assert_eq!(other.clone_with_epoch(5), collector);
    assert_eq!(collector.get_rent(), &Rent::free());
}

#[test]
fn slots_elapsed_sums_the_epochs() {
    // One epoch after another of 32 slots and more, doubling.
    assert_eq!(collector(0).slots_elapsed(0), Some(64));
    assert_eq!(collector(2).slots_elapsed(0), Some(64 + 128 + 256));
    assert_eq!(collector(2).slots_elapsed(3), Some(0));
    // The last short epoch, then the normal ones.
    assert_eq!(collector(13).slots_elapsed(12), Some(262_144 + 432_000));
    assert_eq!(collector(30).slots_elapsed(20), Some(11 * 432_000));
    // Split in two, nothing is lost.
    let whole = collector(20).slots_elapsed(3).unwrap();
    let first = collector(9).slots_elapsed(3).unwrap();
    let second = collector(20).slots_elapsed(10).unwrap();
    assert_eq!(whole, first + second);

    let mut huge = collector(u64::MAX);
    huge.epoch_schedule.slots_per_epoch = u64::MAX;
    assert_eq!(huge.slots_elapsed(u64::MAX), Some(u64::MAX));
    assert_eq!(huge.slots_elapsed(u64::MAX - 1), None);

    // Epochs too long to count, and one whose number has more than thirty-two bits.
    let mut warm = collector(70);
    warm.epoch_schedule.first_normal_epoch = u64::MAX;
    assert_eq!(warm.slots_elapsed(70), Some(u64::MAX));
    warm.epoch = (1 << 32) + 1;
    assert_eq!(warm.slots_elapsed(warm.epoch), Some(128));
}

#[test]
fn executable_accounts_and_the_incinerator_owe_nothing() {
    let collector = collector(20);
    let address = Pubkey { bytes: [1; 32] };
    assert!(collector.should_collect_rent(&address, false));
    assert!(!collector.should_collect_rent(&address, true));
    assert!(!collector.should_collect_rent(&incinerator(), false));

    let mut program = account(1, 3, 0);
    program.executable = true;
    assert_eq!(
        collector.collect_from_existing_account(&address, &mut program, due_amount),
        NOTHING
    );
    assert_eq!(program.lamports, 1);
    assert_eq!(program.rent_epoch, RENT_EXEMPT_RENT_EPOCH);

    let mut burned = account(1, 3, 0);
    assert_eq!(
        collector.collect_from_existing_account(&incinerator(), &mut burned, due_amount),
        NOTHING
    );
    assert_eq!(burned.lamports, 1);
    assert_eq!(burned.rent_epoch, RENT_EXEMPT_RENT_EPOCH);
}

#[test]
fn rent_due() {
    let collector = collector(20);
    assert_eq!(
        collector.get_rent_due(890_880, 0, 20, due_amount),
        RentDue::Exempt
    );
    // One normal epoch: 432000 of 78892314.984 slots, for 128 bytes at 3480 lamports.
    assert_eq!(
        collector.get_rent_due(890_879, 0, 20, due_amount),
        RentDue::Paying(2439)
    );
    assert_eq!(
        SVMRentCollector::get_rent_due(&collector, 890_879, 0, 20, due_amount),
        RentDue::Paying(2439)
    );
    // What the computation is given.
    let given = |_: &Rent, data_len: usize, years: YearsElapsed| {
        assert_eq!(data_len, 7);
        assert_eq!(
            years,
            YearsElapsed::Ratio {
                slots_elapsed: 2 * 432_000,
                slots_per_year_bits: DEFAULT_SLOTS_PER_YEAR_BITS
            }
        );
        11
    };
    assert_eq!(
        collector.get_rent_due(0, 7, 19, given),
        RentDue::Paying(11)
    );
}

#[test]
fn year_without_slots_is_free() {
    for bits in [0.0f64.to_bits(), (-0.0f64).to_bits()] {
        let mut collector = collector(20);
        collector.slots_per_year_bits = bits;
        let given = |_: &Rent, _: usize, years: YearsElapsed| {
            assert_eq!(years, YearsElapsed::Zero);
            due_amount(&Rent::default(), 0, years)
        };
        assert_eq!(collector.get_rent_due(1, 0, 0, given), RentDue::Paying(0));
        let mut poor = account(1, 0, 0);
        assert_eq!(
            collector.collect_from_existing_account(
                &Pubkey::default(),
                &mut poor,
                due_amount
            ),
            NOTHING
        );
        assert_eq!(poor, account(1, 0, 0));
    }
}

#[test]
fn rent_is_collected_once_per_epoch() {
    let collector = collector(20);
    let address = Pubkey { bytes: [1; 32] };
    let mut payer = account(10_000, 0, 20);
    let info = collector.collect_from_existing_account(&address, &mut payer, due_amount);
    assert_eq!(
        info,
        CollectedInfo {
            rent_amount: 2439,
            account_data_len_reclaimed: 0
        }
    );
    assert_eq!(payer.lamports, 10_000 - 2439);
    assert_eq!(payer.rent_epoch, 21);
    assert_eq!(payer.owner, Pubkey { bytes: [5; 32] });

    let again = payer.clone();
    assert_eq!(
        collector.collect_rent(&address, &mut payer, due_amount),
        NOTHING
    );
    assert_eq!(payer, again);
    assert_eq!(
        collector.calculate_rent_result(&address, &payer, due_amount),
        RentResult::NoRentCollectionNow
    );
    // In the next epoch it pays again.
    assert_eq!(
        collector
            .clone_with_epoch(21)
            .calculate_rent_result(&address, &payer, due_amount),
        RentResult::CollectRent {
            new_rent_epoch: 22,
            rent_due: 2439
        }
    );
}

#[test]
fn poor_account_is_emptied() {
    let collector = collector(20);
    let address = Pubkey { bytes: [1; 32] };
    for lamports in [1, 2438] {
        let mut poor = account(lamports, 3, 20);
        let info = collector.collect_from_existing_account(&address, &mut poor, due_amount);
        assert_eq!(
            info,
            CollectedInfo {
                rent_amount: lamports,
                account_data_len_reclaimed: 3
            }
        );
        assert_eq!(poor, AccountSharedData::default());
        // Nothing is left to collect.
        assert_eq!(
            collector.collect_from_existing_account(&address, &mut poor, due_amount),
            NOTHING
        );
    }
    // The account holds exactly what is due.
    let mut exact = account(40, 3, 20);
    let info = collector.collect_from_existing_account(&address, &mut exact, |_, _, _| 40);
    assert_eq!(info.rent_amount, 40);
    assert_eq!(info.account_data_len_reclaimed, 3);
    assert_eq!(exact, AccountSharedData::default());
    let mut more = account(41, 3, 20);
    let info = collector.collect_from_existing_account(&address, &mut more, |_, _, _| 40);
    assert_eq!(info.rent_amount, 40);
    assert_eq!(info.account_data_len_reclaimed, 0);
    assert_eq!(more.lamports, 1);
}

#[test]
fn exempt_account_is_marked() {
    let collector = collector(20);
    let address = Pubkey { bytes: [1; 32] };
    let mut rich = account(890_880, 0, 3);
    assert_eq!(
        collector.collect_from_existing_account(&address, &mut rich, due_amount),
        NOTHING
    );
    assert_eq!(rich.lamports, 890_880);
    assert_eq!(rich.rent_epoch, RENT_EXEMPT_RENT_EPOCH);
    assert_eq!(
        collector.calculate_rent_result(&address, &rich, due_amount),
        RentResult::NoRentCollectionNow
    );
}

#[test]
fn last_epoch_saturates() {
    let collector = collector(u64::MAX - 1);
    let address = Pubkey { bytes: [1; 32] };
    assert_eq!(
        collector.calculate_rent_result(&address, &account(5, 0, u64::MAX - 1), |_, _, _| 2),
        RentResult::CollectRent {
            new_rent_epoch: u64::MAX,
            rent_due: 2
        }
    );
}

#[test]
fn rent_too_large_to_compute_is_noticed() {
    let rent = Rent {
        lamports_per_byte_year: u64::MAX / 130,
        ..Rent::default()
    };
    assert!(is_rent_computable(&rent, 2));
    assert!(!is_rent_computable(&rent, 3));
    assert!(!is_rent_computable(&Rent::free(), usize::MAX));
    assert!(is_rent_computable(&Rent::free(), usize::MAX - 128));

    let mut collector = collector(20);
    let address = Pubkey { bytes: [1; 32] };
    collector.rent = rent;
    assert!(collector.can_assess(1, 2, 20));
    assert!(!collector.can_assess(1, 3, 20));
    let mut large = account(1, 3, 20);
    assert_eq!(
        collector.try_collect_from_existing_account(&address, &mut large, due_amount),
        None
    );
    assert_eq!(large, account(1, 3, 20));
    // An account that is left alone anyway is no trouble.
    let mut settled = account(1, 3, 21);
    assert_eq!(
        collector.try_collect_from_existing_account(&address, &mut settled, due_amount),
        Some(NOTHING)
    );

    let mut collector = RentCollector::default().clone_with_epoch(20);
    collector.epoch_schedule.slots_per_epoch = u64::MAX;
    assert!(!collector.can_assess(1, 0, 19));
    assert!(collector.can_assess(890_880, 0, 19));
    assert!(collector.can_assess(1, 0, 20));
}

#[test]
fn collected_info_adds_up() {
    let info = |rent_amount: u64, account_data_len_reclaimed: u64| CollectedInfo {
        rent_amount,
        account_data_len_reclaimed,
    };
    assert_eq!(info(1, 2) + info(3, 4), info(4, 6));
    assert_eq!(
        info(u64::MAX, 2) + info(3, u64::MAX - 1),
        info(u64::MAX, u64::MAX)
    );
    assert_eq!(CollectedInfo::default(), NOTHING);
    let mut total = info(5, 6);
    total += info(7, 8);
    assert_eq!(total, info(12, 14));
    assert_eq!(total + NOTHING, total);
    assert_eq!(
        (info(u64::MAX, 1) + info(1, 2)) + info(3, 4),
        info(u64::MAX, 1) + (info(1, 2) + info(3, 4))
    );
}

#[test]
fn rent_states() {
    let collector = collector(20);
    assert_eq!(
        collector.get_account_rent_state(&account(0, 9, 0)),
        RentState::Uninitialized
    );
    assert_eq!(
        collector.get_account_rent_state(&account(890_880 + 9 * 6960, 9, 0)),
        RentState::RentExempt
    );
    assert_eq!(
        collector.get_account_rent_state(&account(890_880 + 9 * 6960 - 1, 9, 0)),
        RentState::RentPaying {
            lamports: 890_880 + 9 * 6960 - 1,
            data_size: 9
        }
    );
}

#[test]
fn rent_state_transitions() {
    let collector = collector(20);
    let paying = |lamports: u64, data_size: usize| RentState::RentPaying {
        lamports,
        data_size,
    };
    let states = [
        RentState::Uninitialized,
        RentState::RentExempt,
        paying(5, 6),
        paying(4, 6),
        paying(6, 6),
        paying(5, 7),
    ];
    for pre in &states {
        assert!(collector.transition_allowed(pre, &RentState::Uninitialized));
        assert!(collector.transition_allowed(pre, &RentState::RentExempt));
        assert!(collector.transition_allowed(pre, pre));
        for mid in &states {
            for post in &states {
                if collector.transition_allowed(pre, mid) && collector.transition_allowed(mid, post)
                {
                    assert!(collector.transition_allowed(pre, post));
                }
            }
        }
    }
    assert!(!collector.transition_allowed(&RentState::Uninitialized, &paying(5, 6)));
    assert!(!collector.transition_allowed(&RentState::RentExempt, &paying(5, 6)));
    assert!(collector.transition_allowed(&paying(5, 6), &paying(4, 6)));
    assert!(!collector.transition_allowed(&paying(5, 6), &paying(6, 6)));
    assert!(!collector.transition_allowed(&paying(5, 6), &paying(5, 7)));
}

#[test]
fn rent_state_checks() {
    let collector = collector(20);
    let exempt = RentState::RentExempt;
    let paying = RentState::RentPaying {
        lamports: 1,
        data_size: 2,
    };
    let mut accounts = vec![];
    for i in 0..300u64 {
        accounts.push((Pubkey { bytes: [7; 32] }, account(i, 0, 0)));
    }
    accounts[1].0 = incinerator();
    let context = TransactionContext::new(accounts);
    assert_eq!(context.accounts.len(), 300);
    assert_eq!(context.accounts[299].lamports, 299);

    let check = |pre: Option<&RentState>, post: Option<&RentState>, index: u16| {
        collector.check_rent_state(pre, post, &context, index)
    };
    assert_eq!(check(Some(&paying), Some(&exempt), 2), Ok(()));
    assert_eq!(
        check(Some(&exempt), Some(&paying), 2),
        Err(RentCheckError::InsufficientFundsForRent { account_index: 2 })
    );
    // Of the index eight bits are kept.
    assert_eq!(
        check(Some(&exempt), Some(&paying), 259),
        Err(RentCheckError::InsufficientFundsForRent { account_index: 3 })
    );
    // The incinerator may end up in any state.
    assert_eq!(check(Some(&exempt), Some(&paying), 1), Ok(()));
    // Without both states there is nothing to check.
    assert_eq!(check(None, Some(&paying), 2), Ok(()));
    assert_eq!(check(Some(&exempt), None, 2), Ok(()));
    assert_eq!(check(None, None, u16::MAX), Ok(()));

    assert_eq!(
        collector.check_rent_state_with_account(
            &exempt,
            &paying,
            &context.account_keys[0],
            &context.accounts[0],
            0
        ),
        Err(RentCheckError::InsufficientFundsForRent { account_index: 0 })
    );
}

/// A collector for which every transition is allowed.
struct Lenient(Rent);

impl SVMRentCollector for Lenient {
    fn collect_rent<F: Fn(&Rent, usize, YearsElapsed) -> u64>(
        &self,
        _address: &Pubkey,
        _account: &mut AccountSharedData,
        _due_amount: F,
    ) -> CollectedInfo {
        CollectedInfo::default()
    }

    fn get_rent(&self) -> &Rent {
        &self.0
    }

    fn get_rent_due<F: Fn(&Rent, usize, YearsElapsed) -> u64>(
        &self,
        _lamports: u64,
        _data_len: usize,
        _account_rent_epoch: u64,
        _due_amount: F,
    ) -> RentDue {
        RentDue::Exempt
    }

    fn transition_allowed(&self, _pre: &RentState, _post: &RentState) -> bool {
        true
    }
}

#[test]
fn checks_follow_an_overridden_transition() {
    let lenient = Lenient(Rent::free());
    let paying = RentState::RentPaying {
        lamports: 1,
        data_size: 2,
    };
    let context = TransactionContext::new(vec![(Pubkey::default(), account(1, 2, 0))]);
    assert_eq!(
        lenient.check_rent_state(Some(&RentState::RentExempt), Some(&paying), &context, 0),
        Ok(())
    );
    assert_eq!(
        lenient.get_account_rent_state(&account(1, 2, 0)),
        RentState::RentExempt
    );
}

#[test]
fn collection_conserves_and_is_an_allowed_transition() {
    let collector = collector(20);
    let address = Pubkey { bytes: [1; 32] };
    for lamports in [0, 1, 2439, 2440, 890_880 + 3 * 6960, u64::MAX] {
        let before = account(lamports, 3, 20);
        let mut after = before.clone();
        let info = collector.collect_from_existing_account(&address, &mut after, due_amount);
        assert_eq!(after.lamports + info.rent_amount, lamports);
        assert_eq!(after.data.len() as u64 + info.account_data_len_reclaimed, 3);
        assert!(collector.transition_allowed(
            &collector.get_account_rent_state(&before),
            &collector.get_account_rent_state(&after)
        ));
    }
}

#[test]
fn collectors_compare_their_years_as_numbers() {
    let with = |slots_per_year: f64| RentCollector {
        slots_per_year_bits: slots_per_year.to_bits(),
        ..RentCollector::default()
    };
    let numbers = [
        0.0,
        -0.0,
        1.0,
        -1.0,
        f64::MIN_POSITIVE,
        f64::MAX,
        f64::INFINITY,
        f64::NEG_INFINITY,
        f64::NAN,
        -f64::NAN,
    ];
    for a in numbers {
        for b in numbers {
            assert_eq!(with(a) == with(b), a == b);
        }
    }
    assert!(with(0.0) == with(-0.0));
    assert!(with(f64::NAN) != with(f64::NAN));

    assert!(collector(3) == collector(3));
    assert!(collector(3) != collector(4));
    let mut other = collector(3);
    other.epoch_schedule.warmup = false;
    assert!(collector(3) != other);
    let mut other = collector(3);
    other.rent.exemption_threshold = 3.0;
    assert!(collector(3) != other);
    other.rent = Rent::default();
    assert!(collector(3) == other);
}

#[test]
fn second_collection_changes_nothing() {
    let address = Pubkey { bytes: [1; 32] };
    let mut free = collector(20);
    free.slots_per_year_bits = 0;
    for collector in [collector(20), free] {
        for lamports in [0, 1, 2440, 10_000_000] {
            let mut account = account(lamports, 3, 20);
            let _ = collector.collect_from_existing_account(&address, &mut account, due_amount);
            let once = account.clone();
            let info = collector.collect_from_existing_account(&address, &mut account, due_amount);
            assert_eq!(info, NOTHING);
            assert_eq!(account, once);
        }
    }
}

#[test]
fn longer_unpaid_owes_more() {
    let collector = collector(20);
    let due = |lamports, rent_epoch| match collector.get_rent_due(lamports, 3, rent_epoch, due_amount) {
        RentDue::Paying(due) => due,
        RentDue::Exempt => panic!("not exempt"),
    };
    for rent_epoch in 0..20 {
        assert!(due(1, rent_epoch + 1) <= due(2, rent_epoch));
        assert_eq!(due(1, rent_epoch), due(2, rent_epoch));
    }
    assert!(due(1, 20) < due(1, 15));
    assert_eq!(due(1, 21), 0);
}

#[test]
fn exempt_state_means_no_rent_due() {
    let collector = collector(20);
    let minimum = 890_880 + 3 * 6960;
    for lamports in [1, minimum - 1, minimum, minimum + 1] {
        let state = collector.get_account_rent_state(&account(lamports, 3, 0));
        for epoch in [0, 19, 20, 21] {
            let due = collector.get_rent_due(lamports, 3, epoch, due_amount);
            assert_eq!(state == RentState::RentExempt, due == RentDue::Exempt);
            assert_eq!(due == RentDue::Exempt, lamports >= minimum);
        }
    }
}

#[test]
fn rents_compare_as_the_runtime_compares_them() {
    let rents = [
        Rent::default(),
        Rent::free(),
        Rent {
            burn_percent: 51,
            ..Rent::default()
        },
        Rent {
            lamports_per_byte_year: 3481,
            ..Rent::default()
        },
        Rent {
            exemption_threshold: 0.0,
            ..Rent::default()
        },
        Rent {
            exemption_threshold: -0.0,
            ..Rent::default()
        },
        Rent {
            exemption_threshold: f64::NAN,
            ..Rent::default()
        },
    ];
    for a in &rents {
        for b in &rents {
            assert_eq!(are_rents_equal(a, b), a == b);
        }
    }
    let rent = RentCollector::default().rent;
    assert_eq!(rent.lamports_per_byte_year, 3480);
    assert_eq!(rent.exemption_threshold.to_bits(), 0x4000_0000_0000_0000);
    assert_eq!(rent.burn_percent, 50);
}

#[test]
fn rent_collector_can_be_an_object() {
    let collector = collector(20);
    let object: &dyn SVMRentCollector = &collector;
    assert_eq!(object.get_rent(), &Rent::default());
    assert_eq!(
        object.get_account_rent_state(&account(0, 9, 0)),
        RentState::Uninitialized
    );
    assert!(!object.transition_allowed(
        &RentState::RentExempt,
        &RentState::RentPaying {
            lamports: 1,
            data_size: 2
        }
    ));
}
