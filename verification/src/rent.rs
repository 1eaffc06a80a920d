//! The terms of rent: what an account must hold so that it need not pay any.
use crate::float_bits::are_same_number;
use crate::float_bits::stand_for_same;
use vstd::prelude::*;

verus! {

/// Configuration of network rent, `solana_rent`'s `Rent`. One of its terms is not an
/// integer.
#[verifier::external_type_specification]
#[verifier::external_body]
pub struct ExRent(solana_rent::Rent);

/// The field `lamports_per_byte_year`.
pub uninterp spec fn lamports_per_byte_year_of(rent: solana_rent::Rent) -> u64;

/// What `Rent::minimum_balance` returns.
pub uninterp spec fn minimum_balance_of(rent: solana_rent::Rent, data_len: usize) -> u64;

/// The bits of the field `exemption_threshold`, in the 64-bit format of IEEE 754.
pub uninterp spec fn exemption_threshold_bits_of(rent: solana_rent::Rent) -> u64;

/// The field `burn_percent`.
pub uninterp spec fn burn_percent_of(rent: solana_rent::Rent) -> u8;

/// Whether the terms of rent are the same, the threshold as a number.
pub open spec fn equal_rents(a: solana_rent::Rent, b: solana_rent::Rent) -> bool {
    &&& lamports_per_byte_year_of(a) == lamports_per_byte_year_of(b)
    &&& stand_for_same(exemption_threshold_bits_of(a), exemption_threshold_bits_of(b))
    &&& burn_percent_of(a) == burn_percent_of(b)
}

/// The number of bytes that an account takes up without data.
pub const ACCOUNT_STORAGE_OVERHEAD: u64 = 128;

/// Whether the rent of an account of that size for one year is a `u64`.
pub open spec fn rent_fits(rent: solana_rent::Rent, data_len: usize) -> bool {
    &&& ACCOUNT_STORAGE_OVERHEAD + data_len <= u64::MAX
    &&& (ACCOUNT_STORAGE_OVERHEAD + data_len) * lamports_per_byte_year_of(rent) <= u64::MAX
}

/// Whether an account with that balance and size need not pay rent.
pub open spec fn exempt(rent: solana_rent::Rent, lamports: u64, data_len: usize) -> bool {
    lamports >= minimum_balance_of(rent, data_len)
}

/// `Clone` of `solana_rent::Rent`: the copy has the same terms.
pub assume_specification[ <solana_rent::Rent as Clone>::clone ](rent: &solana_rent::Rent) -> (r: solana_rent::Rent)
    ensures
        r == *rent,
;

/// Reads the field `lamports_per_byte_year` of `solana_rent::Rent`.
#[verifier::external_body]
fn lamports_per_byte_year(rent: &solana_rent::Rent) -> (r: u64)
    ensures
        r == lamports_per_byte_year_of(*rent),
{
    rent.lamports_per_byte_year
}

/// Reads the field `exemption_threshold` of `solana_rent::Rent`, a floating-point
/// number, as its bits.
#[verifier::external_body]
fn exemption_threshold_bits(rent: &solana_rent::Rent) -> (r: u64)
    ensures
        r == exemption_threshold_bits_of(*rent),
{
    rent.exemption_threshold.to_bits()
}

/// Reads the field `burn_percent` of `solana_rent::Rent`.
#[verifier::external_body]
fn burn_percent(rent: &solana_rent::Rent) -> (r: u8)
    ensures
        r == burn_percent_of(*rent),
{
    rent.burn_percent
}

/// Whether the terms of rent are the same.
pub fn are_rents_equal(a: &solana_rent::Rent, b: &solana_rent::Rent) -> (r: bool)
    ensures
        r == equal_rents(*a, *b),
{
    lamports_per_byte_year(a) == lamports_per_byte_year(b) && are_same_number(
        exemption_threshold_bits(a),
        exemption_threshold_bits(b),
    ) && burn_percent(a) == burn_percent(b)
}

/// `solana_rent::Rent::is_exempt`: whether the balance is at least what
/// `minimum_balance` asks of an account of that size. The rent for one year must be
/// a `u64`, since both compute it.
#[verifier::external_body]
pub(crate) fn is_exempt(rent: &solana_rent::Rent, lamports: u64, data_len: usize) -> (r: bool)
    requires
        rent_fits(*rent, data_len),
    ensures
        r == exempt(*rent, lamports, data_len),
{
    rent.is_exempt(lamports, data_len)
}

/// `solana_rent::Rent::default`: 3480 lamports per byte and year, half of which is
/// burned. Two years of rent exempt an account, 2.0 being the threshold: their double is exact as long as the rent for one year is at
/// most 2^53, which is more than any account's size calls for.
#[verifier::external_body]
pub(crate) fn default_rent() -> (r: solana_rent::Rent)
    ensures
        lamports_per_byte_year_of(r) == 3480,
        exemption_threshold_bits_of(r) == 0x4000_0000_0000_0000,
        burn_percent_of(r) == 50,
        forall|data_len: usize|
            (128 + data_len) * 3480 <= 0x20_0000_0000_0000 ==> #[trigger] minimum_balance_of(
                r,
                data_len,
            ) == (128 + data_len) * 6960,
{
    solana_rent::Rent::default()
}

/// Whether the rent of an account of that size for one year is a `u64`.
pub fn is_rent_computable(rent: &solana_rent::Rent, data_len: usize) -> (r: bool)
    ensures
        r == rent_fits(*rent, data_len),
{
    let bytes: u64 = data_len as u64;
    match ACCOUNT_STORAGE_OVERHEAD.checked_add(bytes) {
        None => false,
        Some(total) => total.checked_mul(lamports_per_byte_year(rent)).is_some(),
    }
}

/// More lamports never end an exemption.
pub proof fn law_exemption_is_monotonic(
    rent: solana_rent::Rent,
    less: u64,
    more: u64,
    data_len: usize,
)
    requires
        less <= more,
        exempt(rent, less, data_len),
    ensures
        exempt(rent, more, data_len),
{
}

/// The terms of rent are the same if the rate and the share that is burned are, and
/// the thresholds are the same bits of a number or both zero.
pub proof fn law_same_terms(a: &solana_rent::Rent, b: &solana_rent::Rent, result: bool)
    requires
        call_ensures(are_rents_equal, (a, b), result),
    ensures
        ({
            let s = exemption_threshold_bits_of(*a);
            let t = exemption_threshold_bits_of(*b);
            result <==> {
                &&& lamports_per_byte_year_of(*a) == lamports_per_byte_year_of(*b)
                &&& burn_percent_of(*a) == burn_percent_of(*b)
                &&& {
                    ||| s == t && !(0x7ff0_0000_0000_0000 < s < 0x8000_0000_0000_0000) && s
                        <= 0xfff0_0000_0000_0000
                    ||| (s == 0 || s == 0x8000_0000_0000_0000) && (t == 0 || t
                        == 0x8000_0000_0000_0000)
                }
            }
        }),
{
}

/// Rent can be computed for an account if and only if the rate times its size, with
/// 128 bytes on top, is at most the largest `u64`.
pub proof fn law_rent_is_computable(rent: &solana_rent::Rent, data_len: usize, result: bool)
    requires
        call_ensures(is_rent_computable, (rent, data_len), result),
    ensures
        result <==> 128 + data_len <= u64::MAX && lamports_per_byte_year_of(*rent) * (128
            + data_len) <= u64::MAX,
{
    assert(lamports_per_byte_year_of(*rent) * (128 + data_len) == (128 + data_len)
        * lamports_per_byte_year_of(*rent)) by (nonlinear_arith);
}

/// An account is exempt from the minimum balance of its size on, and not below it.
pub proof fn law_exempt_from_the_minimum_on(
    rent: solana_rent::Rent,
    lamports: u64,
    data_len: usize,
)
    ensures
        lamports < minimum_balance_of(rent, data_len) ==> !exempt(rent, lamports, data_len),
        lamports >= minimum_balance_of(rent, data_len) ==> exempt(rent, lamports, data_len),
{
}

} // verus!
