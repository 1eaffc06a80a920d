//! Account addresses.
use vstd::prelude::*;

verus! {

/// The address of an account.
#[derive(Debug, Clone, Copy, PartialEq, Eq, PartialOrd, Ord, Hash)]
pub struct Pubkey {
    pub bytes: [u8; 32],
}

impl View for Pubkey {
    type V = Seq<u8>;

    open spec fn view(&self) -> Seq<u8> {
        self.bytes@
    }
}

/// The address that consists of zeros.
pub open spec fn zero_address() -> Seq<u8> {
    Seq::new(32, |i: int| 0u8)
}

/// The address `1nc1nerator11111111111111111111111111111111`.
pub open spec fn incinerator_address() -> Seq<u8> {
    seq![
        0u8, 51u8, 144u8, 114u8, 141u8, 52u8, 17u8, 96u8,
        121u8, 189u8, 201u8, 17u8, 191u8, 255u8, 0u8, 219u8,
        212u8, 77u8, 46u8, 205u8, 204u8, 247u8, 156u8, 166u8,
        225u8, 0u8, 56u8, 225u8, 0u8, 0u8, 0u8, 0u8,
    ]
}

impl Default for Pubkey {
    fn default() -> (r: Self)
        ensures
            r@ == zero_address(),
    {
        Pubkey { bytes: [0u8; 32] }
    }
}

impl Pubkey {
    /// Whether two addresses hold the same bytes.
    pub fn same_as(&self, other: &Pubkey) -> (r: bool)
        ensures
            r == (self@ == other@),
    {
        let mut i: usize = 0;
        while i < 32
            invariant
                i <= 32,
                forall|j: int| 0 <= j < i ==> self@[j] == other@[j],
            decreases 32 - i,
        {
            if self.bytes[i] != other.bytes[i] {
                assert(self@[i as int] != other@[i as int]);
                return false;
            }
            i = i + 1;
        }
        assert(self@ =~= other@);
        true
    }
}

/// The address of the incinerator, as `solana_sdk_ids::incinerator::id` gives it:
/// the thirty-two bytes that its base-58 name encodes.
#[verifier::external_body]
pub(crate) fn incinerator_id() -> (r: Pubkey)
    ensures
        r@ == incinerator_address(),
{
    Pubkey { bytes: solana_sdk_ids::incinerator::id().to_bytes() }
}

/// `solana_sdk_ids::incinerator::check_id`: true exactly for the address of the
/// incinerator.
#[verifier::external_body]
pub(crate) fn is_incinerator(address: &Pubkey) -> (r: bool)
    ensures
        r == (address@ == incinerator_address()),
{
    solana_sdk_ids::incinerator::check_id(&solana_pubkey::Pubkey::new_from_array(address.bytes))
}

/// An address is its thirty-two bytes, and two addresses are the same if and only if
/// each byte is.
pub proof fn law_address_is_its_bytes(a: &Pubkey, b: &Pubkey, result: bool)
    requires
        call_ensures(Pubkey::same_as, (a, b), result),
    ensures
        a@.len() == 32,
        forall|i: int| 0 <= i < 32 ==> #[trigger] a@[i] == a.bytes[i],
        result <==> forall|i: int| 0 <= i < 32 ==> #[trigger] a.bytes[i] == b.bytes[i],
{
    if forall|i: int| 0 <= i < 32 ==> #[trigger] a.bytes[i] == b.bytes[i] {
        assert(a@ =~= b@);
    } else {
        let i = choose|i: int| 0 <= i < 32 && #[trigger] a.bytes[i] != b.bytes[i];
        assert(a@[i] != b@[i]);
    }
}

/// The default address has no byte that is not zero.
pub proof fn law_default_address_is_zero(address: Pubkey)
    requires
        call_ensures(Pubkey::default, (), address),
    ensures
        forall|i: int| 0 <= i < 32 ==> #[trigger] address.bytes[i] == 0,
{
    assert forall|i: int| 0 <= i < 32 implies #[trigger] address.bytes[i] == 0 by {
        assert(address@[i] == 0);
    }
}

} // verus!
