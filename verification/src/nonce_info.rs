//! Nonce accounts: an account whose data holds a durable nonce, and how a failed
//! transaction advances it.
use crate::account::AccountSharedData;
use crate::account::AccountView;
use crate::pubkey::Pubkey;
use vstd::prelude::*;

verus! {

/// A hash that stands in for a recent blockhash, `solana_nonce`'s `DurableNonce`.
#[verifier::external_type_specification]
#[verifier::external_body]
pub struct ExDurableNonce(solana_sdk::nonce::state::DurableNonce);

/// The bytes of the hash that `DurableNonce::as_hash` returns.
pub uninterp spec fn durable_nonce_hash(durable_nonce: solana_sdk::nonce::state::DurableNonce) -> Seq<u8>;

/// The number that four bytes make up, least significant byte first.
pub open spec fn le32(s: Seq<u8>, at: int) -> int {
    s[at] + s[at + 1] * 0x100 + s[at + 2] * 0x1_0000 + s[at + 3] * 0x100_0000
}

/// The number that eight bytes make up, least significant byte first.
pub open spec fn le64(s: Seq<u8>, at: int) -> int {
    le32(s, at) + le32(s, at + 4) * 0x1_0000_0000
}

/// The eight bytes of a number, least significant byte first.
pub open spec fn le64_bytes(n: u64) -> Seq<u8> {
    seq![
        (n % 0x100) as u8,
        (n / 0x100 % 0x100) as u8,
        (n / 0x1_0000 % 0x100) as u8,
        (n / 0x100_0000 % 0x100) as u8,
        (n / 0x1_0000_0000 % 0x100) as u8,
        (n / 0x100_0000_0000 % 0x100) as u8,
        (n / 0x1_0000_0000_0000 % 0x100) as u8,
        (n / 0x100_0000_0000_0000 % 0x100) as u8,
    ]
}

/// What an initialized nonce account records.
#[verifier::ext_equal]
pub struct NonceData {
    /// who may advance the nonce
    pub authority: Seq<u8>,
    /// the durable nonce
    pub durable_nonce: Seq<u8>,
    /// the fee per signature at the time the nonce was stored
    pub lamports_per_signature: u64,
}

/// The record in a nonce account: whether it has the current version, and its data
/// if it is initialized.
#[verifier::ext_equal]
pub struct NonceRecord {
    pub current: bool,
    pub data: Option<NonceData>,
}

/// The number of bytes of an initialized record.
pub open spec fn nonce_size() -> int {
    80
}

/// The record at the start of an account's data. It begins with two four-byte tags:
/// the version, old (0) or current (1), and the state, uninitialized (0) or
/// initialized (1). An initialized record goes on with the authority, the durable
/// nonce and the fee. Bytes after the record do not count.
pub open spec fn decode_nonce(s: Seq<u8>) -> Option<NonceRecord> {
    if s.len() < 8 || le32(s, 0) > 1 || le32(s, 4) > 1 {
        None
    } else if le32(s, 4) == 0 {
        Some(NonceRecord { current: le32(s, 0) == 1, data: None })
    } else if s.len() < nonce_size() {
        None
    } else {
        Some(
            NonceRecord {
                current: le32(s, 0) == 1,
                data: Some(
                    NonceData {
                        authority: s.subrange(8, 40),
                        durable_nonce: s.subrange(40, 72),
                        lamports_per_signature: le64(s, 72) as u64,
                    },
                ),
            },
        )
    }
}

/// The bytes of an initialized record of the current version.
pub open spec fn encode_nonce(data: NonceData) -> Seq<u8> {
    seq![1u8, 0u8, 0u8, 0u8, 1u8, 0u8, 0u8, 0u8] + data.authority + data.durable_nonce
        + le64_bytes(data.lamports_per_signature)
}

/// The eight bytes of a number make up that number.
proof fn lemma_le64_bytes(n: u64)
    ensures
        n == n % 0x100 + (n / 0x100 % 0x100) * 0x100 + (n / 0x1_0000 % 0x100) * 0x1_0000
            + (n / 0x100_0000 % 0x100) * 0x100_0000 + (n / 0x1_0000_0000 % 0x100) * 0x1_0000_0000
            + (n / 0x100_0000_0000 % 0x100) * 0x100_0000_0000 + (n / 0x1_0000_0000_0000 % 0x100)
            * 0x1_0000_0000_0000 + (n / 0x100_0000_0000_0000 % 0x100) * 0x100_0000_0000_0000,
{
    assert(n == n % 0x100 + (n / 0x100 % 0x100) * 0x100 + (n / 0x1_0000 % 0x100) * 0x1_0000 + (n
        / 0x100_0000 % 0x100) * 0x100_0000 + (n / 0x1_0000_0000 % 0x100) * 0x1_0000_0000 + (n
        / 0x100_0000_0000 % 0x100) * 0x100_0000_0000 + (n / 0x1_0000_0000_0000 % 0x100)
        * 0x1_0000_0000_0000 + (n / 0x100_0000_0000_0000 % 0x100) * 0x100_0000_0000_0000)
        by (bit_vector);
}

/// The fee of a record is read back from its eight bytes.
proof fn lemma_le64_at(s: Seq<u8>, n: u64)
    requires
        s.len() >= 80,
        s.subrange(72, 80) == le64_bytes(n),
    ensures
        le64(s, 72) == n,
{
    let b = le64_bytes(n);
    let t = s.subrange(72, 80);
    assert(t[0] == s[72] && t[1] == s[73] && t[2] == s[74] && t[3] == s[75]);
    assert(t[4] == s[76] && t[5] == s[77] && t[6] == s[78] && t[7] == s[79]);
    lemma_le64_bytes(n);
}

/// A record that was written can be read back: decoding the bytes of an initialized
/// record, whatever follows them, gives its data and the current version.
pub proof fn law_nonce_round_trip(data: NonceData, rest: Seq<u8>)
    requires
        data.authority.len() == 32,
        data.durable_nonce.len() == 32,
    ensures
        encode_nonce(data).len() == nonce_size(),
        decode_nonce(encode_nonce(data) + rest) == Some(
            NonceRecord { current: true, data: Some(data) },
        ),
{
    let s = encode_nonce(data) + rest;
    let n = data.lamports_per_signature;
    assert(s.subrange(8, 40) =~= data.authority);
    assert(s.subrange(40, 72) =~= data.durable_nonce);
    assert(s.subrange(72, 80) =~= le64_bytes(n));
    lemma_le64_at(s, n);
}

/// Reads the record of a nonce account with `StateMut::<Versions>::state` of
/// `solana_account`, which decodes it with `bincode`: nothing if the data holds no
/// record, else the authority if the record is initialized.
#[verifier::external_body]
fn read_nonce(data: &Vec<u8>) -> (r: Option<Option<Pubkey>>)
    ensures
        match r {
            None => decode_nonce(data@) is None,
            Some(None) => decode_nonce(data@) is Some && decode_nonce(data@)->0.data is None,
            Some(Some(authority)) => decode_nonce(data@) is Some && decode_nonce(data@)->0.data is Some
                && decode_nonce(data@)->0.data->0.authority == authority@,
        },
{
    let account = solana_sdk::account::Account { data: data.clone(), ..Default::default() };
    match solana_sdk::account_utils::StateMut::<solana_sdk::nonce::state::Versions>::state(&account) {
        Err(_) => None,
        Ok(versions) => Some(
            match versions.state() {
                solana_sdk::nonce::State::Uninitialized => None,
                solana_sdk::nonce::State::Initialized(data) => Some(
                    Pubkey { bytes: data.authority.to_bytes() },
                ),
            },
        ),
    }
}

/// Writes an initialized record of the current version over the start of a nonce
/// account's data with `StateMut::<Versions>::set_state` of `solana_account`, which
/// encodes it with `bincode`. The record must fit; where it does not, nothing changes.
#[verifier::external_body]
fn write_nonce(
    data: &mut Vec<u8>,
    authority: &Pubkey,
    durable_nonce: solana_sdk::nonce::state::DurableNonce,
    lamports_per_signature: u64,
) -> (r: bool)
    ensures
        r == (old(data)@.len() >= nonce_size()),
        final(data)@.len() == old(data)@.len(),
        !r ==> final(data)@ == old(data)@,
        r ==> final(data)@ == encode_nonce(
            (NonceData {
                authority: authority@,
                durable_nonce: durable_nonce_hash(durable_nonce),
                lamports_per_signature,
            }),
        ) + old(data)@.skip(nonce_size()),
{
    let authority = solana_pubkey::Pubkey::new_from_array(authority.bytes);
    let state = solana_sdk::nonce::State::new_initialized(
        &authority,
        durable_nonce,
        lamports_per_signature,
    );
    let mut account = solana_sdk::account::Account { data: data.clone(), ..Default::default() };
    let versions = solana_sdk::nonce::state::Versions::new(state);
    let written = solana_sdk::account_utils::StateMut::set_state(&mut account, &versions).is_ok();
    *data = account.data;
    written
}

/// Why a nonce cannot be advanced.
#[derive(Debug, Clone, Copy, PartialEq, Eq)]
pub enum AdvanceNonceError {
    /// the account's data holds no nonce record
    Invalid,
    /// the record is not initialized
    Uninitialized,
}

/// A nonce account and its address.
#[derive(Debug, Clone, PartialEq, Eq)]
pub struct NonceInfo {
    pub address: Pubkey,
    pub account: AccountSharedData,
}

/// An account's data with the durable nonce and the fee of its record replaced. The
/// authority stays, and the record has the current version.
pub open spec fn advanced_data(data: Seq<u8>, durable_nonce: Seq<u8>, lamports_per_signature: u64) -> Seq<u8> {
    encode_nonce(
        NonceData { authority: data.subrange(8, 40), durable_nonce, lamports_per_signature },
    ) + data.skip(nonce_size())
}

impl NonceInfo {
    /// Whether the account holds an initialized nonce record.
    pub open spec fn can_advance(&self) -> bool {
        decode_nonce(self.account.data@) is Some && decode_nonce(self.account.data@)->0.data is Some
    }

    /// Whether `after` is this nonce, advanced: only the account's data differs.
    pub open spec fn advanced_to(
        &self,
        after: NonceInfo,
        durable_nonce: Seq<u8>,
        lamports_per_signature: u64,
    ) -> bool {
        &&& after.address == self.address
        &&& after.account@ == (AccountView {
            data: advanced_data(self.account.data@, durable_nonce, lamports_per_signature),
            ..self.account@
        })
        &&& after.account.data@.len() == self.account.data@.len()
        &&& after.account.owner == self.account.owner
    }

    pub fn new(address: Pubkey, account: AccountSharedData) -> (r: Self)
        ensures
            r.address == address,
            r.account == account,
    {
        NonceInfo { address, account }
    }

    /// Whether the account holds an initialized nonce record.
    pub fn is_initialized(&self) -> (r: bool)
        ensures
            r == self.can_advance(),
    {
        match read_nonce(&self.account.data) {
            Some(Some(_)) => true,
            _ => false,
        }
    }

    /// Advances the stored blockhash to prevent fee theft by someone replaying
    /// nonce transactions that have failed.
    pub fn try_advance_nonce(
        &mut self,
        durable_nonce: solana_sdk::nonce::state::DurableNonce,
        lamports_per_signature: u64,
    ) -> (r: Result<(), AdvanceNonceError>)
        ensures
            match r {
                Ok(_) => {
                    &&& old(self).can_advance()
                    &&& old(self).advanced_to(
                        *final(self),
                        durable_nonce_hash(durable_nonce),
                        lamports_per_signature,
                    )
                },
                Err(AdvanceNonceError::Invalid) => {
                    &&& decode_nonce(old(self).account.data@) is None
                    &&& *final(self) == *old(self)
                },
                Err(AdvanceNonceError::Uninitialized) => {
                    &&& decode_nonce(old(self).account.data@) is Some
                    &&& !old(self).can_advance()
                    &&& *final(self) == *old(self)
                },
            },
    {
        match read_nonce(&self.account.data) {
            None => Err(AdvanceNonceError::Invalid),
            Some(None) => Err(AdvanceNonceError::Uninitialized),
            Some(Some(authority)) => {
                let written = write_nonce(
                    &mut self.account.data,
                    &authority,
                    durable_nonce,
                    lamports_per_signature,
                );
                assert(written);
                Ok(())
            },
        }
    }

    pub fn address(&self) -> (r: &Pubkey)
        ensures
            *r == self.address,
    {
        &self.address
    }

    pub fn account(&self) -> (r: &AccountSharedData)
        ensures
            *r == self.account,
    {
        &self.account
    }
}

/// An advanced nonce holds what it was advanced to: the record has the current
/// version, the new durable nonce and the new fee. Its authority is the same, so are
/// the lamports and the owner of the account, and it can be advanced again.
pub proof fn law_advanced_nonce_holds_durable_nonce(
    before: NonceInfo,
    after: NonceInfo,
    durable_nonce: Seq<u8>,
    lamports_per_signature: u64,
)
    requires
        before.can_advance(),
        before.advanced_to(after, durable_nonce, lamports_per_signature),
    ensures
        decode_nonce(after.account.data@) == Some(
            NonceRecord {
                current: true,
                data: Some(
                    NonceData {
                        authority: decode_nonce(before.account.data@)->0.data->0.authority,
                        durable_nonce,
                        lamports_per_signature,
                    },
                ),
            },
        ),
        after.can_advance(),
        after.address == before.address,
        after.account.lamports == before.account.lamports,
        after.account.owner@ == before.account.owner@,
        after.account.data@.skip(nonce_size()) == before.account.data@.skip(nonce_size()),
{
    let s = before.account.data@;
    let data = NonceData {
        authority: s.subrange(8, 40),
        durable_nonce,
        lamports_per_signature,
    };
    assert(after.account@.data == encode_nonce(data) + s.skip(nonce_size()));
    assert(durable_nonce.len() == 32);
    law_nonce_round_trip(data, s.skip(nonce_size()));
    assert(after.account.data@.skip(nonce_size()) =~= s.skip(nonce_size()));
}

/// A nonce is initialized if and only if its account's data holds at least eighty
/// bytes, of which the first four make up zero or one and the next four make up one.
pub proof fn law_initialized_nonce(nonce: &NonceInfo, result: bool)
    requires
        call_ensures(NonceInfo::is_initialized, (nonce,), result),
    ensures
        ({
            let s = nonce.account.data@;
            result <==> {
                &&& s.len() >= 80
                &&& s[0] <= 1 && s[1] == 0 && s[2] == 0 && s[3] == 0
                &&& s[4] == 1 && s[5] == 0 && s[6] == 0 && s[7] == 0
            }
        }),
        result == nonce.can_advance(),
{
}

/// Data holds a record if and only if its first two groups of four bytes make up zero
/// or one each, and there are eighty bytes if the second makes up one. A record with
/// data has the authority in the bytes from the ninth on, then the durable nonce, then
/// the fee with the least significant byte first.
pub proof fn law_record_is_read_from_its_bytes(s: Seq<u8>)
    ensures
        decode_nonce(s) is Some <==> {
            &&& s.len() >= 8
            &&& s[0] <= 1 && s[1] == 0 && s[2] == 0 && s[3] == 0
            &&& s[4] <= 1 && s[5] == 0 && s[6] == 0 && s[7] == 0
            &&& s[4] == 1 ==> s.len() >= 80
        },
        decode_nonce(s) is Some ==> {
            let record = decode_nonce(s)->0;
            &&& record.current <==> s[0] == 1
            &&& record.data is Some <==> s[4] == 1
            &&& record.data is Some ==> {
                &&& record.data->0.authority.len() == 32
                &&& forall|i: int| 0 <= i < 32 ==> #[trigger] record.data->0.authority[i] == s[8 + i]
                &&& record.data->0.durable_nonce.len() == 32
                &&& forall|i: int|
                    0 <= i < 32 ==> #[trigger] record.data->0.durable_nonce[i] == s[40 + i]
                &&& record.data->0.lamports_per_signature == s[72] + s[73] * 0x100 + s[74]
                    * 0x1_0000 + s[75] * 0x100_0000 + s[76] * 0x1_0000_0000 + s[77]
                    * 0x100_0000_0000 + s[78] * 0x1_0000_0000_0000 + s[79]
                    * 0x100_0000_0000_0000
            }
        },
{
}

/// An advanced nonce differs from what it was in the first eight bytes of its data, which
/// say that it is initialized and current, in the thirty-two bytes of the durable nonce
/// and in the eight bytes of the fee. Every other byte, the authority among them, and
/// everything else about the account is as it was.
pub proof fn law_advancing_replaces_nonce_and_fee(
    before: NonceInfo,
    after: NonceInfo,
    durable_nonce: Seq<u8>,
    lamports_per_signature: u64,
)
    requires
        before.can_advance(),
        before.advanced_to(after, durable_nonce, lamports_per_signature),
    ensures
        after.address == before.address,
        after.account.lamports == before.account.lamports,
        after.account.owner == before.account.owner,
        after.account.executable == before.account.executable,
        after.account.rent_epoch == before.account.rent_epoch,
        ({
            let s = before.account.data@;
            let t = after.account.data@;
            &&& t.len() == s.len()
            &&& durable_nonce.len() == 32
            &&& t[0] == 1 && t[1] == 0 && t[2] == 0 && t[3] == 0
            &&& t[4] == 1 && t[5] == 0 && t[6] == 0 && t[7] == 0
            &&& forall|i: int| 8 <= i < 40 ==> #[trigger] t[i] == s[i]
            &&& forall|i: int| 40 <= i < 72 ==> #[trigger] t[i] == durable_nonce[i - 40]
            &&& t[72] + t[73] * 0x100 + t[74] * 0x1_0000 + t[75] * 0x100_0000 + t[76]
                * 0x1_0000_0000 + t[77] * 0x100_0000_0000 + t[78] * 0x1_0000_0000_0000 + t[79]
                * 0x100_0000_0000_0000 == lamports_per_signature
            &&& forall|i: int| 80 <= i < s.len() ==> #[trigger] t[i] == s[i]
        }),
{
    let s = before.account.data@;
    let t = after.account.data@;
    let data = NonceData {
        authority: s.subrange(8, 40),
        durable_nonce,
        lamports_per_signature,
    };
    assert(after.account@.data == encode_nonce(data) + s.skip(nonce_size()));
    assert(after.account@.lamports == before.account@.lamports);
    assert(after.account@.executable == before.account@.executable);
    assert(after.account@.rent_epoch == before.account@.rent_epoch);
    assert(t == encode_nonce(data) + s.skip(80));
    assert(durable_nonce.len() == 32);
    assert(t.subrange(72, 80) =~= le64_bytes(lamports_per_signature));
    lemma_le64_at(t, lamports_per_signature);
}

} // verus!
