//! The secp256r1 precompile: where an instruction says that signatures, public keys
//! and messages are to be found, and whether they can be.
//!
//! The curve itself is not computed here. An instruction is therefore never accepted:
//! one in which nothing is found amiss is refused as well.
use vstd::prelude::*;

verus! {

/// The features that are active, `agave_feature_set`'s `FeatureSet`.
#[verifier::external_type_specification]
#[verifier::external_body]
pub struct ExFeatureSet(agave_feature_set::FeatureSet);

/// Precompile errors.
#[derive(Debug, Clone, Copy, PartialEq, Eq, Structural)]
pub enum PrecompileError {
    InvalidPublicKey,
    InvalidRecoveryId,
    InvalidSignature,
    InvalidDataOffsets,
    InvalidInstructionDataSize,
}

/// Bytes of a compressed public key.
pub const COMPRESSED_PUBKEY_SERIALIZED_SIZE: usize = 33;

/// Bytes of a signature: the numbers r and s.
pub const SIGNATURE_SERIALIZED_SIZE: usize = 64;

/// Bytes of one [`Secp256r1SignatureOffsets`].
pub const SIGNATURE_OFFSETS_SERIALIZED_SIZE: usize = 14;

/// Where the first [`Secp256r1SignatureOffsets`] begins. The byte before it is
/// not read.
pub const SIGNATURE_OFFSETS_START: usize = 2;

/// Bytes of a number modulo the order of the curve.
pub const FIELD_SIZE: usize = 32;

/// The most signatures that one instruction may hold.
pub const MAX_SIGNATURES: usize = 8;

/// The instruction index that stands for the instruction itself.
pub const OWN_INSTRUCTION: u16 = 65535;

/// Where the parts of one signature check are found.
#[derive(Debug, Clone, Copy, PartialEq, Eq)]
pub struct Secp256r1SignatureOffsets {
    /// Offset to compact secp256r1 signature of 64 bytes
    pub signature_offset: u16,
    /// Instruction index where the signature can be found
    pub signature_instruction_index: u16,
    /// Offset to compressed public key of 33 bytes
    pub public_key_offset: u16,
    /// Instruction index where the public key can be found
    pub public_key_instruction_index: u16,
    /// Offset to the start of message data
    pub message_data_offset: u16,
    /// Size of message data in bytes
    pub message_data_size: u16,
    /// Instruction index where the message data can be found
    pub message_instruction_index: u16,
}

/// The number that bytes make up, most significant byte first.
pub open spec fn be_value(s: Seq<u8>) -> nat
    decreases s.len(),
{
    if s.len() == 0 {
        0
    } else {
        be_value(s.drop_last()) * 256 + s.last() as nat
    }
}

/// The order of the curve, less one.
pub open spec fn order_minus_one() -> nat {
    0xFFFFFFFF00000000FFFFFFFFFFFFFFFFBCE6FAADA7179E84F3B9CAC2FC632550nat
}

/// Half the order of the curve, rounded down.
pub open spec fn half_order() -> nat {
    0x7FFFFFFF800000007FFFFFFFFFFFFFFFDE737D56D38BCF4279DCE5617E3192A8nat
}

/// `solana_secp256r1_program::SECP256R1_ORDER_MINUS_ONE`, whose bytes make up the
/// order of the curve less one.
#[verifier::external_body]
fn order_minus_one_bytes() -> (r: [u8; 32])
    ensures
        be_value(r@) == order_minus_one(),
{
    solana_secp256r1_program::SECP256R1_ORDER_MINUS_ONE
}

/// `solana_secp256r1_program::SECP256R1_HALF_ORDER`, whose bytes make up half the
/// order of the curve.
#[verifier::external_body]
fn half_order_bytes() -> (r: [u8; 32])
    ensures
        be_value(r@) == half_order(),
{
    solana_secp256r1_program::SECP256R1_HALF_ORDER
}

/// The number that two bytes make up, least significant byte first.
pub open spec fn le16(s: Seq<u8>, at: int) -> u16 {
    (s[at] + s[at + 1] * 256) as u16
}

/// Where the offsets of a signature begin.
pub open spec fn offsets_start(index: int) -> int {
    SIGNATURE_OFFSETS_START + index * SIGNATURE_OFFSETS_SERIALIZED_SIZE
}

/// The offsets of a signature, as the instruction's data gives them.
pub open spec fn offsets_at(data: Seq<u8>, index: int) -> Secp256r1SignatureOffsets {
    let at = offsets_start(index);
    Secp256r1SignatureOffsets {
        signature_offset: le16(data, at),
        signature_instruction_index: le16(data, at + 2),
        public_key_offset: le16(data, at + 4),
        public_key_instruction_index: le16(data, at + 6),
        message_data_offset: le16(data, at + 8),
        message_data_size: le16(data, at + 10),
        message_instruction_index: le16(data, at + 12),
    }
}

/// The data of the instruction with an index, if there is one.
pub open spec fn instruction_data(
    data: Seq<u8>,
    instruction_datas: Seq<&[u8]>,
    instruction_index: u16,
) -> Option<Seq<u8>> {
    if instruction_index == OWN_INSTRUCTION {
        Some(data)
    } else if instruction_index < instruction_datas.len() {
        Some(instruction_datas[instruction_index as int]@)
    } else {
        None
    }
}

/// Where a slice of that size ends, or the largest `usize` if that is less.
pub open spec fn slice_end(offset_start: u16, size: usize) -> int {
    if offset_start + size > usize::MAX {
        usize::MAX as int
    } else {
        offset_start + size
    }
}

/// The bytes that an instruction index, an offset and a size refer to, if they exist.
pub open spec fn data_slice(
    data: Seq<u8>,
    instruction_datas: Seq<&[u8]>,
    instruction_index: u16,
    offset_start: u16,
    size: usize,
) -> Option<Seq<u8>> {
    match instruction_data(data, instruction_datas, instruction_index) {
        None => None,
        Some(instruction) => if slice_end(offset_start, size) > instruction.len() {
            None
        } else {
            Some(instruction.subrange(offset_start as int, slice_end(offset_start, size)))
        },
    }
}

/// A range of bytes that can be read splits into two adjacent ranges that can be read,
/// and whose bytes make up those of the range. No instruction is so long that the end
/// of a range in it could not be told.
pub proof fn law_readable_range_splits(
    data: Seq<u8>,
    instruction_datas: Seq<&[u8]>,
    instruction_index: u16,
    offset_start: u16,
    first: usize,
    second: usize,
)
    requires
        first + second <= usize::MAX,
        offset_start + first <= u16::MAX,
        instruction_data(data, instruction_datas, instruction_index)->0.len() < usize::MAX,
        data_slice(
            data,
            instruction_datas,
            instruction_index,
            offset_start,
            (first + second) as usize,
        ) is Some,
    ensures
        ({
            let whole = data_slice(
                data,
                instruction_datas,
                instruction_index,
                offset_start,
                (first + second) as usize,
            )->0;
            &&& whole.len() == first + second
            &&& data_slice(data, instruction_datas, instruction_index, offset_start, first) == Some(
                whole.take(first as int),
            )
            &&& data_slice(
                data,
                instruction_datas,
                instruction_index,
                (offset_start + first) as u16,
                second,
            ) == Some(whole.skip(first as int))
        }),
{
    let instruction = instruction_data(data, instruction_datas, instruction_index)->0;
    let middle = offset_start + first;
    let whole = instruction.subrange(offset_start as int, middle + second);
    assert(instruction.subrange(offset_start as int, middle) =~= whole.take(first as int));
    assert(instruction.subrange(middle, middle + second) =~= whole.skip(first as int));
}

/// Whether the numbers r and s of a signature are in range: r is neither zero nor
/// as large as the order of the curve, and s is not zero and at most half the order.
pub open spec fn signature_in_range(signature: Seq<u8>) -> bool {
    let r = be_value(signature.subrange(0, FIELD_SIZE as int));
    let s = be_value(signature.subrange(FIELD_SIZE as int, 2 * FIELD_SIZE));
    1 <= r <= order_minus_one() && 1 <= s <= half_order()
}

/// What is wrong with one signature of an instruction, if anything: a part that
/// cannot be found comes before a signature that is out of range.
pub open spec fn signature_error(
    data: Seq<u8>,
    instruction_datas: Seq<&[u8]>,
    offsets: Secp256r1SignatureOffsets,
) -> Option<PrecompileError> {
    let signature = data_slice(
        data,
        instruction_datas,
        offsets.signature_instruction_index,
        offsets.signature_offset,
        SIGNATURE_SERIALIZED_SIZE,
    );
    let public_key = data_slice(
        data,
        instruction_datas,
        offsets.public_key_instruction_index,
        offsets.public_key_offset,
        COMPRESSED_PUBKEY_SERIALIZED_SIZE,
    );
    let message = data_slice(
        data,
        instruction_datas,
        offsets.message_instruction_index,
        offsets.message_data_offset,
        offsets.message_data_size as usize,
    );
    if signature is None || public_key is None || message is None {
        Some(PrecompileError::InvalidDataOffsets)
    } else if !signature_in_range(signature->0) {
        Some(PrecompileError::InvalidSignature)
    } else {
        None
    }
}

/// What is wrong with the first signature with which something is wrong, from an
/// index on.
pub open spec fn first_signature_error(
    data: Seq<u8>,
    instruction_datas: Seq<&[u8]>,
    index: int,
    count: int,
) -> Option<PrecompileError>
    decreases count - index,
{
    if index >= count {
        None
    } else {
        match signature_error(data, instruction_datas, offsets_at(data, index)) {
            Some(error) => Some(error),
            None => first_signature_error(data, instruction_datas, index + 1, count),
        }
    }
}

/// Whether the data of an instruction has a length that goes with the number of
/// signatures in its first byte.
pub open spec fn well_sized(data: Seq<u8>) -> bool {
    &&& data.len() >= SIGNATURE_OFFSETS_START
    &&& 1 <= data[0] <= MAX_SIGNATURES
    &&& data.len() >= offsets_start(data[0] as int)
}

/// With what an instruction is refused.
pub open spec fn refusal(data: Seq<u8>, instruction_datas: Seq<&[u8]>) -> PrecompileError {
    if !well_sized(data) {
        PrecompileError::InvalidInstructionDataSize
    } else {
        match first_signature_error(data, instruction_datas, 0, data[0] as int) {
            Some(error) => error,
            None => PrecompileError::InvalidInstructionDataSize,
        }
    }
}

/// One more byte multiplies the number that the bytes before it make up by 256.
proof fn lemma_be_value_step(a: Seq<u8>, b: Seq<u8>, n: int)
    requires
        a.len() == b.len(),
        0 <= n < a.len(),
    ensures
        be_value(a.take(n + 1)) == be_value(a.take(n)) * 256 + a[n],
        be_value(b.take(n + 1)) == be_value(b.take(n)) * 256 + b[n],
{
    assert(a.take(n + 1).drop_last() =~= a.take(n));
    assert(b.take(n + 1).drop_last() =~= b.take(n));
}

/// Whether the number that bytes make up is at most that of as many other bytes.
fn at_most(a: &[u8], b: &[u8]) -> (r: bool)
    requires
        a@.len() == b@.len(),
    ensures
        r == (be_value(a@) <= be_value(b@)),
{
    let mut less: bool = false;
    let mut greater: bool = false;
    let mut i: usize = 0;
    assert(a@.take(0) =~= b@.take(0));
    while i < a.len()
        invariant
            i <= a@.len(),
            a@.len() == b@.len(),
            less == (be_value(a@.take(i as int)) < be_value(b@.take(i as int))),
            greater == (be_value(a@.take(i as int)) > be_value(b@.take(i as int))),
        decreases a@.len() - i,
    {
        proof {
            lemma_be_value_step(a@, b@, i as int);
        }
        if !less && !greater {
            less = a[i] < b[i];
            greater = a[i] > b[i];
        }
        i = i + 1;
    }
    assert(a@.take(i as int) =~= a@);
    assert(b@.take(i as int) =~= b@);
    !greater
}

/// Whether the number that bytes make up is not zero.
fn is_positive(a: &[u8]) -> (r: bool)
    ensures
        r == (be_value(a@) >= 1),
{
    let mut positive: bool = false;
    let mut i: usize = 0;
    while i < a.len()
        invariant
            i <= a@.len(),
            positive == (be_value(a@.take(i as int)) >= 1),
        decreases a@.len() - i,
    {
        proof {
            lemma_be_value_step(a@, a@, i as int);
        }
        if a[i] != 0 {
            positive = true;
        }
        i = i + 1;
    }
    assert(a@.take(i as int) =~= a@);
    positive
}

/// Reads two bytes, least significant byte first.
fn read_u16(data: &[u8], at: usize) -> (r: u16)
    requires
        at + 2 <= data@.len(),
    ensures
        r == le16(data@, at as int),
{
    data[at] as u16 + data[at + 1] as u16 * 256
}

/// Reads the offsets of a signature.
fn read_offsets(data: &[u8], index: usize) -> (r: Secp256r1SignatureOffsets)
    requires
        index < MAX_SIGNATURES,
        offsets_start(index + 1) <= data@.len(),
    ensures
        r == offsets_at(data@, index as int),
{
    let at: usize = SIGNATURE_OFFSETS_START + index * SIGNATURE_OFFSETS_SERIALIZED_SIZE;
    Secp256r1SignatureOffsets {
        signature_offset: read_u16(data, at),
        signature_instruction_index: read_u16(data, at + 2),
        public_key_offset: read_u16(data, at + 4),
        public_key_instruction_index: read_u16(data, at + 6),
        message_data_offset: read_u16(data, at + 8),
        message_data_size: read_u16(data, at + 10),
        message_instruction_index: read_u16(data, at + 12),
    }
}

/// The bytes that an instruction index, an offset and a size refer to.
pub fn get_data_slice<'a>(
    data: &'a [u8],
    instruction_datas: &'a [&'a [u8]],
    instruction_index: u16,
    offset_start: u16,
    size: usize,
) -> (r: Result<&'a [u8], PrecompileError>)
    ensures
        match data_slice(data@, instruction_datas@, instruction_index, offset_start, size) {
            Some(slice) => r is Ok && r->Ok_0@ == slice,
            None => r == Err::<&[u8], PrecompileError>(PrecompileError::InvalidDataOffsets),
        },
{
    let instruction = if instruction_index == OWN_INSTRUCTION {
        data
    } else {
        let signature_index: usize = instruction_index as usize;
        if signature_index >= instruction_datas.len() {
            return Err(PrecompileError::InvalidDataOffsets);
        }
        instruction_datas[signature_index]
    };

    let start: usize = offset_start as usize;
    let end: usize = start.saturating_add(size);
    if end > instruction.len() {
        return Err(PrecompileError::InvalidDataOffsets);
    }
    Ok(&instruction[start..end])
}

/// Whether the numbers r and s of a signature are in range.
pub fn is_signature_in_range(signature: &[u8]) -> (r: bool)
    requires
        signature@.len() == SIGNATURE_SERIALIZED_SIZE,
    ensures
        r == signature_in_range(signature@),
{
    let r_bytes = &signature[0..FIELD_SIZE];
    let s_bytes = &signature[FIELD_SIZE..SIGNATURE_SERIALIZED_SIZE];
    let order_minus_one = order_minus_one_bytes();
    let half_order = half_order_bytes();
    is_positive(r_bytes) && at_most(r_bytes, order_minus_one.as_slice()) && is_positive(s_bytes)
        && at_most(s_bytes, half_order.as_slice())
}

/// Looks for something wrong with one signature of an instruction.
fn check_signature(
    data: &[u8],
    instruction_datas: &[&[u8]],
    offsets: &Secp256r1SignatureOffsets,
) -> (r: Result<(), PrecompileError>)
    ensures
        match signature_error(data@, instruction_datas@, *offsets) {
            Some(error) => r == Err::<(), PrecompileError>(error),
            None => r is Ok,
        },
{
    // Parse out signature
    let signature = get_data_slice(
        data,
        instruction_datas,
        offsets.signature_instruction_index,
        offsets.signature_offset,
        SIGNATURE_SERIALIZED_SIZE,
    )?;
    // Parse out pubkey
    let _public_key = get_data_slice(
        data,
        instruction_datas,
        offsets.public_key_instruction_index,
        offsets.public_key_offset,
        COMPRESSED_PUBKEY_SERIALIZED_SIZE,
    )?;
    // Parse out message
    let _message = get_data_slice(
        data,
        instruction_datas,
        offsets.message_instruction_index,
        offsets.message_data_offset,
        offsets.message_data_size as usize,
    )?;
    if !is_signature_in_range(signature) {
        return Err(PrecompileError::InvalidSignature);
    }
    Ok(())
}

/// Checks the signatures of an instruction as far as that can be done without the
/// curve, and refuses the instruction.
pub fn verify(
    data: &[u8],
    instruction_datas: &[&[u8]],
    _feature_set: &agave_feature_set::FeatureSet,
) -> (r: Result<(), PrecompileError>)
    ensures
        r == Err::<(), PrecompileError>(refusal(data@, instruction_datas@)),
{
    if data.len() < SIGNATURE_OFFSETS_START {
        return Err(PrecompileError::InvalidInstructionDataSize);
    }
    let num_signatures: usize = data[0] as usize;
    if num_signatures == 0 || num_signatures > MAX_SIGNATURES {
        return Err(PrecompileError::InvalidInstructionDataSize);
    }
    if data.len() < SIGNATURE_OFFSETS_START + num_signatures * SIGNATURE_OFFSETS_SERIALIZED_SIZE {
        return Err(PrecompileError::InvalidInstructionDataSize);
    }
    let mut i: usize = 0;
    while i < num_signatures
        invariant
            i <= num_signatures,
            num_signatures == data@[0],
            well_sized(data@),
            first_signature_error(data@, instruction_datas@, 0, data@[0] as int)
                == first_signature_error(data@, instruction_datas@, i as int, data@[0] as int),
        decreases num_signatures - i,
    {
        let offsets = read_offsets(data, i);
        check_signature(data, instruction_datas, &offsets)?;
        i = i + 1;
    }
    Err(PrecompileError::InvalidInstructionDataSize)
}

/// The first signature with which something is wrong decides: an instruction of the
/// right size is refused with its error, whatever comes after it.
pub proof fn law_first_error_decides(data: Seq<u8>, instruction_datas: Seq<&[u8]>, index: int)
    requires
        well_sized(data),
        0 <= index < data[0],
        forall|i: int|
            0 <= i < index ==> signature_error(
                data,
                instruction_datas,
                #[trigger] offsets_at(data, i),
            ) is None,
        signature_error(data, instruction_datas, offsets_at(data, index)) is Some,
    ensures
        refusal(data, instruction_datas) == signature_error(
            data,
            instruction_datas,
            offsets_at(data, index),
        )->0,
{
    lemma_skip_sound_signatures(data, instruction_datas, 0, index);
}

/// Signatures with which nothing is wrong do not matter.
proof fn lemma_skip_sound_signatures(
    data: Seq<u8>,
    instruction_datas: Seq<&[u8]>,
    from: int,
    to: int,
)
    requires
        0 <= from <= to < data[0],
        forall|i: int|
            from <= i < to ==> signature_error(
                data,
                instruction_datas,
                #[trigger] offsets_at(data, i),
            ) is None,
    ensures
        first_signature_error(data, instruction_datas, from, data[0] as int)
            == first_signature_error(data, instruction_datas, to, data[0] as int),
    decreases to - from,
{
    if from < to {
        assert(signature_error(data, instruction_datas, offsets_at(data, from)) is None);
        lemma_skip_sound_signatures(data, instruction_datas, from + 1, to);
    }
}

/// An instruction is refused for its size, for a part that cannot be found or for a
/// signature that is out of range, and for nothing else.
pub proof fn law_refusals(data: Seq<u8>, instruction_datas: Seq<&[u8]>)
    ensures
        refusal(data, instruction_datas) is InvalidInstructionDataSize || refusal(
            data,
            instruction_datas,
        ) is InvalidDataOffsets || refusal(data, instruction_datas) is InvalidSignature,
{
    if well_sized(data) {
        lemma_first_error_kinds(data, instruction_datas, 0, data[0] as int);
    }
}

/// The errors that a signature can have.
proof fn lemma_first_error_kinds(
    data: Seq<u8>,
    instruction_datas: Seq<&[u8]>,
    index: int,
    count: int,
)
    ensures
        match first_signature_error(data, instruction_datas, index, count) {
            Some(error) => error is InvalidDataOffsets || error is InvalidSignature,
            None => true,
        },
    decreases count - index,
{
    if index < count {
        lemma_first_error_kinds(data, instruction_datas, index + 1, count);
    }
}

/// A signature cannot be replaced by its mirror image: of two signatures whose
/// numbers s add up to the order of the curve at most one is in range.
pub proof fn law_mirrored_signature_is_out_of_range(signature: Seq<u8>, mirrored: Seq<u8>)
    requires
        signature.len() == SIGNATURE_SERIALIZED_SIZE,
        mirrored.len() == SIGNATURE_SERIALIZED_SIZE,
        be_value(signature.subrange(FIELD_SIZE as int, 2 * FIELD_SIZE)) + be_value(
            mirrored.subrange(FIELD_SIZE as int, 2 * FIELD_SIZE),
        ) == order_minus_one() + 1,
    ensures
        !(signature_in_range(signature) && signature_in_range(mirrored)),
{
}

/// A range that ends within the instruction it refers to is read from that
/// instruction, byte by byte: from the one with that index, or from the instruction
/// itself for the index 65535.
pub proof fn law_slice_is_read_where_it_says(
    data: &[u8],
    instruction_datas: &[&[u8]],
    instruction_index: u16,
    offset_start: u16,
    size: usize,
    source: Seq<u8>,
    result: Result<&[u8], PrecompileError>,
)
    requires
        instruction_index == 65535 ==> source == data@,
        instruction_index != 65535 ==> instruction_index < instruction_datas@.len() && source
            == instruction_datas@[instruction_index as int]@,
        offset_start + size <= source.len(),
        offset_start + size <= usize::MAX,
        call_ensures(
            get_data_slice,
            (data, instruction_datas, instruction_index, offset_start, size),
            result,
        ),
    ensures
        result is Ok,
        result->Ok_0@.len() == size,
        forall|j: int| 0 <= j < size ==> #[trigger] result->Ok_0@[j] == source[offset_start + j],
{
}

/// A range in an instruction that does not exist, or that ends beyond the instruction
/// it refers to, is refused.
pub proof fn law_slice_out_of_bounds_is_refused(
    data: &[u8],
    instruction_datas: &[&[u8]],
    instruction_index: u16,
    offset_start: u16,
    size: usize,
    result: Result<&[u8], PrecompileError>,
)
    requires
        ({
            ||| instruction_index == 65535 && offset_start + size > data@.len() && data@.len()
                < usize::MAX
            ||| instruction_index != 65535 && instruction_index >= instruction_datas@.len()
            ||| instruction_index != 65535 && instruction_index < instruction_datas@.len()
                && offset_start + size > instruction_datas@[instruction_index as int]@.len()
                && instruction_datas@[instruction_index as int]@.len() < usize::MAX
        }),
        call_ensures(
            get_data_slice,
            (data, instruction_datas, instruction_index, offset_start, size),
            result,
        ),
    ensures
        result is Err,
        result->Err_0 is InvalidDataOffsets,
{
}

/// The bytes that a check refers to are those of the instruction it names, in the same
/// words as for [`get_data_slice`].
pub proof fn law_data_slice_holds_the_bytes(
    data: Seq<u8>,
    instruction_datas: Seq<&[u8]>,
    instruction_index: u16,
    offset_start: u16,
    size: usize,
    source: Seq<u8>,
)
    requires
        instruction_index == 65535 ==> source == data,
        instruction_index != 65535 ==> instruction_index < instruction_datas.len() && source
            == instruction_datas[instruction_index as int]@,
        source.len() < usize::MAX,
    ensures
        ({
            let slice = data_slice(data, instruction_datas, instruction_index, offset_start, size);
            &&& slice is Some <==> offset_start + size <= source.len()
            &&& slice is Some ==> slice->0.len() == size && forall|j: int|
                0 <= j < size ==> #[trigger] slice->0[j] == source[offset_start + j]
        }),
{
}

/// Bytes are compared as numbers from the left: the first byte in which two numbers of
/// the same length differ decides which one is less.
pub proof fn law_first_different_byte_decides(a: Seq<u8>, b: Seq<u8>, at: int)
    requires
        a.len() == b.len(),
        0 <= at < a.len(),
        forall|i: int| 0 <= i < at ==> a[i] == b[i],
        a[at] < b[at],
    ensures
        be_value(a) < be_value(b),
    decreases a.len(),
{
    let front_a = a.drop_last();
    let front_b = b.drop_last();
    if at < a.len() - 1 {
        law_first_different_byte_decides(front_a, front_b, at);
    } else {
        assert(front_a =~= front_b);
    }
}

/// The last byte counts once: without a number before it, it is the number, and a byte
/// at the end shifts what comes before it by one place.
pub proof fn law_last_byte_counts_once(front: Seq<u8>, last: u8)
    ensures
        be_value(seq![last]) == last,
        be_value(front.push(last)) == 256 * be_value(front) + last,
        be_value(Seq::<u8>::empty()) == 0,
        be_value(seq![0u8] + front) == be_value(front),
    decreases front.len(),
{
    reveal_with_fuel(be_value, 2);
    assert(seq![last].drop_last() =~= Seq::<u8>::empty());
    assert(front.push(last).drop_last() =~= front);
    if front.len() > 0 {
        law_last_byte_counts_once(front.drop_last(), last);
        assert((seq![0u8] + front).drop_last() =~= seq![0u8] + front.drop_last());
    } else {
        assert((seq![0u8] + front) =~= seq![0u8]);
        assert(seq![0u8].drop_last() =~= Seq::<u8>::empty());
    }
}

/// A signature is in range if and only if its first half is a number from one to the
/// order of the curve less one, and its second half a number from one to half of that.
pub proof fn law_signature_range(signature: &[u8], first: Seq<u8>, second: Seq<u8>, result: bool)
    requires
        first.len() == 32,
        second.len() == 32,
        signature@ == first + second,
        call_ensures(is_signature_in_range, (signature,), result),
    ensures
        result <==> {
            &&& 0 < be_value(first)
            &&& be_value(first)
                <= 0xFFFFFFFF00000000FFFFFFFFFFFFFFFFBCE6FAADA7179E84F3B9CAC2FC632550nat
            &&& 0 < be_value(second)
            &&& 2 * be_value(second)
                <= 0xFFFFFFFF00000000FFFFFFFFFFFFFFFFBCE6FAADA7179E84F3B9CAC2FC632550nat
        },
{
    assert(signature@.subrange(0, 32) =~= first);
    assert(signature@.subrange(32, 64) =~= second);
}

/// The offsets of the signatures follow each other from the third byte on, fourteen
/// bytes for each signature, every field two bytes with the less significant one first.
pub proof fn law_offsets_are_read_in_order(data: Seq<u8>, index: int)
    requires
        0 <= index,
        2 + 14 * (index + 1) <= data.len(),
    ensures
        ({
            let offsets = offsets_at(data, index);
            let at = 2 + 14 * index;
            &&& offsets.signature_offset == data[at] + 256 * data[at + 1]
            &&& offsets.signature_instruction_index == data[at + 2] + 256 * data[at + 3]
            &&& offsets.public_key_offset == data[at + 4] + 256 * data[at + 5]
            &&& offsets.public_key_instruction_index == data[at + 6] + 256 * data[at + 7]
            &&& offsets.message_data_offset == data[at + 8] + 256 * data[at + 9]
            &&& offsets.message_data_size == data[at + 10] + 256 * data[at + 11]
            &&& offsets.message_instruction_index == data[at + 12] + 256 * data[at + 13]
        }),
{
}

/// A signature is unsound if and only if one of its three parts, of 64 bytes, of 33
/// bytes and of the size it gives, cannot be found, or else if its 64 bytes are out of
/// range.
pub proof fn law_unsound_signatures(
    data: Seq<u8>,
    instruction_datas: Seq<&[u8]>,
    offsets: Secp256r1SignatureOffsets,
)
    ensures
        ({
            let error = signature_error(data, instruction_datas, offsets);
            let signature = data_slice(
                data,
                instruction_datas,
                offsets.signature_instruction_index,
                offsets.signature_offset,
                64,
            );
            let found = {
                &&& signature is Some
                &&& data_slice(
                    data,
                    instruction_datas,
                    offsets.public_key_instruction_index,
                    offsets.public_key_offset,
                    33,
                ) is Some
                &&& data_slice(
                    data,
                    instruction_datas,
                    offsets.message_instruction_index,
                    offsets.message_data_offset,
                    offsets.message_data_size as usize,
                ) is Some
            };
            &&& !found <==> error == Some(PrecompileError::InvalidDataOffsets)
            &&& found && !signature_in_range(signature->0) <==> error == Some(
                PrecompileError::InvalidSignature,
            )
            &&& found && signature_in_range(signature->0) <==> error is None
        }),
{
}

/// Whatever its data, an instruction is refused. It is refused for its size if it has
/// not two bytes, does not count one to eight signatures, or has not fourteen bytes for
/// each of them.
pub proof fn law_wrong_size_is_refused(
    data: &[u8],
    instruction_datas: &[&[u8]],
    feature_set: &agave_feature_set::FeatureSet,
    result: Result<(), PrecompileError>,
)
    requires
        call_ensures(verify, (data, instruction_datas, feature_set), result),
    ensures
        result is Err,
        data@.len() < 2 || data@[0] == 0 || data@[0] > 8 || data@.len() < 2 + 14 * data@[0]
            ==> result->Err_0 is InvalidInstructionDataSize,
{
}

/// Of an instruction of the right size the first unsound signature gives the error, and
/// if every one is sound, it is refused for its size as well.
pub proof fn law_first_unsound_signature_is_reported(
    data: &[u8],
    instruction_datas: &[&[u8]],
    feature_set: &agave_feature_set::FeatureSet,
    sound: int,
    result: Result<(), PrecompileError>,
)
    requires
        2 <= data@.len(),
        1 <= data@[0] <= 8,
        2 + 14 * data@[0] <= data@.len(),
        0 <= sound <= data@[0],
        forall|i: int|
            0 <= i < sound ==> signature_error(
                data@,
                instruction_datas@,
                #[trigger] offsets_at(data@, i),
            ) is None,
        sound < data@[0] ==> signature_error(
            data@,
            instruction_datas@,
            offsets_at(data@, sound),
        ) is Some,
        call_ensures(verify, (data, instruction_datas, feature_set), result),
    ensures
        result is Err,
        sound < data@[0] ==> Some(result->Err_0) == signature_error(
            data@,
            instruction_datas@,
            offsets_at(data@, sound),
        ),
        sound == data@[0] ==> result->Err_0 is InvalidInstructionDataSize,
{
    if sound < data@[0] {
        law_first_error_decides(data@, instruction_datas@, sound);
    } else {
        lemma_skip_sound_signatures(data@, instruction_datas@, 0, sound - 1);
        assert(signature_error(data@, instruction_datas@, offsets_at(data@, sound - 1)) is None);
        assert(first_signature_error(data@, instruction_datas@, sound, data@[0] as int) is None);
    }
}

} // verus!
