//! The calldata encoder: turns a swap request into the exact byte payload
//! the exchange router expects, namely a 4-byte function selector followed
//! by 32-byte big-endian parameter words.

use vstd::prelude::*;

use crate::types::{Address, Amount, copy_byte_vec};
use crate::words::zero_bytes;

verus! {

/// The parameters of one "swap exact input for output" router call.
///
/// `fee` only uses its low 24 bits: the encoder silently truncates anything
/// above them. `deadline` is optional; when present it is emitted between
/// the recipient and the input amount.
#[derive(Debug)]
pub struct SwapRequest {
    pub token_in: Address,
    pub token_out: Address,
    pub fee: u32,
    pub recipient: Address,
    pub deadline: Option<Amount>,
    pub amount_in: Amount,
    pub amount_out_minimum: Amount,
    pub sqrt_price_limit_x96: Amount,
}

/// Which of the two router call shapes to emit.
///
/// `Flat` is the plain tuple shape with selector 0x04e45aaf and no prefix.
/// `OffsetPrefixed` is the shape whose ABI treats the tuple as a dynamic
/// value: selector 0x414bf389 followed by one offset word with value 32.
#[derive(Clone, Copy)]
pub enum CallShape {
    Flat,
    OffsetPrefixed,
}

/// The spec-level image of a `SwapRequest`: each field as its byte
/// sequence.
pub struct SwapFields {
    pub token_in: Seq<u8>,
    pub token_out: Seq<u8>,
    pub fee: u32,
    pub recipient: Seq<u8>,
    pub deadline: Option<Seq<u8>>,
    pub amount_in: Seq<u8>,
    pub amount_out_minimum: Seq<u8>,
    pub sqrt_price_limit_x96: Seq<u8>,
}

impl View for SwapRequest {
    type V = SwapFields;

    open spec fn view(&self) -> SwapFields {
        SwapFields {
            token_in: self.token_in@,
            token_out: self.token_out@,
            fee: self.fee,
            recipient: self.recipient@,
            deadline: match self.deadline {
                Some(d) => Some(d@),
                None => None,
            },
            amount_in: self.amount_in@,
            amount_out_minimum: self.amount_out_minimum@,
            sqrt_price_limit_x96: self.sqrt_price_limit_x96@,
        }
    }
}

impl SwapFields {
    /// Every address is 20 bytes and every numeric word 32 bytes.
    pub open spec fn wf(&self) -> bool {
        &&& self.token_in.len() == 20
        &&& self.token_out.len() == 20
        &&& self.recipient.len() == 20
        &&& (self.deadline matches Some(d) ==> d.len() == 32)
        &&& self.amount_in.len() == 32
        &&& self.amount_out_minimum.len() == 32
        &&& self.sqrt_price_limit_x96.len() == 32
    }
}

impl SwapRequest {
    /// Every address holds 20 bytes and every amount 32.
    pub open spec fn wf(&self) -> bool {
        self@.wf()
    }
}

/// The 4-byte selector of each call shape.
pub open spec fn selector_bytes(shape: CallShape) -> Seq<u8> {
    match shape {
        CallShape::Flat => seq![0x04u8, 0xe4u8, 0x5au8, 0xafu8],
        CallShape::OffsetPrefixed => seq![0x41u8, 0x4bu8, 0xf3u8, 0x89u8],
    }
}

/// The offset word a shape emits before the parameter tuple: one 32-byte
/// word with value 32 for the offset-prefixed shape, nothing for the flat
/// one.
pub open spec fn offset_prefix(shape: CallShape) -> Seq<u8> {
    match shape {
        CallShape::Flat => Seq::<u8>::empty(),
        CallShape::OffsetPrefixed => zero_bytes(31) + seq![32u8],
    }
}

/// An address as a parameter word: 12 zero bytes, then the 20 address
/// bytes.
pub open spec fn addr_word(a: Seq<u8>) -> Seq<u8> {
    zero_bytes(12) + a
}

/// The fee as a parameter word: 29 zero bytes, then the low 24 bits of the
/// fee, big-endian. Bits above the low 24 are dropped.
pub open spec fn fee_word(fee: u32) -> Seq<u8> {
    zero_bytes(29) + seq![((fee >> 16) & 0xff) as u8, ((fee >> 8) & 0xff) as u8, (fee & 0xff) as u8]
}

/// The deadline words: the 32-byte deadline when present, nothing
/// otherwise.
pub open spec fn deadline_words(deadline: Option<Seq<u8>>) -> Seq<u8> {
    match deadline {
        Some(d) => d,
        None => Seq::<u8>::empty(),
    }
}

/// The full encoded call: selector, offset word if the shape asks for one,
/// then the parameter words in order.
pub open spec fn spec_encode_swap(fields: SwapFields, shape: CallShape) -> Seq<u8> {
    selector_bytes(shape) + offset_prefix(shape) + addr_word(fields.token_in) + addr_word(
        fields.token_out,
    ) + fee_word(fields.fee) + addr_word(fields.recipient) + deadline_words(fields.deadline)
        + fields.amount_in + fields.amount_out_minimum + fields.sqrt_price_limit_x96
}

/// The byte length of the encoded call: the selector plus one word per
/// parameter, plus one for the offset prefix and one for the deadline when
/// present.
pub open spec fn spec_encoded_len(fields: SwapFields, shape: CallShape) -> nat {
    4 + 32 * (7 + (if shape is OffsetPrefixed {
        1nat
    } else {
        0nat
    }) + (if fields.deadline is Some {
        1nat
    } else {
        0nat
    }))
}

/// Serializes a swap request into router calldata.
pub fn create_swap_calldata(req: &SwapRequest, shape: CallShape) -> (r: Vec<u8>)
    requires
        req.wf(),
    ensures
        r@ == spec_encode_swap(req@, shape),
        r@.len() == spec_encoded_len(req@, shape),
{
    let mut out: Vec<u8> = Vec::new();
    match shape {
        CallShape::Flat => {
            out.push(0x04);
            out.push(0xe4);
            out.push(0x5a);
            out.push(0xaf);
            assert(out@ =~= selector_bytes(shape) + offset_prefix(shape));
        },
        CallShape::OffsetPrefixed => {
            out.push(0x41);
            out.push(0x4b);
            out.push(0xf3);
            out.push(0x89);
            push_zero_bytes(&mut out, 31);
            out.push(32);
            assert(out@ =~= selector_bytes(shape) + offset_prefix(shape));
        },
    }
    push_addr_word(&mut out, &req.token_in);
    push_addr_word(&mut out, &req.token_out);
    push_fee_word(&mut out, req.fee);
    push_addr_word(&mut out, &req.recipient);
    match &req.deadline {
        Some(d) => {
            push_byte_seq(&mut out, d.as_bytes());
        },
        None => {},
    }
    push_byte_seq(&mut out, req.amount_in.as_bytes());
    push_byte_seq(&mut out, req.amount_out_minimum.as_bytes());
    push_byte_seq(&mut out, req.sqrt_price_limit_x96.as_bytes());
    assert(out@ =~= spec_encode_swap(req@, shape));
    proof {
        lemma_encoded_len(req@, shape);
    }
    out
}

/// The compute side of a default-filled swap: recipient and fee are chosen
/// by the caller, the minimum output is as given, and there is no price
/// limit and no deadline.
pub fn swap_tokens_calldata(
    token_in: &Address,
    token_out: &Address,
    fee: u32,
    amount_in: &Amount,
    amount_out_minimum: &Amount,
    recipient: &Address,
) -> (r: Vec<u8>)
    requires
        token_in.wf(),
        token_out.wf(),
        amount_in.wf(),
        amount_out_minimum.wf(),
        recipient.wf(),
    ensures
        r@ == spec_encode_swap(
            SwapFields {
                token_in: token_in@,
                token_out: token_out@,
                fee: fee,
                recipient: recipient@,
                deadline: None,
                amount_in: amount_in@,
                amount_out_minimum: amount_out_minimum@,
                sqrt_price_limit_x96: zero_bytes(32),
            },
            CallShape::Flat,
        ),
{
    let req = SwapRequest {
        token_in: token_in.copied(),
        token_out: token_out.copied(),
        fee,
        recipient: recipient.copied(),
        deadline: None,
        amount_in: amount_in.copied(),
        amount_out_minimum: amount_out_minimum.copied(),
        sqrt_price_limit_x96: Amount::zero(),
    };
    let out = create_swap_calldata(&req, CallShape::Flat);
    out
}

/// Reads the amount a swap call returned: the first 32 bytes of the return
/// data as a big-endian word. Shorter return data is handed back as the
/// error.
pub fn parse_swap_return(data: &Vec<u8>) -> (r: Result<Amount, Vec<u8>>)
    ensures
        data@.len() >= 32 ==> (r matches Ok(a) && a.wf() && a@ == data@.subrange(0, 32)),
        data@.len() < 32 ==> (r matches Err(e) && e@ == data@),
{
    if data.len() >= 32 {
        let mut word: Vec<u8> = Vec::new();
        let mut i: usize = 0;
        while i < 32
            invariant
                0 <= i <= 32,
                data@.len() >= 32,
                word@ =~= data@.subrange(0, i as int),
            decreases 32 - i,
        {
            word.push(data[i]);
            assert(word@ =~= data@.subrange(0, (i + 1) as int));
            i = i + 1;
        }
        match Amount::from_bytes(word) {
            Some(a) => Ok(a),
            None => {
                proof {
                    assert(false);
                }
                Err(Vec::new())
            },
        }
    } else {
        Err(copy_byte_vec(data))
    }
}

/// Pushes `n` zero bytes.
fn push_zero_bytes(out: &mut Vec<u8>, n: usize)
    ensures
        final(out)@ == old(out)@ + zero_bytes(n as nat),
{
    let mut i: usize = 0;
    while i < n
        invariant
            0 <= i <= n,
            out@ =~= old(out)@ + zero_bytes(i as nat),
        decreases n - i,
    {
        out.push(0);
        assert(out@ =~= old(out)@ + zero_bytes((i + 1) as nat));
        i = i + 1;
    }
}

/// Appends all of `src`.
fn push_byte_seq(out: &mut Vec<u8>, src: &Vec<u8>)
    ensures
        final(out)@ == old(out)@ + src@,
{
    let mut i: usize = 0;
    while i < src.len()
        invariant
            0 <= i <= src@.len(),
            out@ =~= old(out)@ + src@.subrange(0, i as int),
        decreases src@.len() - i,
    {
        out.push(src[i]);
        assert(out@ =~= old(out)@ + src@.subrange(0, (i + 1) as int));
        i = i + 1;
    }
    assert(out@ =~= old(out)@ + src@);
}

/// Appends an address as one parameter word.
fn push_addr_word(out: &mut Vec<u8>, a: &Address)
    requires
        a.wf(),
    ensures
        final(out)@ == old(out)@ + addr_word(a@),
{
    push_zero_bytes(out, 12);
    push_byte_seq(out, a.as_bytes());
    assert(out@ =~= old(out)@ + addr_word(a@));
}

/// Appends the fee as one parameter word, keeping only its low 24 bits.
fn push_fee_word(out: &mut Vec<u8>, fee: u32)
    ensures
        final(out)@ == old(out)@ + fee_word(fee),
{
    push_zero_bytes(out, 29);
    out.push(((fee >> 16) & 0xff) as u8);
    out.push(((fee >> 8) & 0xff) as u8);
    out.push((fee & 0xff) as u8);
    assert(out@ =~= old(out)@ + fee_word(fee));
}

/// The encoder is deterministic: two encodings of the same request under
/// the same shape are the same bytes.
pub proof fn lemma_encode_deterministic(
    fields: SwapFields,
    shape: CallShape,
    r1: Seq<u8>,
    r2: Seq<u8>,
)
    requires
        r1 == spec_encode_swap(fields, shape),
        r2 == spec_encode_swap(fields, shape),
    ensures
        r1 == r2,
{
}

/// Within its parameter word an address sits in bytes [12, 32); the 12
/// bytes before it are zero.
pub proof fn lemma_addr_word_layout(a: Seq<u8>)
    requires
        a.len() == 20,
    ensures
        addr_word(a).len() == 32,
        forall|i: int| 0 <= i < 12 ==> addr_word(a)[i] == 0,
        forall|j: int| 0 <= j < 20 ==> addr_word(a)[12 + j] == a[j],
{
}

/// Two fees with the same low 24 bits encode to the same calldata: the
/// encoder silently drops everything above them.
pub proof fn lemma_fee_truncation(fields: SwapFields, fee2: u32, shape: CallShape)
    requires
        fields.fee & 0xffffff == fee2 & 0xffffff,
    ensures
        spec_encode_swap(SwapFields { fee: fee2, ..fields }, shape) == spec_encode_swap(
            fields,
            shape,
        ),
{
    let f1 = fields.fee;
    assert(((f1 >> 16) & 0xff) == ((fee2 >> 16) & 0xff) && ((f1 >> 8) & 0xff) == ((fee2 >> 8)
        & 0xff) && (f1 & 0xff) == (fee2 & 0xff)) by (bit_vector)
        requires
            f1 & 0xffffff == fee2 & 0xffffff,
    ;
    assert(fee_word(fee2) =~= fee_word(f1));
}

/// In the flat shape the selector and the first four parameter words sit
/// at fixed offsets: the selector at [0, 4), the input token word at
/// [4, 36), the output token word at [36, 68), the fee word at [68, 100)
/// and the recipient word at [100, 132).
pub proof fn lemma_flat_word_positions(fields: SwapFields)
    requires
        fields.wf(),
    ensures
        spec_encode_swap(fields, CallShape::Flat).subrange(0, 4) == selector_bytes(
            CallShape::Flat,
        ),
        spec_encode_swap(fields, CallShape::Flat).subrange(4, 36) == addr_word(fields.token_in),
        spec_encode_swap(fields, CallShape::Flat).subrange(36, 68) == addr_word(fields.token_out),
        spec_encode_swap(fields, CallShape::Flat).subrange(68, 100) == fee_word(fields.fee),
        spec_encode_swap(fields, CallShape::Flat).subrange(100, 132) == addr_word(
            fields.recipient,
        ),
{
    let e = spec_encode_swap(fields, CallShape::Flat);
    assert(e.subrange(0, 4) =~= selector_bytes(CallShape::Flat));
    assert(e.subrange(4, 36) =~= addr_word(fields.token_in));
    assert(e.subrange(36, 68) =~= addr_word(fields.token_out));
    assert(e.subrange(68, 100) =~= fee_word(fields.fee));
    assert(e.subrange(100, 132) =~= addr_word(fields.recipient));
}

/// The encoded call is exactly the selector plus 32 bytes per parameter
/// word: 4 + 32*7 for the flat shape without deadline, 4 + 32*8 when one of
/// the offset word or the deadline is added, 4 + 32*9 with both.
pub proof fn lemma_encoded_len(fields: SwapFields, shape: CallShape)
    requires
        fields.wf(),
    ensures
        spec_encode_swap(fields, shape).len() == spec_encoded_len(fields, shape),
        shape is Flat && fields.deadline is None ==> spec_encode_swap(fields, shape).len() == 4
            + 32 * 7,
        shape is Flat && fields.deadline is Some ==> spec_encode_swap(fields, shape).len() == 4
            + 32 * 8,
        shape is OffsetPrefixed && fields.deadline is None ==> spec_encode_swap(
            fields,
            shape,
        ).len() == 4 + 32 * 8,
{
}

} // verus!
