use vstd::prelude::*;
use vstd::utf8::*;
use vstd::slice::slice_subrange;
use borsh::BorshDeserialize;
use crate::account::{CampaignError, Pubkey};

verus! {

/// The little-endian bytes of a `u32`.
pub open spec fn u32_le(v: u32) -> Seq<u8> {
    seq![v as u8, (v >> 8u32) as u8, (v >> 16u32) as u8, (v >> 24u32) as u8]
}

/// The `u32` whose little-endian bytes start `b`.
pub open spec fn u32_from_le(b: Seq<u8>) -> u32 {
    (b[0] as u32) | ((b[1] as u32) << 8u32) | ((b[2] as u32) << 16u32) | ((b[3] as u32) << 24u32)
}

/// The little-endian bytes of a `u64`.
pub open spec fn u64_le(v: u64) -> Seq<u8> {
    seq![
        v as u8,
        (v >> 8u64) as u8,
        (v >> 16u64) as u8,
        (v >> 24u64) as u8,
        (v >> 32u64) as u8,
        (v >> 40u64) as u8,
        (v >> 48u64) as u8,
        (v >> 56u64) as u8,
    ]
}

/// The `u64` whose little-endian bytes start `b`.
pub open spec fn u64_from_le(b: Seq<u8>) -> u64 {
    (b[0] as u64) | ((b[1] as u64) << 8u64) | ((b[2] as u64) << 16u64) | ((b[3] as u64) << 24u64)
        | ((b[4] as u64) << 32u64) | ((b[5] as u64) << 40u64) | ((b[6] as u64) << 48u64) | ((
    b[7] as u64) << 56u64)
}

/// A string on the wire: its UTF-8 byte count as a little-endian `u32`, then those bytes.
pub open spec fn string_wire(s: Seq<char>) -> Seq<u8> {
    u32_le(encode_utf8(s).len() as u32) + encode_utf8(s)
}

/// Whether a string's UTF-8 byte count fits the `u32` length prefix.
pub open spec fn string_fits(s: Seq<char>) -> bool {
    encode_utf8(s).len() <= u32::MAX
}

/// The string that starts `b`, with the number of bytes it takes; `None` where
/// `b` is too short for the prefix or the body, or the body is not UTF-8.
pub open spec fn string_at(b: Seq<u8>) -> Option<(Seq<char>, int)> {
    if b.len() < 4 {
        None
    } else {
        let n = u32_from_le(b) as int;
        if b.len() < 4 + n {
            None
        } else if valid_utf8(b.subrange(4, 4 + n)) {
            Some((decode_utf8(b.subrange(4, 4 + n)), 4 + n))
        } else {
            None
        }
    }
}

/// Relies on borsh's `String` decoding (`BorshDeserialize::deserialize` on a
/// byte slice): a little-endian `u32` byte count, then that many bytes, which
/// must be UTF-8; on success the slice is advanced past them.
#[verifier::external_body]
fn borsh_read_string<'a>(buf: &'a [u8]) -> (r: Option<(String, &'a [u8])>)
    ensures
        r is Some <==> string_at(buf@) is Some,
        r is Some ==> (r->0).0@ == (string_at(buf@)->0).0,
        r is Some ==> (r->0).1@ == buf@.subrange((string_at(buf@)->0).1, buf@.len() as int),
{
    let mut rest = buf;
    match String::deserialize(&mut rest) {
        Ok(s) => Some((s, rest)),
        Err(_) => None,
    }
}

/// Relies on `borsh::to_vec` on a `String`: the UTF-8 byte count as a
/// little-endian `u32`, then the bytes; an error where the count exceeds `u32`.
#[verifier::external_body]
fn borsh_string_bytes(s: &String) -> (r: Option<Vec<u8>>)
    ensures
        r is Some <==> string_fits(s@),
        r is Some ==> r->0@ == string_wire(s@),
{
    borsh::to_vec(s).ok()
}

/// Reads the `u64` whose little-endian bytes start `b`.
fn read_u64_le(b: &[u8]) -> (r: u64)
    requires
        b@.len() >= 8,
    ensures
        r == u64_from_le(b@),
{
    (b[0] as u64) | ((b[1] as u64) << 8u64) | ((b[2] as u64) << 16u64) | ((b[3] as u64) << 24u64)
        | ((b[4] as u64) << 32u64) | ((b[5] as u64) << 40u64) | ((b[6] as u64) << 48u64) | ((
    b[7] as u64) << 56u64)
}

fn push_u64_le(out: &mut Vec<u8>, v: u64)
    ensures
        final(out)@ == old(out)@ + u64_le(v),
{
    let ghost start = out@;
    out.push(#[verifier::truncate] (v as u8));
    out.push(#[verifier::truncate] ((v >> 8u64) as u8));
    out.push(#[verifier::truncate] ((v >> 16u64) as u8));
    out.push(#[verifier::truncate] ((v >> 24u64) as u8));
    out.push(#[verifier::truncate] ((v >> 32u64) as u8));
    out.push(#[verifier::truncate] ((v >> 40u64) as u8));
    out.push(#[verifier::truncate] ((v >> 48u64) as u8));
    out.push(#[verifier::truncate] ((v >> 56u64) as u8));
    assert(out@ =~= start + u64_le(v));
}

fn read_key(b: &[u8]) -> (r: Pubkey)
    requires
        b@.len() >= 32,
    ensures
        r@ == b@.take(32),
{
    let mut bytes = [0u8; 32];
    let mut i: usize = 0;
    while i < 32
        invariant
            i <= 32,
            b@.len() >= 32,
            bytes@.len() == 32,
            bytes@.take(i as int) == b@.take(i as int),
        decreases 32 - i,
    {
        bytes[i] = b[i];
        assert(bytes@.take(i + 1) =~= b@.take(i + 1));
        i = i + 1;
    }
    assert(bytes@ =~= bytes@.take(32));
    Pubkey::new(bytes)
}

fn push_key(out: &mut Vec<u8>, key: &Pubkey)
    ensures
        final(out)@ == old(out)@ + key@,
{
    let ghost start = out@;
    let mut i: usize = 0;
    while i < 32
        invariant
            i <= 32,
            key@.len() == 32,
            out@ == start + key@.take(i as int),
        decreases 32 - i,
    {
        out.push(key.bytes[i]);
        assert(out@ =~= start + key@.take(i + 1));
        i = i + 1;
    }
    assert(key@.take(32) =~= key@);
}

/// The record a storage account holds.
pub struct CampaignDetails {
    /// The sole identity allowed to withdraw.
    pub admin: Pubkey,
    pub name: String,
    pub description: String,
    pub image_link: String,
    /// Lifetime total of donations, never derived from the balance.
    pub amount_donated: u64,
}

/// A campaign record as plain values.
pub struct CampaignModel {
    pub admin: Seq<u8>,
    pub name: Seq<char>,
    pub description: Seq<char>,
    pub image_link: Seq<char>,
    pub amount_donated: u64,
}

impl View for CampaignDetails {
    type V = CampaignModel;

    open spec fn view(&self) -> CampaignModel {
        CampaignModel {
            admin: self.admin@,
            name: self.name@,
            description: self.description@,
            image_link: self.image_link@,
            amount_donated: self.amount_donated,
        }
    }
}

/// Whether a record can be encoded: a 32-byte admin and strings whose byte
/// counts fit their `u32` prefixes.
pub open spec fn record_fits(m: CampaignModel) -> bool {
    &&& m.admin.len() == 32
    &&& string_fits(m.name)
    &&& string_fits(m.description)
    &&& string_fits(m.image_link)
}

/// A record on the wire: admin, name, description, image link, amount donated.
pub open spec fn record_wire(m: CampaignModel) -> Seq<u8> {
    m.admin + string_wire(m.name) + string_wire(m.description) + string_wire(m.image_link)
        + u64_le(m.amount_donated)
}

/// The record that starts `b`, with the number of bytes it takes.
pub open spec fn record_at(b: Seq<u8>) -> Option<(CampaignModel, int)> {
    if b.len() < 32 {
        None
    } else {
        let r1 = b.skip(32);
        match string_at(r1) {
            None => None,
            Some((name, n1)) => {
                let r2 = r1.skip(n1);
                match string_at(r2) {
                    None => None,
                    Some((description, n2)) => {
                        let r3 = r2.skip(n2);
                        match string_at(r3) {
                            None => None,
                            Some((image_link, n3)) => {
                                let r4 = r3.skip(n3);
                                if r4.len() < 8 {
                                    None
                                } else {
                                    Some(
                                        (
                                            CampaignModel {
                                                admin: b.take(32),
                                                name,
                                                description,
                                                image_link,
                                                amount_donated: u64_from_le(r4),
                                            },
                                            32 + n1 + n2 + n3 + 8,
                                        ),
                                    )
                                }
                            },
                        }
                    },
                }
            },
        }
    }
}

/// The record that `b` holds exactly, with no byte left over.
pub open spec fn record_from(b: Seq<u8>) -> Option<CampaignModel> {
    match record_at(b) {
        Some((m, n)) => if n == b.len() {
            Some(m)
        } else {
            None
        },
        None => None,
    }
}

impl CampaignDetails {
    /// Reads the record that starts `buf`, and the number of bytes it takes.
    pub fn decode_prefix(buf: &[u8]) -> (r: Option<(CampaignDetails, usize)>)
        ensures
            r is Some <==> record_at(buf@) is Some,
            r is Some ==> (r->0).0@ == (record_at(buf@)->0).0,
            r is Some ==> (r->0).1 == (record_at(buf@)->0).1,
    {
        if buf.len() < 32 {
            return None;
        }
        let admin = read_key(buf);
        let rest1 = slice_subrange(buf, 32, buf.len());
        let (name, rest2) = match borsh_read_string(rest1) {
            Some(p) => p,
            None => return None,
        };
        let (description, rest3) = match borsh_read_string(rest2) {
            Some(p) => p,
            None => return None,
        };
        let (image_link, rest4) = match borsh_read_string(rest3) {
            Some(p) => p,
            None => return None,
        };
        if rest4.len() < 8 {
            return None;
        }
        let amount_donated = read_u64_le(rest4);
        let used = buf.len() - rest4.len() + 8;
        Some((CampaignDetails { admin, name, description, image_link, amount_donated }, used))
    }

    /// Reads a record that takes all of `buf`.
    pub fn decode(buf: &[u8]) -> (r: Result<CampaignDetails, CampaignError>)
        ensures
            r is Ok <==> record_from(buf@) is Some,
            r is Ok ==> r->Ok_0@ == record_from(buf@)->0,
            r is Err ==> r->Err_0 == CampaignError::InvalidInstructionData,
    {
        match CampaignDetails::decode_prefix(buf) {
            Some((rec, used)) => if used == buf.len() {
                Ok(rec)
            } else {
                Err(CampaignError::InvalidInstructionData)
            },
            None => Err(CampaignError::InvalidInstructionData),
        }
    }

    /// The record's bytes; `None` where a string is too long for its prefix.
    pub fn encode(&self) -> (r: Option<Vec<u8>>)
        ensures
            r is Some <==> record_fits(self@),
            r is Some ==> r->0@ == record_wire(self@),
    {
        let mut out: Vec<u8> = Vec::new();
        push_key(&mut out, &self.admin);
        let mut name = match borsh_string_bytes(&self.name) {
            Some(v) => v,
            None => return None,
        };
        let mut description = match borsh_string_bytes(&self.description) {
            Some(v) => v,
            None => return None,
        };
        let mut image_link = match borsh_string_bytes(&self.image_link) {
            Some(v) => v,
            None => return None,
        };
        out.append(&mut name);
        out.append(&mut description);
        out.append(&mut image_link);
        push_u64_le(&mut out, self.amount_donated);
        assert(out@ =~= record_wire(self@));
        Some(out)
    }
}

/// A request to move `amount` from a campaign to its admin; never stored.
pub struct WithdrawRequest {
    pub amount: u64,
}

/// The amount that `b` holds as a withdrawal request: exactly eight bytes.
pub open spec fn withdraw_request_from(b: Seq<u8>) -> Option<u64> {
    if b.len() == 8 {
        Some(u64_from_le(b))
    } else {
        None
    }
}

impl WithdrawRequest {
    pub fn decode(buf: &[u8]) -> (r: Result<WithdrawRequest, CampaignError>)
        ensures
            r is Ok <==> withdraw_request_from(buf@) is Some,
            r is Ok ==> r->Ok_0.amount == withdraw_request_from(buf@)->0,
            r is Err ==> r->Err_0 == CampaignError::InvalidInstructionData,
    {
        if buf.len() == 8 {
            Ok(WithdrawRequest { amount: read_u64_le(buf) })
        } else {
            Err(CampaignError::InvalidInstructionData)
        }
    }

    pub fn encode(&self) -> (r: Vec<u8>)
        ensures
            r@ == u64_le(self.amount),
    {
        let mut out: Vec<u8> = Vec::new();
        push_u64_le(&mut out, self.amount);
        assert(out@ =~= u64_le(self.amount));
        out
    }
}

proof fn lemma_u32_le_round_trip(v: u32)
    ensures
        u32_from_le(u32_le(v)) == v,
{
    assert(((v as u8) as u32) | ((((v >> 8u32) as u8) as u32) << 8u32) | ((((v >> 16u32) as u8)
        as u32) << 16u32) | ((((v >> 24u32) as u8) as u32) << 24u32) == v) by (bit_vector);
}

proof fn lemma_u32_le_of_bytes(b: Seq<u8>)
    requires
        b.len() >= 4,
    ensures
        u32_le(u32_from_le(b)) == b.take(4),
{
    let (b0, b1, b2, b3) = (b[0], b[1], b[2], b[3]);
    let v = u32_from_le(b);
    assert(v == (b0 as u32) | ((b1 as u32) << 8u32) | ((b2 as u32) << 16u32) | ((b3 as u32)
        << 24u32));
    assert({
        let w = (b0 as u32) | ((b1 as u32) << 8u32) | ((b2 as u32) << 16u32) | ((b3 as u32)
            << 24u32);
        &&& w as u8 == b0
        &&& (w >> 8u32) as u8 == b1
        &&& (w >> 16u32) as u8 == b2
        &&& (w >> 24u32) as u8 == b3
    }) by (bit_vector);
    assert(u32_le(v) =~= b.take(4));
}

proof fn lemma_u64_le_round_trip(v: u64)
    ensures
        u64_from_le(u64_le(v)) == v,
{
    assert(((v as u8) as u64) | ((((v >> 8u64) as u8) as u64) << 8u64) | ((((v >> 16u64) as u8)
        as u64) << 16u64) | ((((v >> 24u64) as u8) as u64) << 24u64) | ((((v >> 32u64) as u8)
        as u64) << 32u64) | ((((v >> 40u64) as u8) as u64) << 40u64) | ((((v >> 48u64) as u8)
        as u64) << 48u64) | ((((v >> 56u64) as u8) as u64) << 56u64) == v) by (bit_vector);
}

proof fn lemma_u64_le_of_bytes(b: Seq<u8>)
    requires
        b.len() >= 8,
    ensures
        u64_le(u64_from_le(b)) == b.take(8),
{
    let (b0, b1, b2, b3, b4, b5, b6, b7) = (b[0], b[1], b[2], b[3], b[4], b[5], b[6], b[7]);
    let v = u64_from_le(b);
    assert({
        let w = (b0 as u64) | ((b1 as u64) << 8u64) | ((b2 as u64) << 16u64) | ((b3 as u64)
            << 24u64) | ((b4 as u64) << 32u64) | ((b5 as u64) << 40u64) | ((b6 as u64) << 48u64)
            | ((b7 as u64) << 56u64);
        &&& w as u8 == b0
        &&& (w >> 8u64) as u8 == b1
        &&& (w >> 16u64) as u8 == b2
        &&& (w >> 24u64) as u8 == b3
        &&& (w >> 32u64) as u8 == b4
        &&& (w >> 40u64) as u8 == b5
        &&& (w >> 48u64) as u8 == b6
        &&& (w >> 56u64) as u8 == b7
    }) by (bit_vector);
    assert(u64_le(v) =~= b.take(8));
}

/// A string's wire form, followed by anything, reads back as that string.
proof fn lemma_string_round_trip(s: Seq<char>, tail: Seq<u8>)
    requires
        string_fits(s),
    ensures
        string_at(string_wire(s) + tail) == Some((s, string_wire(s).len() as int)),
{
    let e = encode_utf8(s);
    let b = string_wire(s) + tail;
    let n = e.len() as u32;
    lemma_u32_le_round_trip(n);
    assert(u32_from_le(b) == u32_from_le(u32_le(n)));
    assert(b.subrange(4, 4 + e.len() as int) =~= e);
    encode_utf8_valid_utf8(s);
    encode_utf8_decode_utf8(s);
}

/// A string read from `b` has a wire form, and it is the bytes it was read from.
proof fn lemma_string_at_is_wire(b: Seq<u8>)
    requires
        string_at(b) is Some,
    ensures
        string_fits((string_at(b)->0).0),
        string_wire((string_at(b)->0).0) == b.take((string_at(b)->0).1),
{
    let n = u32_from_le(b) as int;
    let body = b.subrange(4, 4 + n);
    decode_utf8_encode_utf8(body);
    lemma_u32_le_of_bytes(b);
    assert(b.take(4 + n) =~= b.take(4) + body);
}

/// A record's wire form, followed by anything, reads back as that record.
proof fn lemma_record_wire_then_tail(m: CampaignModel, tail: Seq<u8>)
    requires
        record_fits(m),
    ensures
        record_at(record_wire(m) + tail) == Some((m, record_wire(m).len() as int)),
{
    let w1 = string_wire(m.name);
    let w2 = string_wire(m.description);
    let w3 = string_wire(m.image_link);
    let w4 = u64_le(m.amount_donated);
    let b = record_wire(m) + tail;
    let t3 = w4 + tail;
    let t2 = w3 + t3;
    let t1 = w2 + t2;
    let r1 = b.skip(32);
    assert(r1 =~= w1 + t1);
    lemma_string_round_trip(m.name, t1);
    let r2 = r1.skip(w1.len() as int);
    assert(r2 =~= t1);
    lemma_string_round_trip(m.description, t2);
    let r3 = r2.skip(w2.len() as int);
    assert(r3 =~= t2);
    lemma_string_round_trip(m.image_link, t3);
    let r4 = r3.skip(w3.len() as int);
    assert(r4 =~= t3);
    lemma_u64_le_round_trip(m.amount_donated);
    assert(u64_from_le(r4) == u64_from_le(w4)) by {
        assert(r4[0] == w4[0] && r4[1] == w4[1] && r4[2] == w4[2] && r4[3] == w4[3]);
        assert(r4[4] == w4[4] && r4[5] == w4[5] && r4[6] == w4[6] && r4[7] == w4[7]);
    }
    assert(b.take(32) =~= m.admin);
    assert(b.len() == 32 + w1.len() + w2.len() + w3.len() + 8 + tail.len());
}

/// Encoding a record and decoding the bytes gives back the same field
/// values, whatever follows the encoding; bytes that hold the encoding
/// exactly decode to the record.
pub proof fn lemma_record_round_trip(m: CampaignModel, tail: Seq<u8>)
    requires
        record_fits(m),
    ensures
        record_at(record_wire(m) + tail) == Some((m, record_wire(m).len() as int)),
        record_from(record_wire(m)) == Some(m),
{
    lemma_record_wire_then_tail(m, tail);
    lemma_record_wire_then_tail(m, Seq::empty());
    assert(record_wire(m) + Seq::<u8>::empty() =~= record_wire(m));
}

/// A record read from the front of `b` can be encoded again, and its
/// encoding is the bytes it was read from.
pub proof fn lemma_record_at_is_wire(b: Seq<u8>)
    requires
        record_at(b) is Some,
    ensures
        record_fits((record_at(b)->0).0),
        record_wire((record_at(b)->0).0) == b.take((record_at(b)->0).1),
        (record_at(b)->0).1 <= b.len(),
{
    let r1 = b.skip(32);
    lemma_string_at_is_wire(r1);
    let n1 = (string_at(r1)->0).1;
    let r2 = r1.skip(n1);
    lemma_string_at_is_wire(r2);
    let n2 = (string_at(r2)->0).1;
    let r3 = r2.skip(n2);
    lemma_string_at_is_wire(r3);
    let n3 = (string_at(r3)->0).1;
    let r4 = r3.skip(n3);
    lemma_u64_le_of_bytes(r4);
    let m = (record_at(b)->0).0;
    assert(record_wire(m) =~= b.take(32 + n1 + n2 + n3 + 8));
}

} // verus!
