//! The record codec: how a project is laid out as bytes in the store.
//!
//! A record is a version byte followed by the fields in declaration order.
//! Integers are eight bytes, little-endian. A text is a four-byte
//! little-endian length followed by that many bytes of UTF-8. The optional
//! time of the last change is a tag byte, `0` for none or `1` followed by the
//! time. Nothing may follow the last field, and no record is longer than
//! [`MAX_RECORD_SIZE`] bytes.

use crate::project::{Error, Project, ProjectModel};
use vstd::bytes::*;
use vstd::prelude::*;
use vstd::slice::*;
use vstd::string::*;
use vstd::utf8::*;

verus! {

/// The longest encoding the store accepts, in bytes.
pub const MAX_RECORD_SIZE: usize = 2048;

/// The first byte of every record.
pub const FORMAT_VERSION: u8 = 1;

/// The encoding of a text: the length of its UTF-8 form, then that form.
pub open spec fn encode_text(t: Seq<char>) -> Seq<u8> {
    spec_u32_to_le_bytes(encode_utf8(t).len() as u32) + encode_utf8(t)
}

/// The encoding of the optional time of the last change.
pub open spec fn encode_stamp(stamp: Option<u64>) -> Seq<u8> {
    match stamp {
        None => seq![0u8],
        Some(t) => seq![1u8] + spec_u64_to_le_bytes(t),
    }
}

/// The encoding of a project.
#[verifier::opaque]
pub open spec fn encode_record(p: ProjectModel) -> Seq<u8> {
    seq![FORMAT_VERSION] + (spec_u64_to_le_bytes(p.id) + (encode_text(p.title) + (encode_text(
        p.description,
    ) + (spec_u64_to_le_bytes(p.goal_amount) + (spec_u64_to_le_bytes(p.raised_amount) + (
    encode_text(p.creator) + (spec_u64_to_le_bytes(p.created_at) + encode_stamp(
        p.updated_at,
    ))))))))
}

/// The number of bytes a project takes once encoded.
pub open spec fn encoded_len(p: ProjectModel) -> nat {
    encode_record(p).len()
}

/// Whether a project is small enough to be stored.
pub open spec fn fits(p: ProjectModel) -> bool {
    encoded_len(p) <= MAX_RECORD_SIZE
}

/// Reads an integer off the front of `b`; gives it with what follows it.
pub open spec fn take_u64(b: Seq<u8>) -> Option<(u64, Seq<u8>)> {
    if b.len() < 8 {
        None
    } else {
        Some((spec_u64_from_le_bytes(b.subrange(0, 8)), b.skip(8)))
    }
}

/// Reads a text off the front of `b`; gives it with what follows it.
pub open spec fn take_text(b: Seq<u8>) -> Option<(Seq<char>, Seq<u8>)> {
    if b.len() < 4 {
        None
    } else {
        let n = spec_u32_from_le_bytes(b.subrange(0, 4)) as int;
        if b.len() - 4 < n {
            None
        } else if !valid_utf8(b.subrange(4, 4 + n)) {
            None
        } else {
            Some((decode_utf8(b.subrange(4, 4 + n)), b.skip(4 + n)))
        }
    }
}

/// Reads the optional time of the last change off the front of `b`.
pub open spec fn take_stamp(b: Seq<u8>) -> Option<(Option<u64>, Seq<u8>)> {
    if b.len() < 1 {
        None
    } else if b[0] == 0 {
        Some((None, b.skip(1)))
    } else if b[0] == 1 {
        match take_u64(b.skip(1)) {
            Some((t, rest)) => Some((Some(t), rest)),
            None => None,
        }
    } else {
        None
    }
}

/// Reads the fields of a record in order; gives them with what follows them.
pub open spec fn take_fields(b: Seq<u8>) -> Option<(ProjectModel, Seq<u8>)> {
    match take_u64(b) {
        None => None,
        Some((id, b1)) => match take_text(b1) {
            None => None,
            Some((title, b2)) => match take_text(b2) {
                None => None,
                Some((description, b3)) => match take_u64(b3) {
                    None => None,
                    Some((goal_amount, b4)) => match take_u64(b4) {
                        None => None,
                        Some((raised_amount, b5)) => match take_text(b5) {
                            None => None,
                            Some((creator, b6)) => match take_u64(b6) {
                                None => None,
                                Some((created_at, b7)) => match take_stamp(b7) {
                                    None => None,
                                    Some((updated_at, b8)) => Some(
                                        (
                                            ProjectModel {
                                                id,
                                                title,
                                                description,
                                                goal_amount,
                                                raised_amount,
                                                creator,
                                                created_at,
                                                updated_at,
                                            },
                                            b8,
                                        ),
                                    ),
                                },
                            },
                        },
                    },
                },
            },
        },
    }
}

/// The project that `b` encodes, if it encodes one.
///
/// `b` must be no longer than a record may be, start with the version byte,
/// hold every field, and end with the last one.
#[verifier::opaque]
pub open spec fn decode_record(b: Seq<u8>) -> Option<ProjectModel> {
    if b.len() == 0 || b.len() > MAX_RECORD_SIZE || b[0] != FORMAT_VERSION {
        None
    } else {
        match take_fields(b.skip(1)) {
            Some((p, rest)) => if rest.len() == 0 {
                Some(p)
            } else {
                None
            },
            None => None,
        }
    }
}

proof fn lemma_take_u64_of_encoding(x: u64, rest: Seq<u8>)
    ensures
        take_u64(spec_u64_to_le_bytes(x) + rest) == Some((x, rest)),
{
    lemma_auto_spec_u64_to_from_le_bytes();
    let b = spec_u64_to_le_bytes(x) + rest;
    assert(b.subrange(0, 8) =~= spec_u64_to_le_bytes(x));
    assert(b.skip(8) =~= rest);
}

proof fn lemma_take_u64_exact(b: Seq<u8>)
    ensures
        take_u64(b) matches Some((x, rest)) ==> b == spec_u64_to_le_bytes(x) + rest,
{
    lemma_auto_spec_u64_to_from_le_bytes();
    if b.len() >= 8 {
        let head = b.subrange(0, 8);
        assert(spec_u64_to_le_bytes(spec_u64_from_le_bytes(head)) == head);
        assert(b =~= head + b.skip(8));
    }
}

proof fn lemma_take_text_of_encoding(t: Seq<char>, rest: Seq<u8>)
    requires
        encode_utf8(t).len() <= u32::MAX,
    ensures
        take_text(encode_text(t) + rest) == Some((t, rest)),
{
    lemma_auto_spec_u32_to_from_le_bytes();
    encode_utf8_valid_utf8(t);
    encode_utf8_decode_utf8(t);
    let n = encode_utf8(t).len() as u32;
    let b = encode_text(t) + rest;
    assert(b.subrange(0, 4) =~= spec_u32_to_le_bytes(n));
    assert(b.subrange(4, 4 + n) =~= encode_utf8(t));
    assert(b.skip(4 + n) =~= rest);
}

proof fn lemma_take_text_exact(b: Seq<u8>)
    ensures
        take_text(b) matches Some((t, rest)) ==> b == encode_text(t) + rest && encode_utf8(
            t,
        ).len() <= u32::MAX,
{
    lemma_auto_spec_u32_to_from_le_bytes();
    if take_text(b) is Some {
        let head = b.subrange(0, 4);
        let n = spec_u32_from_le_bytes(head);
        let body = b.subrange(4, 4 + n);
        decode_utf8_encode_utf8(body);
        assert(spec_u32_to_le_bytes(n) == head);
        assert(b =~= head + body + b.skip(4 + n));
    }
}

proof fn lemma_take_stamp_of_encoding(stamp: Option<u64>, rest: Seq<u8>)
    ensures
        take_stamp(encode_stamp(stamp) + rest) == Some((stamp, rest)),
{
    let b = encode_stamp(stamp) + rest;
    match stamp {
        None => {
            assert(b.skip(1) =~= rest);
        },
        Some(t) => {
            assert(b.skip(1) =~= spec_u64_to_le_bytes(t) + rest);
            lemma_take_u64_of_encoding(t, rest);
        },
    }
}

proof fn lemma_take_stamp_exact(b: Seq<u8>)
    ensures
        take_stamp(b) matches Some((stamp, rest)) ==> b == encode_stamp(stamp) + rest,
{
    if take_stamp(b) is Some {
        assert(b =~= seq![b[0]] + b.skip(1));
        if b[0] == 1 {
            lemma_take_u64_exact(b.skip(1));
            let (t, rest) = take_u64(b.skip(1))->Some_0;
            assert(seq![1u8] + (spec_u64_to_le_bytes(t) + rest) =~= seq![1u8]
                + spec_u64_to_le_bytes(t) + rest);
        }
    }
}

proof fn lemma_regroup(a: Seq<u8>, b: Seq<u8>, c: Seq<u8>)
    ensures
        a + (b + c) == (a + b) + c,
{
    assert(a + (b + c) =~= (a + b) + c);
}

/// The length of an encoding, field by field.
pub proof fn lemma_encoded_len(p: ProjectModel)
    ensures
        encoded_len(p) == 45 + encode_utf8(p.title).len() + encode_utf8(p.description).len()
            + encode_utf8(p.creator).len() + encode_stamp(p.updated_at).len(),
        encode_stamp(p.updated_at).len() == if p.updated_at is Some {
            9nat
        } else {
            1nat
        },
{
    reveal(encode_record);
    lemma_auto_spec_u64_to_from_le_bytes();
    lemma_auto_spec_u32_to_from_le_bytes();
}

/// Round trip: decoding the encoding of a project that fits gives that
/// project back.
pub proof fn law_decode_inverts_encode(p: ProjectModel)
    requires
        fits(p),
    ensures
        decode_record(encode_record(p)) == Some(p),
{
    reveal(encode_record);
    reveal(decode_record);
    lemma_encoded_len(p);
    let b8 = Seq::<u8>::empty();
    let b7 = encode_stamp(p.updated_at) + b8;
    let b6 = spec_u64_to_le_bytes(p.created_at) + b7;
    let b5 = encode_text(p.creator) + b6;
    let b4 = spec_u64_to_le_bytes(p.raised_amount) + b5;
    let b3 = spec_u64_to_le_bytes(p.goal_amount) + b4;
    let b2 = encode_text(p.description) + b3;
    let b1 = encode_text(p.title) + b2;
    let b0 = spec_u64_to_le_bytes(p.id) + b1;
    assert(b7 =~= encode_stamp(p.updated_at));
    assert(encode_record(p).skip(1) =~= b0);
    lemma_take_u64_of_encoding(p.id, b1);
    lemma_take_text_of_encoding(p.title, b2);
    lemma_take_text_of_encoding(p.description, b3);
    lemma_take_u64_of_encoding(p.goal_amount, b4);
    lemma_take_u64_of_encoding(p.raised_amount, b5);
    lemma_take_text_of_encoding(p.creator, b6);
    lemma_take_u64_of_encoding(p.created_at, b7);
    lemma_take_stamp_of_encoding(p.updated_at, b8);
    assert(take_fields(b0) == Some((p, b8)));
}

/// Decoding accepts nothing but encodings: bytes that decode to a project
/// are the encoding of that project, and the project fits.
pub proof fn law_decoded_bytes_are_the_encoding(b: Seq<u8>)
    ensures
        decode_record(b) matches Some(p) ==> encode_record(p) == b && fits(p),
{
    reveal(encode_record);
    reveal(decode_record);
    if decode_record(b) is Some {
        let b0 = b.skip(1);
        lemma_take_u64_exact(b0);
        let (id, b1) = take_u64(b0)->Some_0;
        lemma_take_text_exact(b1);
        let (title, b2) = take_text(b1)->Some_0;
        lemma_take_text_exact(b2);
        let (description, b3) = take_text(b2)->Some_0;
        lemma_take_u64_exact(b3);
        let (goal_amount, b4) = take_u64(b3)->Some_0;
        lemma_take_u64_exact(b4);
        let (raised_amount, b5) = take_u64(b4)->Some_0;
        lemma_take_text_exact(b5);
        let (creator, b6) = take_text(b5)->Some_0;
        lemma_take_u64_exact(b6);
        let (created_at, b7) = take_u64(b6)->Some_0;
        lemma_take_stamp_exact(b7);
        let (updated_at, b8) = take_stamp(b7)->Some_0;
        assert(b7 =~= encode_stamp(updated_at));
        assert(b =~= seq![FORMAT_VERSION] + b0);
    }
}

/// No two projects that fit share an encoding.
pub proof fn law_encoding_is_injective(p: ProjectModel, q: ProjectModel)
    requires
        fits(p),
        fits(q),
        encode_record(p) == encode_record(q),
    ensures
        p == q,
{
    law_decode_inverts_encode(p);
    law_decode_inverts_encode(q);
}

/// `String::from_utf8`, with the error dropped. The standard library
/// documents that it succeeds exactly on well-formed UTF-8 and that the
/// string it gives has the argument as its bytes.
#[verifier::external_body]
fn text_from_utf8(bytes: Vec<u8>) -> (r: Option<String>)
    ensures
        r is Some <==> valid_utf8(bytes@),
        r matches Some(s) ==> encode_utf8(s@) == bytes@,
{
    String::from_utf8(bytes).ok()
}

fn put_u64(out: &mut Vec<u8>, x: u64)
    ensures
        final(out)@ == old(out)@ + spec_u64_to_le_bytes(x),
{
    let mut bytes = u64_to_le_bytes(x);
    out.append(&mut bytes);
}

fn put_text(out: &mut Vec<u8>, text: &String)
    requires
        encode_utf8(text@).len() <= u32::MAX,
    ensures
        final(out)@ == old(out)@ + encode_text(text@),
{
    let mut body = text.as_str().as_bytes_vec();
    let mut prefix = u32_to_le_bytes(body.len() as u32);
    out.append(&mut prefix);
    out.append(&mut body);
    assert(final(out)@ =~= old(out)@ + encode_text(text@));
}

fn put_stamp(out: &mut Vec<u8>, stamp: Option<u64>)
    ensures
        final(out)@ == old(out)@ + encode_stamp(stamp),
{
    match stamp {
        None => {
            out.push(0u8);
            assert(final(out)@ =~= old(out)@ + encode_stamp(stamp));
        },
        Some(t) => {
            out.push(1u8);
            put_u64(out, t);
            assert(final(out)@ =~= old(out)@ + encode_stamp(stamp));
        },
    }
}

fn read_u64(bytes: &[u8], at: usize) -> (r: Option<(u64, usize)>)
    requires
        at <= bytes@.len(),
    ensures
        match take_u64(bytes@.skip(at as int)) {
            Some((x, rest)) => r matches Some((y, next)) && y == x && at <= next <= bytes@.len()
                && rest == bytes@.skip(next as int),
            None => r is None,
        },
{
    if bytes.len() - at < 8 {
        return None;
    }
    let chunk = slice_subrange(bytes, at, at + 8);
    let x: u64 = u64_from_le_bytes(chunk);
    proof {
        let tail = bytes@.skip(at as int);
        assert(tail.subrange(0, 8) =~= chunk@);
        assert(tail.skip(8) =~= bytes@.skip(at + 8));
    }
    Some((x, at + 8))
}

fn read_text(bytes: &[u8], at: usize) -> (r: Option<(String, usize)>)
    requires
        at <= bytes@.len(),
    ensures
        match take_text(bytes@.skip(at as int)) {
            Some((t, rest)) => r matches Some((s, next)) && s@ == t && at <= next <= bytes@.len()
                && rest == bytes@.skip(next as int),
            None => r is None,
        },
{
    if bytes.len() - at < 4 {
        return None;
    }
    let n: u32 = u32_from_le_bytes(slice_subrange(bytes, at, at + 4));
    let ghost tail = bytes@.skip(at as int);
    assert(tail.subrange(0, 4) =~= bytes@.subrange(at as int, at + 4));
    if bytes.len() - at - 4 < n as usize {
        return None;
    }
    let start: usize = at + 4;
    let end: usize = start + n as usize;
    let chunk = slice_subrange(bytes, start, end);
    assert(tail.subrange(4, 4 + n) =~= chunk@);
    assert(tail.skip(4 + n) =~= bytes@.skip(end as int));
    match text_from_utf8(slice_to_vec(chunk)) {
        Some(s) => {
            proof {
                encode_utf8_decode_utf8(s@);
            }
            Some((s, end))
        },
        None => None,
    }
}

fn read_stamp(bytes: &[u8], at: usize) -> (r: Option<(Option<u64>, usize)>)
    requires
        at <= bytes@.len(),
    ensures
        match take_stamp(bytes@.skip(at as int)) {
            Some((stamp, rest)) => r matches Some((s, next)) && s == stamp && at <= next
                <= bytes@.len() && rest == bytes@.skip(next as int),
            None => r is None,
        },
{
    if bytes.len() - at < 1 {
        return None;
    }
    let tag: u8 = bytes[at];
    let ghost tail = bytes@.skip(at as int);
    assert(tail[0] == tag);
    assert(tail.skip(1) =~= bytes@.skip(at + 1));
    if tag == 0 {
        Some((None, at + 1))
    } else if tag == 1 {
        match read_u64(bytes, at + 1) {
            Some((t, next)) => Some((Some(t), next)),
            None => None,
        }
    } else {
        None
    }
}

impl Project {
    /// Encodes the project, or reports that its encoding would be too long.
    pub fn to_bytes(&self) -> (r: Result<Vec<u8>, Error>)
        ensures
            match r {
                Ok(bytes) => fits(self@) && bytes@ == encode_record(self@),
                Err(e) => !fits(self@) && e == Error::OversizedRecord,
            },
    {
        proof {
            reveal(encode_record);
            lemma_encoded_len(self@);
        }
        let title_len: usize = self.title.as_str().as_bytes().len();
        let description_len: usize = self.description.as_str().as_bytes().len();
        let creator_len: usize = self.creator.as_str().as_bytes().len();
        if title_len > MAX_RECORD_SIZE || description_len > MAX_RECORD_SIZE || creator_len
            > MAX_RECORD_SIZE {
            return Err(Error::OversizedRecord);
        }
        let stamp_len: usize = match self.updated_at {
            Some(_) => 9,
            None => 1,
        };
        let total: usize = 45 + stamp_len + title_len + description_len + creator_len;
        if total > MAX_RECORD_SIZE {
            return Err(Error::OversizedRecord);
        }
        let ghost p = self@;
        let ghost t8 = encode_stamp(p.updated_at);
        let ghost t7 = spec_u64_to_le_bytes(p.created_at) + t8;
        let ghost t6 = encode_text(p.creator) + t7;
        let ghost t5 = spec_u64_to_le_bytes(p.raised_amount) + t6;
        let ghost t4 = spec_u64_to_le_bytes(p.goal_amount) + t5;
        let ghost t3 = encode_text(p.description) + t4;
        let ghost t2 = encode_text(p.title) + t3;
        let ghost t1 = spec_u64_to_le_bytes(p.id) + t2;
        let mut out: Vec<u8> = Vec::with_capacity(total);
        out.push(FORMAT_VERSION);
        assert(out@ =~= seq![FORMAT_VERSION]);
        assert(encode_record(p) == out@ + t1);
        put_u64(&mut out, self.id);
        assert(encode_record(p) == out@ + t2) by {
            lemma_regroup(seq![FORMAT_VERSION], spec_u64_to_le_bytes(p.id), t2);
        }
        let ghost o = out@;
        put_text(&mut out, &self.title);
        assert(encode_record(p) == out@ + t3) by {
            lemma_regroup(o, encode_text(p.title), t3);
        }
        let ghost o = out@;
        put_text(&mut out, &self.description);
        assert(encode_record(p) == out@ + t4) by {
            lemma_regroup(o, encode_text(p.description), t4);
        }
        let ghost o = out@;
        put_u64(&mut out, self.goal_amount);
        assert(encode_record(p) == out@ + t5) by {
            lemma_regroup(o, spec_u64_to_le_bytes(p.goal_amount), t5);
        }
        let ghost o = out@;
        put_u64(&mut out, self.raised_amount);
        assert(encode_record(p) == out@ + t6) by {
            lemma_regroup(o, spec_u64_to_le_bytes(p.raised_amount), t6);
        }
        let ghost o = out@;
        put_text(&mut out, &self.creator);
        assert(encode_record(p) == out@ + t7) by {
            lemma_regroup(o, encode_text(p.creator), t7);
        }
        let ghost o = out@;
        put_u64(&mut out, self.created_at);
        assert(encode_record(p) == out@ + t8) by {
            lemma_regroup(o, spec_u64_to_le_bytes(p.created_at), t8);
        }
        put_stamp(&mut out, self.updated_at);
        Ok(out)
    }

    /// Decodes a record, or reports that the bytes are not one.
    pub fn from_bytes(bytes: &[u8]) -> (r: Result<Project, Error>)
        ensures
            match r {
                Ok(p) => decode_record(bytes@) == Some(p@),
                Err(e) => decode_record(bytes@) is None && e == Error::DecodeCorruption,
            },
    {
        proof {
            reveal(decode_record);
        }
        if bytes.len() == 0 || bytes.len() > MAX_RECORD_SIZE || bytes[0] != FORMAT_VERSION {
            return Err(Error::DecodeCorruption);
        }
        let (id, at) = match read_u64(bytes, 1) {
            Some(x) => x,
            None => {
                return Err(Error::DecodeCorruption);
            },
        };
        let (title, at) = match read_text(bytes, at) {
            Some(x) => x,
            None => {
                return Err(Error::DecodeCorruption);
            },
        };
        let (description, at) = match read_text(bytes, at) {
            Some(x) => x,
            None => {
                return Err(Error::DecodeCorruption);
            },
        };
        let (goal_amount, at) = match read_u64(bytes, at) {
            Some(x) => x,
            None => {
                return Err(Error::DecodeCorruption);
            },
        };
        let (raised_amount, at) = match read_u64(bytes, at) {
            Some(x) => x,
            None => {
                return Err(Error::DecodeCorruption);
            },
        };
        let (creator, at) = match read_text(bytes, at) {
            Some(x) => x,
            None => {
                return Err(Error::DecodeCorruption);
            },
        };
        let (created_at, at) = match read_u64(bytes, at) {
            Some(x) => x,
            None => {
                return Err(Error::DecodeCorruption);
            },
        };
        let (updated_at, at) = match read_stamp(bytes, at) {
            Some(x) => x,
            None => {
                return Err(Error::DecodeCorruption);
            },
        };
        if at != bytes.len() {
            return Err(Error::DecodeCorruption);
        }
        Ok(
            Project {
                id,
                title,
                description,
                goal_amount,
                raised_amount,
                creator,
                created_at,
                updated_at,
            },
        )
    }
}

} // verus!
