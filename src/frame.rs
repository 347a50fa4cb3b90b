//! Mode S frames: from hex text to bytes, and from bytes to a decoded
//! message, one frame at a time or in batches.

use vstd::prelude::*;
use deku::prelude::DekuContainerRead;
use rs1090::decode::Message;
use crate::hextext::{
    ascii_lower, ascii_lower_text, decode_hex, hex_bytes, hex_digit_value, is_hex_digit, is_hex_text,
};

verus! {

/// Why a frame could not be decoded.
#[derive(Debug, PartialEq, Eq)]
pub enum DecodeError {
    /// The text is not hex, or its bytes are not a short (7 bytes) or long
    /// (14 bytes) frame.
    Format,
    /// The payload broke the layout it was read with.
    Malformed(String),
    /// The payload failed a check of the layout it was read with (parity,
    /// reserved values).
    Assertion(String),
    /// The typecode (and category) of the payload lie outside the band of the
    /// register that was asked for.
    Range { typecode: u8, category: Option<u8>, band: Band },
}

/// The allowed typecode band of a register whose strict decoder checks one.
#[derive(Debug, Clone, Copy, PartialEq, Eq)]
pub enum Band {
    /// Typecodes 9 to 18 or 20 to 22.
    AirbornePosition,
    /// Typecode 31 with category 0 or 1.
    OperationStatus,
}

impl Band {
    /// The allowed typecodes, in words.
    pub fn typecodes(&self) -> (r: &'static str)
        ensures
            *self == Band::AirbornePosition ==> r@ == "9 to 18 or 20 to 22"@,
            *self == Band::OperationStatus ==> r@ == "31"@,
    {
        proof {
            reveal_strlit("9 to 18 or 20 to 22");
            reveal_strlit("31");
        }
        match self {
            Band::AirbornePosition => "9 to 18 or 20 to 22",
            Band::OperationStatus => "31",
        }
    }

    /// The allowed categories, in words, where the band names any.
    pub fn categories(&self) -> (r: Option<&'static str>)
        ensures
            *self == Band::AirbornePosition ==> r is None,
            *self == Band::OperationStatus ==> (r matches Some(t) && t@ == "0 or 1"@),
    {
        proof {
            reveal_strlit("0 or 1");
        }
        match self {
            Band::AirbornePosition => None,
            Band::OperationStatus => Some("0 or 1"),
        }
    }
}

/// A frame is 7 bytes (short) or 14 bytes (long).
pub open spec fn is_frame_length(n: int) -> bool {
    n == 7 || n == 14
}

/// The bytes of a frame written as hex text, where the text is one.
pub open spec fn frame_of(s: Seq<char>) -> Option<Seq<u8>> {
    if is_hex_text(s) && is_frame_length(s.len() as int / 2) {
        Some(hex_bytes(s))
    } else {
        None
    }
}

/// What decoding the bytes of a frame gives; it depends on the bytes alone.
pub uninterp spec fn message_of(frame: Seq<u8>) -> Option<Message>;

#[verifier::external_type_specification]
#[verifier::external_body]
pub struct ExMessage(rs1090::decode::Message);

/// Relies on rs1090's Message::from_bytes, which classifies a frame by its
/// downlink format and checks its parity; a refusal becomes `None`.
#[verifier::external_body]
fn parse_message(frame: &[u8]) -> (r: Option<Message>)
    ensures
        r == message_of(frame@),
{
    Message::from_bytes((frame, 0)).ok().map(|(_, m)| m)
}

/// The bytes of a frame written as hex text, or `Format`.
pub fn frame_bytes(msg: &str) -> (r: Result<Vec<u8>, DecodeError>)
    ensures
        match frame_of(msg@) {
            Some(b) => (r matches Ok(v) && v@ == b),
            None => r == Err::<Vec<u8>, DecodeError>(DecodeError::Format),
        },
{
    match decode_hex(msg) {
        Some(b) => {
            if b.len() == 7 || b.len() == 14 {
                Ok(b)
            } else {
                Err(DecodeError::Format)
            }
        },
        None => Err(DecodeError::Format),
    }
}

/// The lenient decode of one frame: `Format` where the text is no frame,
/// `None` where the frame cannot be classified, else the message.
pub open spec fn lenient_decode(s: Seq<char>) -> Result<Option<Message>, DecodeError> {
    match frame_of(s) {
        Some(b) => Ok(message_of(b)),
        None => Err(DecodeError::Format),
    }
}

/// Decodes one frame written as hex text, leniently: a frame that cannot be
/// classified gives `Ok(None)`, text that is no frame gives `Format`.
pub fn decode_1090(msg: &str) -> (r: Result<Option<Message>, DecodeError>)
    ensures
        r == lenient_decode(msg@),
{
    let bytes = frame_bytes(msg)?;
    Ok(parse_message(bytes.as_slice()))
}

/// The messages of a sequence of frames, in order, leaving out each frame
/// that is no frame or cannot be classified.
pub open spec fn decoded_frames(msgs: Seq<Seq<char>>) -> Seq<Message>
    decreases msgs.len(),
{
    if msgs.len() == 0 {
        Seq::empty()
    } else {
        let rest = decoded_frames(msgs.drop_last());
        match lenient_decode(msgs.last()) {
            Ok(Some(m)) => rest.push(m),
            _ => rest,
        }
    }
}

/// The messages of several sequences, one after the other.
pub open spec fn decoded_batch(sets: Seq<Seq<Seq<char>>>) -> Seq<Message>
    decreases sets.len(),
{
    if sets.len() == 0 {
        Seq::empty()
    } else {
        decoded_batch(sets.drop_last()) + decoded_frames(sets.last())
    }
}

/// The texts of a sequence of strings.
pub open spec fn texts(v: Seq<String>) -> Seq<Seq<char>> {
    v.map_values(|s: String| s@)
}

/// The texts of a sequence of sequences of strings.
pub open spec fn text_sets(v: Seq<Vec<String>>) -> Seq<Seq<Seq<char>>> {
    v.map_values(|s: Vec<String>| texts(s@))
}

/// Decodes a sequence of frames, leaving out those that fail.
pub fn decode_sequence(msgs: &Vec<String>) -> (r: Vec<Message>)
    ensures
        r@ == decoded_frames(texts(msgs@)),
{
    let mut out: Vec<Message> = Vec::new();
    let mut i: usize = 0;
    while i < msgs.len()
        invariant
            i <= msgs@.len(),
            out@ == decoded_frames(texts(msgs@).take(i as int)),
        decreases msgs@.len() - i,
    {
        let m = decode_1090(msgs[i].as_str());
        assert(texts(msgs@).take(i as int + 1).drop_last() == texts(msgs@).take(i as int));
        if let Ok(Some(m)) = m {
            out.push(m);
        }
        i = i + 1;
    }
    assert(texts(msgs@).take(msgs@.len() as int) == texts(msgs@));
    out
}

/// Decodes several sequences of frames into one flat list, leaving out the
/// frames that fail; one bad frame never fails the batch.
pub fn decode_1090_vec(msgs_set: &Vec<Vec<String>>) -> (r: Vec<Message>)
    ensures
        r@ == decoded_batch(text_sets(msgs_set@)),
{
    let mut out: Vec<Message> = Vec::new();
    let mut i: usize = 0;
    while i < msgs_set.len()
        invariant
            i <= msgs_set@.len(),
            out@ == decoded_batch(text_sets(msgs_set@).take(i as int)),
        decreases msgs_set@.len() - i,
    {
        let mut part = decode_sequence(&msgs_set[i]);
        assert(text_sets(msgs_set@).take(i as int + 1).drop_last()
            == text_sets(msgs_set@).take(i as int));
        out.append(&mut part);
        i = i + 1;
    }
    assert(text_sets(msgs_set@).take(msgs_set@.len() as int) == text_sets(msgs_set@));
    out
}

/// Decoding a sequence made of two parts gives the messages of the first
/// part followed by those of the second.
pub proof fn lemma_decoded_frames_concat(a: Seq<Seq<char>>, b: Seq<Seq<char>>)
    ensures
        decoded_frames(a + b) == decoded_frames(a) + decoded_frames(b),
    decreases b.len(),
{
    if b.len() == 0 {
        assert(a + b == a);
    } else {
        lemma_decoded_frames_concat(a, b.drop_last());
        assert((a + b).drop_last() == a + b.drop_last());
        assert((a + b).last() == b.last());
    }
}

/// The message of a frame that decodes.
pub open spec fn message_of_text(s: Seq<char>) -> Message {
    lenient_decode(s)->Ok_0->Some_0
}

/// A frame that decodes to a message.
pub open spec fn decodes(s: Seq<char>) -> bool {
    lenient_decode(s) matches Ok(Some(_))
}

/// Where every frame decodes, the sequence gives one message per frame, in
/// the frames' order.
pub proof fn lemma_all_decode(good: Seq<Seq<char>>)
    requires
        forall|i: int| 0 <= i < good.len() ==> #[trigger] decodes(good[i]),
    ensures
        decoded_frames(good) == good.map_values(|s: Seq<char>| message_of_text(s)),
    decreases good.len(),
{
    if good.len() > 0 {
        let rest = good.drop_last();
        assert forall|i: int| 0 <= i < rest.len() implies #[trigger] decodes(rest[i]) by {
            assert(rest[i] == good[i]);
        }
        lemma_all_decode(rest);
        assert(decodes(good[good.len() - 1]));
        assert(decoded_frames(good) =~= good.map_values(|s: Seq<char>| message_of_text(s)));
    } else {
        assert(decoded_frames(good) =~= good.map_values(|s: Seq<char>| message_of_text(s)));
    }
}

/// One frame that fails, placed anywhere among N frames that decode, is
/// dropped: the sequence gives exactly the N messages of the others, in
/// their order.
pub proof fn lemma_failed_frame_dropped(good: Seq<Seq<char>>, bad: Seq<char>, k: int)
    requires
        0 <= k <= good.len(),
        forall|i: int| 0 <= i < good.len() ==> #[trigger] decodes(good[i]),
        !decodes(bad),
    ensures
        decoded_frames(good.take(k) + seq![bad] + good.skip(k))
            == good.map_values(|s: Seq<char>| message_of_text(s)),
        decoded_frames(good.take(k) + seq![bad] + good.skip(k)).len() == good.len(),
{
    let one = seq![bad];
    lemma_decoded_frames_concat(good.take(k) + one, good.skip(k));
    lemma_decoded_frames_concat(good.take(k), one);
    lemma_decoded_frames_concat(good.take(k), good.skip(k));
    assert(one.drop_last() == Seq::<Seq<char>>::empty());
    assert(one.last() == bad);
    assert(decoded_frames(one.drop_last()) == Seq::<Message>::empty());
    assert(decoded_frames(one) == Seq::<Message>::empty());
    assert(decoded_frames(good.take(k)) + Seq::<Message>::empty() == decoded_frames(good.take(k)));
    assert(good.take(k) + good.skip(k) == good);
    lemma_all_decode(good);
}

proof fn lemma_same_lower_same_digit(x: char, y: char)
    requires
        ascii_lower(x) == ascii_lower(y),
    ensures
        is_hex_digit(x) == is_hex_digit(y),
        is_hex_digit(x) ==> hex_digit_value(x) == hex_digit_value(y),
{
}

/// The bytes of a frame do not depend on the case of its hex digits.
pub proof fn lemma_frame_of_ignores_case(a: Seq<char>, b: Seq<char>)
    requires
        ascii_lower_text(a) == ascii_lower_text(b),
    ensures
        frame_of(a) == frame_of(b),
{
    assert(a.len() == ascii_lower_text(a).len());
    assert forall|i: int| 0 <= i < a.len() implies
        (is_hex_digit(a[i]) == is_hex_digit(b[i]))
        && (is_hex_digit(a[i]) ==> hex_digit_value(a[i]) == hex_digit_value(b[i])) by {
        assert(ascii_lower_text(a)[i] == ascii_lower(a[i]));
        assert(ascii_lower_text(b)[i] == ascii_lower(b[i]));
        lemma_same_lower_same_digit(a[i], b[i]);
    }
    if is_hex_text(a) {
        assert(is_hex_text(b));
        assert(hex_bytes(a) =~= hex_bytes(b));
    } else {
        assert(!is_hex_text(b));
    }
}


/// Decoding is a function of the frame alone: the same text, or the same
/// text in another case of its hex digits, decodes to the same outcome every
/// time.
pub proof fn lemma_decode_repeatable(a: Seq<char>, b: Seq<char>)
    requires
        ascii_lower_text(a) == ascii_lower_text(b),
    ensures
        lenient_decode(a) == lenient_decode(b),
{
    lemma_frame_of_ignores_case(a, b);
}

} // verus!
