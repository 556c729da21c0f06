//! The framing codec: newline-terminated UTF-8 text frames over a byte buffer.
//!
//! Reading, the codec cuts the first frame off the front of the buffer as
//! soon as its delimiter has arrived. Writing, it appends the frame's bytes
//! and one delimiter. It knows nothing of what a frame means.

use tokio_util::bytes::BytesMut;
use vstd::prelude::*;
use vstd::string::*;
use vstd::utf8::*;

verus! {

/// The byte that ends every frame on the wire.
pub const DELIMITER: u8 = 0x0a;

/// `BytesMut` of the `bytes` crate, known here by the bytes it holds.
#[verifier::external_type_specification]
#[verifier::external_body]
pub struct ExBytesMut(BytesMut);

/// The bytes that a buffer holds, first to last.
pub uninterp spec fn buffered(buf: BytesMut) -> Seq<u8>;

/// `BytesMut::as_ref` of the `bytes` crate: the buffer's contents as a slice.
pub assume_specification[ <BytesMut as AsRef<[u8]>>::as_ref ](buf: &BytesMut) -> (bytes: &[u8])
    ensures
        bytes@ == buffered(*buf),
;

/// `BytesMut::split_to` of the `bytes` crate: the first `at` bytes leave the
/// buffer and are returned; the buffer keeps the rest. It panics when `at`
/// exceeds the length, so that is required here.
pub assume_specification[ BytesMut::split_to ](buf: &mut BytesMut, at: usize) -> (front: BytesMut)
    requires
        at <= buffered(*old(buf)).len(),
    ensures
        buffered(front) == buffered(*old(buf)).subrange(0, at as int),
        buffered(*final(buf)) == buffered(*old(buf)).subrange(
            at as int,
            buffered(*old(buf)).len() as int,
        ),
;

/// `BytesMut::extend_from_slice` of the `bytes` crate: the given bytes are
/// appended to the buffer. The `reserve` that it starts with panics when the
/// new length overflows `usize`, so a length that fits is required here. As
/// with `Vec`, memory that cannot be had is not spoken of.
pub assume_specification[ BytesMut::extend_from_slice ](buf: &mut BytesMut, extend: &[u8])
    requires
        buffered(*old(buf)).len() + extend@.len() <= usize::MAX,
    ensures
        buffered(*final(buf)) == buffered(*old(buf)) + extend@,
;

/// `core::str::from_utf8`: the bytes as text when they are well-formed UTF-8,
/// and nothing when they are not. The text, encoded again, is the same bytes.
#[verifier::external_body]
fn utf8_text(bytes: &[u8]) -> (text: Option<&str>)
    ensures
        text is Some <==> valid_utf8(bytes@),
        text matches Some(s) ==> s.spec_bytes() == bytes@,
{
    core::str::from_utf8(bytes).ok()
}

/// A frame whose bytes are not valid text. Nothing after it on the same
/// connection can be trusted.
#[derive(Debug, Clone, Copy, PartialEq, Eq, Structural)]
pub struct MalformedFrame;

impl MalformedFrame {
    /// What to tell whoever owns the connection.
    pub fn message(&self) -> (text: String)
        ensures
            text@ == "invalid UTF-8"@,
    {
        "invalid UTF-8".to_owned()
    }
}

/// No byte of `bytes` is the delimiter.
pub open spec fn delimiter_free(bytes: Seq<u8>) -> bool {
    forall|i: int| 0 <= i < bytes.len() ==> bytes[i] != DELIMITER
}

/// No character of `text` is a line feed.
pub open spec fn single_line(text: Seq<char>) -> bool {
    forall|i: int| 0 <= i < text.len() ==> text[i] != '\n'
}

/// `at` is where the first delimiter of `bytes` stands.
pub open spec fn first_delimiter_at(bytes: Seq<u8>, at: int) -> bool {
    &&& 0 <= at < bytes.len()
    &&& bytes[at] == DELIMITER
    &&& delimiter_free(bytes.subrange(0, at))
}

/// The length of the first frame's payload: the number of bytes in front of
/// the first delimiter. Meaningful only when there is a delimiter.
pub open spec fn payload_len(bytes: Seq<u8>) -> int
    recommends
        !delimiter_free(bytes),
{
    choose|at: int| first_delimiter_at(bytes, at)
}

/// What one decoding step makes of a buffer.
pub struct Decoding {
    /// The frame's text, `None` while no complete frame has arrived, or the
    /// error for a frame that is not valid text.
    pub outcome: Result<Option<Seq<char>>, MalformedFrame>,
    /// The bytes that stay in the buffer.
    pub remaining: Seq<u8>,
}

/// One decoding step on the bytes of a buffer.
///
/// Without a delimiter nothing is taken. With one, the bytes in front of the
/// first delimiter are the payload; payload and delimiter leave the buffer,
/// whether or not the payload is valid text.
pub open spec fn decoding(bytes: Seq<u8>) -> Decoding {
    if delimiter_free(bytes) {
        Decoding { outcome: Ok(None), remaining: bytes }
    } else {
        let at = payload_len(bytes);
        let payload = bytes.subrange(0, at);
        Decoding {
            outcome: if valid_utf8(payload) {
                Ok(Some(decode_utf8(payload)))
            } else {
                Err(MalformedFrame)
            },
            remaining: bytes.subrange(at + 1, bytes.len() as int),
        }
    }
}

/// What a frame with the given text looks like on the wire.
pub open spec fn encoding(text: Seq<char>) -> Seq<u8> {
    encode_utf8(text).push(DELIMITER)
}

/// The view of what `Codec::decode` returns: the frame as a sequence of
/// characters.
pub open spec fn outcome_view(frame: Result<Option<String>, MalformedFrame>) -> Result<
    Option<Seq<char>>,
    MalformedFrame,
> {
    match frame {
        Ok(Some(text)) => Ok(Some(text@)),
        Ok(None) => Ok(None),
        Err(e) => Err(e),
    }
}

/// A buffer has at most one first delimiter.
pub proof fn lemma_first_delimiter_unique(bytes: Seq<u8>, at: int)
    requires
        first_delimiter_at(bytes, at),
    ensures
        !delimiter_free(bytes),
        payload_len(bytes) == at,
{
    let other = payload_len(bytes);
    assert(first_delimiter_at(bytes, other));
    if other < at {
        assert(bytes.subrange(0, at)[other] == bytes[other]);
    } else if at < other {
        assert(bytes.subrange(0, other)[at] == bytes[at]);
    }
}

/// A buffer with a delimiter has a first one, and `payload_len` is where it
/// stands.
pub proof fn lemma_first_delimiter_exists(bytes: Seq<u8>)
    requires
        !delimiter_free(bytes),
    ensures
        first_delimiter_at(bytes, payload_len(bytes)),
{
    let at = lemma_first_delimiter_from(bytes, 0);
    lemma_first_delimiter_unique(bytes, at);
}

proof fn lemma_first_delimiter_from(bytes: Seq<u8>, start: int) -> (at: int)
    requires
        0 <= start <= bytes.len(),
        delimiter_free(bytes.subrange(0, start)),
        !delimiter_free(bytes),
    ensures
        first_delimiter_at(bytes, at),
    decreases bytes.len() - start,
{
    if start == bytes.len() {
        assert(bytes.subrange(0, start) =~= bytes);
        start
    } else if bytes[start] == DELIMITER {
        start
    } else {
        let grown = bytes.subrange(0, start + 1);
        assert forall|i: int| 0 <= i < grown.len() implies grown[i] != DELIMITER by {
            if i < start {
                assert(bytes.subrange(0, start)[i] == bytes[i]);
            }
        }
        lemma_first_delimiter_from(bytes, start + 1)
    }
}

/// Where the first delimiter of a slice stands, if it has one.
fn find_delimiter(bytes: &[u8]) -> (found: Option<usize>)
    ensures
        match found {
            Some(at) => first_delimiter_at(bytes@, at as int),
            None => delimiter_free(bytes@),
        },
{
    let mut i: usize = 0;
    while i < bytes.len()
        invariant
            i <= bytes@.len(),
            delimiter_free(bytes@.subrange(0, i as int)),
        decreases bytes@.len() - i,
    {
        if bytes[i] == DELIMITER {
            return Some(i);
        }
        proof {
            let grown = bytes@.subrange(0, i + 1);
            assert forall|j: int| 0 <= j < grown.len() implies grown[j] != DELIMITER by {
                if j < i {
                    assert(bytes@.subrange(0, i as int)[j] == bytes@[j]);
                }
            }
        }
        i += 1;
    }
    assert(bytes@.subrange(0, i as int) =~= bytes@);
    None
}

/// The codec itself carries no state.
pub struct Codec;

impl Codec {
    /// Takes the first complete frame off the front of the buffer.
    ///
    /// While the buffer holds no delimiter this returns `Ok(None)` and leaves
    /// the buffer as it is: the caller reads on. Otherwise the payload and
    /// its delimiter leave the buffer, and the payload comes back as text,
    /// or as `MalformedFrame` when it is not valid UTF-8.
    pub fn decode(&mut self, buf: &mut BytesMut) -> (frame: Result<Option<String>, MalformedFrame>)
        ensures
            outcome_view(frame) == decoding(buffered(*old(buf))).outcome,
            buffered(*final(buf)) == decoding(buffered(*old(buf))).remaining,
            frame matches Ok(Some(text)) ==> single_line(text@),
    {
        proof {
            law_frame_holds_no_delimiter(buffered(*buf));
        }
        let found = find_delimiter((*buf).as_ref());
        let at = match found {
            Some(at) => at,
            None => {
                return Ok(None);
            },
        };
        proof {
            lemma_first_delimiter_unique(buffered(*buf), at as int);
        }
        let line = buf.split_to(at);
        let _ = buf.split_to(1);
        assert(buffered(*buf) =~= decoding(buffered(*old(buf))).remaining);
        match utf8_text(line.as_ref()) {
            Some(text) => {
                proof {
                    encode_utf8_decode_utf8(text@);
                }
                Ok(Some(text.to_owned()))
            },
            None => Err(MalformedFrame),
        }
    }

    /// Appends one frame to the buffer: the text's bytes, then one delimiter.
    ///
    /// Nothing is escaped: a text that holds a line feed reads back as more
    /// than one frame. The buffer must be able to take the frame: its new
    /// length has to fit in `usize`.
    pub fn encode(&mut self, msg: String, buf: &mut BytesMut)
        requires
            buffered(*old(buf)).len() + encoding(msg@).len() <= usize::MAX,
        ensures
            buffered(*final(buf)) == buffered(*old(buf)) + encoding(msg@),
    {
        let mut payload = msg.as_str().as_bytes_vec();
        payload.push(DELIMITER);
        buf.extend_from_slice(payload.as_slice());
    }
}

proof fn lemma_one_byte_scalar(scalar: u32)
    by (bit_vector)
    requires
        has_width_1_encoding(scalar),
    ensures
        leading_byte_width_1(scalar) as u32 == scalar,
{
}

proof fn lemma_multi_byte_scalar(scalar: u32)
    by (bit_vector)
    ensures
        leading_byte_width_2(scalar) >= 0x80,
        leading_byte_width_3(scalar) >= 0x80,
        leading_byte_width_4(scalar) >= 0x80,
        last_continuation_byte(scalar) >= 0x80,
        second_last_continuation_byte(scalar) >= 0x80,
        third_last_continuation_byte(scalar) >= 0x80,
{
}

/// The encoding of one character holds the delimiter only if the character
/// is the line feed.
proof fn lemma_scalar_delimiter(c: char)
    ensures
        delimiter_free(encode_scalar(c as u32)) <==> c != '\n',
{
    let scalar = c as u32;
    let bytes = encode_scalar(scalar);
    char_is_scalar(c);
    lemma_multi_byte_scalar(scalar);
    if has_width_1_encoding(scalar) {
        lemma_one_byte_scalar(scalar);
        assert(bytes[0] as u32 == scalar);
    }
}

/// A concatenation is free of delimiters exactly when both parts are.
proof fn lemma_delimiter_free_concat(a: Seq<u8>, b: Seq<u8>)
    ensures
        delimiter_free(a + b) <==> delimiter_free(a) && delimiter_free(b),
{
    if delimiter_free(a + b) {
        assert forall|i: int| 0 <= i < a.len() implies a[i] != DELIMITER by {
            assert((a + b)[i] == a[i]);
        }
        assert forall|i: int| 0 <= i < b.len() implies b[i] != DELIMITER by {
            assert((a + b)[a.len() + i] == b[i]);
        }
    }
}

/// The bytes of a text hold a delimiter exactly when the text holds a line
/// feed: no byte of a longer character can be mistaken for one.
pub proof fn lemma_encoded_delimiter(text: Seq<char>)
    ensures
        delimiter_free(encode_utf8(text)) <==> single_line(text),
    decreases text.len(),
{
    if text.len() > 0 {
        let rest = text.drop_first();
        lemma_scalar_delimiter(text[0]);
        lemma_encoded_delimiter(rest);
        lemma_delimiter_free_concat(encode_scalar(text[0] as u32), encode_utf8(rest));
        if single_line(text) {
            assert forall|i: int| 0 <= i < rest.len() implies rest[i] != '\n' by {
                assert(rest[i] == text[i + 1]);
            }
        }
        if single_line(rest) && text[0] != '\n' {
            assert forall|i: int| 0 <= i < text.len() implies text[i] != '\n' by {
                if i > 0 {
                    assert(text[i] == rest[i - 1]);
                }
            }
        }
    }
}

/// A payload without a delimiter, its delimiter, and whatever follows: the
/// first delimiter is the one right behind the payload.
proof fn lemma_frame_then_rest(payload: Seq<u8>, later: Seq<u8>)
    requires
        delimiter_free(payload),
    ensures
        !delimiter_free(payload.push(DELIMITER) + later),
        payload_len(payload.push(DELIMITER) + later) == payload.len(),
        (payload.push(DELIMITER) + later).subrange(0, payload.len() as int) == payload,
        (payload.push(DELIMITER) + later).subrange(
            payload.len() as int + 1,
            (payload.push(DELIMITER) + later).len() as int,
        ) == later,
{
    let wire = payload.push(DELIMITER) + later;
    let at = payload.len() as int;
    assert(wire[at] == DELIMITER);
    assert(wire.subrange(0, at) =~= payload);
    assert(wire.subrange(at + 1, wire.len() as int) =~= later);
    lemma_first_delimiter_unique(wire, at);
}

/// However the bytes of a frame arrive, no frame comes out before its
/// delimiter has, and then exactly one does.
///
/// For bytes without a delimiter, of which the first `fed` have arrived:
/// decoding yields nothing and keeps what has arrived. Once all of them and a
/// delimiter are there, decoding takes everything: the bytes as text where
/// they are valid UTF-8, `MalformedFrame` where they are not. The empty
/// buffer that is left yields nothing more.
pub proof fn law_frame_waits_for_delimiter(bytes: Seq<u8>, fed: int)
    requires
        delimiter_free(bytes),
        0 <= fed <= bytes.len(),
    ensures
        decoding(bytes.subrange(0, fed)) == (Decoding {
            outcome: Ok(None),
            remaining: bytes.subrange(0, fed),
        }),
        decoding(bytes.push(DELIMITER)) == (Decoding {
            outcome: if valid_utf8(bytes) {
                Ok(Some(decode_utf8(bytes)))
            } else {
                Err(MalformedFrame)
            },
            remaining: Seq::empty(),
        }),
        decoding(Seq::<u8>::empty()) == (Decoding { outcome: Ok(None), remaining: Seq::empty() }),
{
    let arrived = bytes.subrange(0, fed);
    assert forall|i: int| 0 <= i < arrived.len() implies arrived[i] != DELIMITER by {
        assert(arrived[i] == bytes[i]);
    }
    lemma_frame_then_rest(bytes, Seq::empty());
    assert(bytes.push(DELIMITER) + Seq::<u8>::empty() =~= bytes.push(DELIMITER));
}

/// What was encoded is what is decoded.
///
/// For every text without a line feed, and whatever bytes follow its
/// encoding in the buffer: decoding yields that text and leaves exactly the
/// bytes that followed.
pub proof fn law_round_trip(text: Seq<char>, later: Seq<u8>)
    requires
        single_line(text),
    ensures
        decoding(encoding(text) + later) == (Decoding {
            outcome: Ok(Some(text)),
            remaining: later,
        }),
{
    lemma_encoded_delimiter(text);
    encode_utf8_valid_utf8(text);
    encode_utf8_decode_utf8(text);
    lemma_frame_then_rest(encode_utf8(text), later);
}

/// Bytes that are not valid UTF-8, followed by a delimiter, are refused as a
/// whole: the outcome is `MalformedFrame`, never a part of them as a frame.
///
/// This is stated for bytes without a delimiter of their own, since a
/// delimiter among them would end an earlier frame. Bytes and delimiter
/// leave the buffer; what followed them stays.
pub proof fn law_malformed_frame(bytes: Seq<u8>, later: Seq<u8>)
    requires
        delimiter_free(bytes),
        !valid_utf8(bytes),
    ensures
        decoding(bytes.push(DELIMITER) + later) == (Decoding {
            outcome: Err(MalformedFrame),
            remaining: later,
        }),
{
    lemma_frame_then_rest(bytes, later);
}

/// A frame never holds its own delimiter.
///
/// For every buffer: if decoding yields a frame, no character of its text is
/// a line feed.
pub proof fn law_frame_holds_no_delimiter(bytes: Seq<u8>)
    ensures
        decoding(bytes).outcome matches Ok(Some(text)) ==> single_line(text),
{
    if !delimiter_free(bytes) {
        lemma_first_delimiter_exists(bytes);
        let payload = bytes.subrange(0, payload_len(bytes));
        if valid_utf8(payload) {
            decode_utf8_encode_utf8(payload);
            lemma_encoded_delimiter(decode_utf8(payload));
        }
    }
}

} // verus!
