//! The audio that the text-to-speech services send back, taken apart into the Opus frames
//! that go out on the radio: Ogg streams, and Ogg streams sent as base64 text.
use std::io::Cursor;

use ogg::reading::{OggReadError, PacketReader};
use vstd::prelude::*;

verus! {

/// The character that stands for the six-bit value `v` in the standard base64 alphabet.
pub open spec fn standard_char(v: nat) -> char {
    if v < 26 {
        (65 + v) as char
    } else if v < 52 {
        (97 + (v - 26)) as char
    } else if v < 62 {
        (48 + (v - 52)) as char
    } else if v == 62 {
        '+'
    } else {
        '/'
    }
}

/// The standard base64 text of `b`: each group of three bytes becomes four characters, and a
/// trailing group of one or two bytes becomes two or three, padded with `=` to four.
pub open spec fn base64_standard(b: Seq<u8>) -> Seq<char>
    decreases b.len(),
{
    if b.len() == 0 {
        Seq::empty()
    } else if b.len() == 1 {
        seq![
            standard_char(b[0] as nat / 4),
            standard_char((b[0] as nat % 4) * 16),
            '=',
            '=',
        ]
    } else if b.len() == 2 {
        seq![
            standard_char(b[0] as nat / 4),
            standard_char((b[0] as nat % 4) * 16 + b[1] as nat / 16),
            standard_char((b[1] as nat % 16) * 4),
            '=',
        ]
    } else {
        seq![
            standard_char(b[0] as nat / 4),
            standard_char((b[0] as nat % 4) * 16 + b[1] as nat / 16),
            standard_char((b[1] as nat % 16) * 4 + b[2] as nat / 64),
            standard_char(b[2] as nat % 64),
        ] + base64_standard(b.subrange(3, b.len() as int))
    }
}

proof fn lemma_standard_char_injective(v: nat, w: nat)
    requires
        v < 64,
        w < 64,
        standard_char(v) == standard_char(w),
    ensures
        v == w,
{
    assert((standard_char(v) as int) == (standard_char(w) as int));
}

proof fn lemma_standard_char_not_pad(v: nat)
    requires
        v < 64,
    ensures
        standard_char(v) != '=',
{
}

proof fn lemma_group_injective(a0: u8, a1: u8, a2: u8, b0: u8, b1: u8, b2: u8)
    requires
        a0 / 4 == b0 / 4,
        (a0 % 4) * 16 + a1 / 16 == (b0 % 4) * 16 + b1 / 16,
        (a1 % 16) * 4 + a2 / 64 == (b1 % 16) * 4 + b2 / 64,
        a2 % 64 == b2 % 64,
    ensures
        a0 == b0,
        a1 == b1,
        a2 == b2,
{
    assert(a0 == b0 && a1 == b1 && a2 == b2) by (bit_vector)
        requires
            a0 / 4 == b0 / 4,
            (a0 % 4) * 16 + a1 / 16 == (b0 % 4) * 16 + b1 / 16,
            (a1 % 16) * 4 + a2 / 64 == (b1 % 16) * 4 + b2 / 64,
            a2 % 64 == b2 % 64,
    ;
}

/// Different bytes have different standard base64 texts, so a text decodes to at most one
/// byte sequence.
pub proof fn lemma_base64_standard_injective(a: Seq<u8>, b: Seq<u8>)
    requires
        base64_standard(a) == base64_standard(b),
    ensures
        a == b,
    decreases a.len(),
{
    let t = base64_standard(a);
    if a.len() == 0 {
        assert(b.len() == 0) by {
            if b.len() > 0 {
                assert(base64_standard(b).len() > 0);
            }
        }
        assert(a =~= b);
    } else if b.len() == 0 {
        assert(t.len() > 0);
    } else {
        // the first group of four characters decodes to the same bytes
        let a0 = a[0];
        let b0 = b[0];
        assert(t[0] == standard_char(a0 as nat / 4));
        assert(t[0] == standard_char(b0 as nat / 4));
        lemma_standard_char_injective(a0 as nat / 4, b0 as nat / 4);
        if a.len() == 1 || b.len() == 1 {
            if a.len() != 1 {
                assert((a0 as nat % 4) * 16 + a[1] as nat / 16 < 64);
                if a.len() == 2 {
                    assert((a[1] as nat % 16) * 4 < 64);
                    lemma_standard_char_not_pad((a[1] as nat % 16) * 4);
                } else {
                    assert((a[1] as nat % 16) * 4 + a[2] as nat / 64 < 64);
                    lemma_standard_char_not_pad((a[1] as nat % 16) * 4 + a[2] as nat / 64);
                }
                assert(false);
            } else if b.len() != 1 {
                if b.len() == 2 {
                    assert((b[1] as nat % 16) * 4 < 64);
                    lemma_standard_char_not_pad((b[1] as nat % 16) * 4);
                } else {
                    assert((b[1] as nat % 16) * 4 + b[2] as nat / 64 < 64);
                    lemma_standard_char_not_pad((b[1] as nat % 16) * 4 + b[2] as nat / 64);
                }
                assert(false);
            } else {
                lemma_standard_char_injective((a0 as nat % 4) * 16, (b0 as nat % 4) * 16);
                assert(a0 == b0) by (bit_vector)
                    requires
                        a0 / 4 == b0 / 4,
                        (a0 % 4) * 16 == (b0 % 4) * 16,
                ;
                assert(a =~= b);
            }
        } else {
            let a1 = a[1];
            let b1 = b[1];
            assert((a0 as nat % 4) * 16 + a1 as nat / 16 < 64);
            assert((b0 as nat % 4) * 16 + b1 as nat / 16 < 64);
            assert(t[1] == standard_char((a0 as nat % 4) * 16 + a1 as nat / 16));
            assert(t[1] == standard_char((b0 as nat % 4) * 16 + b1 as nat / 16));
            lemma_standard_char_injective(
                (a0 as nat % 4) * 16 + a1 as nat / 16,
                (b0 as nat % 4) * 16 + b1 as nat / 16,
            );
            if a.len() == 2 || b.len() == 2 {
                if a.len() != 2 {
                    assert(a[2] as nat % 64 < 64);
                    lemma_standard_char_not_pad(a[2] as nat % 64);
                    assert(false);
                } else if b.len() != 2 {
                    assert(b[2] as nat % 64 < 64);
                    lemma_standard_char_not_pad(b[2] as nat % 64);
                    assert(false);
                } else {
                    assert((a1 as nat % 16) * 4 < 64);
                    assert((b1 as nat % 16) * 4 < 64);
                    lemma_standard_char_injective((a1 as nat % 16) * 4, (b1 as nat % 16) * 4);
                    assert(a0 == b0 && a1 == b1) by (bit_vector)
                        requires
                            a0 / 4 == b0 / 4,
                            (a0 % 4) * 16 + a1 / 16 == (b0 % 4) * 16 + b1 / 16,
                            (a1 % 16) * 4 == (b1 % 16) * 4,
                    ;
                    assert(a =~= b);
                }
            } else {
                let a2 = a[2];
                let b2 = b[2];
                assert((a1 as nat % 16) * 4 + a2 as nat / 64 < 64);
                assert((b1 as nat % 16) * 4 + b2 as nat / 64 < 64);
                assert(t[2] == standard_char((a1 as nat % 16) * 4 + a2 as nat / 64));
                assert(t[2] == standard_char((b1 as nat % 16) * 4 + b2 as nat / 64));
                assert(t[3] == standard_char(a2 as nat % 64));
                assert(t[3] == standard_char(b2 as nat % 64));
                lemma_standard_char_injective(
                    (a1 as nat % 16) * 4 + a2 as nat / 64,
                    (b1 as nat % 16) * 4 + b2 as nat / 64,
                );
                lemma_standard_char_injective(a2 as nat % 64, b2 as nat % 64);
                lemma_group_injective(a0, a1, a2, b0, b1, b2);
                let ra = a.subrange(3, a.len() as int);
                let rb = b.subrange(3, b.len() as int);
                assert(base64_standard(ra) =~= t.subrange(4, t.len() as int));
                assert(base64_standard(rb) =~= t.subrange(4, t.len() as int));
                lemma_base64_standard_injective(ra, rb);
                assert(a.len() == b.len());
                assert forall|i: int| 0 <= i < a.len() implies a[i] == b[i] by {
                    if i >= 3 {
                        assert(a[i] == ra[i - 3]);
                        assert(b[i] == rb[i - 3]);
                    }
                }
                assert(a =~= b);
            }
        }
    }
}

#[verifier::external_type_specification]
#[verifier::external_body]
pub struct ExDecodeError(base64::DecodeError);

/// Calls `base64::decode`, which decodes with the crate's standard engine: the standard
/// alphabet, `=` padding to a multiple of four characters required, and no stray bits in the
/// last character. The contract claims that it succeeds exactly on the texts that are the
/// standard base64 text of some bytes, and that it then gives those bytes.
#[verifier::external_body]
#[allow(deprecated)]
fn decode_base64(text: &str) -> (r: Result<Vec<u8>, base64::DecodeError>)
    ensures
        match r {
            Ok(bytes) => base64_standard(bytes@) == text@,
            Err(_) => forall|b: Seq<u8>| base64_standard(b) != text@,
        },
{
    base64::decode(text)
}

/// An Ogg packet reader over a stream held in memory.
///
/// `ogg::reading::PacketReader` bounds its reader by `std::io::Read` and `std::io::Seek`,
/// which Verus does not know, so the reader is held here in a field that Verus does not see.
#[verifier::external_body]
pub struct OggReader {
    reader: PacketReader<Cursor<Vec<u8>>>,
}

#[verifier::external_type_specification]
#[verifier::external_body]
pub struct ExOggReadError(OggReadError);

/// The packets that an Ogg packet reader over `data` hands out, in order, before the stream
/// ends or a read fails; and whether a read fails after them.
pub uninterp spec fn ogg_stream(data: Seq<u8>) -> (Seq<Seq<u8>>, bool);

/// The packets that `reader` has still to hand out, in order, before the stream ends or a
/// read fails; and whether a read fails after them.
pub uninterp spec fn ogg_reader_state(reader: OggReader) -> (
    Seq<Seq<u8>>,
    bool,
);

/// Calls `ogg::reading::PacketReader::new` on a cursor at the start of `data`. The contract
/// claims that the reader has all of the stream still to read: what it hands out depends on
/// `data` alone.
#[verifier::external_body]
fn ogg_reader(data: Vec<u8>) -> (r: OggReader)
    ensures
        ogg_reader_state(r) == ogg_stream(data@),
{
    OggReader { reader: PacketReader::new(Cursor::new(data)) }
}

/// Calls `ogg::reading::PacketReader::read_packet` and keeps the packet's data. The contract
/// claims what the source shows: each call hands out the next packet, and once there is none
/// left the call gives `Ok(None)` where the stream ended and an error where a read failed.
#[verifier::external_body]
fn read_packet_data(reader: &mut OggReader) -> (r: Result<
    Option<Vec<u8>>,
    OggReadError,
>)
    ensures
        ogg_reader_state(*old(reader)).0.len() > 0 ==> {
            &&& r matches Ok(Some(d)) && d@ == ogg_reader_state(*old(reader)).0[0]
            &&& ogg_reader_state(*final(reader)) == (
                ogg_reader_state(*old(reader)).0.drop_first(),
                ogg_reader_state(*old(reader)).1,
            )
        },
        ogg_reader_state(*old(reader)).0.len() == 0 ==> if ogg_reader_state(*old(reader)).1 {
            r is Err
        } else {
            r matches Ok(None)
        },
{
    match reader.reader.read_packet() {
        Ok(Some(packet)) => Ok(Some(packet.data)),
        Ok(None) => Ok(None),
        Err(e) => Err(e),
    }
}

/// Why the audio of a synthesis could not be taken apart into frames.
#[derive(Clone, Copy, Debug, PartialEq, Eq, Structural)]
pub enum AudioError {
    /// The audio was not valid base64 text.
    Base64,
    /// The audio was not a valid Ogg stream.
    Ogg,
}

/// The text of an audio error.
pub open spec fn audio_error_text(e: AudioError) -> Seq<char> {
    match e {
        AudioError::Base64 => "failed to base64 decode audio data"@,
        AudioError::Ogg => "error reading ogg packet"@,
    }
}

impl AudioError {
    /// The text of the error.
    pub fn message(&self) -> (r: String)
        ensures
            r@ == audio_error_text(*self),
    {
        match self {
            AudioError::Base64 => String::from_str("failed to base64 decode audio data"),
            AudioError::Ogg => String::from_str("error reading ogg packet"),
        }
    }
}

/// The contents of each of `frames`.
pub open spec fn frame_views(frames: Seq<Vec<u8>>) -> Seq<Seq<u8>> {
    frames.map_values(|f: Vec<u8>| f@)
}

/// The Opus frames of an Ogg stream: the data of its packets, in order. A stream that cannot
/// be read to its end is refused.
pub fn ogg_frames(data: Vec<u8>) -> (r: Result<Vec<Vec<u8>>, AudioError>)
    ensures
        match r {
            Ok(frames) => !ogg_stream(data@).1 && frame_views(frames@) == ogg_stream(data@).0,
            Err(e) => ogg_stream(data@).1 && e == AudioError::Ogg,
        },
{
    let ghost stream = ogg_stream(data@);
    let mut reader = ogg_reader(data);
    let mut frames: Vec<Vec<u8>> = Vec::new();
    loop
        invariant
            stream == ogg_stream(data@),
            ogg_reader_state(reader).1 == stream.1,
            frame_views(frames@) + ogg_reader_state(reader).0 == stream.0,
        decreases ogg_reader_state(reader).0.len(),
    {
        let ghost before = ogg_reader_state(reader);
        match read_packet_data(&mut reader) {
            Ok(Some(frame)) => {
                proof {
                    assert(frame_views(frames@.push(frame)) =~= frame_views(frames@).push(frame@));
                    assert(frame_views(frames@).push(frame@) + before.0.drop_first()
                        =~= frame_views(frames@) + before.0);
                }
                frames.push(frame);
            },
            Ok(None) => {
                assert(frame_views(frames@) =~= stream.0);
                return Ok(frames);
            },
            Err(_) => {
                return Err(AudioError::Ogg);
            },
        }
    }
}

/// The Opus frames of the audio that Google Cloud sends back: an Ogg stream written as
/// standard base64 text. Text that is not base64 is refused, and so is a stream that cannot
/// be read to its end.
pub fn gcloud_frames(audio_content: &str) -> (r: Result<Vec<Vec<u8>>, AudioError>)
    ensures
        (forall|b: Seq<u8>| base64_standard(b) != audio_content@) ==> r == Err::<
            Vec<Vec<u8>>,
            AudioError,
        >(AudioError::Base64),
        forall|b: Seq<u8>|
            base64_standard(b) == audio_content@ ==> match r {
                Ok(frames) => !ogg_stream(b).1 && frame_views(frames@) == ogg_stream(b).0,
                Err(e) => ogg_stream(b).1 && e == AudioError::Ogg,
            },
{
    match decode_base64(audio_content) {
        Ok(data) => {
            proof {
                assert forall|b: Seq<u8>| base64_standard(b) == audio_content@ implies b
                    == data@ by {
                    lemma_base64_standard_injective(b, data@);
                }
            }
            ogg_frames(data)
        },
        Err(_) => Err(AudioError::Base64),
    }
}

} // verus!
