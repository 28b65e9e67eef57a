//! The wire envelope exchanged over an established socket: a tagged JSON
//! object carried in binary frames, framed and checked here byte by byte.
//! Unknown variants and malformed payloads are told apart so callers can
//! drop both without closing the connection.

use vstd::prelude::*;

verus! {

/// A message of the control-link protocol. The envelope is self-describing
/// through a discriminant tag, so peers can ignore variants they do not
/// know.
#[derive(PartialEq, Eq, Structural, Clone, Copy, Debug)]
pub enum WingsMessage {
    Hello,
    World,
}

/// What decoding a binary frame yielded: a message this peer knows, a
/// well-formed envelope with an unknown tag, or bytes that are no envelope
/// at all. The latter two are dropped, never fatal.
#[derive(PartialEq, Eq, Structural, Clone, Copy, Debug)]
pub enum DecodeOutcome {
    Known(WingsMessage),
    Unknown,
    Malformed,
}

/// The opening bytes of every envelope: `{"type":"`.
pub open spec fn envelope_prefix() -> Seq<u8> {
    seq![123u8, 34u8, 116u8, 121u8, 112u8, 101u8, 34u8, 58u8, 34u8]
}

/// The closing bytes of every envelope: `"}`.
pub open spec fn envelope_suffix() -> Seq<u8> {
    seq![34u8, 125u8]
}

/// The tag bytes naming a message variant.
pub open spec fn tag_of(m: WingsMessage) -> Seq<u8> {
    match m {
        WingsMessage::Hello => seq![72u8, 101u8, 108u8, 108u8, 111u8],
        WingsMessage::World => seq![87u8, 111u8, 114u8, 108u8, 100u8],
    }
}

/// The encoded envelope of a message: the tag between prefix and suffix.
pub open spec fn encoded(m: WingsMessage) -> Seq<u8> {
    envelope_prefix() + tag_of(m) + envelope_suffix()
}

/// The tag of a well-formed envelope, if the bytes are one: the prefix, a
/// tag free of quote bytes, and the suffix.
pub open spec fn frame_tag(b: Seq<u8>) -> Option<Seq<u8>> {
    if b.len() >= 11 && b.subrange(0, 9) == envelope_prefix() && b.subrange(
        b.len() - 2,
        b.len() as int,
    ) == envelope_suffix() && (forall|i: int| 9 <= i < b.len() - 2 ==> #[trigger] b[i] != 34u8) {
        Some(b.subrange(9, b.len() - 2))
    } else {
        None
    }
}

/// The decoding verdict for a byte string.
pub open spec fn decode_spec(b: Seq<u8>) -> DecodeOutcome {
    match frame_tag(b) {
        Some(tag) => {
            if tag == tag_of(WingsMessage::Hello) {
                DecodeOutcome::Known(WingsMessage::Hello)
            } else if tag == tag_of(WingsMessage::World) {
                DecodeOutcome::Known(WingsMessage::World)
            } else {
                DecodeOutcome::Unknown
            }
        },
        None => DecodeOutcome::Malformed,
    }
}

/// Encodes a message as the bytes of its envelope.
pub fn encode(m: &WingsMessage) -> (r: Vec<u8>)
    ensures
        r@ == encoded(*m),
{
    let mut v: Vec<u8> = Vec::new();
    v.push(123);
    v.push(34);
    v.push(116);
    v.push(121);
    v.push(112);
    v.push(101);
    v.push(34);
    v.push(58);
    v.push(34);
    match m {
        WingsMessage::Hello => {
            v.push(72);
            v.push(101);
            v.push(108);
            v.push(108);
            v.push(111);
        },
        WingsMessage::World => {
            v.push(87);
            v.push(111);
            v.push(114);
            v.push(108);
            v.push(100);
        },
    }
    v.push(34);
    v.push(125);
    proof {
        assert(v@ =~= encoded(*m));
    }
    v
}

/// Decodes a binary frame. Exactly the envelopes that `encoded` produces
/// for known messages come back as `Known`; a well-formed envelope with any
/// other tag is `Unknown`; everything else is `Malformed`.
pub fn decode(b: &[u8]) -> (r: DecodeOutcome)
    ensures
        r == decode_spec(b@),
{
    let n = b.len();
    if n < 11 {
        return DecodeOutcome::Malformed;
    }
    if !(b[0] == 123 && b[1] == 34 && b[2] == 116 && b[3] == 121 && b[4] == 112 && b[5] == 101
        && b[6] == 34 && b[7] == 58 && b[8] == 34) {
        proof {
            if b@.subrange(0, 9) == envelope_prefix() {
                assert(b@[0] == b@.subrange(0, 9)[0]);
                assert(b@[1] == b@.subrange(0, 9)[1]);
                assert(b@[2] == b@.subrange(0, 9)[2]);
                assert(b@[3] == b@.subrange(0, 9)[3]);
                assert(b@[4] == b@.subrange(0, 9)[4]);
                assert(b@[5] == b@.subrange(0, 9)[5]);
                assert(b@[6] == b@.subrange(0, 9)[6]);
                assert(b@[7] == b@.subrange(0, 9)[7]);
                assert(b@[8] == b@.subrange(0, 9)[8]);
            }
        }
        return DecodeOutcome::Malformed;
    }
    proof {
        assert(b@.subrange(0, 9) =~= envelope_prefix());
    }
    if !(b[n - 2] == 34 && b[n - 1] == 125) {
        proof {
            if b@.subrange(n - 2, n as int) == envelope_suffix() {
                assert(b@[n - 2] == b@.subrange(n - 2, n as int)[0]);
                assert(b@[n - 1] == b@.subrange(n - 2, n as int)[1]);
            }
        }
        return DecodeOutcome::Malformed;
    }
    proof {
        assert(b@.subrange(n - 2, n as int) =~= envelope_suffix());
    }
    let mut i: usize = 9;
    while i < n - 2
        invariant
            9 <= i <= n - 2,
            n == b@.len(),
            11 <= n,
            forall|j: int| 9 <= j < i ==> #[trigger] b@[j] != 34u8,
        decreases n - 2 - i,
    {
        if b[i] == 34 {
            return DecodeOutcome::Malformed;
        }
        i = i + 1;
    }
    let ghost tag = b@.subrange(9, n - 2);
    if n == 16 {
        if b[9] == 72 && b[10] == 101 && b[11] == 108 && b[12] == 108 && b[13] == 111 {
            proof {
                assert(tag =~= tag_of(WingsMessage::Hello));
            }
            return DecodeOutcome::Known(WingsMessage::Hello);
        }
        if b[9] == 87 && b[10] == 111 && b[11] == 114 && b[12] == 108 && b[13] == 100 {
            proof {
                assert(tag =~= tag_of(WingsMessage::World));
            }
            return DecodeOutcome::Known(WingsMessage::World);
        }
    }
    proof {
        if tag == tag_of(WingsMessage::Hello) {
            assert(tag.len() == 5);
            assert(b@[9] == tag[0]);
            assert(b@[10] == tag[1]);
            assert(b@[11] == tag[2]);
            assert(b@[12] == tag[3]);
            assert(b@[13] == tag[4]);
        }
        if tag == tag_of(WingsMessage::World) {
            assert(tag.len() == 5);
            assert(b@[9] == tag[0]);
            assert(b@[10] == tag[1]);
            assert(b@[11] == tag[2]);
            assert(b@[12] == tag[3]);
            assert(b@[13] == tag[4]);
        }
    }
    DecodeOutcome::Unknown
}

/// Round trip: decoding the envelope of any message yields that message.
pub proof fn lemma_envelope_round_trip(m: WingsMessage)
    ensures
        decode_spec(encoded(m)) == DecodeOutcome::Known(m),
{
    let e = encoded(m);
    assert(e.len() == 16);
    assert(e.subrange(0, 9) =~= envelope_prefix());
    assert(e.subrange(14, 16) =~= envelope_suffix());
    assert(e.subrange(9, 14) =~= tag_of(m));
    assert forall|i: int| 9 <= i < 14 implies #[trigger] e[i] != 34u8 by {
        assert(e[i] == tag_of(m)[i - 9]);
    }
    if m is Hello {
        assert(frame_tag(e) == Some(tag_of(WingsMessage::Hello)));
    } else {
        assert(frame_tag(e) == Some(tag_of(WingsMessage::World)));
        assert(tag_of(WingsMessage::World) != tag_of(WingsMessage::Hello)) by {
            assert(tag_of(WingsMessage::World)[0] == 87u8);
            assert(tag_of(WingsMessage::Hello)[0] == 72u8);
        }
    }
}

} // verus!
