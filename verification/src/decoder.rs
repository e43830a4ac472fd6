//! Streaming decoder for the receiver's binary protocol.
//!
//! A frame is `[SYNC1, SYNC2, class, id, len_lo, len_hi, payload.., ck_a,
//! ck_b]`, with an 8-bit Fletcher checksum over the bytes from `class` to the
//! end of the payload.  The decoder keeps the unconsumed tail of the stream,
//! carves complete frames from the front, surfaces a decode error whenever
//! bytes are skipped or a checksum fails, and resynchronizes on the next
//! sync byte.

use vstd::prelude::*;

verus! {

/// First sync byte of a frame.
pub const SYNC1: u8 = 0xB5;

/// Second sync byte of a frame.
pub const SYNC2: u8 = 0x62;

/// Why a stretch of input could not be decoded.
#[derive(Debug, Clone, Copy, PartialEq, Eq, Structural)]
pub enum DecodeError {
    /// Bytes had to be dropped before a sync byte was found.
    SyncLoss,
    /// A framed candidate did not match its checksum.
    Checksum,
}

/// A decoded frame: its message class, identifier and payload bytes.
#[derive(Debug, Clone, PartialEq, Eq)]
pub struct Frame {
    pub class: u8,
    pub id: u8,
    pub payload: Vec<u8>,
}

/// One outcome of decoding: a frame, or an error for a skipped stretch.
#[derive(Debug, Clone, PartialEq, Eq)]
pub enum UbxEvent {
    Packet(Frame),
    Error(DecodeError),
}

/// Mathematical image of a decode outcome.
pub enum EventModel {
    Packet { class: u8, id: u8, payload: Seq<u8> },
    Error { error: DecodeError },
}

impl View for Frame {
    type V = EventModel;

    open spec fn view(&self) -> EventModel {
        EventModel::Packet { class: self.class, id: self.id, payload: self.payload@ }
    }
}

impl View for UbxEvent {
    type V = EventModel;

    open spec fn view(&self) -> EventModel {
        match self {
            UbxEvent::Packet(f) => f@,
            UbxEvent::Error(e) => EventModel::Error { error: *e },
        }
    }
}

/// The models of a sequence of decode outcomes.
pub open spec fn models_of(es: Seq<UbxEvent>) -> Seq<EventModel> {
    es.map_values(|e: UbxEvent| e@)
}

/// Fletcher checksum pair `(ck_a, ck_b)` of `b`.
pub open spec fn spec_fletcher(b: Seq<u8>) -> (int, int)
    decreases b.len(),
{
    if b.len() == 0 {
        (0, 0)
    } else {
        let prev = spec_fletcher(b.drop_last());
        ((prev.0 + b.last()) % 256, (prev.1 + prev.0 + b.last()) % 256)
    }
}

/// Payload length declared by the frame starting the buffer.
pub open spec fn spec_payload_len(b: Seq<u8>) -> int {
    b[4] + 256 * b[5]
}

/// Whole length of the frame starting the buffer.
pub open spec fn spec_frame_len(b: Seq<u8>) -> int {
    8 + spec_payload_len(b)
}

/// The buffer begins with a complete, checksum-matching frame.
pub open spec fn spec_frame_at(b: Seq<u8>) -> bool {
    &&& b.len() >= 8
    &&& b[0] == SYNC1
    &&& b[1] == SYNC2
    &&& b.len() >= spec_frame_len(b)
    &&& spec_checksum_ok(b)
}

/// The checksum trailing the frame at the buffer's front matches its bytes.
pub open spec fn spec_checksum_ok(b: Seq<u8>) -> bool {
    let n = spec_frame_len(b);
    let ck = spec_fletcher(b.subrange(2, n - 2));
    &&& ck.0 == b[n - 2]
    &&& ck.1 == b[n - 1]
}

/// Model of the frame starting the buffer.
pub open spec fn spec_frame_model(b: Seq<u8>) -> EventModel {
    EventModel::Packet {
        class: b[2],
        id: b[3],
        payload: b.subrange(6, 6 + spec_payload_len(b)),
    }
}

/// Number of bytes to drop from a buffer that does not start with the first
/// sync byte, up to (excluding) the next sync byte.
pub open spec fn spec_garbage_run(b: Seq<u8>) -> int
    decreases b.len(),
{
    if b.len() == 0 {
        0
    } else if b[0] == SYNC1 {
        0
    } else {
        1 + spec_garbage_run(b.skip(1))
    }
}

/// A garbage run never exceeds the buffer.
proof fn lemma_garbage_run_le(b: Seq<u8>)
    ensures
        0 <= spec_garbage_run(b) <= b.len(),
    decreases b.len(),
{
    if b.len() > 0 && b[0] != SYNC1 {
        lemma_garbage_run_le(b.skip(1));
    }
}

/// The events produced from buffer `b`, and the incomplete tail that remains
/// buffered awaiting more input.
pub open spec fn spec_decode(b: Seq<u8>) -> (Seq<EventModel>, Seq<u8>)
    decreases b.len(),
    via spec_decode_decreases
{
    if b.len() == 0 {
        (Seq::empty(), b)
    } else if b[0] != SYNC1 {
        let rest = spec_decode(b.skip(spec_garbage_run(b)));
        (seq![EventModel::Error { error: DecodeError::SyncLoss }] + rest.0, rest.1)
    } else if b.len() < 2 {
        (Seq::empty(), b)
    } else if b[1] != SYNC2 {
        let rest = spec_decode(b.skip(1));
        (seq![EventModel::Error { error: DecodeError::SyncLoss }] + rest.0, rest.1)
    } else if b.len() < 6 {
        (Seq::empty(), b)
    } else if b.len() < spec_frame_len(b) {
        (Seq::empty(), b)
    } else if spec_checksum_ok(b) {
        let rest = spec_decode(b.skip(spec_frame_len(b)));
        (seq![spec_frame_model(b)] + rest.0, rest.1)
    } else {
        let rest = spec_decode(b.skip(spec_frame_len(b)));
        (seq![EventModel::Error { error: DecodeError::Checksum }] + rest.0, rest.1)
    }
}

#[via_fn]
proof fn spec_decode_decreases(b: Seq<u8>) {
    if b.len() > 0 && b[0] != SYNC1 {
        lemma_garbage_run_le(b);
        lemma_garbage_run_le(b.skip(1));
        assert(spec_garbage_run(b) == 1 + spec_garbage_run(b.skip(1)));
    }
}

/// A garbage run is at least one byte and stops at the next sync byte or the
/// buffer's end.
proof fn lemma_garbage_run_found(b: Seq<u8>, j: int)
    requires
        0 <= j <= b.len(),
        forall|i: int| 0 <= i < j ==> b[i] != SYNC1,
        j == b.len() || b[j] == SYNC1,
    ensures
        spec_garbage_run(b) == j,
    decreases b.len(),
{
    if b.len() == 0 {
    } else if b[0] == SYNC1 {
    } else {
        assert(forall|i: int| 0 <= i < j - 1 ==> b.skip(1)[i] == b[i + 1]);
        lemma_garbage_run_found(b.skip(1), j - 1);
    }
}

/// Fletcher checksum of `b`, computed byte by byte.
fn fletcher(b: &Vec<u8>, from: usize, to: usize) -> (r: (u8, u8))
    requires
        from <= to <= b@.len(),
    ensures
        (r.0 as int, r.1 as int) == spec_fletcher(b@.subrange(from as int, to as int)),
{
    let mut a: u8 = 0;
    let mut k: u8 = 0;
    let mut i: usize = from;
    while i < to
        invariant
            from <= i <= to <= b@.len(),
            (a as int, k as int) == spec_fletcher(b@.subrange(from as int, i as int)),
        decreases to - i,
    {
        proof {
            assert(b@.subrange(from as int, i + 1).drop_last() =~= b@.subrange(
                from as int,
                i as int,
            ));
        }
        a = a.wrapping_add(b[i]);
        k = k.wrapping_add(a);
        i = i + 1;
    }
    (a, k)
}

/// Removes the first `k` bytes of `v`.
fn drop_front(v: &mut Vec<u8>, k: usize)
    requires
        k <= old(v)@.len(),
    ensures
        final(v)@ == old(v)@.skip(k as int),
{
    let mut out: Vec<u8> = Vec::new();
    let mut i: usize = k;
    while i < v.len()
        invariant
            k <= i <= v@.len(),
            v@ == old(v)@,
            out@ =~= v@.subrange(k as int, i as int),
        decreases v@.len() - i,
    {
        out.push(v[i]);
        i = i + 1;
    }
    proof {
        assert(out@ =~= old(v)@.skip(k as int));
    }
    *v = out;
}

/// The streaming decoder: it owns the unconsumed tail of the byte stream.
pub struct Decoder {
    buf: Vec<u8>,
}

impl View for Decoder {
    type V = Seq<u8>;

    closed spec fn view(&self) -> Seq<u8> {
        self.buf@
    }
}

impl Decoder {
    /// A decoder with an empty buffer.
    pub fn new() -> (r: Decoder)
        ensures
            r@ == Seq::<u8>::empty(),
    {
        Decoder { buf: Vec::new() }
    }

    /// Feeds newly read bytes and decodes as far as the stream allows: the
    /// events are exactly those of the buffered bytes followed by the input,
    /// and the undecodable tail stays buffered for the next call.
    pub fn feed(&mut self, input: &Vec<u8>) -> (events: Vec<UbxEvent>)
        ensures
            models_of(events@) == spec_decode(old(self)@ + input@).0,
            final(self)@ == spec_decode(old(self)@ + input@).1,
    {
        let ghost all: Seq<u8> = self.buf@ + input@;
        let mut i: usize = 0;
        while i < input.len()
            invariant
                i <= input@.len(),
                self.buf@ == old(self).buf@ + input@.subrange(0, i as int),
            decreases input@.len() - i,
        {
            self.buf.push(input[i]);
            i = i + 1;
        }
        proof {
            assert(self.buf@ =~= all);
        }
        let mut events: Vec<UbxEvent> = Vec::new();
        loop
            invariant
                spec_decode(all).0 =~= models_of(events@) + spec_decode(self.buf@).0,
                spec_decode(all).1 == spec_decode(self.buf@).1,
            ensures
                spec_decode(all).0 =~= models_of(events@) + spec_decode(self.buf@).0,
                spec_decode(all).1 == spec_decode(self.buf@).1,
                spec_decode(self.buf@).0 =~= Seq::<EventModel>::empty(),
            decreases self.buf@.len(),
        {
            let ghost pre: Seq<u8> = self.buf@;
            if self.buf.len() == 0 {
                break ;
            }
            if self.buf[0] != SYNC1 {
                // scan for the next sync byte
                let mut j: usize = 1;
                while j < self.buf.len() && self.buf[j] != SYNC1
                    invariant
                        1 <= j <= self.buf@.len(),
                        self.buf@ == pre,
                        forall|t: int| 0 <= t < j ==> self.buf@[t] != SYNC1,
                    decreases self.buf@.len() - j,
                {
                    j = j + 1;
                }
                proof {
                    lemma_garbage_run_found(pre, j as int);
                }
                events.push(UbxEvent::Error(DecodeError::SyncLoss));
                drop_front(&mut self.buf, j);
                proof {
                    lemma_models_push(
                        events@,
                        EventModel::Error { error: DecodeError::SyncLoss },
                    );
                }
                continue ;
            }
            if self.buf.len() < 2 {
                break ;
            }
            if self.buf[1] != SYNC2 {
                events.push(UbxEvent::Error(DecodeError::SyncLoss));
                drop_front(&mut self.buf, 1);
                proof {
                    lemma_models_push(
                        events@,
                        EventModel::Error { error: DecodeError::SyncLoss },
                    );
                }
                continue ;
            }
            if self.buf.len() < 6 {
                break ;
            }
            let plen: usize = self.buf[4] as usize + 256 * (self.buf[5] as usize);
            let flen: usize = 8 + plen;
            if self.buf.len() < flen {
                break ;
            }
            let ck = fletcher(&self.buf, 2, flen - 2);
            if ck.0 == self.buf[flen - 2] && ck.1 == self.buf[flen - 1] {
                let mut payload: Vec<u8> = Vec::new();
                let mut t: usize = 6;
                while t < 6 + plen
                    invariant
                        6 <= t <= 6 + plen,
                        flen == 8 + plen,
                        flen <= self.buf@.len(),
                        self.buf@ == pre,
                        payload@ =~= self.buf@.subrange(6, t as int),
                    decreases 6 + plen - t,
                {
                    payload.push(self.buf[t]);
                    t = t + 1;
                }
                let frame = Frame { class: self.buf[2], id: self.buf[3], payload };
                events.push(UbxEvent::Packet(frame));
                drop_front(&mut self.buf, flen);
                proof {
                    assert(spec_checksum_ok(pre));
                    lemma_models_push(events@, spec_frame_model(pre));
                }
            } else {
                events.push(UbxEvent::Error(DecodeError::Checksum));
                drop_front(&mut self.buf, flen);
                proof {
                    assert(!spec_checksum_ok(pre));
                    lemma_models_push(events@, EventModel::Error { error: DecodeError::Checksum });
                }
            }
        }
        events
    }
}

impl Frame {
    /// Whether this frame is the receiver's acknowledge for the
    /// configuration message of the given class and identifier.
    pub fn is_ack_for(&self, class: u8, id: u8) -> (r: bool)
        ensures
            r == (self.class == 5 && self.id == 1 && self.payload@.len() == 2
                && self.payload@[0] == class && self.payload@[1] == id),
    {
        self.class == 5 && self.id == 1 && self.payload.len() == 2 && self.payload[0] == class
            && self.payload[1] == id
    }
}

/// Encodes a frame: sync bytes, class, identifier, little-endian payload
/// length, payload, then the checksum of everything after the sync bytes.
pub fn encode_frame(class: u8, id: u8, payload: &Vec<u8>) -> (r: Vec<u8>)
    requires
        payload@.len() <= 65535,
    ensures
        r@.len() == 8 + payload@.len(),
        spec_frame_at(r@),
        spec_frame_len(r@) == r@.len(),
        spec_frame_model(r@) == (EventModel::Packet { class, id, payload: payload@ }),
{
    let plen: usize = payload.len();
    let mut r: Vec<u8> = Vec::new();
    r.push(SYNC1);
    r.push(SYNC2);
    r.push(class);
    r.push(id);
    r.push((plen % 256) as u8);
    r.push((plen / 256) as u8);
    let mut t: usize = 0;
    while t < plen
        invariant
            t <= plen == payload@.len() <= 65535,
            r@.len() == 6 + t,
            r@[0] == SYNC1,
            r@[1] == SYNC2,
            r@[2] == class,
            r@[3] == id,
            r@[4] == plen % 256,
            r@[5] == plen / 256,
            r@.subrange(6, 6 + t as int) =~= payload@.subrange(0, t as int),
        decreases plen - t,
    {
        r.push(payload[t]);
        t = t + 1;
    }
    let ck = fletcher(&r, 2, 6 + plen);
    let ghost body: Seq<u8> = r@;
    r.push(ck.0);
    r.push(ck.1);
    proof {
        assert(spec_payload_len(r@) == plen) by {
            assert(r@[4] + 256 * r@[5] == plen % 256 + 256 * (plen / 256));
        }
        assert(body.subrange(6, 6 + plen as int) =~= payload@);
        assert(r@.subrange(2, 6 + plen as int) =~= body.subrange(2, 6 + plen as int));
        assert(r@.subrange(6, 6 + plen as int) =~= body.subrange(6, 6 + plen as int));
    }
    r
}

/// A complete well-formed frame at the buffer's front decodes to its model,
/// and decoding continues on what follows it, whatever that is.
pub proof fn lemma_decode_frame_prefix(f: Seq<u8>, rest: Seq<u8>)
    requires
        spec_frame_at(f),
        f.len() == spec_frame_len(f),
    ensures
        spec_decode(f + rest).0 =~= seq![spec_frame_model(f)] + spec_decode(rest).0,
        spec_decode(f + rest).1 == spec_decode(rest).1,
{
    let b = f + rest;
    let n = spec_frame_len(f);
    assert(spec_frame_len(b) == n);
    assert(b.subrange(2, n - 2) =~= f.subrange(2, n - 2));
    assert(spec_checksum_ok(b));
    assert(b.subrange(6, 6 + spec_payload_len(b)) =~= f.subrange(6, 6 + spec_payload_len(f)));
    assert(spec_frame_model(b) == spec_frame_model(f));
    assert(b.skip(n) =~= rest);
}

/// A complete frame candidate whose checksum does not match decodes to one
/// checksum error, and decoding resumes right after it.
pub proof fn lemma_decode_corrupt_prefix(c: Seq<u8>, rest: Seq<u8>)
    requires
        c.len() >= 8,
        c[0] == SYNC1,
        c[1] == SYNC2,
        c.len() == spec_frame_len(c),
        !spec_checksum_ok(c),
    ensures
        spec_decode(c + rest).0 =~= seq![EventModel::Error { error: DecodeError::Checksum }]
            + spec_decode(rest).0,
        spec_decode(c + rest).1 == spec_decode(rest).1,
{
    let b = c + rest;
    let n = spec_frame_len(c);
    assert(spec_frame_len(b) == n);
    assert(b.subrange(2, n - 2) =~= c.subrange(2, n - 2));
    assert(!spec_checksum_ok(b));
    assert(b.skip(n) =~= rest);
}

/// Resynchronization: a corrupted frame embedded between two valid frames
/// yields exactly one decode error, both valid frames are still decoded, and
/// nothing stays buffered.
pub proof fn lemma_decoder_resync(f1: Seq<u8>, c: Seq<u8>, f2: Seq<u8>)
    requires
        spec_frame_at(f1),
        f1.len() == spec_frame_len(f1),
        spec_frame_at(f2),
        f2.len() == spec_frame_len(f2),
        c.len() >= 8,
        c[0] == SYNC1,
        c[1] == SYNC2,
        c.len() == spec_frame_len(c),
        !spec_checksum_ok(c),
    ensures
        spec_decode(f1 + c + f2).0 =~= seq![
            spec_frame_model(f1),
            EventModel::Error { error: DecodeError::Checksum },
            spec_frame_model(f2),
        ],
        spec_decode(f1 + c + f2).1 =~= Seq::<u8>::empty(),
{
    assert(f1 + c + f2 =~= f1 + (c + f2));
    lemma_decode_frame_prefix(f1, c + f2);
    lemma_decode_corrupt_prefix(c, f2);
    assert(f2 + Seq::<u8>::empty() =~= f2);
    lemma_decode_frame_prefix(f2, Seq::empty());
    assert(spec_decode(Seq::<u8>::empty()).0 =~= Seq::<EventModel>::empty());
}

/// Round trip: a single complete frame decodes to exactly its model, with
/// nothing left buffered.  With `encode_frame`'s contract this gives that
/// encoding a frame and decoding the bytes yields the frame back.
pub proof fn lemma_encode_decode_round_trip(f: Seq<u8>)
    requires
        spec_frame_at(f),
        f.len() == spec_frame_len(f),
    ensures
        spec_decode(f).0 =~= seq![spec_frame_model(f)],
        spec_decode(f).1 =~= Seq::<u8>::empty(),
{
    assert(f + Seq::<u8>::empty() =~= f);
    lemma_decode_frame_prefix(f, Seq::empty());
    assert(spec_decode(Seq::<u8>::empty()).0 =~= Seq::<EventModel>::empty());
}

/// Appending one event appends its model.
proof fn lemma_models_push(es: Seq<UbxEvent>, m: EventModel)
    requires
        es.len() > 0,
        es.last()@ == m,
    ensures
        models_of(es) =~= models_of(es.drop_last()) + seq![m],
{
}

} // verus!
