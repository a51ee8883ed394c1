//! The body of a response on its way to Varnish.
use crate::external::bytes_as_slice;
use crate::external::bytes_contents;
use crate::message::RespMsg;
use bytes::Bytes;
use tokio::sync::mpsc::Receiver;
use vstd::prelude::*;

verus! {

/// A response whose head has been delivered and whose body is still arriving.
pub struct BackendResp {
    /// Where the messages with the rest of the body come from.
    pub chan: Option<Receiver<RespMsg>>,
    /// The piece of the body that is being handed out.
    pub bytes: Option<Bytes>,
    /// How much of that piece has been handed out.
    pub cursor: usize,
    /// The length of the body, where the bucket told it.
    pub content_length: Option<usize>,
}

/// What the channel gave at the start of a turn of `BackendResp::read`.
pub enum Arrival {
    /// It was not asked: a piece is still being handed out.
    Unasked,
    /// A message.
    Message(RespMsg),
    /// The worker has hung up.
    Closed,
}

/// What comes of a turn of `BackendResp::read`.
pub enum Turn {
    /// Take another turn, with this many bytes in the buffer.
    Again(usize),
    /// The call is over, with this many bytes in the buffer.
    Done(usize),
    /// The call has failed, with this message.
    Failed(String),
}

/// What a turn does, in terms of the bytes alone.
pub ghost struct TurnEffect {
    /// The bytes that it appends to the buffer.
    pub wrote: Seq<u8>,
    /// What remains of the piece that is being handed out, if there is one.
    pub left: Option<Seq<u8>>,
}

pub open spec fn min(a: nat, b: nat) -> nat {
    if a <= b {
        a
    } else {
        b
    }
}

/// The bytes on hand in a turn: those left of the last piece or, if none is being handed
/// out, those that have just arrived.
pub open spec fn on_hand(left: Option<Seq<u8>>, arrival: Arrival) -> Seq<u8> {
    match left {
        Some(rest) => rest,
        None => match arrival {
            Arrival::Message(RespMsg::Chunk(bytes)) => bytes_contents(bytes),
            _ => Seq::empty(),
        },
    }
}

/// Hands out as many of the bytes on hand as there is room for. A piece that is used up is
/// dropped.
pub open spec fn hand_out(bytes: Seq<u8>, room: nat) -> TurnEffect {
    let used = min(bytes.len(), room) as int;
    TurnEffect {
        wrote: bytes.take(used),
        left: if used == bytes.len() {
            None
        } else {
            Some(bytes.skip(used))
        },
    }
}

/// What a turn starts from: the channel has been asked if it has to be, and only then, it has
/// not given a head, and there is something to hand out or a channel to ask.
pub open spec fn ready(resp: BackendResp, arrival: Arrival, buf: Seq<u8>, n: usize) -> bool {
    &&& resp.wf()
    &&& resp.bytes is Some || resp.chan is Some
    &&& arrival is Unasked <==> !resp.asks()
    &&& !(arrival matches Arrival::Message(RespMsg::Hdrs(_)))
    &&& n <= buf.len()
}

/// What a turn comes to. The end of the channel ends the call with success and a failed message
/// ends it with its text, both with nothing changed; every other turn hands out what is on
/// hand, behind the first `n` bytes of the buffer.
pub open spec fn turns(
    resp: BackendResp,
    arrival: Arrival,
    buf: Seq<u8>,
    n: usize,
    resp_after: BackendResp,
    buf_after: Seq<u8>,
    r: Turn,
) -> bool {
    match arrival {
        Arrival::Closed => {
            &&& r == Turn::Done(n)
            &&& resp_after == resp
            &&& buf_after == buf
        },
        Arrival::Message(RespMsg::Failed(text)) => {
            &&& r == Turn::Failed(text)
            &&& resp_after == resp
            &&& buf_after == buf
        },
        _ => {
            let effect = hand_out(on_hand(resp.left(), arrival), (buf.len() - n) as nat);
            let used = effect.wrote.len() as int;
            &&& r == Turn::Again((n + used) as usize)
            &&& n + used <= buf.len() <= usize::MAX
            &&& buf_after == buf.take(n as int) + effect.wrote + buf.skip(n + used)
            &&& resp_after.left() == effect.left
            &&& resp_after.cursor == used + if resp.bytes is Some {
                resp.cursor as int
            } else {
                0
            }
            &&& effect.left is Some ==> resp_after.bytes == match arrival {
                Arrival::Message(RespMsg::Chunk(bytes)) => Some(bytes),
                _ => resp.bytes,
            }
            &&& resp_after.chan == resp.chan
            &&& resp_after.content_length == resp.content_length
        },
    }
}

impl BackendResp {
    /// The cursor stands inside the piece that is being handed out.
    pub open spec fn wf(self) -> bool {
        self.bytes matches Some(bytes) ==> self.cursor <= bytes_contents(bytes).len()
    }

    /// The bytes of the current piece that have not been handed out.
    pub open spec fn left(self) -> Option<Seq<u8>> {
        match self.bytes {
            Some(bytes) => Some(bytes_contents(bytes).skip(self.cursor as int)),
            None => None,
        }
    }

    /// Whether the channel has to be asked before the next turn.
    pub open spec fn asks(self) -> bool {
        self.bytes is None && self.chan is Some
    }

    /// The response to hand over once the head has come: nothing of the body is there yet.
    pub fn new(chan: Receiver<RespMsg>, content_length: Option<u64>) -> (r: BackendResp)
        ensures
            r.wf(),
            r.chan == Some(chan),
            r.bytes is None,
            r.cursor == 0,
            content_length is None ==> r.content_length is None,
            content_length matches Some(n) ==> r.content_length == Some(n as usize),
    {
        let content_length = match content_length {
            Some(n) => Some(
                #[verifier::truncate]
                (n as usize),
            ),
            None => None,
        };
        BackendResp { chan: Some(chan), bytes: None, cursor: 0, content_length }
    }

    /// Whether the channel has to be asked before the next turn of `read`.
    pub fn wants_message(&self) -> (r: bool)
        ensures
            r == self.asks(),
    {
        self.bytes.is_none() && self.chan.is_some()
    }

    /// One turn of reading the body into `buf`, whose first `n` bytes have been filled.
    ///
    /// A call to read takes turns until one of them ends it: the end of the channel with
    /// success, a failed message with its text. Every other turn hands out what is on hand
    /// and goes on, also when the buffer is full.
    pub fn read(&mut self, arrival: Arrival, buf: &mut [u8], n: usize) -> (r: Turn)
        requires
            ready(*old(self), arrival, old(buf)@, n),
        ensures
            final(self).wf(),
            turns(*old(self), arrival, old(buf)@, n, *final(self), final(buf)@, r),
    {
        match arrival {
            Arrival::Closed => {
                return Turn::Done(n);
            },
            Arrival::Message(RespMsg::Failed(text)) => {
                return Turn::Failed(text);
            },
            Arrival::Message(RespMsg::Chunk(bytes)) => {
                self.bytes = Some(bytes);
                self.cursor = 0;
            },
            _ => {},
        }
        let ghost hand = on_hand(old(self).left(), arrival);
        assert(self.left() == Some(hand));
        let mut used: usize = 0;
        let mut spent: bool = false;
        if let Some(bytes) = &self.bytes {
            let piece: &[u8] = bytes_as_slice(bytes);
            let piece_len: usize = piece.len();
            let buf_len: usize = buf.len();
            let rest: usize = piece_len - self.cursor;
            let room: usize = buf_len - n;
            let quota: usize = if rest <= room {
                rest
            } else {
                room
            };
            while used < quota
                invariant
                    used <= quota,
                    quota <= rest,
                    quota <= room,
                    rest == hand.len(),
                    self.cursor + rest == piece_len,
                    piece_len == piece@.len(),
                    hand == piece@.skip(self.cursor as int),
                    n + room == buf_len,
                    buf_len == old(buf)@.len(),
                    buf@ =~= old(buf)@.take(n as int) + hand.take(used as int) + old(buf)@.skip(
                        n + used,
                    ),
                decreases quota - used,
            {
                buf[n + used] = piece[self.cursor + used];
                used = used + 1;
            }
            spent = used == rest;
        }
        self.cursor = self.cursor + used;
        if spent {
            self.bytes = None;
        }
        proof {
            let effect = hand_out(hand, (old(buf)@.len() - n) as nat);
            assert(buf@ =~= old(buf)@.take(n as int) + effect.wrote + old(buf)@.skip(n + used));
            if self.bytes is Some {
                assert(self.left()->0 =~= effect.left->0);
            }
        }
        Turn::Again(n + used)
    }

    /// The length of the body, where it is known.
    pub fn len(&self) -> (r: Option<usize>)
        ensures
            r == self.content_length,
    {
        self.content_length
    }
}

/// The bytes of a piece that may not be there.
pub open spec fn bytes_left(left: Option<Seq<u8>>) -> Seq<u8> {
    match left {
        Some(rest) => rest,
        None => Seq::empty(),
    }
}

/// The bytes that a turn gets from the channel.
pub open spec fn arrived(arrival: Arrival) -> Seq<u8> {
    match arrival {
        Arrival::Message(RespMsg::Chunk(bytes)) => bytes_contents(bytes),
        _ => Seq::empty(),
    }
}

/// The bytes that a number of turns get from the channel, in order.
pub open spec fn all_arrived(arrivals: Seq<Arrival>) -> Seq<u8>
    decreases arrivals.len(),
{
    if arrivals.len() == 0 {
        Seq::empty()
    } else {
        all_arrived(arrivals.drop_last()) + arrived(arrivals.last())
    }
}

/// What a number of turns do, one after the other, on an empty buffer of `size` bytes.
pub open spec fn after_turns(
    left: Option<Seq<u8>>,
    size: nat,
    arrivals: Seq<Arrival>,
) -> TurnEffect
    decreases arrivals.len(),
{
    if arrivals.len() == 0 {
        TurnEffect { wrote: Seq::empty(), left }
    } else {
        let before = after_turns(left, size, arrivals.drop_last());
        let effect = hand_out(
            on_hand(before.left, arrivals.last()),
            (size - before.wrote.len()) as nat,
        );
        TurnEffect { wrote: before.wrote + effect.wrote, left: effect.left }
    }
}

/// The turns go on: the channel is asked when no piece is being handed out, and only then,
/// and each time it gives a piece.
pub open spec fn goes_on(left: Option<Seq<u8>>, size: nat, arrivals: Seq<Arrival>) -> bool
    decreases arrivals.len(),
{
    arrivals.len() > 0 ==> {
        &&& goes_on(left, size, arrivals.drop_last())
        &&& match after_turns(left, size, arrivals.drop_last()).left {
            Some(_) => arrivals.last() is Unasked,
            None => arrivals.last() matches Arrival::Message(RespMsg::Chunk(_)),
        }
    }
}

/// Reading loses no byte, adds none and keeps their order: what has been written, followed
/// by what is left to hand out, is what was left before, followed by what has arrived. And
/// no more is written than the buffer holds.
pub proof fn law_no_byte_lost(left: Option<Seq<u8>>, size: nat, arrivals: Seq<Arrival>)
    requires
        goes_on(left, size, arrivals),
    ensures
        ({
            let after = after_turns(left, size, arrivals);
            &&& after.wrote + bytes_left(after.left) == bytes_left(left) + all_arrived(arrivals)
            &&& after.wrote.len() <= size
        }),
    decreases arrivals.len(),
{
    if arrivals.len() > 0 {
        let earlier = arrivals.drop_last();
        law_no_byte_lost(left, size, earlier);
        let before = after_turns(left, size, earlier);
        let hand = on_hand(before.left, arrivals.last());
        let effect = hand_out(hand, (size - before.wrote.len()) as nat);
        assert(effect.wrote + bytes_left(effect.left) =~= hand);
        assert(bytes_left(before.left) + arrived(arrivals.last()) =~= hand);
        assert(before.wrote + effect.wrote + bytes_left(effect.left) =~= before.wrote + hand);
        assert(before.wrote + hand =~= before.wrote + bytes_left(before.left) + arrived(
            arrivals.last(),
        ));
        assert(bytes_left(left) + all_arrived(arrivals) =~= bytes_left(left) + all_arrived(earlier)
            + arrived(arrivals.last()));
    } else {
        assert(Seq::<u8>::empty() + bytes_left(left) =~= bytes_left(left) + Seq::<u8>::empty());
    }
}

/// A call that ends with the channel has handed over everything: the channel is asked only
/// when no piece is being handed out, and the buffer then holds all that was left before and
/// all that has arrived.
pub proof fn law_end_of_channel_is_end_of_body(
    left: Option<Seq<u8>>,
    size: nat,
    arrivals: Seq<Arrival>,
)
    requires
        goes_on(left, size, arrivals),
        after_turns(left, size, arrivals).left is None,
    ensures
        after_turns(left, size, arrivals).wrote == bytes_left(left) + all_arrived(arrivals),
{
    law_no_byte_lost(left, size, arrivals);
    let after = after_turns(left, size, arrivals);
    assert(after.wrote + bytes_left(after.left) =~= after.wrote);
}

/// A point in a call to read: the response, the buffer, and how much of it has been filled.
pub ghost struct Reading {
    pub resp: BackendResp,
    pub buf: Seq<u8>,
    pub n: usize,
}

/// The points are those that a call passes which starts on an empty buffer and gets these
/// arrivals, each turn going on from where the last one ended.
pub open spec fn passes(points: Seq<Reading>, arrivals: Seq<Arrival>) -> bool {
    &&& points.len() == arrivals.len() + 1
    &&& points[0].n == 0
    &&& forall|i: int|
        #![trigger arrivals[i]]
        0 <= i < arrivals.len() ==> {
            let (at, next) = (points[i], points[i + 1]);
            &&& ready(at.resp, arrivals[i], at.buf, at.n)
            &&& turns(
                at.resp,
                arrivals[i],
                at.buf,
                at.n,
                next.resp,
                next.buf,
                Turn::Again(next.n),
            )
        }
}

/// One turn of `read` is one step of `after_turns`: if the buffer so far and what is left to
/// hand out are those after some arrivals, then after a turn that goes on they are those after
/// these arrivals and its own.
pub proof fn law_turn_is_a_step(
    left: Option<Seq<u8>>,
    size: nat,
    arrivals: Seq<Arrival>,
    arrival: Arrival,
    at: Reading,
    next: Reading,
)
    requires
        goes_on(left, size, arrivals),
        at.buf.len() == size,
        at.buf.take(at.n as int) == after_turns(left, size, arrivals).wrote,
        at.resp.left() == after_turns(left, size, arrivals).left,
        ready(at.resp, arrival, at.buf, at.n),
        turns(at.resp, arrival, at.buf, at.n, next.resp, next.buf, Turn::Again(next.n)),
    ensures
        goes_on(left, size, arrivals.push(arrival)),
        next.buf.len() == size,
        next.n <= size,
        next.buf.take(next.n as int) == after_turns(left, size, arrivals.push(arrival)).wrote,
        next.resp.left() == after_turns(left, size, arrivals.push(arrival)).left,
{
    assert(arrivals.push(arrival).drop_last() =~= arrivals);
    let effect = hand_out(on_hand(at.resp.left(), arrival), (size - at.n) as nat);
    assert(next.buf.take(next.n as int) =~= at.buf.take(at.n as int) + effect.wrote);
}

/// A whole call, made of turns of `read`, does what `after_turns` says: this is in the buffer
/// and this is left to hand out, however many turns it has taken.
pub proof fn law_call_is_its_turns(points: Seq<Reading>, arrivals: Seq<Arrival>)
    requires
        passes(points, arrivals),
    ensures
        ({
            let left = points[0].resp.left();
            let size = points[0].buf.len();
            let at = points.last();
            &&& goes_on(left, size, arrivals)
            &&& at.buf.len() == size
            &&& at.n <= size
            &&& at.buf.take(at.n as int) == after_turns(left, size, arrivals).wrote
            &&& at.resp.left() == after_turns(left, size, arrivals).left
        }),
    decreases arrivals.len(),
{
    if arrivals.len() == 0 {
        assert(points[0].buf.take(0) =~= Seq::<u8>::empty());
    } else {
        let earlier = arrivals.drop_last();
        let before = points.drop_last();
        assert forall|i: int| 0 <= i < earlier.len() implies {
            let (at, next) = (before[i], before[i + 1]);
            &&& ready(at.resp, #[trigger] earlier[i], at.buf, at.n)
            &&& turns(
                at.resp,
                earlier[i],
                at.buf,
                at.n,
                next.resp,
                next.buf,
                Turn::Again(next.n),
            )
        } by {
            assert(earlier[i] == arrivals[i]);
        }
        law_call_is_its_turns(before, earlier);
        assert(arrivals =~= earlier.push(arrivals.last()));
        assert(arrivals[arrivals.len() - 1] == arrivals.last());
        law_turn_is_a_step(
            points[0].resp.left(),
            points[0].buf.len(),
            earlier,
            arrivals.last(),
            before.last(),
            points.last(),
        );
    }
}

/// A call that succeeds has handed over everything: when the end of the channel ends it, its
/// result counts the bytes that were left before and those that have arrived, and these, in
/// order, are what its buffer begins with.
pub proof fn law_call_that_succeeds_has_read_everything(
    points: Seq<Reading>,
    arrivals: Seq<Arrival>,
    resp_after: BackendResp,
    buf_after: Seq<u8>,
    r: Turn,
)
    requires
        passes(points, arrivals),
        ready(points.last().resp, Arrival::Closed, points.last().buf, points.last().n),
        turns(
            points.last().resp,
            Arrival::Closed,
            points.last().buf,
            points.last().n,
            resp_after,
            buf_after,
            r,
        ),
    ensures
        ({
            let all = bytes_left(points[0].resp.left()) + all_arrived(arrivals);
            &&& r matches Turn::Done(n)
            &&& n == all.len()
            &&& buf_after.take(n as int) == all
        }),
{
    law_call_is_its_turns(points, arrivals);
    law_end_of_channel_is_end_of_body(points[0].resp.left(), points[0].buf.len(), arrivals);
}

/// Once the buffer is full, an unfinished piece stays as it is: no later turn writes a byte,
/// finishes the piece or asks the channel, so no later turn ends the call.
pub proof fn law_full_buffer_keeps_unfinished_piece(
    left: Option<Seq<u8>>,
    size: nat,
    arrivals: Seq<Arrival>,
    later: Seq<Arrival>,
)
    requires
        goes_on(left, size, arrivals + later),
        after_turns(left, size, arrivals).wrote.len() == size,
        after_turns(left, size, arrivals).left matches Some(rest) && rest.len() > 0,
    ensures
        after_turns(left, size, arrivals + later) == after_turns(left, size, arrivals),
    decreases later.len(),
{
    if later.len() == 0 {
        assert(arrivals + later =~= arrivals);
    } else {
        assert((arrivals + later).drop_last() =~= arrivals + later.drop_last());
        law_full_buffer_keeps_unfinished_piece(left, size, arrivals, later.drop_last());
        let before = after_turns(left, size, arrivals);
        let rest = before.left->0;
        assert(rest.take(0) =~= Seq::<u8>::empty());
        assert(rest.skip(0) =~= rest);
        assert(before.wrote + Seq::<u8>::empty() =~= before.wrote);
    }
}

/// The bytes that a turn has to hand out: the rest of a piece that is being handed out, with
/// the channel unasked, or else the piece that has come.
pub open spec fn to_hand_out(resp: BackendResp, arrival: Arrival, bytes: Seq<u8>) -> bool {
    match resp.bytes {
        Some(piece) => {
            &&& arrival is Unasked
            &&& bytes_contents(piece) == bytes_contents(piece).take(resp.cursor as int) + bytes
        },
        None => arrival matches Arrival::Message(RespMsg::Chunk(piece)) && bytes_contents(piece)
            == bytes,
    }
}

/// A turn writes all that there is room for: as many of the bytes it has to hand out as fit
/// into the buffer, behind what is there. It touches nothing else of the buffer, keeps the
/// bytes that did not fit, and nothing where all of them did.
pub proof fn law_turn_writes_all_that_fits(
    resp: &mut BackendResp,
    arrival: Arrival,
    buf: &mut [u8],
    n: usize,
    r: Turn,
    bytes: Seq<u8>,
)
    requires
        call_ensures(BackendResp::read, (resp, arrival, buf, n), r),
        ready(*old(resp), arrival, old(buf)@, n),
        to_hand_out(*old(resp), arrival, bytes),
    ensures
        r is Again,
        r->Again_0 <= old(buf)@.len(),
        bytes.len() <= old(buf)@.len() - n ==> r->Again_0 - n == bytes.len(),
        bytes.len() > old(buf)@.len() - n ==> r->Again_0 == old(buf)@.len(),
        final(buf)@.len() == old(buf)@.len(),
        forall|i: int| n <= i < r->Again_0 ==> #[trigger] final(buf)@[i] == bytes[i - n],
        forall|i: int|
            0 <= i < n || r->Again_0 <= i < old(buf)@.len() ==> #[trigger] final(buf)@[i] == old(
                buf,
            )@[i],
        bytes.len() <= old(buf)@.len() - n <==> final(resp).bytes is None,
        final(resp).bytes matches Some(piece) ==> {
            &&& final(resp).cursor <= bytes_contents(piece).len()
            &&& bytes_contents(piece).len() - final(resp).cursor == bytes.len() - (r->Again_0 - n)
            &&& forall|i: int|
                r->Again_0 - n <= i < bytes.len() ==> #[trigger] bytes[i]
                    == bytes_contents(piece)[final(resp).cursor + (i - (r->Again_0 - n))]
        },
        final(resp).chan == old(resp).chan,
        final(resp).content_length == old(resp).content_length,
{
    assert(on_hand(old(resp).left(), arrival) =~= bytes);
    let used = r->Again_0 - n;
    if let Some(piece) = final(resp).bytes {
        assert(bytes_contents(piece).skip(final(resp).cursor as int) == bytes.skip(used));
        assert forall|i: int| used <= i < bytes.len() implies #[trigger] bytes[i]
            == bytes_contents(piece)[final(resp).cursor + (i - used)] by {
            assert(bytes.skip(used)[i - used] == bytes[i]);
            assert(bytes_contents(piece).skip(final(resp).cursor as int)[i - used]
                == bytes_contents(piece)[final(resp).cursor + (i - used)]);
        }
    }
}

/// The end of the channel ends the call with the number of bytes that are in the buffer, and a
/// failure ends it with its own text; both leave everything as it is, and nothing else ends it.
pub proof fn law_only_the_channel_ends_a_call(
    resp: &mut BackendResp,
    arrival: Arrival,
    buf: &mut [u8],
    n: usize,
    r: Turn,
)
    requires
        call_ensures(BackendResp::read, (resp, arrival, buf, n), r),
        ready(*old(resp), arrival, old(buf)@, n),
    ensures
        r is Done <==> arrival is Closed,
        r is Failed <==> (arrival matches Arrival::Message(RespMsg::Failed(_))),
        r matches Turn::Done(m) ==> m == n,
        arrival matches Arrival::Message(RespMsg::Failed(text)) ==> r->Failed_0@ == text@,
        !(r is Again) ==> *final(resp) == *old(resp) && final(buf)@ == old(buf)@,
{
}

proof fn lemma_what_fits_is_written(
    left: Option<Seq<u8>>,
    size: nat,
    arrivals: Seq<Arrival>,
)
    requires
        goes_on(left, size, arrivals),
        arrivals.len() > 0,
        (bytes_left(left) + all_arrived(arrivals)).len() <= size,
    ensures
        after_turns(left, size, arrivals).left is None,
{
    let earlier = arrivals.drop_last();
    law_no_byte_lost(left, size, earlier);
    let before = after_turns(left, size, earlier);
    let hand = on_hand(before.left, arrivals.last());
    assert(bytes_left(before.left) + arrived(arrivals.last()) =~= hand);
    assert((before.wrote + bytes_left(before.left)).len() == (bytes_left(left) + all_arrived(
        earlier,
    )).len());
}

/// A body that fits into the buffer is read to its end: after each turn nothing is left to hand
/// out, all the bytes so far are in the buffer, and the same channel is asked next, so the call
/// ends when the channel does.
pub proof fn law_body_that_fits_is_read_to_its_end(points: Seq<Reading>, arrivals: Seq<Arrival>)
    requires
        passes(points, arrivals),
        arrivals.len() > 0,
        (bytes_left(points[0].resp.left()) + all_arrived(arrivals)).len() <= points[0].buf.len(),
    ensures
        points.last().resp.bytes is None,
        points.last().resp.chan == points[0].resp.chan,
        points.last().n == (bytes_left(points[0].resp.left()) + all_arrived(arrivals)).len(),
        points.last().buf.take(points.last().n as int) == bytes_left(points[0].resp.left())
            + all_arrived(arrivals),
{
    law_call_is_its_turns(points, arrivals);
    let left = points[0].resp.left();
    let size = points[0].buf.len();
    lemma_what_fits_is_written(left, size, arrivals);
    law_end_of_channel_is_end_of_body(left, size, arrivals);
    lemma_channel_stays(points, arrivals, arrivals.len() as int);
}

proof fn lemma_channel_stays(points: Seq<Reading>, arrivals: Seq<Arrival>, i: int)
    requires
        passes(points, arrivals),
        0 <= i <= arrivals.len(),
    ensures
        points[i].resp.chan == points[0].resp.chan,
    decreases i,
{
    if i > 0 {
        lemma_channel_stays(points, arrivals, i - 1);
        let arrival = arrivals[i - 1];
        assert(points[i].resp.chan == points[i - 1].resp.chan);
    }
}

/// What comes out of `read` is a turn as the laws on whole calls take it.
pub proof fn law_read_takes_a_turn(
    resp: &mut BackendResp,
    arrival: Arrival,
    buf: &mut [u8],
    n: usize,
    r: Turn,
)
    requires
        call_ensures(BackendResp::read, (resp, arrival, buf, n), r),
    ensures
        final(resp).wf(),
        turns(*old(resp), arrival, old(buf)@, n, *final(resp), final(buf)@, r),
{
}

/// A response that is handed over asks its channel first, and tells the length it was given.
pub proof fn law_fresh_response_asks_first(
    chan: Receiver<RespMsg>,
    content_length: Option<u64>,
    resp: BackendResp,
    wants: bool,
    length: Option<usize>,
)
    requires
        call_ensures(BackendResp::new, (chan, content_length), resp),
        call_ensures(BackendResp::wants_message, (&resp,), wants),
        call_ensures(BackendResp::len, (&resp,), length),
    ensures
        wants,
        resp.chan == Some(chan),
        resp.bytes is None,
        content_length is None <==> length is None,
        content_length matches Some(n) ==> (n <= usize::MAX ==> length->0 == n),
{
}

/// The channel is asked exactly when no piece is being handed out and there is a channel.
pub proof fn law_channel_is_asked_between_pieces(resp: BackendResp, wants: bool)
    requires
        call_ensures(BackendResp::wants_message, (&resp,), wants),
    ensures
        resp.bytes is Some ==> !wants,
        resp.bytes is None ==> (wants <==> resp.chan is Some),
{
}

/// As long as there is something to hand out or a channel, a turn can be taken: with the channel
/// unasked while a piece is being handed out, else with any piece, any failure or the end.
pub proof fn law_turns_can_be_taken(
    resp: &mut BackendResp,
    arrival: Arrival,
    buf: &mut [u8],
    n: usize,
)
    requires
        n <= old(buf)@.len(),
        match old(resp).bytes {
            Some(piece) => old(resp).cursor <= bytes_contents(piece).len() && arrival is Unasked,
            None => old(resp).chan is Some && match arrival {
                Arrival::Message(msg) => msg is Chunk || msg is Failed,
                Arrival::Closed => true,
                Arrival::Unasked => false,
            },
        },
    ensures
        call_requires(BackendResp::read, (resp, arrival, buf, n)),
{
}

} // verus!
