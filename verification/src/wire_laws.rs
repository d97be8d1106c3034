//! What is read of a control session.

use vstd::prelude::*;
use crate::wire::deliveries;
use crate::wire::every_text_is_delivered_in_order;
use crate::wire::passed_over;
use crate::wire::read_all;
use crate::wire::read_step;
use crate::wire::reads_left;
use crate::wire::texts_sent;
use crate::wire::Frame;
use crate::wire::Incoming;
use crate::wire::ReadFault;
use crate::wire::ReadStep;

verus! {

/// A text is delivered as it came, every other frame asks for another read, and a failed or
/// ended connection is told as what it is.
pub proof fn reads_are_told_apart(text: String, bytes: Vec<u8>)
    ensures
        read_step(Incoming::Frame(Frame::Text(text))) == ReadStep::Deliver(text),
        read_step(Incoming::Frame(Frame::Binary(bytes))) == ReadStep::KeepReading,
        read_step(Incoming::Frame(Frame::Ping(bytes))) == ReadStep::KeepReading,
        read_step(Incoming::Frame(Frame::Pong(bytes))) == ReadStep::KeepReading,
        read_step(Incoming::Frame(Frame::Close)) == ReadStep::KeepReading,
        read_step(Incoming::Broken) == ReadStep::Fail(ReadFault::Broken),
        read_step(Incoming::Ended) == ReadStep::Fail(ReadFault::Ended),
{
}

/// The frames that carry no message are those of bytes, of the keep-alive and of the close.
pub proof fn frames_without_a_message(text: String, bytes: Vec<u8>)
    ensures
        passed_over(Incoming::Frame(Frame::Binary(bytes))),
        passed_over(Incoming::Frame(Frame::Ping(bytes))),
        passed_over(Incoming::Frame(Frame::Pong(bytes))),
        passed_over(Incoming::Frame(Frame::Close)),
        !passed_over(Incoming::Frame(Frame::Text(text))),
        !passed_over(Incoming::Broken),
        !passed_over(Incoming::Ended),
{
}

/// A frame without a message makes no difference to what is read behind it.
pub proof fn frame_without_a_message_is_skipped(frame: Frame, rest: Seq<Incoming>)
    requires
        !(frame is Text),
    ensures
        read_all(seq![Incoming::Frame(frame)] + rest) == read_all(rest),
        reads_left(seq![Incoming::Frame(frame)] + rest) == reads_left(rest),
        deliveries(seq![Incoming::Frame(frame)] + rest) == deliveries(rest),
        texts_sent(seq![Incoming::Frame(frame)] + rest) == texts_sent(rest),
{
    let reads = seq![Incoming::Frame(frame)] + rest;
    assert(reads.drop_first() =~= rest);
    every_text_is_delivered_in_order(reads);
    every_text_is_delivered_in_order(rest);
}

/// A text is the first that is delivered, and what is delivered behind it is what would be
/// without it.
pub proof fn text_is_delivered_before_the_rest(text: String, rest: Seq<Incoming>)
    ensures
        deliveries(seq![Incoming::Frame(Frame::Text(text))] + rest) == seq![text] + deliveries(
            rest,
        ),
        texts_sent(seq![Incoming::Frame(Frame::Text(text))] + rest) == seq![text] + texts_sent(
            rest,
        ),
{
    let reads = seq![Incoming::Frame(Frame::Text(text))] + rest;
    assert(reads.drop_first() =~= rest);
    every_text_is_delivered_in_order(reads);
    every_text_is_delivered_in_order(rest);
}

/// A connection that fails or ends is told so, however many frames without a message came
/// before, and nothing behind that moment is delivered.
pub proof fn end_of_the_connection_is_told(
    skipped: Seq<Incoming>,
    last: Incoming,
    rest: Seq<Incoming>,
)
    requires
        forall|i: int|
            0 <= i < skipped.len() ==> (#[trigger] skipped[i]) is Frame && !(
            skipped[i]->Frame_0 is Text),
        !(last is Frame),
    ensures
        last is Broken ==> read_all(skipped + seq![last] + rest) == ReadStep::Fail(
            ReadFault::Broken,
        ),
        last is Ended ==> read_all(skipped + seq![last] + rest) == ReadStep::Fail(
            ReadFault::Ended,
        ),
        reads_left(skipped + seq![last] + rest) == rest,
        deliveries(skipped + seq![last] + rest) == Seq::<String>::empty(),
        texts_sent(skipped + seq![last] + rest) == Seq::<String>::empty(),
    decreases skipped.len(),
{
    let reads = skipped + seq![last] + rest;
    every_text_is_delivered_in_order(reads);
    if skipped.len() == 0 {
        assert(reads[0] == last);
        assert(reads.drop_first() =~= rest);
    } else {
        assert(reads[0] == skipped[0]);
        end_of_the_connection_is_told(skipped.drop_first(), last, rest);
        assert(reads.drop_first() =~= skipped.drop_first() + seq![last] + rest);
    }
}

/// Nothing read yet is nothing delivered, and asks for a read.
pub proof fn no_read_gives_nothing()
    ensures
        read_all(Seq::empty()) == ReadStep::KeepReading,
        reads_left(Seq::empty()) == Seq::<Incoming>::empty(),
        deliveries(Seq::empty()) == Seq::<String>::empty(),
        texts_sent(Seq::empty()) == Seq::<String>::empty(),
{
    every_text_is_delivered_in_order(Seq::empty());
}

} // verus!
