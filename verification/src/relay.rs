//! The relay of a streaming request: what the caller sends goes on to the
//! primary item by item, in the order in which it comes, until the first
//! reading of the inbound stream fails. From then on nothing goes on. The
//! primary is not told of the failure: for it the stream simply ends.

use vstd::prelude::*;

verus! {

/// What to do with the outbound stream after one reading of the inbound one.
#[derive(Debug, PartialEq, Eq)]
pub enum RelayAction<T> {
    /// Send this item on.
    Forward(T),
    /// End the stream.
    Close,
}

/// The relay of one streaming request. Once closed it stays closed.
#[derive(Debug, PartialEq, Eq)]
pub struct StreamRelay {
    closed: bool,
}

/// One step of a relay: whether it is closed afterwards, and what it does. An
/// item that was read goes on; a failed reading and the end of the inbound
/// stream close the relay; a closed relay lets nothing pass.
pub open spec fn relay_step<T, E>(closed: bool, reading: Option<Result<T, E>>) -> (
    bool,
    RelayAction<T>,
) {
    if closed {
        (true, RelayAction::Close)
    } else {
        match reading {
            Some(Ok(item)) => (false, RelayAction::Forward(item)),
            _ => (true, RelayAction::Close),
        }
    }
}

/// How many items stand at the head of `inbound` before its first failed
/// reading.
pub open spec fn intact_len<T, E>(inbound: Seq<Result<T, E>>) -> nat
    decreases inbound.len(),
{
    if inbound.len() == 0 || inbound[0] is Err {
        0
    } else {
        1 + intact_len(inbound.skip(1))
    }
}

/// What reaches the primary of a whole inbound stream: the items before the
/// first failed reading, in their order.
pub open spec fn relayed<T, E>(inbound: Seq<Result<T, E>>) -> Seq<T> {
    Seq::new(intact_len(inbound), |i: int| inbound[i]->Ok_0)
}

/// What a relay sends on when it is handed `readings` one after the other,
/// starting closed or open.
pub open spec fn sent_on<T, E>(closed: bool, readings: Seq<Option<Result<T, E>>>) -> Seq<T>
    decreases readings.len(),
{
    if readings.len() == 0 {
        seq![]
    } else {
        let (closed_after, action) = relay_step(closed, readings[0]);
        let rest = sent_on(closed_after, readings.skip(1));
        match action {
            RelayAction::Forward(item) => seq![item] + rest,
            RelayAction::Close => rest,
        }
    }
}

/// The readings of a stream that gives `inbound` and then, if `ended`, its
/// end.
pub open spec fn readings_of<T, E>(inbound: Seq<Result<T, E>>, ended: bool) -> Seq<
    Option<Result<T, E>>,
> {
    let items = Seq::new(inbound.len(), |i: int| Some(inbound[i]));
    if ended {
        items.push(None)
    } else {
        items
    }
}

/// `intact_len` is the place of the first failed reading, or the length of
/// the stream where no reading fails.
pub proof fn intact_len_is_first_failure<T, E>(inbound: Seq<Result<T, E>>)
    ensures
        intact_len(inbound) <= inbound.len(),
        forall|i: int| 0 <= i < intact_len(inbound) ==> (#[trigger] inbound[i]) is Ok,
        intact_len(inbound) < inbound.len() ==> inbound[intact_len(inbound) as int] is Err,
    decreases inbound.len(),
{
    if inbound.len() == 0 || inbound[0] is Err {
    } else {
        let rest = inbound.skip(1);
        intact_len_is_first_failure(rest);
        assert forall|i: int| 0 <= i < intact_len(inbound) implies (#[trigger] inbound[i]) is Ok by {
            if i > 0 {
                assert(rest[i - 1] == inbound[i]);
            }
        }
        if intact_len(inbound) < inbound.len() {
            assert(rest[intact_len(rest) as int] == inbound[intact_len(inbound) as int]);
        }
    }
}

/// A closed relay sends nothing on, whatever it is handed.
pub proof fn closed_relay_sends_nothing<T, E>(readings: Seq<Option<Result<T, E>>>)
    ensures
        sent_on(true, readings) == Seq::<T>::empty(),
    decreases readings.len(),
{
    if readings.len() > 0 {
        closed_relay_sends_nothing(readings.skip(1));
    }
}

/// Handed a stream reading by reading, a relay sends on exactly the items
/// before the first failed reading, in their order: nothing after it, nothing
/// twice, nothing out of place. Whether the stream has ended makes no
/// difference to what was sent.
pub proof fn relay_sends_the_intact_prefix<T, E>(inbound: Seq<Result<T, E>>, ended: bool)
    ensures
        sent_on(false, readings_of(inbound, ended)) == relayed(inbound),
    decreases inbound.len(),
{
    let readings = readings_of(inbound, ended);
    if inbound.len() == 0 {
        if ended {
            assert(readings.skip(1) =~= Seq::<Option<Result<T, E>>>::empty());
            assert(sent_on::<T, E>(true, readings.skip(1)) =~= Seq::<T>::empty());
        }
        assert(sent_on(false, readings) =~= relayed(inbound));
    } else {
        let rest = inbound.skip(1);
        assert(readings[0] == Some(inbound[0]));
        assert(readings.skip(1) =~= readings_of(rest, ended));
        match inbound[0] {
            Ok(item) => {
                relay_sends_the_intact_prefix(rest, ended);
                intact_len_is_first_failure(inbound);
                assert forall|i: int| 0 <= i < intact_len(inbound) implies relayed(inbound)[i] == (
                seq![item] + relayed(rest))[i] by {
                    if i > 0 {
                        assert(rest[i - 1] == inbound[i]);
                    }
                }
                assert(sent_on(false, readings) =~= relayed(inbound));
            },
            Err(_) => {
                closed_relay_sends_nothing(readings.skip(1));
                assert(sent_on(false, readings) =~= relayed(inbound));
            },
        }
    }
}

/// What is read after a failed reading never goes on: a stream and the same
/// stream cut off at its first failure send the same.
pub proof fn nothing_after_a_failure_is_sent<T, E>(inbound: Seq<Result<T, E>>)
    ensures
        relayed(inbound) == relayed(inbound.take(intact_len(inbound) as int)),
        relayed(inbound).len() == intact_len(inbound),
    decreases inbound.len(),
{
    intact_len_is_first_failure(inbound);
    let head = inbound.take(intact_len(inbound) as int);
    intact_len_is_whole_when_all_ok(head);
    assert(relayed(inbound) =~= relayed(head));
}

/// Where no reading fails, everything is intact.
pub proof fn intact_len_is_whole_when_all_ok<T, E>(inbound: Seq<Result<T, E>>)
    requires
        forall|i: int| 0 <= i < inbound.len() ==> (#[trigger] inbound[i]) is Ok,
    ensures
        intact_len(inbound) == inbound.len(),
    decreases inbound.len(),
{
    if inbound.len() > 0 {
        let rest = inbound.skip(1);
        assert forall|i: int| 0 <= i < rest.len() implies (#[trigger] rest[i]) is Ok by {
            assert(rest[i] == inbound[i + 1]);
        }
        intact_len_is_whole_when_all_ok(rest);
    }
}

impl StreamRelay {
    /// Whether the relay has stopped for good.
    pub closed spec fn spec_is_closed(&self) -> bool {
        self.closed
    }

    /// A relay at the start of a stream: open.
    pub fn new() -> (relay: StreamRelay)
        ensures
            !relay.spec_is_closed(),
    {
        StreamRelay { closed: false }
    }

    #[verifier::when_used_as_spec(spec_is_closed)]
    pub fn is_closed(&self) -> (closed: bool)
        ensures
            closed == self.spec_is_closed(),
    {
        self.closed
    }

    /// Takes one reading of the inbound stream, `None` at its end, and says
    /// what to do with the outbound stream.
    pub fn relay<T, E>(&mut self, reading: Option<Result<T, E>>) -> (action: RelayAction<T>)
        ensures
            (final(self).spec_is_closed(), action) == relay_step(old(self).spec_is_closed(), reading),
    {
        if self.closed {
            return RelayAction::Close;
        }
        match reading {
            Some(Ok(item)) => RelayAction::Forward(item),
            _ => {
                self.closed = true;
                RelayAction::Close
            },
        }
    }
}

} // verus!
