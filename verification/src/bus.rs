//! The two-wire bus: what a host provides, what the driver relies on, and the
//! history of transactions that joins the two.
use vstd::prelude::*;

verus! {

/// What a master asks of the bus in one transaction.
pub ghost enum Request {
    /// Send `bytes` to the device at `address`, then read `count` bytes back.
    WriteRead { address: u8, bytes: Seq<u8>, count: nat },
    /// Send `bytes` to the device at `address`.
    Write { address: u8, bytes: Seq<u8> },
}

/// One transaction as it went: the request and what came of it. A successful
/// write answers with no bytes.
pub ghost struct Exchange<E> {
    pub request: Request,
    pub reply: Result<Seq<u8>, E>,
}

/// How a write shows in a history: a successful one answers with no bytes.
pub open spec fn write_reply<E>(r: Result<(), E>) -> Result<Seq<u8>, E> {
    match r {
        Ok(_) => Ok(Seq::empty()),
        Err(e) => Err(e),
    }
}

/// How a read shows in a history, `data` being the buffer after the call.
pub open spec fn read_reply<E>(r: Result<(), E>, data: Seq<u8>) -> Result<Seq<u8>, E> {
    match r {
        Ok(_) => Ok(data),
        Err(e) => Err(e),
    }
}

/// A bus master as the host provides it: each call is one transaction on the
/// wire. Nothing is asked of an implementation but to return.
pub trait Transport {
    /// What the transport reports when a transaction fails.
    type Error;

    /// Sends `bytes` to the device at `address`, then fills `buffer` with what
    /// the device answers, in a single transaction.
    fn write_read(&mut self, address: u8, bytes: &[u8], buffer: &mut [u8]) -> Result<
        (),
        Self::Error,
    >;

    /// Sends `bytes` to the device at `address` in a single transaction.
    fn write(&mut self, address: u8, bytes: &[u8]) -> Result<(), Self::Error>;
}

/// A bus master with a history: every call adds exactly the exchange it made,
/// and nothing else changes the history. The driver is written against this
/// trait, so what it proves of the history it proves of its calls.
pub trait Bus {
    /// What the bus reports when a transaction fails.
    type Error;

    /// Every exchange that this bus has carried, oldest first.
    spec fn history(&self) -> Seq<Exchange<Self::Error>>;

    /// Sends `bytes` to the device at `address`, then fills `buffer` with what
    /// the device answers, in a single transaction.
    fn write_read(&mut self, address: u8, bytes: &[u8], buffer: &mut [u8]) -> (r: Result<
        (),
        Self::Error,
    >)
        ensures
            final(self).history() == old(self).history().push(
                (Exchange {
                    request: Request::WriteRead {
                        address,
                        bytes: bytes@,
                        count: old(buffer)@.len(),
                    },
                    reply: read_reply(r, final(buffer)@),
                }),
            ),
    ;

    /// Sends `bytes` to the device at `address` in a single transaction.
    fn write(&mut self, address: u8, bytes: &[u8]) -> (r: Result<(), Self::Error>)
        ensures
            final(self).history() == old(self).history().push(
                (Exchange {
                    request: Request::Write { address, bytes: bytes@ },
                    reply: write_reply(r),
                }),
            ),
    ;
}

/// A host's transport with the history of what went through it. The
/// transport is out of reach from outside, so every transaction passes
/// through the two methods below, which enter it as it was made. Nothing is
/// known of the transport itself: the history holds what it was asked and
/// what it answered, not what reached the wire.
pub struct Recorded<T: Transport> {
    inner: T,
    history: Ghost<Seq<Exchange<T::Error>>>,
}

impl<T: Transport> Recorded<T> {
    /// Takes the transport, with nothing carried yet.
    pub fn new(inner: T) -> (bus: Self)
        ensures
            bus.history() == Seq::<Exchange<T::Error>>::empty(),
    {
        Recorded { inner, history: Ghost(Seq::empty()) }
    }
}

impl<T: Transport> Bus for Recorded<T> {
    type Error = T::Error;

    closed spec fn history(&self) -> Seq<Exchange<T::Error>> {
        self.history@
    }

    fn write_read(&mut self, address: u8, bytes: &[u8], buffer: &mut [u8]) -> (r: Result<
        (),
        T::Error,
    >) {
        let ghost request = Request::WriteRead { address, bytes: bytes@, count: buffer@.len() };
        let r = self.inner.write_read(address, bytes, buffer);
        self.history = Ghost(self.history@.push(Exchange { request, reply: read_reply(r, buffer@) }));
        r
    }

    fn write(&mut self, address: u8, bytes: &[u8]) -> (r: Result<(), T::Error>) {
        let ghost request = Request::Write { address, bytes: bytes@ };
        let r = self.inner.write(address, bytes);
        self.history = Ghost(self.history@.push(Exchange { request, reply: write_reply(r) }));
        r
    }
}

} // verus!
