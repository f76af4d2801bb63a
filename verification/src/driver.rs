//! The driver: initialisation, data rate and sampling, each built from
//! single register transactions.
use vstd::prelude::*;
use crate::bus::{Bus, Exchange, Request};
use crate::rate::{lemma_with_rate, rate_in, spec_rate_in, spec_with_rate, with_rate, DataRate};
use crate::register::Register;
use crate::sample::{decode_sample, sample_of};

verus! {

/// The byte that the identity register of this chip holds.
pub const CHIP_ID: u8 = 0x41;

/// What initialisation writes to CTRL1: all three axes on, normal mode.
pub const CTRL1_AXES_ON: u8 = 0x07;

/// What initialisation writes to CTRL3: the sample queue on.
pub const CTRL3_FIFO_ON: u8 = 0x82;

/// What initialisation writes to FIFO_CTRL: stream mode.
pub const FIFO_STREAM: u8 = 0x40;

/// Set in a register address to make the device step through consecutive
/// registers within one read.
pub const AUTO_INCREMENT: u8 = 0x80;

/// Why an operation of the driver failed.
#[derive(Debug)]
pub enum Error<E> {
    /// The bus reported a failure.
    I2C(E),
    /// The device did not identify itself as this chip.
    WrongAddress,
    /// The register cannot be written.
    WriteToReadOnly,
    /// The rate cannot be programmed.
    InvalidDataRate,
}

/// The driver of one device: the bus it owns and the device's bus address.
pub struct Lis2hh12<I2C> {
    i2c: I2C,
    address: u8,
}

/// Whether `byte`, read from the identity register, names this chip.
pub fn is_chip_id(byte: u8) -> (same: bool)
    ensures
        same == (byte == CHIP_ID),
{
    byte == CHIP_ID
}

/// The transaction that reads one byte from `register`.
pub open spec fn read_request(address: u8, register: Register) -> Request {
    Request::WriteRead { address, bytes: seq![register.spec_addr()], count: 1 }
}

/// The transaction that writes `value` to `register`.
pub open spec fn write_request(address: u8, register: Register, value: u8) -> Request {
    Request::Write { address, bytes: seq![register.spec_addr(), value] }
}

/// The transaction that reads the six output bytes, X low to Z high, in one
/// go: the address of the first with the auto-increment bit set.
pub open spec fn burst_request(address: u8) -> Request {
    Request::WriteRead {
        address,
        bytes: seq![Register::OUT_X_L.spec_addr() | AUTO_INCREMENT],
        count: 6,
    }
}

/// The first byte of a reply; 0 where the transaction failed.
pub open spec fn first_byte<E>(reply: Result<Seq<u8>, E>) -> u8 {
    match reply {
        Ok(data) => data[0],
        Err(_) => 0,
    }
}

/// What reading one byte returns, given the bus's reply.
pub open spec fn byte_result<E>(reply: Result<Seq<u8>, E>) -> Result<u8, Error<E>> {
    match reply {
        Ok(data) => Ok(data[0]),
        Err(e) => Err(Error::I2C(e)),
    }
}

/// What a write returns, given the bus's reply.
pub open spec fn unit_result<E>(reply: Result<Seq<u8>, E>) -> Result<(), Error<E>> {
    match reply {
        Ok(_) => Ok(()),
        Err(e) => Err(Error::I2C(e)),
    }
}

/// What reading the data rate returns, given the bus's reply.
pub open spec fn rate_result<E>(reply: Result<Seq<u8>, E>) -> Result<DataRate, Error<E>> {
    match reply {
        Ok(data) => Ok(spec_rate_in(data[0])),
        Err(e) => Err(Error::I2C(e)),
    }
}

/// What a burst read returns, given the bus's reply.
pub open spec fn bytes_result<E>(reply: Result<Seq<u8>, E>) -> Result<Seq<u8>, Error<E>> {
    match reply {
        Ok(data) => Ok(data),
        Err(e) => Err(Error::I2C(e)),
    }
}

/// What reading a sample returns, given the bus's reply.
pub open spec fn sample_result<E>(reply: Result<Seq<u8>, E>) -> Result<
    (i16, i16, i16),
    Error<E>,
> {
    match reply {
        Ok(data) => Ok(sample_of(data)),
        Err(e) => Err(Error::I2C(e)),
    }
}

/// The view of a burst read's result.
pub open spec fn bytes_view<E>(r: Result<[u8; 6], Error<E>>) -> Result<Seq<u8>, Error<E>> {
    match r {
        Ok(bytes) => Ok(bytes@),
        Err(e) => Err(e),
    }
}

/// The exchanges `t` are a run of setting the rate `rate`, which is not
/// `Invalid`, and `r` is what the run returns: CTRL1 is read; if that
/// succeeds, the byte is written back with its rate field replaced.
pub open spec fn rate_run<E>(
    address: u8,
    rate: DataRate,
    t: Seq<Exchange<E>>,
    r: Result<(), Error<E>>,
) -> bool {
    &&& 1 <= t.len() <= 2
    &&& t[0].request == read_request(address, Register::CTRL1)
    &&& (t.len() == 2 <==> t[0].reply is Ok)
    &&& t.len() == 2 ==> t[1].request == write_request(
        address,
        Register::CTRL1,
        spec_with_rate(first_byte(t[0].reply), rate),
    )
    &&& r == unit_result(t.last().reply)
}

/// The six transactions of initialisation in their order, `ctrl1` being the
/// byte that the third of them reads.
pub open spec fn init_requests(address: u8, ctrl1: u8) -> Seq<Request> {
    seq![
        read_request(address, Register::WHOAMI),
        write_request(address, Register::CTRL1, CTRL1_AXES_ON),
        read_request(address, Register::CTRL1),
        write_request(address, Register::CTRL1, spec_with_rate(ctrl1, DataRate::Hz_400)),
        write_request(address, Register::CTRL3, CTRL3_FIFO_ON),
        write_request(address, Register::FIFO_CTRL, FIFO_STREAM),
    ]
}

/// The exchanges `t` are a run of initialisation and `r` is what the run
/// returns. The transactions come in the order of `init_requests`; the run
/// ends with the first that fails, or with the identity read where the byte
/// is not `CHIP_ID`, and else goes through all six.
pub open spec fn init_run<E>(address: u8, t: Seq<Exchange<E>>, r: Result<(), Error<E>>) -> bool {
    let ctrl1 = if t.len() > 2 {
        first_byte(t[2].reply)
    } else {
        0
    };
    &&& 1 <= t.len() <= 6
    &&& forall|i: int| 0 <= i < t.len() ==> (#[trigger] t[i]).request == init_requests(address, ctrl1)[i]
    &&& forall|i: int| 0 <= i < t.len() - 1 ==> (#[trigger] t[i]).reply is Ok
    &&& t.len() > 1 ==> first_byte(t[0].reply) == CHIP_ID
    &&& r is Ok ==> t.len() == 6
    &&& r == match t.last().reply {
        Err(e) => Err(Error::I2C(e)),
        Ok(_) => if first_byte(t[0].reply) == CHIP_ID {
            Ok(())
        } else {
            Err(Error::WrongAddress)
        },
    }
}

/// Initialisation against a device with a foreign identity: where the
/// identity read succeeds with a byte other than `CHIP_ID`, the run is that
/// one read, none of the four set-up steps follows, and it returns
/// `WrongAddress`.
pub proof fn lemma_init_foreign_identity<E>(
    address: u8,
    t: Seq<Exchange<E>>,
    r: Result<(), Error<E>>,
)
    requires
        init_run(address, t, r),
        t[0].reply is Ok,
        first_byte(t[0].reply) != CHIP_ID,
    ensures
        t.len() == 1,
        t[0].request == read_request(address, Register::WHOAMI),
        r == Err::<(), Error<E>>(Error::WrongAddress),
{
}

/// Initialisation against a device that answers: where the identity is
/// `CHIP_ID` and no transaction fails, the run succeeds and is exactly the
/// six transactions of `init_requests` in their order. A run that succeeds
/// is always such a run.
pub proof fn lemma_init_full_run<E>(address: u8, t: Seq<Exchange<E>>, r: Result<(), Error<E>>)
    requires
        init_run(address, t, r),
    ensures
        r is Ok <==> first_byte(t[0].reply) == CHIP_ID && forall|i: int|
            0 <= i < t.len() ==> (#[trigger] t[i]).reply is Ok,
        r is Ok ==> t.len() == 6 && t.map_values(|x: Exchange<E>| x.request) == init_requests(
            address,
            first_byte(t[2].reply),
        ),
{
    if r is Ok {
        assert(t.map_values(|x: Exchange<E>| x.request) =~= init_requests(
            address,
            first_byte(t[2].reply),
        ));
    }
}

/// A failure of the bus ends initialisation: the transaction that failed is
/// the last of the run, and the run returns that failure, wrapped.
pub proof fn lemma_init_stops_at_failure<E>(
    address: u8,
    t: Seq<Exchange<E>>,
    r: Result<(), Error<E>>,
    i: int,
)
    requires
        init_run(address, t, r),
        0 <= i < t.len(),
        t[i].reply is Err,
    ensures
        i == t.len() - 1,
        r == Err::<(), Error<E>>(Error::I2C(t[i].reply->Err_0)),
{
}

/// A failure of the bus ends the setting of a rate: the transaction that
/// failed is the last of the run, and the run returns that failure, wrapped.
pub proof fn lemma_rate_stops_at_failure<E>(
    address: u8,
    rate: DataRate,
    t: Seq<Exchange<E>>,
    r: Result<(), Error<E>>,
    i: int,
)
    requires
        rate_run(address, rate, t, r),
        0 <= i < t.len(),
        t[i].reply is Err,
    ensures
        i == t.len() - 1,
        r == Err::<(), Error<E>>(Error::I2C(t[i].reply->Err_0)),
{
}

/// The byte that setting a rate writes to CTRL1 has the low nibble of the
/// byte that was read and the code of the rate in its high nibble.
pub proof fn lemma_rate_keeps_low_nibble<E>(
    address: u8,
    rate: DataRate,
    t: Seq<Exchange<E>>,
    r: Result<(), Error<E>>,
    ctrl1: u8,
)
    requires
        rate != DataRate::Invalid,
        rate_run(address, rate, t, r),
        byte_result(t[0].reply) == Ok::<u8, Error<E>>(ctrl1),
    ensures
        t.len() == 2,
        exists|written: u8|
            {
                &&& #[trigger] write_request(address, Register::CTRL1, written) == t[1].request
                &&& written & 0x0f == ctrl1 & 0x0f
                &&& written >> 4 == rate.spec_bits()
            },
{
    lemma_with_rate(ctrl1, rate);
    let written = spec_with_rate(ctrl1, rate);
    assert(write_request(address, Register::CTRL1, written) == t[1].request);
}

/// A history that grew by one exchange, seen from where an operation began.
proof fn lemma_grown<A>(start: Seq<A>, t: Seq<A>, log: Seq<A>, next: Seq<A>)
    requires
        log == start + t,
        next == log.push(next.last()),
    ensures
        next == start + t.push(next.last()),
        next.skip(start.len() as int) == t.push(next.last()),
{
    assert(next =~= start + t.push(next.last()));
    assert(next.skip(start.len() as int) =~= t.push(next.last()));
}

impl<I2C: Bus> Lis2hh12<I2C> {
    /// The bus address of the device.
    pub closed spec fn address(&self) -> u8 {
        self.address
    }

    /// The history of the driver's bus: every exchange that it has carried,
    /// oldest first.
    pub closed spec fn log(&self) -> Seq<Exchange<I2C::Error>> {
        self.i2c.history()
    }

    /// Takes the bus, checks that the device at `address` is this chip and
    /// sets it up: all axes on, 400 Hz, the sample queue streaming. On
    /// success the bus has carried one full run of initialisation since it
    /// was handed over. On failure nothing is built and the bus is dropped,
    /// its history with it: the error is the bus's own or `WrongAddress`,
    /// and `init` says what was carried.
    pub fn new(i2c: I2C, address: u8) -> (r: Result<Self, Error<I2C::Error>>)
        ensures
            match r {
                Ok(driver) => {
                    let t = driver.log().skip(i2c.history().len() as int);
                    &&& driver.address() == address
                    &&& driver.log() == i2c.history() + t
                    &&& init_run(address, t, Ok(()))
                },
                Err(e) => e is I2C || e is WrongAddress,
            },
    {
        let mut lis2hh12 = Lis2hh12 { i2c, address };
        match lis2hh12.init() {
            Ok(_) => Ok(lis2hh12),
            Err(e) => Err(e),
        }
    }

    /// Runs initialisation on the device: reads the identity and, where it is
    /// `CHIP_ID`, writes CTRL1, sets 400 Hz, writes CTRL3 and FIFO_CTRL. The
    /// first failure ends the run and is returned.
    pub fn init(&mut self) -> (r: Result<(), Error<I2C::Error>>)
        ensures
            final(self).address() == old(self).address(),
            ({
                let t = final(self).log().skip(old(self).log().len() as int);
                &&& final(self).log() == old(self).log() + t
                &&& init_run(old(self).address(), t, r)
            }),
    {
        let ghost start = self.log();
        let ghost before = self.log();
        let ghost mut t: Seq<Exchange<I2C::Error>> = Seq::empty();
        assert(start =~= start + t);

        let id = self.read_register(Register::WHOAMI);
        proof {
            lemma_grown(start, t, before, self.log());
            t = t.push(self.log().last());
            before = self.log();
        }
        match id {
            Ok(byte) => {
                if !is_chip_id(byte) {
                    return Err(Error::WrongAddress);
                }
            },
            Err(e) => {
                return Err(e);
            },
        }

        let axes = self.write_register(Register::CTRL1, CTRL1_AXES_ON);
        proof {
            lemma_grown(start, t, before, self.log());
            t = t.push(self.log().last());
            before = self.log();
        }
        if let Err(e) = axes {
            return Err(e);
        }

        let rate = self.set_datarate(DataRate::Hz_400);
        proof {
            let u = self.log().skip(before.len() as int);
            assert(self.log() =~= start + (t + u));
            assert(self.log().skip(start.len() as int) =~= t + u);
            t = t + u;
            before = self.log();
        }
        if let Err(e) = rate {
            return Err(e);
        }

        let fifo = self.write_register(Register::CTRL3, CTRL3_FIFO_ON);
        proof {
            lemma_grown(start, t, before, self.log());
            t = t.push(self.log().last());
            before = self.log();
        }
        if let Err(e) = fifo {
            return Err(e);
        }

        let stream = self.write_register(Register::FIFO_CTRL, FIFO_STREAM);
        proof {
            lemma_grown(start, t, before, self.log());
            t = t.push(self.log().last());
            before = self.log();
        }
        stream
    }

    /// Programs the data rate: reads CTRL1, replaces its high nibble by the
    /// code of `datarate`, keeps the low nibble, and writes the byte back.
    /// `Invalid` is refused with `InvalidDataRate` before the bus is touched.
    pub fn set_datarate(&mut self, datarate: DataRate) -> (r: Result<(), Error<I2C::Error>>)
        ensures
            final(self).address() == old(self).address(),
            datarate == DataRate::Invalid ==> final(self).log() == old(self).log() && r == Err::<
                (),
                Error<I2C::Error>,
            >(Error::InvalidDataRate),
            datarate != DataRate::Invalid ==> ({
                let t = final(self).log().skip(old(self).log().len() as int);
                &&& final(self).log() == old(self).log() + t
                &&& rate_run(old(self).address(), datarate, t, r)
            }),
    {
        if datarate == DataRate::Invalid {
            return Err(Error::InvalidDataRate);
        }
        let ghost start = self.log();
        let ghost first = Seq::<Exchange<I2C::Error>>::empty();
        assert(start =~= start + first);
        let read = self.read_register(Register::CTRL1);
        let ghost mid = self.log();
        proof {
            lemma_grown(start, first, start, mid);
        }
        match read {
            Ok(ctrl1) => {
                let r = self.write_register(Register::CTRL1, with_rate(ctrl1, datarate));
                proof {
                    lemma_grown(start, first.push(mid.last()), mid, self.log());
                }
                r
            },
            Err(e) => Err(e),
        }
    }

    /// Reads the data rate from CTRL1. A code that names no rate gives
    /// `Ok(Invalid)`: the read itself succeeded.
    pub fn get_datarate(&mut self) -> (r: Result<DataRate, Error<I2C::Error>>)
        ensures
            final(self).address() == old(self).address(),
            final(self).log() == old(self).log().push(final(self).log().last()),
            final(self).log().last().request == read_request(old(self).address(), Register::CTRL1),
            final(self).log().last().reply matches Ok(data) ==> data.len() == 1,
            r == rate_result(final(self).log().last().reply),
    {
        match self.read_register(Register::CTRL1) {
            Ok(ctrl1) => Ok(rate_in(ctrl1)),
            Err(e) => Err(e),
        }
    }

    /// Reads one byte from `register`: a single transaction that sends the
    /// register's address and reads one byte back.
    pub fn read_register(&mut self, register: Register) -> (r: Result<u8, Error<I2C::Error>>)
        ensures
            final(self).address() == old(self).address(),
            final(self).log() == old(self).log().push(final(self).log().last()),
            final(self).log().last().request == read_request(old(self).address(), register),
            final(self).log().last().reply matches Ok(data) ==> data.len() == 1,
            r == byte_result(final(self).log().last().reply),
    {
        let mut data: [u8; 1] = [0];
        let out: [u8; 1] = [register.addr()];
        assert(out@ =~= seq![register.spec_addr()]);
        match self.i2c.write_read(self.address, &out, &mut data) {
            Ok(_) => Ok(data[0]),
            Err(e) => Err(Error::I2C(e)),
        }
    }

    /// Reads the six output bytes in one transaction, so that no axis is
    /// read while another is being updated.
    pub fn read_accel_bytes(&mut self) -> (r: Result<[u8; 6], Error<I2C::Error>>)
        ensures
            final(self).address() == old(self).address(),
            final(self).log() == old(self).log().push(final(self).log().last()),
            final(self).log().last().request == burst_request(old(self).address()),
            final(self).log().last().reply matches Ok(data) ==> data.len() == 6,
            bytes_view(r) == bytes_result(final(self).log().last().reply),
    {
        let mut data: [u8; 6] = [0u8; 6];
        let out: [u8; 1] = [Register::OUT_X_L.addr() | AUTO_INCREMENT];
        assert(out@ =~= seq![Register::OUT_X_L.spec_addr() | AUTO_INCREMENT]);
        match self.i2c.write_read(self.address, &out, &mut data) {
            Ok(_) => Ok(data),
            Err(e) => Err(Error::I2C(e)),
        }
    }

    /// Writes `value` to `register` in a single transaction of two bytes, the
    /// register's address and the value. A read-only register is refused with
    /// `WriteToReadOnly` before the bus is touched.
    pub fn write_register(&mut self, register: Register, value: u8) -> (r: Result<
        (),
        Error<I2C::Error>,
    >)
        ensures
            final(self).address() == old(self).address(),
            register.spec_read_only() ==> final(self).log() == old(self).log() && r == Err::<
                (),
                Error<I2C::Error>,
            >(Error::WriteToReadOnly),
            !register.spec_read_only() ==> {
                &&& final(self).log() == old(self).log().push(final(self).log().last())
                &&& final(self).log().last().request == write_request(
                    old(self).address(),
                    register,
                    value,
                )
                &&& final(self).log().last().reply matches Ok(data) ==> data.len() == 0
                &&& r == unit_result(final(self).log().last().reply)
            },
    {
        if register.read_only() {
            return Err(Error::WriteToReadOnly);
        }
        let out: [u8; 2] = [register.addr(), value];
        assert(out@ =~= seq![register.spec_addr(), value]);
        match self.i2c.write(self.address, &out) {
            Ok(_) => Ok(()),
            Err(e) => Err(Error::I2C(e)),
        }
    }

    /// Reads one sample: the burst read, decoded into raw counts (x, y, z).
    pub fn get_acceleration(&mut self) -> (r: Result<(i16, i16, i16), Error<I2C::Error>>)
        ensures
            final(self).address() == old(self).address(),
            final(self).log() == old(self).log().push(final(self).log().last()),
            final(self).log().last().request == burst_request(old(self).address()),
            final(self).log().last().reply matches Ok(data) ==> data.len() == 6,
            r == sample_result(final(self).log().last().reply),
    {
        match self.read_accel_bytes() {
            Ok(bytes) => Ok(decode_sample(&bytes)),
            Err(e) => Err(e),
        }
    }
}

} // verus!
