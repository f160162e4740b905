//! The SPI bus and its automatic transfer engine: port numbering, bus options,
//! how reads and transactions are requested, and how the bus's return codes
//! become results.
use vstd::prelude::*;
use crate::hal::HalResult;

verus! {

/// An SPI port of the controller.
#[derive(Clone, Copy, Debug, PartialEq, Eq, Structural, Hash)]
pub enum Port {
    OnboardCS0,
    OnboardCS1,
    OnboardCS2,
    OnboardCS3,
    MXP,
}

/// The number the hardware layer gives a port.
pub open spec fn port_number(p: Port) -> int {
    match p {
        Port::OnboardCS0 => 0,
        Port::OnboardCS1 => 1,
        Port::OnboardCS2 => 2,
        Port::OnboardCS3 => 3,
        Port::MXP => 4,
    }
}

impl Port {
    /// The number the hardware layer gives this port.
    pub fn number(&self) -> (r: i32)
        ensures
            r == port_number(*self),
    {
        match self {
            Port::OnboardCS0 => 0,
            Port::OnboardCS1 => 1,
            Port::OnboardCS2 => 2,
            Port::OnboardCS3 => 3,
            Port::MXP => 4,
        }
    }
}

/// Settings of an SPI bus. These all default to false.
#[derive(Clone, Copy, Debug, PartialEq, Eq, Structural, Hash)]
pub struct SpiOptions {
    pub msb_first: bool,
    pub sample_on_trailing: bool,
    pub clk_idle_high: bool,
}

impl Default for SpiOptions {
    fn default() -> (r: SpiOptions)
        ensures
            r == (SpiOptions { msb_first: false, sample_on_trailing: false, clk_idle_high: false }),
    {
        SpiOptions { msb_first: false, sample_on_trailing: false, clk_idle_high: false }
    }
}

/// A command for an SPI port.
#[derive(Clone, Copy, Debug, PartialEq, Eq, Structural)]
pub enum SpiCommand {
    /// Set the clock rate, in hertz.
    SetClockRate(i32),
    SetOpts(SpiOptions),
    ChipSelectActiveHigh,
    ChipSelectActiveLow,
}

/// How a read of the bus is carried out.
#[derive(Clone, Debug, PartialEq, Eq)]
pub enum ReadRequest {
    /// Send these bytes and keep what comes back in the same transfer.
    Transaction(Vec<u8>),
    /// Take this many bytes that arrived without sending any.
    Receive(usize),
}

/// The bus reported a failed transfer; its cause is the last error of the
/// operating system.
#[derive(Clone, Copy, Debug, PartialEq, Eq, Structural)]
pub struct BusError;

/// The byte count that a bus return code stands for, if it is not an error.
pub open spec fn io_result_spec(rv: int) -> Result<usize, BusError> {
    if rv < 0 {
        Err(BusError)
    } else {
        Ok(rv as usize)
    }
}

/// Reads a return code of a bus read, write or transaction: a negative code is
/// a failure, any other is the number of bytes moved.
pub fn io_result(rv: i32) -> (r: Result<usize, BusError>)
    ensures
        r == io_result_spec(rv as int),
{
    if rv < 0 {
        Err(BusError)
    } else {
        Ok(rv as usize)
    }
}

/// What an SPI port's model holds: its port and the options that the
/// single-option setters start from.
pub struct SpiState {
    pub port: Port,
    pub opts: SpiOptions,
}

/// An SPI bus port, intended for the drivers of sensors and other devices on
/// the bus.
#[derive(Debug)]
pub struct Spi {
    port: Port,
    opts: SpiOptions,
}

impl View for Spi {
    type V = SpiState;

    closed spec fn view(&self) -> SpiState {
        SpiState { port: self.port, opts: self.opts }
    }
}

impl Spi {
    /// A port that the hardware layer has initialized, with default options.
    pub fn new(port: Port) -> (r: Spi)
        ensures
            r@ == (SpiState {
                port,
                opts: SpiOptions {
                    msb_first: false,
                    sample_on_trailing: false,
                    clk_idle_high: false,
                },
            }),
    {
        Spi { port, opts: SpiOptions::default() }
    }

    /// The port this bus is on.
    pub fn port(&self) -> (r: Port)
        ensures
            r == self@.port,
    {
        self.port
    }

    /// Sets the clock rate, in hertz.
    pub fn set_clock_rate(&mut self, hz: i32) -> (r: SpiCommand)
        ensures
            r == SpiCommand::SetClockRate(hz),
            final(self)@ == old(self)@,
    {
        SpiCommand::SetClockRate(hz)
    }

    /// Sets all the bus options at once. The options that the single-option
    /// setters start from stay as they were.
    pub fn set_opts(&mut self, opts: SpiOptions) -> (r: SpiCommand)
        ensures
            r == SpiCommand::SetOpts(opts),
            final(self)@ == old(self)@,
    {
        SpiCommand::SetOpts(opts)
    }

    /// Sends the most significant bit first.
    pub fn set_msb_first(&mut self) -> (r: SpiCommand)
        ensures
            final(self)@ == (SpiState {
                port: old(self)@.port,
                opts: SpiOptions { msb_first: true, ..old(self)@.opts },
            }),
            r == SpiCommand::SetOpts(final(self)@.opts),
    {
        self.opts.msb_first = true;
        SpiCommand::SetOpts(self.opts)
    }

    /// Sends the least significant bit first.
    pub fn set_lsb_first(&mut self) -> (r: SpiCommand)
        ensures
            final(self)@ == (SpiState {
                port: old(self)@.port,
                opts: SpiOptions { msb_first: false, ..old(self)@.opts },
            }),
            r == SpiCommand::SetOpts(final(self)@.opts),
    {
        self.opts.msb_first = false;
        SpiCommand::SetOpts(self.opts)
    }

    /// Samples data on the leading clock edge.
    pub fn set_sample_data_on_leading_edge(&mut self) -> (r: SpiCommand)
        ensures
            final(self)@ == (SpiState {
                port: old(self)@.port,
                opts: SpiOptions { sample_on_trailing: false, ..old(self)@.opts },
            }),
            r == SpiCommand::SetOpts(final(self)@.opts),
    {
        self.opts.sample_on_trailing = false;
        SpiCommand::SetOpts(self.opts)
    }

    /// Samples data on the trailing clock edge.
    pub fn set_sample_data_on_trailing_edge(&mut self) -> (r: SpiCommand)
        ensures
            final(self)@ == (SpiState {
                port: old(self)@.port,
                opts: SpiOptions { sample_on_trailing: true, ..old(self)@.opts },
            }),
            r == SpiCommand::SetOpts(final(self)@.opts),
    {
        self.opts.sample_on_trailing = true;
        SpiCommand::SetOpts(self.opts)
    }

    /// Makes the clock active low: it idles high.
    pub fn set_clock_active_low(&mut self) -> (r: SpiCommand)
        ensures
            final(self)@ == (SpiState {
                port: old(self)@.port,
                opts: SpiOptions { clk_idle_high: true, ..old(self)@.opts },
            }),
            r == SpiCommand::SetOpts(final(self)@.opts),
    {
        self.opts.clk_idle_high = true;
        SpiCommand::SetOpts(self.opts)
    }

    /// Makes the clock active high: it idles low.
    pub fn set_clock_active_high(&mut self) -> (r: SpiCommand)
        ensures
            final(self)@ == (SpiState {
                port: old(self)@.port,
                opts: SpiOptions { clk_idle_high: false, ..old(self)@.opts },
            }),
            r == SpiCommand::SetOpts(final(self)@.opts),
    {
        self.opts.clk_idle_high = false;
        SpiCommand::SetOpts(self.opts)
    }

    /// Makes the chip select active high.
    pub fn set_chip_select_active_high(&mut self) -> (r: SpiCommand)
        ensures
            r == SpiCommand::ChipSelectActiveHigh,
            final(self)@ == old(self)@,
    {
        SpiCommand::ChipSelectActiveHigh
    }

    /// Makes the chip select active low.
    pub fn set_chip_select_active_low(&mut self) -> (r: SpiCommand)
        ensures
            r == SpiCommand::ChipSelectActiveLow,
            final(self)@ == old(self)@,
    {
        SpiCommand::ChipSelectActiveLow
    }

    /// How a read of `len` bytes is carried out. When the read initiates the
    /// transfer, as many zero bytes are sent as are to be read; otherwise the
    /// bytes that arrived are taken.
    pub fn read(&self, initiate: bool, len: usize) -> (r: ReadRequest)
        ensures
            initiate ==> (r matches ReadRequest::Transaction(send) && send@ == Seq::new(
                len as nat,
                |i: int| 0u8,
            )),
            !initiate ==> r == ReadRequest::Receive(len),
    {
        if initiate {
            let mut send: Vec<u8> = Vec::new();
            let mut i: usize = 0;
            while i < len
                invariant
                    i <= len,
                    send@ == Seq::new(i as nat, |k: int| 0u8),
                decreases len - i,
            {
                send.push(0u8);
                i = i + 1;
                assert(send@ =~= Seq::new(i as nat, |k: int| 0u8));
            }
            ReadRequest::Transaction(send)
        } else {
            ReadRequest::Receive(len)
        }
    }

    /// The result of a transaction, from the buffer the reply was received in
    /// and the bus's return code: a negative code is a failure; otherwise the
    /// reply is the buffer's first bytes, as many as the code counts, and at
    /// most the whole buffer.
    pub fn finish_transaction(received: Vec<u8>, rv: i32) -> (r: Result<Vec<u8>, BusError>)
        ensures
            rv < 0 ==> r == Err::<Vec<u8>, BusError>(BusError),
            rv >= 0 ==> (r matches Ok(reply) && reply@ == received@.take(
                if rv as int <= received@.len() {
                    rv as int
                } else {
                    received@.len() as int
                },
            )),
    {
        match io_result(rv) {
            Err(e) => Err(e),
            Ok(n) => {
                let mut reply = received;
                reply.truncate(n);
                Ok(reply)
            },
        }
    }
}

/// The automatic transfer engine of a bus port: it sends fixed data at a fixed
/// rate and keeps each reply, with its time stamp, for later reading. Only one
/// engine is available.
#[derive(Debug)]
pub struct AutoSpi {
    spi: Spi,
}

impl View for AutoSpi {
    type V = SpiState;

    closed spec fn view(&self) -> SpiState {
        self.spi@
    }
}

impl AutoSpi {
    /// The engine on a port, once the hardware layer has answered its
    /// allocation with `allocated`: it fails, with the same error, exactly
    /// when the allocation did, for instance because the engine is taken.
    pub fn new(spi: Spi, allocated: HalResult<()>) -> (r: HalResult<AutoSpi>)
        ensures
            allocated is Err ==> r == Err::<AutoSpi, _>(allocated->Err_0),
            allocated is Ok ==> (r matches Ok(engine) && engine@ == spi@),
    {
        match allocated {
            Err(e) => Err(e),
            Ok(_) => Ok(AutoSpi { spi }),
        }
    }

    /// The port the engine runs on.
    pub fn spi(&self) -> (r: &Spi)
        ensures
            r@ == self@,
    {
        &self.spi
    }

    /// Frees the engine, giving back its port.
    pub fn stop(self) -> (r: Spi)
        ensures
            r@ == self@,
    {
        self.spi
    }
}

} // verus!
