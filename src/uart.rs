//! Decisions of the 16550 UART driver. The port reads and writes happen around them: the driver
//! performs the writes these functions list and hands back what it read.
use vstd::prelude::*;

verus! {

/// Register offsets from the port's base address.
pub const TRANSMIT_RECEIVE: u8 = 0;

pub const INTERRUPT_ENABLED: u8 = 1;

pub const BAUD_RATE_LSB: u8 = 0;

pub const BAUD_RATE_MSB: u8 = 1;

pub const FIFO_CONTROL: u8 = 2;

pub const LINE_CONTROL: u8 = 3;

pub const MODEM_CONTROL: u8 = 4;

pub const LINE_STATUS: u8 = 5;

/// Base address of the first serial port.
pub const COM_1_ADDR: u16 = 0x3f8;

/// The byte the self-test sends through the loopback and expects back.
pub const SELF_TEST_BYTE: u8 = 0xae;

/// The line status register.
#[derive(Clone, Copy, Debug, PartialEq, Eq, Structural)]
pub struct LineStatus(pub u8);

impl LineStatus {
    /// Data has been received and can be read.
    pub open spec fn spec_data_ready() -> LineStatus {
        LineStatus(0x01)
    }

    /// The transmitter holding register is empty: a byte can be written.
    pub open spec fn spec_thr_empty() -> LineStatus {
        LineStatus(0x20)
    }

    pub fn data_ready() -> (r: LineStatus)
        ensures
            r == Self::spec_data_ready(),
    {
        LineStatus(0x01)
    }

    pub fn thr_empty() -> (r: LineStatus)
        ensures
            r == Self::spec_thr_empty(),
    {
        LineStatus(0x20)
    }

    /// The status whose flags are the bits of `bits`; every bit of the register is a flag.
    pub fn from_bits_truncate(bits: u8) -> (r: LineStatus)
        ensures
            r.0 == bits,
    {
        LineStatus(bits)
    }

    /// Whether every flag of `other` is set here.
    pub fn contains(self, other: LineStatus) -> (r: bool)
        ensures
            r == (self.0 & other.0 == other.0),
    {
        self.0 & other.0 == other.0
    }
}

/// Whether a byte may be written, given the line status register's value.
pub fn ready_to_send(status: u8) -> (r: bool)
    ensures
        r == (status & 0x20u8 == 0x20u8),
{
    LineStatus::from_bits_truncate(status).contains(LineStatus::thr_empty())
}

/// One write to an I/O port.
#[derive(Clone, Copy, Debug, PartialEq, Eq, Structural)]
pub struct PortWrite {
    pub port: u16,
    pub value: u8,
}

/// A 16550 UART at a base port address.
#[derive(Clone, Copy, Debug, PartialEq, Eq, Structural)]
pub struct SerialPort {
    pub port: u16,
}

impl SerialPort {
    /// Whether every register of the port has an address below 65536.
    pub open spec fn addressable(self) -> bool {
        self.port + LINE_STATUS <= u16::MAX
    }

    pub fn new(port: u16) -> (r: SerialPort)
        ensures
            r.port == port,
    {
        SerialPort { port }
    }

    /// The I/O port of register `reg`.
    pub fn register(self, reg: u8) -> (r: u16)
        requires
            reg <= LINE_STATUS,
            self.addressable(),
        ensures
            r == self.port + reg,
    {
        self.port + reg as u16
    }

    pub open spec fn write_to(self, reg: u8, value: u8) -> PortWrite {
        PortWrite { port: (self.port + reg) as u16, value }
    }

    /// The writes that set the port up and start its self-test, in order: interrupts off,
    /// divisor 3 (38400 baud), 8 bits without parity and one stop bit, FIFOs on and cleared with a
    /// 14-byte threshold, RTS and DSR set; then loopback mode, and the test byte sent.
    pub open spec fn spec_init_writes(self) -> Seq<PortWrite> {
        seq![
            self.write_to(INTERRUPT_ENABLED, 0x00),
            self.write_to(LINE_CONTROL, 0x80),
            self.write_to(BAUD_RATE_LSB, 0x03),
            self.write_to(BAUD_RATE_MSB, 0x00),
            self.write_to(LINE_CONTROL, 0x03),
            self.write_to(FIFO_CONTROL, 0xc7),
            self.write_to(MODEM_CONTROL, 0x0b),
            self.write_to(MODEM_CONTROL, 0x1e),
            self.write_to(TRANSMIT_RECEIVE, SELF_TEST_BYTE),
        ]
    }

    fn push_write(self, writes: &mut Vec<PortWrite>, reg: u8, value: u8)
        requires
            reg <= LINE_STATUS,
            self.addressable(),
        ensures
            final(writes)@ == old(writes)@.push(self.write_to(reg, value)),
    {
        writes.push(PortWrite { port: self.register(reg), value });
    }

    /// The writes that set the port up and start its self-test.
    pub fn init_writes(self) -> (r: Vec<PortWrite>)
        requires
            self.addressable(),
        ensures
            r@ == self.spec_init_writes(),
    {
        let mut w: Vec<PortWrite> = Vec::new();
        self.push_write(&mut w, INTERRUPT_ENABLED, 0x00);
        self.push_write(&mut w, LINE_CONTROL, 0x80);
        self.push_write(&mut w, BAUD_RATE_LSB, 0x03);
        self.push_write(&mut w, BAUD_RATE_MSB, 0x00);
        self.push_write(&mut w, LINE_CONTROL, 0x03);
        self.push_write(&mut w, FIFO_CONTROL, 0xc7);
        self.push_write(&mut w, MODEM_CONTROL, 0x0b);
        self.push_write(&mut w, MODEM_CONTROL, 0x1e);
        self.push_write(&mut w, TRANSMIT_RECEIVE, SELF_TEST_BYTE);
        assert(w@ =~= self.spec_init_writes());
        w
    }

    /// The port the self-test reads its byte back from.
    pub fn self_test_port(self) -> (r: u16)
        requires
            self.addressable(),
        ensures
            r == self.port + TRANSMIT_RECEIVE,
    {
        self.register(TRANSMIT_RECEIVE)
    }

    /// What follows the self-test, given the byte read back: where it is the test byte, the write
    /// that leaves loopback mode and enables the port's interrupts (`0x0f` to the modem control
    /// register); else `None`, the port does not work and cannot be used.
    pub fn finish_init(self, read_back: u8) -> (r: Option<PortWrite>)
        requires
            self.addressable(),
        ensures
            read_back == SELF_TEST_BYTE ==> r == Some(self.write_to(MODEM_CONTROL, 0x0f)),
            read_back != SELF_TEST_BYTE ==> r is None,
    {
        if read_back == SELF_TEST_BYTE {
            Some(PortWrite { port: self.register(MODEM_CONTROL), value: 0x0f })
        } else {
            None
        }
    }
}

} // verus!
