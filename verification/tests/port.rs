use serialport::port::{InputSignal, OutputSignal};
use serialport::posix::{output_bit, signal_is_asserted, SpeedCode, Termios, TermiosBits, TermiosLayout};
use serialport::prelude::{BaudRate, DataBits, FlowControl, Parity, SerialPort, SerialPortSettings, StopBits};
use serialport::{Error, ErrorKind};
use std::cell::Cell;
use std::rc::Rc;
use std::time::Duration;

/// A port without a device: its configuration words live in memory, and its
/// output signals are wired to the input signals of a peer.
struct VirtualPort {
    layout: TermiosLayout,
    termios: Termios,
    timeout: Duration,
    connected: bool,
    /// The modem bits that this port reads.
    inputs: Rc<Cell<u32>>,
    /// The modem bits that the peer reads.
    peer_inputs: Rc<Cell<u32>>,
}

fn layout() -> TermiosLayout {
    let bits = TermiosBits {
        csize: 0o60,
        cs5: 0o0,
        cs6: 0o20,
        cs7: 0o40,
        cs8: 0o60,
        cstopb: 0o100,
        parenb: 0o400,
        parodd: 0o1000,
        crtscts: 0o20000000000,
        ixon: 0o2000,
        ixoff: 0o10000,
        inpck: 0o20,
        ignpar: 0o4,
    };
    let speeds = vec![
        SpeedCode { rate: 9600, code: 0o15 },
        SpeedCode { rate: 19200, code: 0o16 },
        SpeedCode { rate: 115200, code: 0o10002 },
    ];
    TermiosLayout::new(bits, speeds).unwrap()
}

fn open_pair(settings: &SerialPortSettings) -> (VirtualPort, VirtualPort) {
    let first = Rc::new(Cell::new(0));
    let second = Rc::new(Cell::new(0));
    let blank = Termios { c_iflag: 0, c_cflag: 0, ispeed: 0, ospeed: 0 };
    let mut a = VirtualPort {
        layout: layout(),
        termios: blank,
        timeout: Duration::from_millis(100),
        connected: true,
        inputs: first.clone(),
        peer_inputs: second.clone(),
    };
    let mut b = VirtualPort {
        layout: layout(),
        termios: blank,
        timeout: Duration::from_millis(100),
        connected: true,
        inputs: second,
        peer_inputs: first,
    };
    a.set_all(settings).unwrap();
    b.set_all(settings).unwrap();
    (a, b)
}

impl VirtualPort {
    fn ensure_connected(&self) -> Result<(), Error> {
        if self.connected {
            Ok(())
        } else {
            Err(Error::new(ErrorKind::NoDevice, "the device was disconnected"))
        }
    }

    fn drive(&mut self, signal: OutputSignal, level: bool) -> Result<(), Error> {
        self.ensure_connected()?;
        let wired = match signal {
            OutputSignal::RequestToSend => InputSignal::ClearToSend,
            OutputSignal::DataTerminalReady => InputSignal::DataSetReady,
        };
        assert_ne!(output_bit(signal), 0);
        let bit = serialport::posix::input_bit(wired);
        let bits = self.peer_inputs.get();
        self.peer_inputs.set(if level { bits | bit } else { bits & !bit });
        Ok(())
    }

    fn read(&mut self, signal: InputSignal) -> Result<bool, Error> {
        self.ensure_connected()?;
        Ok(signal_is_asserted(self.inputs.get(), signal))
    }
}

impl SerialPort for VirtualPort {
    fn port_name(&self) -> Option<String> {
        None
    }

    fn settings(&self) -> SerialPortSettings {
        self.layout.settings(&self.termios, self.timeout).unwrap()
    }

    fn baud_rate(&self) -> Option<BaudRate> {
        self.layout.baud_rate(&self.termios)
    }

    fn data_bits(&self) -> Option<DataBits> {
        self.layout.data_bits(&self.termios)
    }

    fn flow_control(&self) -> Option<FlowControl> {
        self.layout.flow_control(&self.termios)
    }

    fn parity(&self) -> Option<Parity> {
        self.layout.parity(&self.termios)
    }

    fn stop_bits(&self) -> Option<StopBits> {
        self.layout.stop_bits(&self.termios)
    }

    fn timeout(&self) -> Duration {
        self.timeout
    }

    fn set_all(&mut self, settings: &SerialPortSettings) -> Result<(), Error> {
        self.ensure_connected()?;
        self.termios = self.layout.with_settings(&self.termios, settings)?;
        self.timeout = settings.timeout;
        Ok(())
    }

    fn set_baud_rate(&mut self, baud_rate: BaudRate) -> Result<(), Error> {
        self.ensure_connected()?;
        self.termios = self.layout.with_baud_rate(&self.termios, baud_rate)?;
        Ok(())
    }

    fn set_data_bits(&mut self, data_bits: DataBits) -> Result<(), Error> {
        self.ensure_connected()?;
        self.termios = self.layout.with_data_bits(&self.termios, data_bits);
        Ok(())
    }

    fn set_flow_control(&mut self, flow_control: FlowControl) -> Result<(), Error> {
        self.ensure_connected()?;
        self.termios = self.layout.with_flow_control(&self.termios, flow_control);
        Ok(())
    }

    fn set_parity(&mut self, parity: Parity) -> Result<(), Error> {
        self.ensure_connected()?;
        self.termios = self.layout.with_parity(&self.termios, parity);
        Ok(())
    }

    fn set_stop_bits(&mut self, stop_bits: StopBits) -> Result<(), Error> {
        self.ensure_connected()?;
        self.termios = self.layout.with_stop_bits(&self.termios, stop_bits);
        Ok(())
    }

    fn set_timeout(&mut self, timeout: Duration) -> Result<(), Error> {
        self.ensure_connected()?;
        self.timeout = timeout;
        Ok(())
    }

    fn write_request_to_send(&mut self, level: bool) -> Result<(), Error> {
        self.drive(OutputSignal::RequestToSend, level)
    }

    fn write_data_terminal_ready(&mut self, level: bool) -> Result<(), Error> {
        self.drive(OutputSignal::DataTerminalReady, level)
    }

    fn read_clear_to_send(&mut self) -> Result<bool, Error> {
        self.read(InputSignal::ClearToSend)
    }

    fn read_data_set_ready(&mut self) -> Result<bool, Error> {
        self.read(InputSignal::DataSetReady)
    }

    fn read_ring_indicator(&mut self) -> Result<bool, Error> {
        self.read(InputSignal::RingIndicator)
    }

    fn read_carrier_detect(&mut self) -> Result<bool, Error> {
        self.read(InputSignal::CarrierDetect)
    }
}

#[test]
fn virtual_port_opens_with_defaults() {
    let (port, _peer) = open_pair(&SerialPortSettings::default());
    assert_eq!(port.port_name(), None);
    assert_eq!(port.settings(), SerialPortSettings::default());
    assert_eq!(port.baud_rate(), Some(BaudRate::Baud9600));
    assert_eq!(port.data_bits(), Some(DataBits::Eight));
    assert_eq!(port.flow_control(), Some(FlowControl::NoFlowControl));
    assert_eq!(port.parity(), Some(Parity::NoParity));
    assert_eq!(port.stop_bits(), Some(StopBits::One));
    assert_eq!(port.timeout(), Duration::from_millis(1));
}

#[test]
fn baud_rate_that_was_set_is_read() {
    let (port, _peer) = open_pair(&SerialPortSettings::default());
    let mut port: Box<dyn SerialPort> = Box::new(port);
    port.set_baud_rate(BaudRate::Baud115200).unwrap();
    assert_eq!(port.baud_rate(), Some(BaudRate::Baud115200));
}

#[test]
fn setter_with_the_value_in_effect_is_idempotent() {
    let (mut port, _peer) = open_pair(&SerialPortSettings::default());
    let before = port.settings();
    port.set_baud_rate(before.baud_rate).unwrap();
    assert_eq!(port.baud_rate(), Some(before.baud_rate));
    port.set_data_bits(before.data_bits).unwrap();
    assert_eq!(port.data_bits(), Some(before.data_bits));
    port.set_flow_control(before.flow_control).unwrap();
    assert_eq!(port.flow_control(), Some(before.flow_control));
    port.set_parity(before.parity).unwrap();
    assert_eq!(port.parity(), Some(before.parity));
    port.set_stop_bits(before.stop_bits).unwrap();
    assert_eq!(port.stop_bits(), Some(before.stop_bits));
    port.set_timeout(before.timeout).unwrap();
    assert_eq!(port.timeout(), before.timeout);
    port.set_all(&before).unwrap();
    assert_eq!(port.settings(), before);
}

#[test]
fn unsupported_request_is_invalid_input_and_changes_nothing() {
    let (mut port, _peer) = open_pair(&SerialPortSettings::default());
    let error = port.set_baud_rate(BaudRate::BaudOther(12345)).unwrap_err();
    assert_eq!(error.kind(), ErrorKind::InvalidInput);
    assert_eq!(port.baud_rate(), Some(BaudRate::Baud9600));
    assert_eq!(port.settings(), SerialPortSettings::default());
}

#[test]
fn set_all_applies_every_field() {
    let (mut port, _peer) = open_pair(&SerialPortSettings::default());
    let settings = SerialPortSettings {
        baud_rate: BaudRate::Baud19200,
        data_bits: DataBits::Seven,
        flow_control: FlowControl::Hardware,
        parity: Parity::Even,
        stop_bits: StopBits::Two,
        timeout: Duration::from_millis(40),
    };
    port.set_all(&settings).unwrap();
    assert_eq!(port.settings(), settings);
    assert_eq!(port.timeout(), Duration::from_millis(40));
}

#[test]
fn request_to_send_is_seen_as_clear_to_send_by_the_peer() {
    let (mut port, mut peer) = open_pair(&SerialPortSettings::default());
    assert_eq!(peer.read_clear_to_send().unwrap(), false);
    port.write_request_to_send(true).unwrap();
    assert_eq!(peer.read_clear_to_send().unwrap(), true);
    assert_eq!(peer.read_data_set_ready().unwrap(), false);
    assert_eq!(port.read_clear_to_send().unwrap(), false);
    port.write_request_to_send(false).unwrap();
    assert_eq!(peer.read_clear_to_send().unwrap(), false);
}

#[test]
fn data_terminal_ready_is_seen_as_data_set_ready_by_the_peer() {
    let (mut port, mut peer) = open_pair(&SerialPortSettings::default());
    peer.write_data_terminal_ready(true).unwrap();
    assert_eq!(port.read_data_set_ready().unwrap(), true);
    assert_eq!(port.read_clear_to_send().unwrap(), false);
    assert_eq!(port.read_ring_indicator().unwrap(), false);
    assert_eq!(port.read_carrier_detect().unwrap(), false);
    peer.write_data_terminal_ready(false).unwrap();
    assert_eq!(port.read_data_set_ready().unwrap(), false);
}

#[test]
fn disconnected_port_fails_with_no_device() {
    let (mut port, _peer) = open_pair(&SerialPortSettings::default());
    port.connected = false;
    assert_eq!(port.set_baud_rate(BaudRate::Baud9600).unwrap_err().kind(), ErrorKind::NoDevice);
    assert_eq!(port.write_request_to_send(true).unwrap_err().kind(), ErrorKind::NoDevice);
    assert_eq!(port.read_clear_to_send().unwrap_err().kind(), ErrorKind::NoDevice);
    assert_eq!(port.set_all(&SerialPortSettings::default()).unwrap_err().kind(), ErrorKind::NoDevice);
}
