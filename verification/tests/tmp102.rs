use envsense::tmp102::{decode_tmp102, TMP102};
use envsense::transport::{Transport, TransportError};

enum Reply {
    Ack,
    Bytes(Vec<u8>),
    Fail,
}

struct ScriptBus {
    replies: Vec<Reply>,
    targets: Vec<u16>,
}

impl ScriptBus {
    fn new(replies: Vec<Reply>) -> ScriptBus {
        ScriptBus { replies, targets: Vec::new() }
    }

    fn next(&mut self) -> Reply {
        if self.replies.is_empty() {
            panic!("unexpected extra bus exchange");
        }
        self.replies.remove(0)
    }
}

impl Transport for ScriptBus {
    fn set_target(&mut self, address: u16) -> Result<(), TransportError> {
        self.targets.push(address);
        match self.next() {
            Reply::Ack => Ok(()),
            Reply::Fail => Err(TransportError),
            _ => panic!("script expected an exchange, not a target select"),
        }
    }

    fn write(&mut self, _data: &[u8]) -> Result<(), TransportError> {
        panic!("this chip never writes raw bytes");
    }

    fn write_block(&mut self, _register: u8, _data: &[u8]) -> Result<(), TransportError> {
        panic!("this chip never writes blocks");
    }

    fn write_then_read(&mut self, _register: u8, len: usize) -> Result<Vec<u8>, TransportError> {
        match self.next() {
            Reply::Bytes(b) => {
                assert_eq!(b.len(), len, "script reply length mismatch");
                Ok(b)
            }
            Reply::Fail => Err(TransportError),
            _ => panic!("script expected another exchange"),
        }
    }

    fn read_byte(&mut self, _register: u8) -> Result<u8, TransportError> {
        panic!("this chip never reads single bytes");
    }

    fn read_word(&mut self, _register: u8) -> Result<u16, TransportError> {
        panic!("this chip never reads words");
    }

    fn write_word(&mut self, _register: u8, _value: u16) -> Result<(), TransportError> {
        panic!("this chip never writes words");
    }

    fn wait_us(&mut self, _us: u64) {}
}

#[test]
fn zero_raw_is_zero_degrees() {
    let t = decode_tmp102(0x00, 0x00);
    assert_eq!(t, 0);
    assert_eq!(t as f32 * 0.0625, 0.0);
}

#[test]
fn bit_eleven_set_is_negative() {
    // raw 0xF00: two's complement gives -256 sixteenths, -16 degrees
    let t = decode_tmp102(0xF0, 0x00);
    assert_eq!(t, -256);
    assert_eq!(t as f32 * 0.0625, -16.0);
}

#[test]
fn positive_reading_scales_by_sixteenth() {
    // raw 0x190 = 400 sixteenths = 25 degrees
    let t = decode_tmp102(0x19, 0x00);
    assert_eq!(t, 400);
    assert_eq!(t as f32 * 0.0625, 25.0);
}

#[test]
fn twos_complement_boundaries() {
    // 0x7FF is the largest positive 12-bit value, 0x800 the most negative
    assert_eq!(decode_tmp102(0x7F, 0xF0), 2047);
    assert_eq!(decode_tmp102(0x80, 0x00), -2048);
    assert_eq!(decode_tmp102(0xFF, 0xF0), -1);
}

#[test]
fn low_nibble_of_second_byte_is_ignored() {
    assert_eq!(decode_tmp102(0x19, 0x0F), 400);
}

#[test]
fn driver_selects_address_and_decodes() {
    let bus = ScriptBus::new(vec![Reply::Ack, Reply::Bytes(vec![0x19, 0x00])]);
    let mut chip = TMP102::new(bus);
    assert_eq!(chip.read().unwrap(), 400);
    assert_eq!(chip.bus.targets, vec![0x48]);
}

#[test]
fn driver_reports_bus_failure() {
    let bus = ScriptBus::new(vec![Reply::Ack, Reply::Fail]);
    let mut chip = TMP102::new(bus);
    assert_eq!(chip.read(), Err(TransportError));
}
