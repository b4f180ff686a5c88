use envsense::ccs811::{
    check_error_from, decode_alg_result, decode_env_value, decode_error_register,
    encode_env_value, judge_hw_id, judge_status, mode_bits, Ccs811Error, Ccs811Mode, Ccs811State,
    EnvValue, ErrorRegister, CCS811,
};
use envsense::transport::{Transport, TransportError};

enum Reply {
    Ack,
    Byte(u8),
    Word(u16),
    Bytes(Vec<u8>),
    Fail,
}

struct ScriptBus {
    replies: Vec<Reply>,
    targets: Vec<u16>,
    block_writes: Vec<(u8, Vec<u8>)>,
    raw_writes: Vec<Vec<u8>>,
    word_writes: Vec<(u8, u16)>,
    waits: Vec<u64>,
}

impl ScriptBus {
    fn new(replies: Vec<Reply>) -> ScriptBus {
        ScriptBus {
            replies,
            targets: Vec::new(),
            block_writes: Vec::new(),
            raw_writes: Vec::new(),
            word_writes: Vec::new(),
            waits: Vec::new(),
        }
    }

    fn next(&mut self) -> Reply {
        if self.replies.is_empty() {
            panic!("unexpected extra bus exchange");
        }
        self.replies.remove(0)
    }

    fn ack_or_fail(&mut self) -> Result<(), TransportError> {
        match self.next() {
            Reply::Ack => Ok(()),
            Reply::Fail => Err(TransportError),
            _ => panic!("script expected another exchange"),
        }
    }
}

impl Transport for ScriptBus {
    fn set_target(&mut self, address: u16) -> Result<(), TransportError> {
        self.targets.push(address);
        self.ack_or_fail()
    }

    fn write(&mut self, data: &[u8]) -> Result<(), TransportError> {
        self.raw_writes.push(data.to_vec());
        self.ack_or_fail()
    }

    fn write_block(&mut self, register: u8, data: &[u8]) -> Result<(), TransportError> {
        self.block_writes.push((register, data.to_vec()));
        self.ack_or_fail()
    }

    fn write_then_read(&mut self, _register: u8, len: usize) -> Result<Vec<u8>, TransportError> {
        match self.next() {
            Reply::Bytes(b) => {
                assert_eq!(b.len(), len, "script reply length mismatch");
                Ok(b)
            }
            Reply::Fail => Err(TransportError),
            _ => panic!("script expected another exchange"),
        }
    }

    fn read_byte(&mut self, _register: u8) -> Result<u8, TransportError> {
        match self.next() {
            Reply::Byte(v) => Ok(v),
            Reply::Fail => Err(TransportError),
            _ => panic!("script expected another exchange"),
        }
    }

    fn read_word(&mut self, _register: u8) -> Result<u16, TransportError> {
        match self.next() {
            Reply::Word(v) => Ok(v),
            Reply::Fail => Err(TransportError),
            _ => panic!("script expected another exchange"),
        }
    }

    fn write_word(&mut self, register: u8, value: u16) -> Result<(), TransportError> {
        self.word_writes.push((register, value));
        self.ack_or_fail()
    }

    fn wait_us(&mut self, us: u64) {
        self.waits.push(us);
    }
}

fn ready_chip(mut extra: Vec<Reply>) -> CCS811<ScriptBus> {
    let mut replies = vec![
        Reply::Ack,       // select target
        Reply::Ack,       // reset key write
        Reply::Byte(0x81), // hardware id
        Reply::Ack,       // application start
        Reply::Byte(0xA0), // status: app mode + verify complete
    ];
    replies.append(&mut extra);
    let mut chip = CCS811::new(ScriptBus::new(replies));
    chip.begin().unwrap();
    chip
}

#[test]
fn begin_reaches_ready_and_observes_settle_times() {
    let chip = ready_chip(vec![]);
    assert_eq!(chip.state, Ccs811State::Ready);
    assert_eq!(chip.bus.targets, vec![0x5A]);
    // reset key sequence, then the two mandatory settle waits
    assert_eq!(chip.bus.block_writes, vec![(0xFF, vec![0x11, 0xE5, 0x72, 0x8A])]);
    assert_eq!(chip.bus.raw_writes, vec![vec![0xF4]]);
    assert_eq!(chip.bus.waits, vec![2000, 1000]);
}

#[test]
fn begin_with_wrong_hardware_id_faults() {
    let bus = ScriptBus::new(vec![Reply::Ack, Reply::Ack, Reply::Byte(0x82)]);
    let mut chip = CCS811::new(bus);
    assert_eq!(
        chip.begin(),
        Err(Ccs811Error::UnexpectedHardwareId { found: 0x82 })
    );
    assert_eq!(chip.state, Ccs811State::Faulted);
    // a subsequent read is refused outright: the empty remainder of the
    // script doubles as a check that no stale data is fetched
    assert_eq!(chip.read(), Err(Ccs811Error::NotReady));
}

#[test]
fn begin_with_missing_status_bits_faults() {
    // application-mode bit alone is not enough: verify-complete must be set
    // too
    let bus = ScriptBus::new(vec![
        Reply::Ack,
        Reply::Ack,
        Reply::Byte(0x81),
        Reply::Ack,
        Reply::Byte(0x80),
    ]);
    let mut chip = CCS811::new(bus);
    assert_eq!(
        chip.begin(),
        Err(Ccs811Error::StatusMismatch { expected: 0xA0, actual: 0x80 })
    );
    assert_eq!(chip.state, Ccs811State::Faulted);
}

#[test]
fn begin_bus_failure_faults() {
    let bus = ScriptBus::new(vec![Reply::Ack, Reply::Fail]);
    let mut chip = CCS811::new(bus);
    assert_eq!(chip.begin(), Err(Ccs811Error::Transport(TransportError)));
    assert_eq!(chip.state, Ccs811State::Faulted);
}

#[test]
fn start_writes_mode_into_top_bits() {
    assert_eq!(mode_bits(Ccs811Mode::Idle), 0x00);
    assert_eq!(mode_bits(Ccs811Mode::Sec1), 0x10);
    assert_eq!(mode_bits(Ccs811Mode::Sec10), 0x20);
    assert_eq!(mode_bits(Ccs811Mode::Sec60), 0x30);
    let mut chip = ready_chip(vec![Reply::Ack]);
    chip.start(Ccs811Mode::Sec1).unwrap();
    assert_eq!(chip.bus.block_writes.last(), Some(&(0x01, vec![0x10])));
}

#[test]
fn env_value_encode_decode_round_trip() {
    let cases = vec![
        EnvValue { whole: 0, frac512: 0 },
        EnvValue { whole: 48, frac512: 256 },
        EnvValue { whole: 23, frac512: 153 },
        EnvValue { whole: 127, frac512: 511 },
        EnvValue { whole: 1, frac512: 1 },
    ];
    for v in cases {
        let (hi, lo) = encode_env_value(v).unwrap();
        assert_eq!(decode_env_value(hi, lo), v);
    }
    // the published example encoding: 48.5 percent humidity
    assert_eq!(
        encode_env_value(EnvValue { whole: 48, frac512: 256 }).unwrap(),
        (0x61, 0x00)
    );
    assert_eq!(
        encode_env_value(EnvValue { whole: 127, frac512: 511 }).unwrap(),
        (0xFF, 0xFF)
    );
}

#[test]
fn env_value_out_of_domain_is_an_error() {
    assert_eq!(
        encode_env_value(EnvValue { whole: 128, frac512: 0 }),
        Err(Ccs811Error::InvalidEnvData)
    );
    assert_eq!(
        encode_env_value(EnvValue { whole: 0, frac512: 512 }),
        Err(Ccs811Error::InvalidEnvData)
    );
}

#[test]
fn set_env_data_writes_concatenated_payload() {
    let mut chip = ready_chip(vec![Reply::Ack]);
    // 48 + 256/512 percent humidity, 23 + 153/512 degrees
    chip.set_env_data(
        EnvValue { whole: 48, frac512: 256 },
        EnvValue { whole: 23, frac512: 153 },
    )
    .unwrap();
    assert_eq!(
        chip.bus.block_writes.last(),
        Some(&(0x05, vec![0x61, 0x00, 0x2E, 0x99]))
    );
}

#[test]
fn set_env_data_requires_ready() {
    let mut chip = CCS811::new(ScriptBus::new(vec![]));
    assert_eq!(
        chip.set_env_data(
            EnvValue { whole: 1, frac512: 0 },
            EnvValue { whole: 1, frac512: 0 },
        ),
        Err(Ccs811Error::NotReady)
    );
}

#[test]
fn set_env_data_rejects_out_of_domain_values() {
    let mut chip = ready_chip(vec![]);
    assert_eq!(
        chip.set_env_data(
            EnvValue { whole: 200, frac512: 0 },
            EnvValue { whole: 1, frac512: 0 },
        ),
        Err(Ccs811Error::InvalidEnvData)
    );
}

#[test]
fn read_decodes_big_endian_pairs() {
    let mut chip = ready_chip(vec![Reply::Bytes(vec![
        0x01, 0xF4, 0x00, 0x64, 0x98, 0x00, 0x12, 0x34,
    ])]);
    let data = chip.read().unwrap();
    assert_eq!(data.e_co2, 500);
    assert_eq!(data.t_voc, 100);
    assert_eq!(data.raw, vec![0x01, 0xF4, 0x00, 0x64, 0x98, 0x00, 0x12, 0x34]);
}

#[test]
fn read_reports_low_co2_as_out_of_range() {
    let mut chip = ready_chip(vec![Reply::Bytes(vec![0x01, 0x2C, 0, 0, 0, 0, 0, 0])]);
    match chip.read() {
        Err(Ccs811Error::OutOfRange(data)) => {
            assert_eq!(data.e_co2, 300);
            assert_eq!(data.t_voc, 0);
        }
        other => panic!("expected an out-of-range report, got {:?}", other),
    }
}

#[test]
fn read_reports_high_values_as_out_of_range() {
    // 8193 ppm equivalent CO2 is one above the plausible ceiling
    match decode_alg_result(vec![0x20, 0x01, 0, 0, 0, 0, 0, 0]) {
        Err(Ccs811Error::OutOfRange(data)) => assert_eq!(data.e_co2, 8193),
        other => panic!("expected an out-of-range report, got {:?}", other),
    }
    // 1188 ppb total VOC is one above the plausible ceiling
    match decode_alg_result(vec![0x01, 0xF4, 0x04, 0xA4, 0, 0, 0, 0]) {
        Err(Ccs811Error::OutOfRange(data)) => assert_eq!(data.t_voc, 1188),
        other => panic!("expected an out-of-range report, got {:?}", other),
    }
    // the boundary values themselves pass
    assert!(decode_alg_result(vec![0x20, 0x00, 0x04, 0xA3, 0, 0, 0, 0]).is_ok());
    assert!(decode_alg_result(vec![0x01, 0x90, 0x00, 0x00, 0, 0, 0, 0]).is_ok());
}

#[test]
fn check_error_with_clear_bit_skips_the_error_register() {
    // One scripted reply only: reading the error register too would step
    // past the script and panic.
    let mut chip = CCS811::new(ScriptBus::new(vec![Reply::Byte(0x90)]));
    let rec = chip.check_error().unwrap();
    assert_eq!(
        rec,
        ErrorRegister {
            write_register_invalid: false,
            read_register_invalid: false,
            measurement_mode_invalid: false,
            max_resistance: false,
            heater_fault: false,
            heater_supply_fault: false,
        }
    );
}

#[test]
fn check_error_with_set_bit_decodes_the_error_register() {
    let mut chip = CCS811::new(ScriptBus::new(vec![Reply::Byte(0x91), Reply::Byte(0x19)]));
    let rec = chip.check_error().unwrap();
    assert!(rec.write_register_invalid);
    assert!(rec.max_resistance);
    assert!(rec.heater_fault);
    assert!(!rec.measurement_mode_invalid);
    // these two bits are deliberately not decoded
    assert!(!rec.read_register_invalid);
    assert!(!rec.heater_supply_fault);
}

#[test]
fn hardware_id_judgement_is_exact() {
    assert_eq!(judge_hw_id(0x81), Ok(()));
    assert_eq!(
        judge_hw_id(0x82),
        Err(Ccs811Error::UnexpectedHardwareId { found: 0x82 })
    );
    assert_eq!(
        judge_hw_id(0x00),
        Err(Ccs811Error::UnexpectedHardwareId { found: 0x00 })
    );
}

#[test]
fn status_judgement_requires_every_expected_bit() {
    assert_eq!(judge_status(0xA0, 0xA0), Ok(()));
    assert_eq!(judge_status(0xB4, 0xA0), Ok(()));
    // one of the two required bits alone is not enough
    assert_eq!(
        judge_status(0x80, 0xA0),
        Err(Ccs811Error::StatusMismatch { expected: 0xA0, actual: 0x80 })
    );
    assert_eq!(
        judge_status(0x20, 0xA0),
        Err(Ccs811Error::StatusMismatch { expected: 0xA0, actual: 0x20 })
    );
}

#[test]
fn error_report_ignores_the_error_byte_while_the_bit_is_clear() {
    let all_clear = ErrorRegister {
        write_register_invalid: false,
        read_register_invalid: false,
        measurement_mode_invalid: false,
        max_resistance: false,
        heater_fault: false,
        heater_supply_fault: false,
    };
    // status bit 0 clear: all-false whatever the error byte holds
    assert_eq!(check_error_from(0x98, 0xFF), all_clear);
    assert_eq!(check_error_from(0x00, 0x1D), all_clear);
    // status bit 0 set: the decoded register
    assert_eq!(check_error_from(0x01, 0x19), decode_error_register(0x19));
}

#[test]
fn error_register_decode_by_bit() {
    assert!(decode_error_register(0x01).write_register_invalid);
    assert!(decode_error_register(0x04).measurement_mode_invalid);
    assert!(decode_error_register(0x08).max_resistance);
    assert!(decode_error_register(0x10).heater_fault);
    assert_eq!(
        decode_error_register(0x00),
        ErrorRegister {
            write_register_invalid: false,
            read_register_invalid: false,
            measurement_mode_invalid: false,
            max_resistance: false,
            heater_fault: false,
            heater_supply_fault: false,
        }
    );
}

#[test]
fn baseline_is_a_raw_pass_through() {
    let mut chip = ready_chip(vec![Reply::Word(0x1234), Reply::Ack]);
    assert_eq!(chip.get_baseline().unwrap(), 0x1234);
    chip.set_baseline(0xBEEF).unwrap();
    assert_eq!(chip.bus.word_writes, vec![(0x11, 0xBEEF)]);
}

#[test]
fn versions_read_back() {
    let mut chip = ready_chip(vec![
        Reply::Byte(0x12),
        Reply::Bytes(vec![0x10, 0x00]),
        Reply::Bytes(vec![0x20, 0x01]),
    ]);
    assert_eq!(chip.hardware_version().unwrap(), 0x12);
    assert_eq!(chip.bootloader_version().unwrap(), [0x10, 0x00]);
    assert_eq!(chip.application_version().unwrap(), [0x20, 0x01]);
}

#[test]
fn erase_app_writes_key_and_waits() {
    let mut chip = CCS811::new(ScriptBus::new(vec![Reply::Ack]));
    chip.erase_app().unwrap();
    assert_eq!(chip.bus.block_writes, vec![(0xF1, vec![0xE7, 0xA7, 0xE6, 0x09])]);
    assert_eq!(chip.bus.waits, vec![500_000]);
}
