//! Driver for the air-quality (VOC/CO2) chip.
//!
//! The chip is brought from power-on to a steady sampling state by an
//! explicit lifecycle: soft reset, hardware-identifier check, application
//! start, status verification. A verification failure at any step leaves the
//! driver in a terminal faulted state, and data reads refuse to return
//! anything from there. Beyond the lifecycle the driver decodes the 8-byte
//! measurement block (with a plausibility check on both channels), packs
//! environmental compensation values into the chip's fixed-point wire form,
//! passes the adaptive baseline through untouched, and decodes the error
//! register.

use vstd::prelude::*;

verus! {

use vstd::arithmetic::div_mod::{lemma_fundamental_div_mod, lemma_fundamental_div_mod_converse};

use crate::transport::{Transport, TransportError};

/// Sampling interval selector, written to the chip's measurement-mode
/// register; never read back.
#[derive(Clone, Copy, PartialEq, Eq, Structural, Debug)]
pub enum Ccs811Mode {
    Idle,
    Sec1,
    Sec10,
    Sec60,
}

/// Primary bus address of the chip.
pub const CCS811_SLAVEADDR_0: u16 = 0x5A;

/// Secondary bus address of the chip.
pub const CCS811_SLAVEADDR_1: u16 = 0x5B;

// Registers/mailboxes, all 1 byte except when stated otherwise.
pub const CCS811_STATUS: u8 = 0x00;
pub const CCS811_ERR: u8 = 0xE0;
pub const CCS811_MEAS_MODE: u8 = 0x01;
pub const CCS811_ALG_RESULT_DATA: u8 = 0x02; // up to 8 bytes
pub const CCS811_ENV_DATA: u8 = 0x05; // 4 bytes
pub const CCS811_BASELINE: u8 = 0x11; // 2 bytes
pub const CCS811_HW_ID: u8 = 0x20;
pub const CCS811_HW_VERSION: u8 = 0x21;
pub const CCS811_FW_BOOT_VERSION: u8 = 0x23; // 2 bytes
pub const CCS811_FW_APP_VERSION: u8 = 0x24; // 2 bytes
pub const CCS811_APP_ERASE: u8 = 0xF1; // 4 bytes
pub const CCS811_APP_DATA: u8 = 0xF2; // 9 bytes
pub const CCS811_APP_VERIFY: u8 = 0xF3; // 0 bytes
pub const CCS811_APP_START: u8 = 0xF4; // 0 bytes
pub const CCS811_SW_RESET: u8 = 0xFF; // 4 bytes

/// The hardware identifier every chip of this family reports.
pub const CCS811_HW_ID_VALUE: u8 = 0x81;

// Status register bits.
pub const CCS811_STATUS_APP_MODE: u8 = 0x80; // else boot mode
pub const CCS811_STATUS_APP_ERASE: u8 = 0x40; // else no erase completed
pub const CCS811_STATUS_APP_VERIFY: u8 = 0x20; // else no verify completed
pub const CCS811_STATUS_APP_VALID: u8 = 0x10; // else no valid app firmware loaded
pub const CCS811_STATUS_ERROR: u8 = 0x01; // error present; details in the error register

// Mandatory settle waits, in microseconds.
pub const CCS811_WAIT_AFTER_RESET_US: u64 = 2000;
pub const CCS811_WAIT_AFTER_APPSTART_US: u64 = 1000;
pub const CCS811_WAIT_AFTER_WAKE_US: u64 = 50;
pub const CCS811_WAIT_AFTER_APPERASE_US: u64 = 500_000;
pub const CCS811_WAIT_AFTER_APPVERIFY_US: u64 = 70_000;
pub const CCS811_WAIT_AFTER_APPDATA_US: u64 = 50_000;

/// Lifecycle of the chip, from power-on to steady sampling. `Faulted` is
/// terminal for a `begin` run: a verification or bus failure at any step
/// lands here, and only a fresh `begin` leaves it.
#[derive(Clone, Copy, PartialEq, Eq, Structural, Debug)]
pub enum Ccs811State {
    Boot,
    Resetting,
    AwaitingHardwareId,
    AppStarting,
    VerifyingStatus,
    Ready,
    Faulted,
}

/// One decoded measurement: equivalent CO2 in ppm, total VOC in ppb, and the
/// raw 8-byte register capture for diagnostics.
#[derive(Clone, PartialEq, Eq, Debug)]
pub struct Ccs811Data {
    pub t_voc: u32,
    pub e_co2: u32,
    pub raw: Vec<u8>,
}

/// Decoded error register. Two documented fault bits
/// (read-register-invalid and heater-supply-fault) are deliberately not
/// decoded and always report false: a known simplification of this design,
/// kept explicit here rather than silently dropped.
#[derive(Clone, Copy, PartialEq, Eq, Structural, Debug)]
pub struct ErrorRegister {
    pub write_register_invalid: bool,
    pub read_register_invalid: bool,
    pub measurement_mode_invalid: bool,
    pub max_resistance: bool,
    pub heater_fault: bool,
    pub heater_supply_fault: bool,
}

/// A humidity or temperature value for environmental compensation, in the
/// chip's resolution: whole units plus a fraction counted in 1/512 steps.
/// Representable values are below 128 whole units with a fraction below one.
#[derive(Clone, Copy, PartialEq, Eq, Structural, Debug)]
pub struct EnvValue {
    pub whole: u8,
    pub frac512: u16,
}

/// How an operation on this chip can fail.
#[derive(Clone, PartialEq, Eq, Debug)]
pub enum Ccs811Error {
    /// A bus exchange failed.
    Transport(TransportError),
    /// The chip did not report the expected hardware identifier.
    UnexpectedHardwareId { found: u8 },
    /// The post-start status check did not show all required bits.
    StatusMismatch { expected: u8, actual: u8 },
    /// A measurement decoded fine but fell outside the plausible range; the
    /// data rides along so a caller may log it and continue.
    OutOfRange(Ccs811Data),
    /// An environmental compensation value outside the representable domain.
    InvalidEnvData,
    /// A data operation was attempted while the chip is not in `Ready`.
    NotReady,
}

/// Big-endian 16-bit value from two bytes.
pub open spec fn spec_be16(hi: u8, lo: u8) -> int {
    hi * 256 + lo
}

/// The register byte the measurement-mode selector is encoded as: the mode
/// value shifted into the top 3 bits.
pub open spec fn spec_mode_bits(mode: Ccs811Mode) -> u8 {
    match mode {
        Ccs811Mode::Idle => 0x00,
        Ccs811Mode::Sec1 => 0x10,
        Ccs811Mode::Sec10 => 0x20,
        Ccs811Mode::Sec60 => 0x30,
    }
}

/// Encode the measurement-mode selector for the chip's register.
pub fn mode_bits(mode: Ccs811Mode) -> (b: u8)
    ensures
        b == spec_mode_bits(mode),
{
    match mode {
        Ccs811Mode::Idle => 0x00,
        Ccs811Mode::Sec1 => 0x10,
        Ccs811Mode::Sec10 => 0x20,
        Ccs811Mode::Sec60 => 0x30,
    }
}

/// Whether an environmental compensation value lies in the representable
/// domain: at most 127 whole units, fraction at most 511/512.
pub open spec fn spec_env_value_valid(v: EnvValue) -> bool {
    v.whole <= 127 && v.frac512 <= 511
}

/// The 16-bit fixed-point word a valid compensation value encodes to: 7
/// integer bits, then 9 fraction bits in 1/512 steps. On the wire it is sent
/// big-endian, so the high byte carries the whole units and the fraction's
/// top bit.
pub open spec fn spec_env_word(v: EnvValue) -> int {
    v.whole * 512 + v.frac512
}

/// The compensation value a 2-byte register image decodes to (the datasheet's
/// inverse formula).
pub open spec fn spec_decode_env(hi: u8, lo: u8) -> EnvValue {
    EnvValue {
        whole: ((hi * 256 + lo) / 512) as u8,
        frac512: ((hi * 256 + lo) % 512) as u16,
    }
}

/// Encode one compensation value into its 2-byte register image. A value
/// outside the representable domain is a caller error, reported rather than
/// clamped.
pub fn encode_env_value(v: EnvValue) -> (r: Result<(u8, u8), Ccs811Error>)
    ensures
        r is Ok <==> spec_env_value_valid(v),
        r matches Ok(b) ==> b.0 as int == spec_env_word(v) / 256 && b.1 as int == spec_env_word(v)
            % 256,
        r is Err ==> r == Err::<(u8, u8), Ccs811Error>(Ccs811Error::InvalidEnvData),
{
    if v.whole > 127 || v.frac512 > 511 {
        return Err(Ccs811Error::InvalidEnvData);
    }
    let word: u16 = (v.whole as u16) * 512 + v.frac512;
    Ok(((word / 256) as u8, (word % 256) as u8))
}

/// Decode a 2-byte register image back into a compensation value.
pub fn decode_env_value(hi: u8, lo: u8) -> (v: EnvValue)
    ensures
        v == spec_decode_env(hi, lo),
        spec_env_value_valid(v),
{
    let word: u16 = (hi as u16) * 256 + (lo as u16);
    EnvValue { whole: (word / 512) as u8, frac512: word % 512 }
}

/// Round trip: encoding a representable compensation value and decoding the
/// two bytes by the datasheet's inverse formula recovers the value exactly
/// (the representation is exact at 1/512 resolution).
pub proof fn lemma_env_round_trip(v: EnvValue)
    requires
        spec_env_value_valid(v),
    ensures
        spec_decode_env(
            (spec_env_word(v) / 256) as u8,
            (spec_env_word(v) % 256) as u8,
        ) == v,
{
    let w = spec_env_word(v);
    lemma_fundamental_div_mod(w, 256);
    let hi = w / 256;
    let lo = w % 256;
    assert(hi * 256 + lo == w);
    lemma_fundamental_div_mod_converse(w, 512, v.whole as int, v.frac512 as int);
}

/// Whether a measurement lies in the plausible range: 400 to 8192 ppm
/// equivalent CO2 and at most 1187 ppb total VOC.
pub open spec fn spec_data_in_range(d: Ccs811Data) -> bool {
    400 <= d.e_co2 <= 8192 && d.t_voc <= 1187
}

/// Whether a measurement record is the faithful decode of its own raw
/// capture: 8 bytes, equivalent CO2 from the first big-endian pair, total
/// VOC from the second.
pub open spec fn spec_data_decoded(d: Ccs811Data) -> bool {
    d.raw.len() == 8 && d.e_co2 as int == spec_be16(d.raw[0], d.raw[1]) && d.t_voc as int
        == spec_be16(d.raw[2], d.raw[3])
}

/// Decode the chip's 8-byte result block: bytes 0-1 are equivalent CO2
/// (big-endian), bytes 2-3 total VOC (big-endian), the rest diagnostic. A
/// decode outside the plausible range is reported as out-of-range with the
/// data alongside, typically a chip still warming up.
pub fn decode_alg_result(raw: Vec<u8>) -> (r: Result<Ccs811Data, Ccs811Error>)
    requires
        raw.len() == 8,
    ensures
        r is Ok <==> (400 <= spec_be16(raw[0], raw[1]) <= 8192 && spec_be16(raw[2], raw[3])
            <= 1187),
        r matches Ok(d) ==> d.raw == raw && spec_data_decoded(d) && spec_data_in_range(d),
        r matches Err(e) ==> (e matches Ccs811Error::OutOfRange(d) && d.raw == raw
            && spec_data_decoded(d) && !spec_data_in_range(d)),
{
    let e_co2: u32 = (raw[0] as u32) * 256 + (raw[1] as u32);
    let t_voc: u32 = (raw[2] as u32) * 256 + (raw[3] as u32);
    let data = Ccs811Data { t_voc, e_co2, raw };
    if data.t_voc > 1187 || data.e_co2 < 400 || data.e_co2 > 8192 {
        Err(Ccs811Error::OutOfRange(data))
    } else {
        Ok(data)
    }
}

/// The decode of one error register byte. Bits for read-register-invalid and
/// heater-supply-fault are deliberately reported false (see
/// [`ErrorRegister`]).
pub open spec fn spec_error_register(err: u8) -> ErrorRegister {
    ErrorRegister {
        write_register_invalid: err & 0x01 != 0,
        read_register_invalid: false,
        measurement_mode_invalid: err & 0x04 != 0,
        max_resistance: err & 0x08 != 0,
        heater_fault: err & 0x10 != 0,
        heater_supply_fault: false,
    }
}

/// The all-clear record: every flag false.
pub open spec fn spec_error_register_clear() -> ErrorRegister {
    ErrorRegister {
        write_register_invalid: false,
        read_register_invalid: false,
        measurement_mode_invalid: false,
        max_resistance: false,
        heater_fault: false,
        heater_supply_fault: false,
    }
}

/// What `check_error` reports for a status byte and (if consulted) an error
/// register byte: all-clear while the status carries no error bit, the
/// decoded register otherwise.
pub open spec fn spec_check_error(status: u8, err: u8) -> ErrorRegister {
    if status & CCS811_STATUS_ERROR == 0 {
        spec_error_register_clear()
    } else {
        spec_error_register(err)
    }
}

/// Decode one error register byte.
pub fn decode_error_register(err: u8) -> (r: ErrorRegister)
    ensures
        r == spec_error_register(err),
{
    ErrorRegister {
        write_register_invalid: err & 0x01 != 0,
        read_register_invalid: false,
        measurement_mode_invalid: err & 0x04 != 0,
        max_resistance: err & 0x08 != 0,
        heater_fault: err & 0x10 != 0,
        heater_supply_fault: false,
    }
}

/// The hardware-identifier decision, on the byte the chip returned: success
/// exactly when it is the expected constant, and a wrong byte is reported
/// back as found.
pub fn judge_hw_id(found: u8) -> (r: Result<(), Ccs811Error>)
    ensures
        r is Ok <==> found == CCS811_HW_ID_VALUE,
        r matches Err(e) ==> e == (Ccs811Error::UnexpectedHardwareId { found }),
{
    if found == CCS811_HW_ID_VALUE {
        Ok(())
    } else {
        Err(Ccs811Error::UnexpectedHardwareId { found })
    }
}

/// The status decision, on the byte the chip returned: success exactly when
/// every bit of `expected` is set, and a mismatch reports both bitmasks.
pub fn judge_status(status: u8, expected: u8) -> (r: Result<(), Ccs811Error>)
    ensures
        r is Ok <==> status & expected == expected,
        r matches Err(e) ==> e == (Ccs811Error::StatusMismatch { expected, actual: status }),
{
    if status & expected == expected {
        Ok(())
    } else {
        Err(Ccs811Error::StatusMismatch { expected, actual: status })
    }
}

/// The error report assembled from the status byte and the error register
/// byte: the all-false record exactly when the status carries no error bit,
/// the decoded register otherwise. While the bit is clear the error byte is
/// irrelevant (and `check_error` never fetches it).
pub fn check_error_from(status: u8, err: u8) -> (r: ErrorRegister)
    ensures
        r == spec_check_error(status, err),
        status & CCS811_STATUS_ERROR == 0 ==> r == spec_error_register_clear(),
{
    if status & CCS811_STATUS_ERROR == 0 {
        ErrorRegister {
            write_register_invalid: false,
            read_register_invalid: false,
            measurement_mode_invalid: false,
            max_resistance: false,
            heater_fault: false,
            heater_supply_fault: false,
        }
    } else {
        decode_error_register(err)
    }
}

/// Driver instance for the air-quality chip: owns its transport and the
/// lifecycle state.
pub struct CCS811<T: Transport> {
    /// The bus the chip is reached through.
    pub bus: T,
    /// Where in the lifecycle the chip last verifiably stood.
    pub state: Ccs811State,
}

impl<T: Transport> CCS811<T> {
    /// A driver at power-on: nothing verified yet.
    pub fn new(bus: T) -> (d: CCS811<T>)
        ensures
            d.state == Ccs811State::Boot,
    {
        CCS811 { bus, state: Ccs811State::Boot }
    }

    /// Soft reset: the fixed 4-byte key sequence, then the mandatory settle
    /// wait.
    fn reset(&mut self) -> (r: Result<(), TransportError>)
        ensures
            final(self).state == old(self).state,
    {
        let key: [u8; 4] = [0x11, 0xE5, 0x72, 0x8A];
        match self.bus.write_block(CCS811_SW_RESET, key.as_slice()) {
            Ok(()) => {}
            Err(e) => {
                return Err(e);
            }
        }
        self.bus.wait_us(CCS811_WAIT_AFTER_RESET_US);
        Ok(())
    }

    /// Application start: a zero-length write to the start mailbox, then the
    /// mandatory settle wait.
    fn app_start(&mut self) -> (r: Result<(), TransportError>)
        ensures
            final(self).state == old(self).state,
    {
        let cmd: [u8; 1] = [CCS811_APP_START];
        match self.bus.write(cmd.as_slice()) {
            Ok(()) => {}
            Err(e) => {
                return Err(e);
            }
        }
        self.bus.wait_us(CCS811_WAIT_AFTER_APPSTART_US);
        Ok(())
    }

    /// Erase the application firmware: the fixed 4-byte key sequence, then
    /// the (long) mandatory settle wait.
    pub fn erase_app(&mut self) -> (r: Result<(), Ccs811Error>)
        ensures
            final(self).state == old(self).state,
            r is Err ==> r == Err::<(), Ccs811Error>(Ccs811Error::Transport(TransportError)),
    {
        let key: [u8; 4] = [0xE7, 0xA7, 0xE6, 0x09];
        match self.bus.write_block(CCS811_APP_ERASE, key.as_slice()) {
            Ok(()) => {}
            Err(e) => {
                return Err(Ccs811Error::Transport(e));
            }
        }
        self.bus.wait_us(CCS811_WAIT_AFTER_APPERASE_US);
        Ok(())
    }

    /// Read the hardware identifier and require the expected constant.
    fn check_hw_id(&mut self) -> (r: Result<(), Ccs811Error>)
        ensures
            final(self).state == old(self).state,
            match r {
                Ok(()) => true,
                Err(Ccs811Error::Transport(_)) => true,
                Err(Ccs811Error::UnexpectedHardwareId { found }) => found != CCS811_HW_ID_VALUE,
                Err(_) => false,
            },
    {
        let hw_id = match self.bus.read_byte(CCS811_HW_ID) {
            Ok(v) => v,
            Err(e) => {
                return Err(Ccs811Error::Transport(e));
            }
        };
        judge_hw_id(hw_id)
    }

    /// Read the status register and require every bit of `expected` set.
    fn check_status(&mut self, expected: u8) -> (r: Result<(), Ccs811Error>)
        ensures
            final(self).state == old(self).state,
            match r {
                Ok(()) => true,
                Err(Ccs811Error::Transport(_)) => true,
                Err(Ccs811Error::StatusMismatch { expected: e, actual: a }) => e == expected && a
                    & expected != expected,
                Err(_) => false,
            },
    {
        let status = match self.bus.read_byte(CCS811_STATUS) {
            Ok(v) => v,
            Err(e) => {
                return Err(Ccs811Error::Transport(e));
            }
        };
        judge_status(status, expected)
    }

    /// Run the full initialization sequence: select the bus target, soft
    /// reset, verify the hardware identifier, issue application start, then
    /// require the status register to show both the application-mode and
    /// verify-complete bits. Any failure at any step aborts the sequence and
    /// leaves the driver `Faulted`; a caller may retry from scratch but no
    /// partial progress survives.
    pub fn begin(&mut self) -> (r: Result<(), Ccs811Error>)
        ensures
            r is Ok <==> final(self).state == Ccs811State::Ready,
            r is Err <==> final(self).state == Ccs811State::Faulted,
            match r {
                Ok(()) => true,
                Err(Ccs811Error::Transport(_)) => true,
                Err(Ccs811Error::UnexpectedHardwareId { found }) => found != CCS811_HW_ID_VALUE,
                Err(Ccs811Error::StatusMismatch { expected: e, actual: a }) => e == (
                CCS811_STATUS_APP_MODE | CCS811_STATUS_APP_VERIFY) && a & e != e,
                Err(_) => false,
            },
    {
        self.state = Ccs811State::Boot;
        match self.bus.set_target(CCS811_SLAVEADDR_0) {
            Ok(()) => {}
            Err(e) => {
                self.state = Ccs811State::Faulted;
                return Err(Ccs811Error::Transport(e));
            }
        }
        self.state = Ccs811State::Resetting;
        match self.reset() {
            Ok(()) => {}
            Err(e) => {
                self.state = Ccs811State::Faulted;
                return Err(Ccs811Error::Transport(e));
            }
        }
        self.state = Ccs811State::AwaitingHardwareId;
        match self.check_hw_id() {
            Ok(()) => {}
            Err(e) => {
                self.state = Ccs811State::Faulted;
                return Err(e);
            }
        }
        self.state = Ccs811State::AppStarting;
        match self.app_start() {
            Ok(()) => {}
            Err(e) => {
                self.state = Ccs811State::Faulted;
                return Err(Ccs811Error::Transport(e));
            }
        }
        self.state = Ccs811State::VerifyingStatus;
        match self.check_status(CCS811_STATUS_APP_MODE | CCS811_STATUS_APP_VERIFY) {
            Ok(()) => {}
            Err(e) => {
                self.state = Ccs811State::Faulted;
                return Err(e);
            }
        }
        self.state = Ccs811State::Ready;
        Ok(())
    }

    /// Put the chip into the given sampling mode. The first valid data is
    /// only guaranteed after the interval the mode implies has elapsed; an
    /// earlier read is not authoritative.
    pub fn start(&mut self, mode: Ccs811Mode) -> (r: Result<(), Ccs811Error>)
        ensures
            final(self).state == old(self).state,
            r is Err ==> r == Err::<(), Ccs811Error>(Ccs811Error::Transport(TransportError)),
    {
        let payload: [u8; 1] = [mode_bits(mode)];
        match self.bus.write_block(CCS811_MEAS_MODE, payload.as_slice()) {
            Ok(()) => Ok(()),
            Err(_) => Err(Ccs811Error::Transport(TransportError)),
        }
    }

    /// Read the hardware version byte.
    pub fn hardware_version(&mut self) -> (r: Result<u8, Ccs811Error>)
        ensures
            final(self).state == old(self).state,
            r is Err ==> r == Err::<u8, Ccs811Error>(Ccs811Error::Transport(TransportError)),
    {
        match self.bus.read_byte(CCS811_HW_VERSION) {
            Ok(v) => Ok(v),
            Err(_) => Err(Ccs811Error::Transport(TransportError)),
        }
    }

    /// Read the 2-byte bootloader firmware version.
    pub fn bootloader_version(&mut self) -> (r: Result<[u8; 2], Ccs811Error>)
        ensures
            final(self).state == old(self).state,
            r is Err ==> r == Err::<[u8; 2], Ccs811Error>(Ccs811Error::Transport(TransportError)),
    {
        let buf = match self.bus.write_then_read(CCS811_FW_BOOT_VERSION, 2) {
            Ok(b) => b,
            Err(_) => {
                return Err(Ccs811Error::Transport(TransportError));
            }
        };
        if buf.len() != 2 {
            return Err(Ccs811Error::Transport(TransportError));
        }
        Ok([buf[0], buf[1]])
    }

    /// Read the 2-byte application firmware version.
    pub fn application_version(&mut self) -> (r: Result<[u8; 2], Ccs811Error>)
        ensures
            final(self).state == old(self).state,
            r is Err ==> r == Err::<[u8; 2], Ccs811Error>(Ccs811Error::Transport(TransportError)),
    {
        let buf = match self.bus.write_then_read(CCS811_FW_APP_VERSION, 2) {
            Ok(b) => b,
            Err(_) => {
                return Err(Ccs811Error::Transport(TransportError));
            }
        };
        if buf.len() != 2 {
            return Err(Ccs811Error::Transport(TransportError));
        }
        Ok([buf[0], buf[1]])
    }

    /// Read the chip's adaptive baseline: a raw 16-bit pass-through, no
    /// transformation.
    pub fn get_baseline(&mut self) -> (r: Result<u16, Ccs811Error>)
        ensures
            final(self).state == old(self).state,
            r is Err ==> r == Err::<u16, Ccs811Error>(Ccs811Error::Transport(TransportError)),
    {
        match self.bus.read_word(CCS811_BASELINE) {
            Ok(v) => Ok(v),
            Err(_) => Err(Ccs811Error::Transport(TransportError)),
        }
    }

    /// Write the chip's adaptive baseline: a raw 16-bit pass-through, no
    /// transformation.
    pub fn set_baseline(&mut self, baseline: u16) -> (r: Result<(), Ccs811Error>)
        ensures
            final(self).state == old(self).state,
            r is Err ==> r == Err::<(), Ccs811Error>(Ccs811Error::Transport(TransportError)),
    {
        match self.bus.write_word(CCS811_BASELINE, baseline) {
            Ok(()) => Ok(()),
            Err(_) => Err(Ccs811Error::Transport(TransportError)),
        }
    }

    /// Upload externally measured humidity and temperature so the chip can
    /// fold them into its own calculations. Valid only once the chip is
    /// `Ready`; a value outside the representable domain is a caller error.
    pub fn set_env_data(&mut self, humidity: EnvValue, temperature: EnvValue) -> (r: Result<
        (),
        Ccs811Error,
    >)
        ensures
            final(self).state == old(self).state,
            old(self).state != Ccs811State::Ready <==> r == Err::<(), Ccs811Error>(
                Ccs811Error::NotReady,
            ),
            old(self).state == Ccs811State::Ready ==> (r == Err::<(), Ccs811Error>(
                Ccs811Error::InvalidEnvData,
            ) <==> !(spec_env_value_valid(humidity) && spec_env_value_valid(temperature))),
            r is Err ==> (r == Err::<(), Ccs811Error>(Ccs811Error::NotReady) || r == Err::<
                (),
                Ccs811Error,
            >(Ccs811Error::InvalidEnvData) || r == Err::<(), Ccs811Error>(
                Ccs811Error::Transport(TransportError),
            )),
    {
        match self.state {
            Ccs811State::Ready => {}
            _ => {
                return Err(Ccs811Error::NotReady);
            }
        }
        let h = match encode_env_value(humidity) {
            Ok(b) => b,
            Err(_) => {
                return Err(Ccs811Error::InvalidEnvData);
            }
        };
        let t = match encode_env_value(temperature) {
            Ok(b) => b,
            Err(_) => {
                return Err(Ccs811Error::InvalidEnvData);
            }
        };
        let payload: [u8; 4] = [h.0, h.1, t.0, t.1];
        match self.bus.write_block(CCS811_ENV_DATA, payload.as_slice()) {
            Ok(()) => Ok(()),
            Err(_) => Err(Ccs811Error::Transport(TransportError)),
        }
    }

    /// Read the last sampled measurement. Refused while the chip is not
    /// `Ready` (no stale data after a fault). A successful exchange whose
    /// values fall outside the plausible range is reported out-of-range with
    /// the data alongside.
    pub fn read(&mut self) -> (r: Result<Ccs811Data, Ccs811Error>)
        ensures
            final(self).state == old(self).state,
            old(self).state != Ccs811State::Ready <==> r == Err::<Ccs811Data, Ccs811Error>(
                Ccs811Error::NotReady,
            ),
            r matches Ok(d) ==> spec_data_decoded(d) && spec_data_in_range(d),
            r matches Err(e) ==> (e matches Ccs811Error::OutOfRange(d) ==> spec_data_decoded(d)
                && !spec_data_in_range(d)),
            r is Err ==> (r == Err::<Ccs811Data, Ccs811Error>(Ccs811Error::NotReady) || r == Err::<
                Ccs811Data,
                Ccs811Error,
            >(Ccs811Error::Transport(TransportError)) || r matches Err(
                Ccs811Error::OutOfRange(_),
            )),
    {
        match self.state {
            Ccs811State::Ready => {}
            _ => {
                return Err(Ccs811Error::NotReady);
            }
        }
        let buf = match self.bus.write_then_read(CCS811_ALG_RESULT_DATA, 8) {
            Ok(b) => b,
            Err(_) => {
                return Err(Ccs811Error::Transport(TransportError));
            }
        };
        if buf.len() != 8 {
            return Err(Ccs811Error::Transport(TransportError));
        }
        decode_alg_result(buf)
    }

    /// Read the status register; while its error bit is clear, report the
    /// all-clear record without consulting the error register at all. Only
    /// when the bit is set is the error register read and decoded.
    pub fn check_error(&mut self) -> (r: Result<ErrorRegister, Ccs811Error>)
        ensures
            final(self).state == old(self).state,
            r matches Ok(rec) ==> (exists|status: u8, err: u8| rec == spec_check_error(
                status,
                err,
            )),
            r is Err ==> r == Err::<ErrorRegister, Ccs811Error>(
                Ccs811Error::Transport(TransportError),
            ),
    {
        let status = match self.bus.read_byte(CCS811_STATUS) {
            Ok(v) => v,
            Err(_) => {
                return Err(Ccs811Error::Transport(TransportError));
            }
        };
        if status & CCS811_STATUS_ERROR == 0 {
            // no second bus read: the error byte is irrelevant while the bit
            // is clear, so any value stands in for it
            let rec = check_error_from(status, 0);
            proof {
                assert(rec == spec_check_error(status, 0));
            }
            return Ok(rec);
        }
        let err = match self.bus.read_byte(CCS811_ERR) {
            Ok(v) => v,
            Err(_) => {
                return Err(Ccs811Error::Transport(TransportError));
            }
        };
        let rec = check_error_from(status, err);
        proof {
            assert(rec == spec_check_error(status, err));
        }
        Ok(rec)
    }
}

} // verus!
