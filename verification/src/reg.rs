//! Bit-level model of the ADS1x15 registers.
//!
//! The `Config` register is a 16-bit word assembled from nine named bit
//! fields. `Config::encode` and `Config::decode` are a lossless pair: each
//! field sits at its documented offset and width, no two fields overlap,
//! and the bit patterns the chip documents as reserved survive a decode as
//! explicit `Reserved` variants instead of aliasing to a documented value.
use vstd::prelude::*;

verus! {

/// Registers present in an ADS1x15.
#[derive(Clone, Copy, Debug, PartialEq, Eq)]
pub enum Register {
    /// The `Convert` register, holding the latest conversion result.
    Convert,
    /// The `Config` register.
    Config,
    /// The `Lowthresh` comparator threshold register.
    Lowthresh,
    /// The `Hithresh` comparator threshold register.
    Hithresh,
}

impl Register {
    /// The fixed one-byte pointer address of this register.
    pub open spec fn spec_address(self) -> u8 {
        match self {
            Register::Convert => 0x00,
            Register::Config => 0x01,
            Register::Lowthresh => 0x02,
            Register::Hithresh => 0x03,
        }
    }

    /// Returns the one-byte pointer address written on the bus to select
    /// this register.
    pub fn address(self) -> (r: u8)
        ensures
            r == self.spec_address(),
    {
        match self {
            Register::Convert => 0x00,
            Register::Config => 0x01,
            Register::Lowthresh => 0x02,
            Register::Hithresh => 0x03,
        }
    }
}

/// Values for the `Os` bit (bit 15) of the `Config` register.
#[derive(Clone, Copy, Debug, PartialEq, Eq)]
pub enum ConfigOs {
    /// Write: no effect.
    Noop,
    /// Write: start a single conversion.
    Single,
}

impl ConfigOs {
    /// The field's wire code.
    pub open spec fn spec_code(self) -> u16 {
        match self {
            ConfigOs::Noop => 0,
            ConfigOs::Single => 1,
        }
    }

    /// The field value a wire code denotes.
    pub open spec fn spec_from_code(code: u16) -> ConfigOs {
        if code == 0 {
            ConfigOs::Noop
        } else {
            ConfigOs::Single
        }
    }

    /// Returns the wire code of this field value.
    pub fn code(self) -> (r: u16)
        ensures
            r == self.spec_code(),
            r < 2,
    {
        match self {
            ConfigOs::Noop => 0,
            ConfigOs::Single => 1,
        }
    }

    /// Reads a field value back from its wire code.
    pub fn from_code(code: u16) -> (r: ConfigOs)
        ensures
            r == Self::spec_from_code(code),
    {
        if code == 0 {
            ConfigOs::Noop
        } else {
            ConfigOs::Single
        }
    }
}

/// Values for the `Mux` field (bits 14:12) of the `Config` register.
#[derive(Clone, Copy, Debug, PartialEq, Eq)]
pub enum ConfigMux {
    /// Differential, P = AIN0, N = AIN1 (chip default).
    Diff0_1,
    /// Differential, P = AIN0, N = AIN3.
    Diff0_3,
    /// Differential, P = AIN1, N = AIN3.
    Diff1_3,
    /// Differential, P = AIN2, N = AIN3.
    Diff2_3,
    /// Single-ended, AIN0 against ground.
    Single0,
    /// Single-ended, AIN1 against ground.
    Single1,
    /// Single-ended, AIN2 against ground.
    Single2,
    /// Single-ended, AIN3 against ground.
    Single3,
}

impl ConfigMux {
    /// The field's wire code.
    pub open spec fn spec_code(self) -> u16 {
        match self {
            ConfigMux::Diff0_1 => 0,
            ConfigMux::Diff0_3 => 1,
            ConfigMux::Diff1_3 => 2,
            ConfigMux::Diff2_3 => 3,
            ConfigMux::Single0 => 4,
            ConfigMux::Single1 => 5,
            ConfigMux::Single2 => 6,
            ConfigMux::Single3 => 7,
        }
    }

    /// The field value a wire code denotes.
    pub open spec fn spec_from_code(code: u16) -> ConfigMux {
        if code == 0 {
            ConfigMux::Diff0_1
        } else if code == 1 {
            ConfigMux::Diff0_3
        } else if code == 2 {
            ConfigMux::Diff1_3
        } else if code == 3 {
            ConfigMux::Diff2_3
        } else if code == 4 {
            ConfigMux::Single0
        } else if code == 5 {
            ConfigMux::Single1
        } else if code == 6 {
            ConfigMux::Single2
        } else {
            ConfigMux::Single3
        }
    }

    /// Returns the wire code of this field value.
    pub fn code(self) -> (r: u16)
        ensures
            r == self.spec_code(),
            r < 8,
    {
        match self {
            ConfigMux::Diff0_1 => 0,
            ConfigMux::Diff0_3 => 1,
            ConfigMux::Diff1_3 => 2,
            ConfigMux::Diff2_3 => 3,
            ConfigMux::Single0 => 4,
            ConfigMux::Single1 => 5,
            ConfigMux::Single2 => 6,
            ConfigMux::Single3 => 7,
        }
    }

    /// Reads a field value back from its wire code.
    pub fn from_code(code: u16) -> (r: ConfigMux)
        ensures
            r == Self::spec_from_code(code),
    {
        if code == 0 {
            ConfigMux::Diff0_1
        } else if code == 1 {
            ConfigMux::Diff0_3
        } else if code == 2 {
            ConfigMux::Diff1_3
        } else if code == 3 {
            ConfigMux::Diff2_3
        } else if code == 4 {
            ConfigMux::Single0
        } else if code == 5 {
            ConfigMux::Single1
        } else if code == 6 {
            ConfigMux::Single2
        } else {
            ConfigMux::Single3
        }
    }
}

/// Values for the `Pga` field (bits 11:9) of the `Config` register.
///
/// The two highest codes are reserved by the chip's documentation; they are
/// kept apart here so that a decode never aliases them to a real range.
#[derive(Clone, Copy, Debug, PartialEq, Eq)]
#[allow(non_camel_case_types)]
pub enum ConfigPga {
    /// ±6.144 V full-scale range (gain 2/3).
    _6_144V,
    /// ±4.096 V full-scale range (gain 1).
    _4_096V,
    /// ±2.048 V full-scale range (gain 2, chip default).
    _2_048V,
    /// ±1.024 V full-scale range (gain 4).
    _1_024V,
    /// ±0.512 V full-scale range (gain 8).
    _0_512V,
    /// ±0.256 V full-scale range (gain 16).
    _0_256V,
    /// Reserved code 0b110; not a documented range.
    Reserved6,
    /// Reserved code 0b111; not a documented range.
    Reserved7,
}

impl ConfigPga {
    /// The field's wire code.
    pub open spec fn spec_code(self) -> u16 {
        match self {
            ConfigPga::_6_144V => 0,
            ConfigPga::_4_096V => 1,
            ConfigPga::_2_048V => 2,
            ConfigPga::_1_024V => 3,
            ConfigPga::_0_512V => 4,
            ConfigPga::_0_256V => 5,
            ConfigPga::Reserved6 => 6,
            ConfigPga::Reserved7 => 7,
        }
    }

    /// The field value a wire code denotes.
    pub open spec fn spec_from_code(code: u16) -> ConfigPga {
        if code == 0 {
            ConfigPga::_6_144V
        } else if code == 1 {
            ConfigPga::_4_096V
        } else if code == 2 {
            ConfigPga::_2_048V
        } else if code == 3 {
            ConfigPga::_1_024V
        } else if code == 4 {
            ConfigPga::_0_512V
        } else if code == 5 {
            ConfigPga::_0_256V
        } else if code == 6 {
            ConfigPga::Reserved6
        } else {
            ConfigPga::Reserved7
        }
    }

    /// Returns the wire code of this field value.
    pub fn code(self) -> (r: u16)
        ensures
            r == self.spec_code(),
            r < 8,
    {
        match self {
            ConfigPga::_6_144V => 0,
            ConfigPga::_4_096V => 1,
            ConfigPga::_2_048V => 2,
            ConfigPga::_1_024V => 3,
            ConfigPga::_0_512V => 4,
            ConfigPga::_0_256V => 5,
            ConfigPga::Reserved6 => 6,
            ConfigPga::Reserved7 => 7,
        }
    }

    /// Reads a field value back from its wire code.
    pub fn from_code(code: u16) -> (r: ConfigPga)
        ensures
            r == Self::spec_from_code(code),
    {
        if code == 0 {
            ConfigPga::_6_144V
        } else if code == 1 {
            ConfigPga::_4_096V
        } else if code == 2 {
            ConfigPga::_2_048V
        } else if code == 3 {
            ConfigPga::_1_024V
        } else if code == 4 {
            ConfigPga::_0_512V
        } else if code == 5 {
            ConfigPga::_0_256V
        } else if code == 6 {
            ConfigPga::Reserved6
        } else {
            ConfigPga::Reserved7
        }
    }
}

/// Values for the `Mode` bit (bit 8) of the `Config` register.
#[derive(Clone, Copy, Debug, PartialEq, Eq)]
pub enum ConfigMode {
    /// Continuous conversion mode.
    Contin,
    /// Power-down single-shot mode (chip default).
    Single,
}

impl ConfigMode {
    /// The field's wire code.
    pub open spec fn spec_code(self) -> u16 {
        match self {
            ConfigMode::Contin => 0,
            ConfigMode::Single => 1,
        }
    }

    /// The field value a wire code denotes.
    pub open spec fn spec_from_code(code: u16) -> ConfigMode {
        if code == 0 {
            ConfigMode::Contin
        } else {
            ConfigMode::Single
        }
    }

    /// Returns the wire code of this field value.
    pub fn code(self) -> (r: u16)
        ensures
            r == self.spec_code(),
            r < 2,
    {
        match self {
            ConfigMode::Contin => 0,
            ConfigMode::Single => 1,
        }
    }

    /// Reads a field value back from its wire code.
    pub fn from_code(code: u16) -> (r: ConfigMode)
        ensures
            r == Self::spec_from_code(code),
    {
        if code == 0 {
            ConfigMode::Contin
        } else {
            ConfigMode::Single
        }
    }
}

/// Values for the `Dr` data-rate field (bits 7:5) of the `Config` register.
///
/// The highest code is reserved by the chip's documentation.
#[derive(Clone, Copy, Debug, PartialEq, Eq)]
#[allow(non_camel_case_types)]
pub enum ConfigDr {
    /// 128 samples per second.
    _128SPS,
    /// 250 samples per second.
    _250SPS,
    /// 490 samples per second.
    _490SPS,
    /// 920 samples per second.
    _920SPS,
    /// 1600 samples per second (chip default).
    _1600SPS,
    /// 2400 samples per second.
    _2400SPS,
    /// 3300 samples per second.
    _3300SPS,
    /// Reserved code 0b111; not a documented rate.
    Reserved7,
}

impl ConfigDr {
    /// The field's wire code.
    pub open spec fn spec_code(self) -> u16 {
        match self {
            ConfigDr::_128SPS => 0,
            ConfigDr::_250SPS => 1,
            ConfigDr::_490SPS => 2,
            ConfigDr::_920SPS => 3,
            ConfigDr::_1600SPS => 4,
            ConfigDr::_2400SPS => 5,
            ConfigDr::_3300SPS => 6,
            ConfigDr::Reserved7 => 7,
        }
    }

    /// The field value a wire code denotes.
    pub open spec fn spec_from_code(code: u16) -> ConfigDr {
        if code == 0 {
            ConfigDr::_128SPS
        } else if code == 1 {
            ConfigDr::_250SPS
        } else if code == 2 {
            ConfigDr::_490SPS
        } else if code == 3 {
            ConfigDr::_920SPS
        } else if code == 4 {
            ConfigDr::_1600SPS
        } else if code == 5 {
            ConfigDr::_2400SPS
        } else if code == 6 {
            ConfigDr::_3300SPS
        } else {
            ConfigDr::Reserved7
        }
    }

    /// Returns the wire code of this field value.
    pub fn code(self) -> (r: u16)
        ensures
            r == self.spec_code(),
            r < 8,
    {
        match self {
            ConfigDr::_128SPS => 0,
            ConfigDr::_250SPS => 1,
            ConfigDr::_490SPS => 2,
            ConfigDr::_920SPS => 3,
            ConfigDr::_1600SPS => 4,
            ConfigDr::_2400SPS => 5,
            ConfigDr::_3300SPS => 6,
            ConfigDr::Reserved7 => 7,
        }
    }

    /// Reads a field value back from its wire code.
    pub fn from_code(code: u16) -> (r: ConfigDr)
        ensures
            r == Self::spec_from_code(code),
    {
        if code == 0 {
            ConfigDr::_128SPS
        } else if code == 1 {
            ConfigDr::_250SPS
        } else if code == 2 {
            ConfigDr::_490SPS
        } else if code == 3 {
            ConfigDr::_920SPS
        } else if code == 4 {
            ConfigDr::_1600SPS
        } else if code == 5 {
            ConfigDr::_2400SPS
        } else if code == 6 {
            ConfigDr::_3300SPS
        } else {
            ConfigDr::Reserved7
        }
    }
}

/// Values for the `Cmode` comparator-mode bit (bit 4) of the `Config` register.
#[derive(Clone, Copy, Debug, PartialEq, Eq)]
pub enum ConfigCmode {
    /// Traditional comparator with hysteresis (chip default).
    Trad,
    /// Window comparator.
    Window,
}

impl ConfigCmode {
    /// The field's wire code.
    pub open spec fn spec_code(self) -> u16 {
        match self {
            ConfigCmode::Trad => 0,
            ConfigCmode::Window => 1,
        }
    }

    /// The field value a wire code denotes.
    pub open spec fn spec_from_code(code: u16) -> ConfigCmode {
        if code == 0 {
            ConfigCmode::Trad
        } else {
            ConfigCmode::Window
        }
    }

    /// Returns the wire code of this field value.
    pub fn code(self) -> (r: u16)
        ensures
            r == self.spec_code(),
            r < 2,
    {
        match self {
            ConfigCmode::Trad => 0,
            ConfigCmode::Window => 1,
        }
    }

    /// Reads a field value back from its wire code.
    pub fn from_code(code: u16) -> (r: ConfigCmode)
        ensures
            r == Self::spec_from_code(code),
    {
        if code == 0 {
            ConfigCmode::Trad
        } else {
            ConfigCmode::Window
        }
    }
}

/// Values for the `Cpol` comparator-polarity bit (bit 3) of the `Config` register.
#[derive(Clone, Copy, Debug, PartialEq, Eq)]
pub enum ConfigCpol {
    /// ALERT/RDY pin is low when active (chip default).
    Actvlow,
    /// ALERT/RDY pin is high when active.
    Actvhi,
}

impl ConfigCpol {
    /// The field's wire code.
    pub open spec fn spec_code(self) -> u16 {
        match self {
            ConfigCpol::Actvlow => 0,
            ConfigCpol::Actvhi => 1,
        }
    }

    /// The field value a wire code denotes.
    pub open spec fn spec_from_code(code: u16) -> ConfigCpol {
        if code == 0 {
            ConfigCpol::Actvlow
        } else {
            ConfigCpol::Actvhi
        }
    }

    /// Returns the wire code of this field value.
    pub fn code(self) -> (r: u16)
        ensures
            r == self.spec_code(),
            r < 2,
    {
        match self {
            ConfigCpol::Actvlow => 0,
            ConfigCpol::Actvhi => 1,
        }
    }

    /// Reads a field value back from its wire code.
    pub fn from_code(code: u16) -> (r: ConfigCpol)
        ensures
            r == Self::spec_from_code(code),
    {
        if code == 0 {
            ConfigCpol::Actvlow
        } else {
            ConfigCpol::Actvhi
        }
    }
}

/// Values for the `Clat` comparator-latch bit (bit 2) of the `Config` register.
#[derive(Clone, Copy, Debug, PartialEq, Eq)]
pub enum ConfigClat {
    /// Non-latching comparator (chip default).
    Nonlat,
    /// Latching comparator.
    Latch,
}

impl ConfigClat {
    /// The field's wire code.
    pub open spec fn spec_code(self) -> u16 {
        match self {
            ConfigClat::Nonlat => 0,
            ConfigClat::Latch => 1,
        }
    }

    /// The field value a wire code denotes.
    pub open spec fn spec_from_code(code: u16) -> ConfigClat {
        if code == 0 {
            ConfigClat::Nonlat
        } else {
            ConfigClat::Latch
        }
    }

    /// Returns the wire code of this field value.
    pub fn code(self) -> (r: u16)
        ensures
            r == self.spec_code(),
            r < 2,
    {
        match self {
            ConfigClat::Nonlat => 0,
            ConfigClat::Latch => 1,
        }
    }

    /// Reads a field value back from its wire code.
    pub fn from_code(code: u16) -> (r: ConfigClat)
        ensures
            r == Self::spec_from_code(code),
    {
        if code == 0 {
            ConfigClat::Nonlat
        } else {
            ConfigClat::Latch
        }
    }
}

/// Values for the `Cque` comparator-queue field (bits 1:0) of the `Config` register.
#[derive(Clone, Copy, Debug, PartialEq, Eq)]
pub enum ConfigCque {
    /// Assert ALERT/RDY after one out-of-range conversion.
    Conv1,
    /// Assert ALERT/RDY after two out-of-range conversions.
    Conv2,
    /// Assert ALERT/RDY after four out-of-range conversions.
    Conv4,
    /// Disable the comparator and drive ALERT/RDY high (chip default).
    Disabled,
}

impl ConfigCque {
    /// The field's wire code.
    pub open spec fn spec_code(self) -> u16 {
        match self {
            ConfigCque::Conv1 => 0,
            ConfigCque::Conv2 => 1,
            ConfigCque::Conv4 => 2,
            ConfigCque::Disabled => 3,
        }
    }

    /// The field value a wire code denotes.
    pub open spec fn spec_from_code(code: u16) -> ConfigCque {
        if code == 0 {
            ConfigCque::Conv1
        } else if code == 1 {
            ConfigCque::Conv2
        } else if code == 2 {
            ConfigCque::Conv4
        } else {
            ConfigCque::Disabled
        }
    }

    /// Returns the wire code of this field value.
    pub fn code(self) -> (r: u16)
        ensures
            r == self.spec_code(),
            r < 4,
    {
        match self {
            ConfigCque::Conv1 => 0,
            ConfigCque::Conv2 => 1,
            ConfigCque::Conv4 => 2,
            ConfigCque::Disabled => 3,
        }
    }

    /// Reads a field value back from its wire code.
    pub fn from_code(code: u16) -> (r: ConfigCque)
        ensures
            r == Self::spec_from_code(code),
    {
        if code == 0 {
            ConfigCque::Conv1
        } else if code == 1 {
            ConfigCque::Conv2
        } else if code == 2 {
            ConfigCque::Conv4
        } else {
            ConfigCque::Disabled
        }
    }
}

/// The structured value of the `Config` register: nine named fields that
/// together fill the 16-bit word, with no bit shared and no bit left out.
#[derive(Clone, Copy, Debug, PartialEq, Eq)]
pub struct Config {
    /// Operational status / start-conversion flag, bit 15.
    pub os: ConfigOs,
    /// Input multiplexer selection, bits 14:12.
    pub mux: ConfigMux,
    /// Programmable gain amplifier setting, bits 11:9.
    pub pga: ConfigPga,
    /// Operating mode, bit 8.
    pub mode: ConfigMode,
    /// Data rate, bits 7:5.
    pub dr: ConfigDr,
    /// Comparator mode, bit 4.
    pub cmode: ConfigCmode,
    /// Comparator polarity, bit 3.
    pub cpol: ConfigCpol,
    /// Comparator latch, bit 2.
    pub clat: ConfigClat,
    /// Comparator queue / disable, bits 1:0.
    pub cque: ConfigCque,
}

impl Config {
    /// The 16-bit word this configuration stands for: each field's code
    /// shifted to its documented offset.
    pub open spec fn spec_encode(self) -> u16 {
        (self.os.spec_code() << 15) | (self.mux.spec_code() << 12) | (self.pga.spec_code() << 9)
            | (self.mode.spec_code() << 8) | (self.dr.spec_code() << 5)
            | (self.cmode.spec_code() << 4) | (self.cpol.spec_code() << 3)
            | (self.clat.spec_code() << 2) | self.cque.spec_code()
    }

    /// The structured reading of a 16-bit `Config` word: each field taken
    /// from its documented offset and width.
    pub open spec fn spec_decode(word: u16) -> Config {
        Config {
            os: ConfigOs::spec_from_code((word >> 15) & 1),
            mux: ConfigMux::spec_from_code((word >> 12) & 7),
            pga: ConfigPga::spec_from_code((word >> 9) & 7),
            mode: ConfigMode::spec_from_code((word >> 8) & 1),
            dr: ConfigDr::spec_from_code((word >> 5) & 7),
            cmode: ConfigCmode::spec_from_code((word >> 4) & 1),
            cpol: ConfigCpol::spec_from_code((word >> 3) & 1),
            clat: ConfigClat::spec_from_code((word >> 2) & 1),
            cque: ConfigCque::spec_from_code(word & 3),
        }
    }

    /// Packs the nine fields into the 16-bit wire word.
    pub fn encode(self) -> (r: u16)
        ensures
            r == self.spec_encode(),
    {
        (self.os.code() << 15) | (self.mux.code() << 12) | (self.pga.code() << 9)
            | (self.mode.code() << 8) | (self.dr.code() << 5) | (self.cmode.code() << 4)
            | (self.cpol.code() << 3) | (self.clat.code() << 2) | self.cque.code()
    }

    /// Unpacks a 16-bit wire word into its nine fields.
    pub fn decode(word: u16) -> (r: Config)
        ensures
            r == Self::spec_decode(word),
    {
        Config {
            os: ConfigOs::from_code((word >> 15) & 1),
            mux: ConfigMux::from_code((word >> 12) & 7),
            pga: ConfigPga::from_code((word >> 9) & 7),
            mode: ConfigMode::from_code((word >> 8) & 1),
            dr: ConfigDr::from_code((word >> 5) & 7),
            cmode: ConfigCmode::from_code((word >> 4) & 1),
            cpol: ConfigCpol::from_code((word >> 3) & 1),
            clat: ConfigClat::from_code((word >> 2) & 1),
            cque: ConfigCque::from_code(word & 3),
        }
    }
}

/// Decoding undoes encoding: every field combination, the reserved gain and
/// data-rate codes included, comes back from the wire word unchanged.
pub proof fn lemma_config_decode_encode(c: Config)
    ensures
        Config::spec_decode(c.spec_encode()) == c,
{
    let o = c.os.spec_code();
    let m = c.mux.spec_code();
    let p = c.pga.spec_code();
    let md = c.mode.spec_code();
    let d = c.dr.spec_code();
    let cm = c.cmode.spec_code();
    let cp = c.cpol.spec_code();
    let cl = c.clat.spec_code();
    let cq = c.cque.spec_code();
    let w = c.spec_encode();
    assert(o < 2 && m < 8 && p < 8 && md < 2 && d < 8 && cm < 2 && cp < 2 && cl < 2 && cq < 4);
    assert((w >> 15) & 1 == o && (w >> 12) & 7 == m && (w >> 9) & 7 == p && (w >> 8) & 1 == md
        && (w >> 5) & 7 == d && (w >> 4) & 1 == cm && (w >> 3) & 1 == cp && (w >> 2) & 1 == cl
        && w & 3 == cq) by (bit_vector)
        requires
            w == (o << 15) | (m << 12) | (p << 9) | (md << 8) | (d << 5) | (cm << 4) | (cp << 3)
                | (cl << 2) | cq,
            o < 2,
            m < 8,
            p < 8,
            md < 2,
            d < 8,
            cm < 2,
            cp < 2,
            cl < 2,
            cq < 4,
    ;
    assert(ConfigOs::spec_from_code(o) == c.os);
    assert(ConfigMux::spec_from_code(m) == c.mux);
    assert(ConfigPga::spec_from_code(p) == c.pga);
    assert(ConfigMode::spec_from_code(md) == c.mode);
    assert(ConfigDr::spec_from_code(d) == c.dr);
    assert(ConfigCmode::spec_from_code(cm) == c.cmode);
    assert(ConfigCpol::spec_from_code(cp) == c.cpol);
    assert(ConfigClat::spec_from_code(cl) == c.clat);
    assert(ConfigCque::spec_from_code(cq) == c.cque);
}

/// Encoding undoes decoding: every 16-bit word, whatever bits it holds,
/// is rebuilt exactly from its decoded fields, so the mapping is lossless
/// in both directions.
pub proof fn lemma_config_encode_decode(word: u16)
    ensures
        Config::spec_decode(word).spec_encode() == word,
{
    let o = (word >> 15) & 1;
    let m = (word >> 12) & 7;
    let p = (word >> 9) & 7;
    let md = (word >> 8) & 1;
    let d = (word >> 5) & 7;
    let cm = (word >> 4) & 1;
    let cp = (word >> 3) & 1;
    let cl = (word >> 2) & 1;
    let cq = word & 3;
    assert(o < 2 && m < 8 && p < 8 && md < 2 && d < 8 && cm < 2 && cp < 2 && cl < 2 && cq < 4)
        by (bit_vector)
        requires
            o == (word >> 15) & 1,
            m == (word >> 12) & 7,
            p == (word >> 9) & 7,
            md == (word >> 8) & 1,
            d == (word >> 5) & 7,
            cm == (word >> 4) & 1,
            cp == (word >> 3) & 1,
            cl == (word >> 2) & 1,
            cq == word & 3,
    ;
    assert(ConfigOs::spec_from_code(o).spec_code() == o);
    assert(ConfigMux::spec_from_code(m).spec_code() == m);
    assert(ConfigPga::spec_from_code(p).spec_code() == p);
    assert(ConfigMode::spec_from_code(md).spec_code() == md);
    assert(ConfigDr::spec_from_code(d).spec_code() == d);
    assert(ConfigCmode::spec_from_code(cm).spec_code() == cm);
    assert(ConfigCpol::spec_from_code(cp).spec_code() == cp);
    assert(ConfigClat::spec_from_code(cl).spec_code() == cl);
    assert(ConfigCque::spec_from_code(cq).spec_code() == cq);
    assert((o << 15) | (m << 12) | (p << 9) | (md << 8) | (d << 5) | (cm << 4) | (cp << 3)
        | (cl << 2) | cq == word) by (bit_vector)
        requires
            o == (word >> 15) & 1,
            m == (word >> 12) & 7,
            p == (word >> 9) & 7,
            md == (word >> 8) & 1,
            d == (word >> 5) & 7,
            cm == (word >> 4) & 1,
            cp == (word >> 3) & 1,
            cl == (word >> 2) & 1,
            cq == word & 3,
    ;
}

} // verus!
