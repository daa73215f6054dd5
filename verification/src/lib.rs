//! Driver for the ADS1015/ADS1115 family of analog-to-digital converters.
//!
//! The chip is reached over a two-wire serial bus. The library builds the
//! 16-bit `Config` register word that triggers a single-shot conversion,
//! drives the write/delay/read exchange through a caller-supplied bus
//! handle, and scales the raw sample to an exact voltage.
use vstd::prelude::*;

pub mod bus;
pub mod error;
pub mod reg;

use crate::bus::I2cBus;
use crate::error::BusError;
use crate::error::Error;
use crate::reg::Config;
use crate::reg::ConfigClat;
use crate::reg::ConfigCmode;
use crate::reg::ConfigCpol;
use crate::reg::ConfigCque;
use crate::reg::ConfigDr;
use crate::reg::ConfigMode;
use crate::reg::ConfigMux;
use crate::reg::ConfigOs;
use crate::reg::ConfigPga;
use crate::reg::Register;

verus! {

/// An electric potential, held exactly as an integer count of 10^-10 volt
/// steps. Every voltage-per-step constant of the chip's gain table is a
/// whole number of such steps, so scaled samples lose nothing.
#[derive(Clone, Copy, Debug, PartialEq, Eq, Structural)]
pub struct Voltage {
    /// The potential in units of 10^-10 volts (tenths of a nanovolt).
    pub tenth_nanovolts: i64,
}

/// The chip model a driver talks to: the two differ in effective
/// resolution and in how long a single-shot conversion takes.
#[derive(Clone, Copy, Debug, PartialEq, Eq)]
pub enum Model {
    /// The 12-bit model: 1 ms conversion delay, samples carry 4 low
    /// padding bits that are shifted away before scaling.
    ADS1015,
    /// The 16-bit model: 8 ms conversion delay, samples use the full word.
    ADS1115,
}

/// A channel on the ADS1x15 that carries an analog electric signal.
#[derive(Clone, Copy, Debug, PartialEq, Eq)]
pub enum Channel {
    /// The channel corresponding to the `A0` pin.
    A0,
    /// The channel corresponding to the `A1` pin.
    A1,
    /// The channel corresponding to the `A2` pin.
    A2,
    /// The channel corresponding to the `A3` pin.
    A3,
}

/// Configuration for the gain setting of the device.
///
/// The gain setting sets the measurable range, though voltages above the
/// chip's supply pin cannot be measured whatever the range says.
#[derive(Clone, Copy, Debug, PartialEq, Eq)]
#[allow(non_camel_case_types)]
pub enum Gain {
    /// The measurable range is ±6.144V.
    Within6_144V,
    /// The measurable range is ±4.096V.
    Within4_096V,
    /// The measurable range is ±2.048V.
    Within2_048V,
    /// The measurable range is ±1.024V.
    Within1_024V,
    /// The measurable range is ±0.512V.
    Within0_512V,
    /// The measurable range is ±0.256V.
    Within0_256V,
}

impl Channel {
    /// The multiplexer field value that selects this channel, measured
    /// single-ended against ground.
    pub open spec fn spec_as_reg_config_mux_single(self) -> ConfigMux {
        match self {
            Channel::A0 => ConfigMux::Single0,
            Channel::A1 => ConfigMux::Single1,
            Channel::A2 => ConfigMux::Single2,
            Channel::A3 => ConfigMux::Single3,
        }
    }

    /// Converts this channel into a valid `Config` multiplexer field value,
    /// selecting single-ended measurement of the channel's pin.
    pub fn as_reg_config_mux_single(&self) -> (r: ConfigMux)
        ensures
            r == self.spec_as_reg_config_mux_single(),
    {
        match *self {
            Channel::A0 => ConfigMux::Single0,
            Channel::A1 => ConfigMux::Single1,
            Channel::A2 => ConfigMux::Single2,
            Channel::A3 => ConfigMux::Single3,
        }
    }
}

/// Each channel lands on its own multiplexer code, and all four codes lie
/// in the single-ended family: the channel-to-mux mapping is a bijection
/// between the four channels and the four single-ended codes.
pub proof fn lemma_channel_mux_single_bijective(a: Channel, b: Channel)
    ensures
        a.spec_as_reg_config_mux_single().spec_code() >= 4,
        a.spec_as_reg_config_mux_single() == b.spec_as_reg_config_mux_single() ==> a == b,
{
}

impl Gain {
    /// The programmable-gain-amplifier field value that selects this range.
    pub open spec fn spec_as_reg_config_pga(self) -> ConfigPga {
        match self {
            Gain::Within6_144V => ConfigPga::_6_144V,
            Gain::Within4_096V => ConfigPga::_4_096V,
            Gain::Within2_048V => ConfigPga::_2_048V,
            Gain::Within1_024V => ConfigPga::_1_024V,
            Gain::Within0_512V => ConfigPga::_0_512V,
            Gain::Within0_256V => ConfigPga::_0_256V,
        }
    }

    /// Converts this gain into a valid `Config` amplifier field value.
    pub fn as_reg_config_pga(&self) -> (r: ConfigPga)
        ensures
            r == self.spec_as_reg_config_pga(),
    {
        match *self {
            Gain::Within6_144V => ConfigPga::_6_144V,
            Gain::Within4_096V => ConfigPga::_4_096V,
            Gain::Within2_048V => ConfigPga::_2_048V,
            Gain::Within1_024V => ConfigPga::_1_024V,
            Gain::Within0_512V => ConfigPga::_0_512V,
            Gain::Within0_256V => ConfigPga::_0_256V,
        }
    }
}

impl Model {
    /// How long a single-shot conversion takes on this model, in
    /// milliseconds.
    pub open spec fn spec_conversion_delay_ms(self) -> u64 {
        match self {
            Model::ADS1015 => 1,
            Model::ADS1115 => 8,
        }
    }

    /// Returns the fixed delay between triggering a conversion and the
    /// result register holding a valid sample, in milliseconds.
    pub fn conversion_delay(&self) -> (r: u64)
        ensures
            r == self.spec_conversion_delay_ms(),
    {
        match *self {
            Model::ADS1015 => 1,
            Model::ADS1115 => 8,
        }
    }

    /// The signed sample after the model's right shift: the 12-bit model
    /// discards its four low padding bits (an arithmetic shift, so a floor
    /// division by 16), the 16-bit model keeps the whole word.
    pub open spec fn spec_shifted_sample(self, raw: i16) -> int {
        match self {
            Model::ADS1015 => raw as int / 16,
            Model::ADS1115 => raw as int,
        }
    }

    /// Volts per least-significant bit of a post-shift sample, in 10^-10 V
    /// steps: the chip's full-scale table, one exact constant per model and
    /// gain pair.
    pub open spec fn spec_per_lsb_tenth_nanovolts(self, gain: Gain) -> int {
        match self {
            Model::ADS1015 => match gain {
                Gain::Within6_144V => 30_000_000,  // 3.0000e-3 V
                Gain::Within4_096V => 20_000_000,  // 2.0000e-3 V
                Gain::Within2_048V => 10_000_000,  // 1.0000e-3 V
                Gain::Within1_024V => 5_000_000,   // 5.0000e-4 V
                Gain::Within0_512V => 2_500_000,   // 2.5000e-4 V
                Gain::Within0_256V => 1_250_000,   // 1.2500e-4 V
            },
            Model::ADS1115 => match gain {
                Gain::Within6_144V => 1_875_000,   // 1.8750e-4 V
                Gain::Within4_096V => 1_250_000,   // 1.2500e-4 V
                Gain::Within2_048V => 625_000,     // 6.2500e-5 V
                Gain::Within1_024V => 312_500,     // 3.1250e-5 V
                Gain::Within0_512V => 156_250,     // 1.5625e-5 V
                Gain::Within0_256V => 78_125,      // 7.8125e-6 V
            },
        }
    }

    /// A post-shift sample scaled to 10^-10 V steps.
    pub open spec fn spec_scaled_tenth_nanovolts(self, gain: Gain, shifted: int) -> int {
        shifted * self.spec_per_lsb_tenth_nanovolts(gain)
    }

    /// The voltage a raw wire sample stands for on this model at the given
    /// gain: shift, then scale.
    pub open spec fn spec_convert_raw_voltage(self, gain: Gain, raw: i16) -> int {
        self.spec_scaled_tenth_nanovolts(gain, self.spec_shifted_sample(raw))
    }

    /// Returns the model's voltage-per-LSB constant for the given gain, in
    /// 10^-10 V steps.
    pub fn per_lsb_tenth_nanovolts(&self, gain: Gain) -> (r: i64)
        ensures
            r == self.spec_per_lsb_tenth_nanovolts(gain),
            0 < r <= 30_000_000,
    {
        match *self {
            Model::ADS1015 => match gain {
                Gain::Within6_144V => 30_000_000,
                Gain::Within4_096V => 20_000_000,
                Gain::Within2_048V => 10_000_000,
                Gain::Within1_024V => 5_000_000,
                Gain::Within0_512V => 2_500_000,
                Gain::Within0_256V => 1_250_000,
            },
            Model::ADS1115 => match gain {
                Gain::Within6_144V => 1_875_000,
                Gain::Within4_096V => 1_250_000,
                Gain::Within2_048V => 625_000,
                Gain::Within1_024V => 312_500,
                Gain::Within0_512V => 156_250,
                Gain::Within0_256V => 78_125,
            },
        }
    }

    /// Applies the model's right shift to a raw sample.
    fn shifted_sample(&self, raw: i16) -> (r: i64)
        ensures
            r == self.spec_shifted_sample(raw),
            -32768 <= r <= 32767,
    {
        match *self {
            Model::ADS1115 => raw as i64,
            Model::ADS1015 => {
                // Bias the sample into 0..=65535 so the shift is a plain
                // unsigned division, then take the bias back out.
                let biased: u64 = (raw as i64 + 32768) as u64;
                let q: u64 = biased / 16;
                proof {
                    vstd::arithmetic::div_mod::lemma_hoist_over_denominator(
                        raw as int,
                        2048,
                        16nat,
                    );
                }
                (q as i64) - 2048
            }
        }
    }

    /// Scales a raw wire sample to a voltage: the model's right shift, then
    /// multiplication by the voltage-per-LSB constant of (model, gain).
    pub fn convert_raw_voltage(&self, gain: Gain, raw: i16) -> (r: Voltage)
        ensures
            r.tenth_nanovolts == self.spec_convert_raw_voltage(gain, raw),
    {
        let shifted: i64 = self.shifted_sample(raw);
        let per: i64 = self.per_lsb_tenth_nanovolts(gain);
        proof {
            assert(-32768 * 30_000_000 <= shifted * per <= 32767 * 30_000_000)
                by (nonlinear_arith)
                requires
                    -32768 <= shifted <= 32767,
                    0 < per <= 30_000_000,
            ;
        }
        Voltage { tenth_nanovolts: shifted * per }
    }
}

/// A zero raw sample scales to zero volts, for every model and gain pair.
pub proof fn lemma_scale_zero(m: Model, g: Gain)
    ensures
        m.spec_convert_raw_voltage(g, 0) == 0,
{
    assert(0int / 16 == 0);
}

/// A post-shift sample of +1 scales to exactly the voltage-per-LSB constant
/// of the (model, gain) pair, and -1 to its negation.
pub proof fn lemma_scale_unit(m: Model, g: Gain)
    ensures
        m.spec_scaled_tenth_nanovolts(g, 1) == m.spec_per_lsb_tenth_nanovolts(g),
        m.spec_scaled_tenth_nanovolts(g, -1) == -m.spec_per_lsb_tenth_nanovolts(g),
{
}

/// The signed 16-bit value that two big-endian bytes spell: the high byte's
/// weight is 256, and values at 0x8000 and above wrap negative.
pub open spec fn spec_be_i16(hi: u8, lo: u8) -> int {
    if hi < 128 {
        hi * 256 + lo
    } else {
        hi * 256 + lo - 65536
    }
}

/// Reads a big-endian signed 16-bit sample out of its two wire bytes.
pub fn be_i16(hi: u8, lo: u8) -> (r: i16)
    ensures
        r as int == spec_be_i16(hi, lo),
{
    let v: i32 = (hi as i32) * 256 + (lo as i32);
    if v < 32768 {
        v as i16
    } else {
        (v - 65536) as i16
    }
}

/// An interface to an ADS1x15 device that controls the device over a
/// two-wire bus handle it owns exclusively.
#[derive(Debug)]
pub struct Ads1x15<D> {
    device: D,
    gain: Gain,
    model: Model,
}

impl<D> Ads1x15<D> {
    /// The current gain setting, as contracts see it.
    pub closed spec fn spec_gain(&self) -> Gain {
        self.gain
    }

    /// The fixed model tag, as contracts see it.
    pub closed spec fn spec_model(&self) -> Model {
        self.model
    }

    /// The owned bus handle, as contracts see it.
    pub closed spec fn spec_device(&self) -> D {
        self.device
    }

    /// Creates a new interface to an ADS1015 device using the supplied bus
    /// handle, with the widest measurable range seeded as the gain.
    pub fn new_ads1015(device: D) -> (r: Self)
        ensures
            r.spec_model() == Model::ADS1015,
            r.spec_gain() == Gain::Within6_144V,
            r.spec_device() == device,
    {
        let gain = Gain::Within6_144V;
        let model = Model::ADS1015;

        Ads1x15 { device, gain, model }
    }

    /// Creates a new interface to an ADS1115 device using the supplied bus
    /// handle, with the widest measurable range seeded as the gain.
    pub fn new_ads1115(device: D) -> (r: Self)
        ensures
            r.spec_model() == Model::ADS1115,
            r.spec_gain() == Gain::Within6_144V,
            r.spec_device() == device,
    {
        let gain = Gain::Within6_144V;
        let model = Model::ADS1115;

        Ads1x15 { device, gain, model }
    }

    /// Returns the current gain setting of the device.
    pub fn gain(&self) -> (r: Gain)
        ensures
            r == self.spec_gain(),
    {
        self.gain
    }

    /// Changes the gain setting of the device. The change is pure driver
    /// state: the bus handle is left untouched, and the new setting takes
    /// effect on the next read.
    pub fn set_gain(&mut self, gain: Gain)
        ensures
            final(self).spec_gain() == gain,
            final(self).spec_model() == old(self).spec_model(),
            final(self).spec_device() == old(self).spec_device(),
    {
        self.gain = gain;
    }
}

/// The `Config` word of one single-shot request: start a conversion, the
/// given channel measured single-ended, the amplifier at the given gain,
/// single-shot mode, the fastest data rate, and the comparator disabled
/// with its pin driven high.
pub open spec fn spec_single_shot_word(channel: Channel, gain: Gain) -> u16 {
    (Config {
        os: ConfigOs::Single,
        mux: channel.spec_as_reg_config_mux_single(),
        pga: gain.spec_as_reg_config_pga(),
        mode: ConfigMode::Single,
        dr: ConfigDr::_3300SPS,
        cmode: ConfigCmode::Trad,
        cpol: ConfigCpol::Actvlow,
        clat: ConfigClat::Nonlat,
        cque: ConfigCque::Disabled,
    }).spec_encode()
}

/// Builds the three-byte frame that triggers a single-shot conversion: the
/// `Config` register's address, then the single-shot word for (channel,
/// gain) high byte first — the chip's documented register byte order.
pub fn single_shot_frame(channel: Channel, gain: Gain) -> (r: [u8; 3])
    ensures
        r[0] == Register::Config.spec_address(),
        r[1] as u16 == spec_single_shot_word(channel, gain) >> 8,
        r[2] as u16 == spec_single_shot_word(channel, gain) & 0xff,
{
    let config = Config {
        os: ConfigOs::Single,
        mux: channel.as_reg_config_mux_single(),
        pga: gain.as_reg_config_pga(),
        mode: ConfigMode::Single,
        dr: ConfigDr::_3300SPS,
        cmode: ConfigCmode::Trad,
        cpol: ConfigCpol::Actvlow,
        clat: ConfigClat::Nonlat,
        cque: ConfigCque::Disabled,
    };
    let word = config.encode();
    proof {
        assert(word >> 8 < 256 && word & 0xff < 256) by (bit_vector);
    }
    [Register::Config.address(), (word >> 8) as u8, (word & 0xff) as u8]
}

impl<D: I2cBus> Ads1x15<D> {
    /// One single-shot transaction: write the `Config` word, wait out the
    /// model's conversion delay, then read and scale the sample. A bus
    /// failure at any step ends the exchange there and carries the
    /// transport's error out.
    fn read_single_ended_impl(&mut self, channel: Channel) -> (r: Result<Voltage, BusError>)
        ensures
            final(self).spec_gain() == old(self).spec_gain(),
            final(self).spec_model() == old(self).spec_model(),
            (r matches Ok(v) ==> exists|raw: i16|
                v.tenth_nanovolts == old(self).spec_model().spec_convert_raw_voltage(
                    old(self).spec_gain(),
                    raw,
                )),
    {
        let buf: [u8; 3] = single_shot_frame(channel, self.gain);
        match self.device.write(&buf) {
            Ok(_) => {}
            Err(e) => {
                return Err(e);
            }
        }

        let delay = self.model.conversion_delay();
        self.device.delay_ms(delay);

        match self.device.smbus_write_byte(Register::Convert.address()) {
            Ok(_) => {}
            Err(e) => {
                return Err(e);
            }
        }
        let bytes: [u8; 2] = match self.device.read() {
            Ok(b) => b,
            Err(e) => {
                return Err(e);
            }
        };
        let raw = be_i16(bytes[0], bytes[1]);

        Ok(self.model.convert_raw_voltage(self.gain, raw))
    }

    /// Reads the single-ended voltage of one of the input channels.
    ///
    /// The returned value is the electric potential measured on the
    /// specified channel. The driver's own state — gain and model — is the
    /// same after the call whether the exchange succeeded or failed, and
    /// any voltage handed back is a raw sample put through this model's
    /// shift-and-scale conversion at the current gain. The bytes that
    /// trigger the conversion are built by [`single_shot_frame`] from the
    /// requested channel and that gain, under its contract.
    pub fn read_single_ended(&mut self, channel: Channel) -> (r: Result<Voltage, Error>)
        ensures
            final(self).spec_gain() == old(self).spec_gain(),
            final(self).spec_model() == old(self).spec_model(),
            (r matches Ok(v) ==> exists|raw: i16|
                v.tenth_nanovolts == old(self).spec_model().spec_convert_raw_voltage(
                    old(self).spec_gain(),
                    raw,
                )),
            (r matches Err(e) ==> e is Bus),
    {
        match self.read_single_ended_impl(channel) {
            Ok(v) => Ok(v),
            Err(e) => Err(Error::Bus(e)),
        }
    }
}

} // verus!
