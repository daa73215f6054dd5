use std::cell::RefCell;
use std::rc::Rc;

use ads1x15::bus::I2cBus;
use ads1x15::error::BusError;
use ads1x15::error::Error;
use ads1x15::Ads1x15;
use ads1x15::Channel;
use ads1x15::Gain;
use ads1x15::Model;
use ads1x15::Voltage;
use ads1x15::be_i16;

/// A scripted bus: records every call in order and answers reads with a
/// fixed pair of bytes.
struct StubBus {
    log: Rc<RefCell<Vec<String>>>,
    fail_write: bool,
    read_bytes: [u8; 2],
}

impl StubBus {
    fn new(log: &Rc<RefCell<Vec<String>>>, read_bytes: [u8; 2]) -> StubBus {
        StubBus { log: log.clone(), fail_write: false, read_bytes }
    }
}

impl I2cBus for StubBus {
    fn write(&mut self, data: &[u8; 3]) -> Result<(), BusError> {
        self.log.borrow_mut().push(format!(
            "write {:02x} {:02x} {:02x}",
            data[0], data[1], data[2]
        ));
        if self.fail_write {
            Err(BusError { message: "write failed".to_string() })
        } else {
            Ok(())
        }
    }

    fn smbus_write_byte(&mut self, value: u8) -> Result<(), BusError> {
        self.log.borrow_mut().push(format!("pointer {:02x}", value));
        Ok(())
    }

    fn read(&mut self) -> Result<[u8; 2], BusError> {
        self.log.borrow_mut().push("read".to_string());
        Ok(self.read_bytes)
    }

    fn delay_ms(&mut self, ms: u64) {
        self.log.borrow_mut().push(format!("delay {}", ms));
    }
}

fn all_gains() -> Vec<Gain> {
    vec![
        Gain::Within6_144V,
        Gain::Within4_096V,
        Gain::Within2_048V,
        Gain::Within1_024V,
        Gain::Within0_512V,
        Gain::Within0_256V,
    ]
}

fn per_lsb(model: Model, gain: Gain) -> i64 {
    model.convert_raw_voltage(gain, if model == Model::ADS1015 { 16 } else { 1 }).tenth_nanovolts
}

#[test]
fn constructors_seed_widest_range() {
    let log = Rc::new(RefCell::new(Vec::new()));
    let dac = Ads1x15::new_ads1015(StubBus::new(&log, [0, 0]));
    assert_eq!(dac.gain(), Gain::Within6_144V);
    let dac = Ads1x15::new_ads1115(StubBus::new(&log, [0, 0]));
    assert_eq!(dac.gain(), Gain::Within6_144V);
    assert!(log.borrow().is_empty());
}

#[test]
fn set_gain_is_pure_driver_state() {
    let log = Rc::new(RefCell::new(Vec::new()));
    let mut dac = Ads1x15::new_ads1115(StubBus::new(&log, [0, 0]));
    dac.set_gain(Gain::Within0_512V);
    assert_eq!(dac.gain(), Gain::Within0_512V);
    dac.set_gain(Gain::Within1_024V);
    assert_eq!(dac.gain(), Gain::Within1_024V);
    assert!(log.borrow().is_empty());
}

#[test]
fn conversion_delays_differ_by_model() {
    assert_eq!(Model::ADS1015.conversion_delay(), 1);
    assert_eq!(Model::ADS1115.conversion_delay(), 8);
}

#[test]
fn scaling_zero_gives_zero_for_every_pair() {
    for model in [Model::ADS1015, Model::ADS1115] {
        for gain in all_gains() {
            assert_eq!(
                model.convert_raw_voltage(gain, 0),
                Voltage { tenth_nanovolts: 0 }
            );
        }
    }
}

#[test]
fn scaling_one_post_shift_count_gives_the_table_constant() {
    let low_res: Vec<i64> = all_gains()
        .into_iter()
        .map(|g| per_lsb(Model::ADS1015, g))
        .collect();
    assert_eq!(
        low_res,
        vec![30_000_000, 20_000_000, 10_000_000, 5_000_000, 2_500_000, 1_250_000]
    );
    let high_res: Vec<i64> = all_gains()
        .into_iter()
        .map(|g| per_lsb(Model::ADS1115, g))
        .collect();
    assert_eq!(
        high_res,
        vec![1_875_000, 1_250_000, 625_000, 312_500, 156_250, 78_125]
    );
}

#[test]
fn scaling_minus_one_negates_the_table_constant() {
    for gain in all_gains() {
        assert_eq!(
            Model::ADS1115.convert_raw_voltage(gain, -1).tenth_nanovolts,
            -per_lsb(Model::ADS1115, gain)
        );
        assert_eq!(
            Model::ADS1015.convert_raw_voltage(gain, -16).tenth_nanovolts,
            -per_lsb(Model::ADS1015, gain)
        );
    }
}

#[test]
fn low_res_shift_is_arithmetic() {
    // -1 keeps its sign through the four-bit shift: floor, not truncation.
    assert_eq!(
        Model::ADS1015.convert_raw_voltage(Gain::Within6_144V, -1).tenth_nanovolts,
        -30_000_000
    );
    assert_eq!(
        Model::ADS1015.convert_raw_voltage(Gain::Within6_144V, -17).tenth_nanovolts,
        -60_000_000
    );
    assert_eq!(
        Model::ADS1015.convert_raw_voltage(Gain::Within6_144V, 15).tenth_nanovolts,
        0
    );
}

#[test]
fn big_endian_samples_are_signed() {
    assert_eq!(be_i16(0x7F, 0xFF), 32767);
    assert_eq!(be_i16(0x80, 0x00), -32768);
    assert_eq!(be_i16(0xFF, 0xFF), -1);
    assert_eq!(be_i16(0x0F, 0xF0), 4080);
    assert_eq!(be_i16(0x00, 0x00), 0);
}

#[test]
fn channel_mux_codes_are_four_distinct_single_ended_codes() {
    let channels = [Channel::A0, Channel::A1, Channel::A2, Channel::A3];
    let codes: Vec<u16> = channels
        .iter()
        .map(|c| c.as_reg_config_mux_single().code())
        .collect();
    assert_eq!(codes, vec![0b100, 0b101, 0b110, 0b111]);
    for (i, a) in codes.iter().enumerate() {
        for (j, b) in codes.iter().enumerate() {
            assert_eq!(a == b, i == j);
        }
    }
}

#[test]
fn gain_pga_codes_match_the_datasheet() {
    let codes: Vec<u16> = all_gains()
        .into_iter()
        .map(|g| g.as_reg_config_pga().code())
        .collect();
    assert_eq!(codes, vec![0b000, 0b001, 0b010, 0b011, 0b100, 0b101]);
}

#[test]
fn single_shot_frame_sends_the_word_big_endian() {
    assert_eq!(
        ads1x15::single_shot_frame(Channel::A0, Gain::Within2_048V),
        [0x01, 0xC5, 0xC3]
    );
    assert_eq!(
        ads1x15::single_shot_frame(Channel::A0, Gain::Within6_144V),
        [0x01, 0xC1, 0xC3]
    );
    assert_eq!(
        ads1x15::single_shot_frame(Channel::A2, Gain::Within6_144V),
        [0x01, 0xE1, 0xC3]
    );
    assert_eq!(
        ads1x15::single_shot_frame(Channel::A3, Gain::Within0_256V),
        [0x01, 0xFB, 0xC3]
    );
}

#[test]
fn read_single_ended_high_res_full_scale() {
    let log = Rc::new(RefCell::new(Vec::new()));
    let mut dac = Ads1x15::new_ads1115(StubBus::new(&log, [0x7F, 0xFF]));
    dac.set_gain(Gain::Within2_048V);
    let volts = dac.read_single_ended(Channel::A0).unwrap();
    // 32767 sample counts at 6.25e-5 V each: 2.0479375 V exactly.
    assert_eq!(volts, Voltage { tenth_nanovolts: 20_479_375_000 });
    assert_eq!(
        *log.borrow(),
        vec![
            "write 01 c5 c3".to_string(),
            "delay 8".to_string(),
            "pointer 00".to_string(),
            "read".to_string(),
        ]
    );
}

#[test]
fn read_single_ended_low_res_shifts_before_scaling() {
    let log = Rc::new(RefCell::new(Vec::new()));
    // 0x0FF0 is 4080 before the shift, 255 after; 255 × 3.0e-3 V = 0.765 V.
    let mut dac = Ads1x15::new_ads1015(StubBus::new(&log, [0x0F, 0xF0]));
    let volts = dac.read_single_ended(Channel::A0).unwrap();
    assert_eq!(volts, Voltage { tenth_nanovolts: 7_650_000_000 });
    assert_eq!(
        *log.borrow(),
        vec![
            "write 01 c1 c3".to_string(),
            "delay 1".to_string(),
            "pointer 00".to_string(),
            "read".to_string(),
        ]
    );
}

#[test]
fn read_single_ended_selects_the_requested_channel() {
    let log = Rc::new(RefCell::new(Vec::new()));
    let mut dac = Ads1x15::new_ads1115(StubBus::new(&log, [0x00, 0x01]));
    dac.read_single_ended(Channel::A2).unwrap();
    // Mux code 0b110 for A2 sits in bits 14:12 of the high byte.
    assert_eq!(log.borrow()[0], "write 01 e1 c3".to_string());
}

#[test]
fn write_failure_aborts_before_any_read() {
    let log = Rc::new(RefCell::new(Vec::new()));
    let mut bus = StubBus::new(&log, [0x7F, 0xFF]);
    bus.fail_write = true;
    let mut dac = Ads1x15::new_ads1115(bus);
    dac.set_gain(Gain::Within2_048V);
    let result = dac.read_single_ended(Channel::A0);
    assert_eq!(
        result,
        Err(Error::Bus(BusError { message: "write failed".to_string() }))
    );
    // The failed write is the only bus interaction: no delay, no pointer
    // write, no read, and the handle stays usable.
    assert_eq!(*log.borrow(), vec!["write 01 c5 c3".to_string()]);
    assert_eq!(dac.gain(), Gain::Within2_048V);
}
