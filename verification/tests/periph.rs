//! Tests for the clock configuration builder and the SPI/I2C/GPIO
//! bookkeeping.

use ht32f1yyy_hal::ckcu::{Ckcu, CkoutSrc};
use ht32f1yyy_hal::gpio::GpioCurrent;
use ht32f1yyy_hal::i2c;
use ht32f1yyy_hal::spi;
use ht32f1yyy_hal::time::{khz, mhz, Hertz};

#[test]
fn hertz_constructors() {
    assert_eq!(Hertz::from_raw(125).raw(), 125);
    assert_eq!(khz(32).raw(), 32_000);
    assert_eq!(mhz(48).raw(), 48_000_000);
}

#[test]
fn clock_configuration_builder() {
    let ckcu = Ckcu::new();
    let cfg = ckcu.configuration;
    assert_eq!(cfg.ck_sys, None);
    let cfg = cfg
        .use_hse(mhz(8))
        .ck_sys(mhz(72))
        .ck_usb(mhz(48))
        .hclk(mhz(72))
        .ck_adc_ip(mhz(9))
        .use_lse(Hertz::from_raw(32_768))
        .ckout(CkoutSrc::Hclk);
    assert_eq!(cfg.hse, Some(Hertz::from_raw(8_000_000)));
    assert_eq!(cfg.ck_sys, Some(Hertz::from_raw(72_000_000)));
    assert_eq!(cfg.ck_usb, Some(Hertz::from_raw(48_000_000)));
    assert_eq!(cfg.hclk, Some(Hertz::from_raw(72_000_000)));
    assert_eq!(cfg.ck_adc_ip, Some(Hertz::from_raw(9_000_000)));
    assert_eq!(cfg.lse, Some(Hertz::from_raw(32_768)));
    assert_eq!(cfg.ckout, Some(CkoutSrc::Hclk));
}

#[test]
fn builder_setters_touch_only_their_field() {
    let base = Ckcu::new().configuration;
    let cfg = base.ck_usb(mhz(48));
    assert_eq!(cfg.hse, None);
    assert_eq!(cfg.ck_sys, None);
    assert_eq!(cfg.hclk, None);
    assert_eq!(cfg.ckout, None);
}

#[test]
fn gpio_current_encoding() {
    assert_eq!(GpioCurrent::MA4.to_bits(), 0);
    assert_eq!(GpioCurrent::MA8.to_bits(), 1);
}

#[test]
fn spi_listen_and_unlisten() {
    let mut s = spi::Spi {
        regs: spi::SpiRegisters {
            ier: spi::SpiIer {
                mfien: false,
                roien: false,
                wcien: false,
                rxbneien: false,
                txeien: false,
                txbeien: false,
            },
        },
    };
    s.listen(spi::Event::RxBufferNotEmpty);
    s.listen(spi::Event::TxEmpty);
    assert!(s.regs.ier.rxbneien);
    assert!(s.regs.ier.txeien);
    assert!(!s.regs.ier.mfien);
    s.unlisten(spi::Event::RxBufferNotEmpty);
    assert!(!s.regs.ier.rxbneien);
    assert!(s.regs.ier.txeien);
    let regs = s.free();
    assert!(regs.ier.txeien);
}

#[test]
fn i2c_listen_and_unlisten() {
    let mut c = i2c::I2c::<i2c::SevenBitAddress> {
        regs: i2c::I2cRegisters {
            ier: i2c::I2cIer {
                rxbfie: false,
                txdeie: false,
                rxdneie: false,
                buserrie: false,
                rxnackie: false,
                arblosie: false,
                stoie: false,
                staie: false,
            },
            cr: i2c::I2cCr { adrm: false, i2cen: true },
        },
        addressing_mode: core::marker::PhantomData,
    };
    c.listen(i2c::Event::BusError);
    c.listen(i2c::Event::ArbitrationLoss);
    assert!(c.regs.ier.buserrie);
    assert!(c.regs.ier.arblosie);
    c.unlisten(i2c::Event::BusError);
    assert!(!c.regs.ier.buserrie);
    assert!(c.regs.ier.arblosie);
}

#[test]
fn i2c_addressing_mode_switch() {
    let c = i2c::I2c::<i2c::SevenBitAddress> {
        regs: i2c::I2cRegisters {
            ier: i2c::I2cIer {
                rxbfie: false,
                txdeie: false,
                rxdneie: false,
                buserrie: false,
                rxnackie: false,
                arblosie: false,
                stoie: false,
                staie: false,
            },
            cr: i2c::I2cCr { adrm: false, i2cen: true },
        },
        addressing_mode: core::marker::PhantomData,
    };
    let ten = c.set_10bit_address();
    assert!(ten.regs.cr.adrm);
    assert!(ten.regs.cr.i2cen);
    let seven = ten.set_7bit_address();
    assert!(!seven.regs.cr.adrm);
    let regs = seven.free();
    assert!(regs.cr.i2cen);
}
