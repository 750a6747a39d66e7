//! Clock Control Unit + Reset Control Unit: the clock-tree configuration
//! builder.
//!
//! Only the configuration bookkeeping lives here.  Deriving the divider
//! settings and applying them to the clock-control registers is a closed-form
//! numeric calculation on the hardware side of the crate boundary.

use crate::time::Hertz;
use vstd::prelude::*;

verus! {

/// All clocks that can be output via CKOUT.
#[derive(Debug, Clone, Copy, PartialEq, Eq, Structural)]
pub enum CkoutSrc {
    /// Output the CK_REF, no prescaler
    CkRef,
    /// Output the HCLK, divided by 16
    Hclk,
    /// Output the CK_SYS, divided by 16
    CkSys,
    /// Output the CK_HSE, divided by 16
    CkHse,
    /// Output the CK_HSI, divided by 16
    CkHsi,
    /// Output the CK_LSE, no prescaler
    CkLse,
    /// Output the CK_LSI, no prescaler
    CkLsi,
}

/// The targeted values for the clock tree.  Each field is optional; an unset
/// field lets the freeze step pick a default.
#[derive(Debug, Clone, Copy, PartialEq, Eq, Structural)]
pub struct Configuration {
    /// Which clock should be output via CKOUT
    pub ckout: Option<CkoutSrc>,
    /// The frequency of an HSE, should one be given
    pub hse: Option<Hertz>,
    /// The frequency of an LSE, should one be given
    pub lse: Option<Hertz>,
    /// The optimal frequency for CK_USB, aka the USB clock
    pub ck_usb: Option<Hertz>,
    /// The optimal frequency for CK_ADC_IP, aka the ADC clock
    pub ck_adc_ip: Option<Hertz>,
    /// The optimal frequency for CK_SYS
    pub ck_sys: Option<Hertz>,
    /// The optimal frequency for HCLK, aka the AHB bus
    pub hclk: Option<Hertz>,
}

/// Constrained Ckcu peripheral.
#[derive(Debug, Clone, Copy, PartialEq, Eq, Structural)]
pub struct Ckcu {
    pub configuration: Configuration,
}

/// Extension trait that constrains the clock-control peripheral into a
/// [`Ckcu`] configuration handle.
pub trait CkcuExt {
    /// Constrain the peripheral so it plays nicely with the other
    /// abstractions.
    fn constrain(self) -> Ckcu;
}

/// Frozen core clock frequencies.
///
/// The existence of this value indicates that the core clock configuration
/// can no longer be changed.
#[derive(Debug, Clone, Copy, PartialEq, Eq, Structural)]
pub struct Clocks {
    /// Which clock should be output via CKOUT, if any
    pub ckout: Option<CkoutSrc>,
    /// The frequency for CK_USB, aka the USB clock
    pub ck_usb: Hertz,
    /// The frequency for CK_ADC_IP, aka the ADC clock
    pub ck_adc_ip: Hertz,
    /// The frequency for CK_SYS
    pub ck_sys: Hertz,
    /// The frequency for STCLK, aka the SysTick clock
    pub stclk: Hertz,
    /// The frequency for HCLK, aka the AHB bus
    pub hclk: Hertz,
}

impl Ckcu {
    /// A fresh configuration handle with every clock target unset.
    pub fn new() -> (r: Ckcu)
        ensures
            r.configuration == (Configuration {
                ckout: None,
                hse: None,
                lse: None,
                ck_usb: None,
                ck_adc_ip: None,
                ck_sys: None,
                hclk: None,
            }),
    {
        Ckcu {
            configuration: Configuration {
                ckout: None,
                hse: None,
                lse: None,
                ck_usb: None,
                ck_adc_ip: None,
                ck_sys: None,
                hclk: None,
            },
        }
    }
}

impl Configuration {
    /// Set the clock that should be output via CKOUT.
    pub fn ckout(self, ckout: CkoutSrc) -> (r: Self)
        ensures
            r == (Configuration { ckout: Some(ckout), ..self }),
    {
        Configuration { ckout: Some(ckout), ..self }
    }

    /// Notifies the configuration mechanism that an HSE is in use; it will
    /// then prefer the HSE over the HSI wherever either would fit.
    pub fn use_hse(self, hse: Hertz) -> (r: Self)
        ensures
            r == (Configuration { hse: Some(hse), ..self }),
    {
        Configuration { hse: Some(hse), ..self }
    }

    /// Notifies the configuration mechanism that an LSE is in use; it will
    /// then prefer the LSE over the LSI wherever either would fit.
    pub fn use_lse(self, freq: Hertz) -> (r: Self)
        ensures
            r == (Configuration { lse: Some(freq), ..self }),
    {
        Configuration { lse: Some(freq), ..self }
    }

    /// Sets the desired value for CK_USB.
    pub fn ck_usb(self, freq: Hertz) -> (r: Self)
        ensures
            r == (Configuration { ck_usb: Some(freq), ..self }),
    {
        Configuration { ck_usb: Some(freq), ..self }
    }

    /// Sets the desired value for CK_ADC_IP.
    pub fn ck_adc_ip(self, freq: Hertz) -> (r: Self)
        ensures
            r == (Configuration { ck_adc_ip: Some(freq), ..self }),
    {
        Configuration { ck_adc_ip: Some(freq), ..self }
    }

    /// Sets the desired value for CK_SYS.
    pub fn ck_sys(self, freq: Hertz) -> (r: Self)
        ensures
            r == (Configuration { ck_sys: Some(freq), ..self }),
    {
        Configuration { ck_sys: Some(freq), ..self }
    }

    /// Sets the desired value for HCLK.
    pub fn hclk(self, freq: Hertz) -> (r: Self)
        ensures
            r == (Configuration { hclk: Some(freq), ..self }),
    {
        Configuration { hclk: Some(freq), ..self }
    }
}

} // verus!
