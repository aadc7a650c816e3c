//! The clock tree: which oscillator feeds the PLL, how the PLL multiplies and
//! divides it, and how the buses are prescaled from the system clock.
//!
//! A configuration is a plain value. `ClockConfig::check` computes every
//! frequency that follows from it and refuses a configuration that the chip
//! cannot encode or is not rated for, so that a bad clock tree is found when the
//! configuration is written and not when the hardware is programmed.

use vstd::prelude::*;
use crate::fault::ConfigurationError;

verus! {

/// Frequency of the internal high-speed oscillator, in hertz.
pub const HSI_HZ: u32 = 16_000_000;

/// The oscillator that feeds the PLL.
#[derive(Clone, Copy, Debug, PartialEq, Eq, Structural)]
pub enum PllSource {
    /// The internal high-speed oscillator.
    Hsi,
    /// The external high-speed oscillator.
    Hse,
}

/// Where the system clock is taken from.
#[derive(Clone, Copy, Debug, PartialEq, Eq, Structural)]
pub enum Sysclk {
    /// The internal high-speed oscillator, undivided.
    Hsi,
    /// The external high-speed oscillator, undivided.
    Hse,
    /// The P output of the PLL.
    Pll1P,
}

/// The PLL's divider chain. An output whose divider is `None` is switched off.
#[derive(Clone, Copy, Debug, PartialEq, Eq)]
pub struct Pll {
    /// Divides the source before it enters the PLL.
    pub prediv: u32,
    /// Multiplies the divided source up to the oscillator frequency.
    pub mul: u32,
    /// Divides the oscillator frequency down to the P output.
    pub divp: Option<u32>,
    /// Divides the oscillator frequency down to the Q output.
    pub divq: Option<u32>,
    /// Divides the oscillator frequency down to the R output.
    pub divr: Option<u32>,
}

/// Oscillators, PLL and bus prescalers.
#[derive(Clone, Copy, Debug, PartialEq, Eq)]
pub struct ClockConfig {
    /// Whether the internal oscillator is switched on.
    pub hsi: bool,
    /// Frequency in hertz of the external oscillator, where one is fitted.
    pub hse: Option<u32>,
    /// Source of the system clock.
    pub sys: Sysclk,
    /// Source of the PLL.
    pub pll_src: PllSource,
    /// The PLL, or `None` to leave it off.
    pub pll: Option<Pll>,
    /// Divides the system clock down to the AHB clock.
    pub ahb_pre: u32,
    /// Divides the AHB clock down to the low-speed peripheral bus.
    pub apb1_pre: u32,
    /// Divides the AHB clock down to the high-speed peripheral bus.
    pub apb2_pre: u32,
}

/// Every frequency that a configuration gives rise to, in hertz.
#[derive(Clone, Copy, Debug, PartialEq, Eq)]
pub struct ClockTree {
    pub sysclk: u64,
    pub hclk: u64,
    pub pclk1: u64,
    pub pclk2: u64,
    pub pll_q: Option<u64>,
    pub pll_r: Option<u64>,
}

/// The frequencies, in hertz, that a chip is rated for.
#[derive(Clone, Copy, Debug, PartialEq, Eq)]
pub struct Ratings {
    pub pll_in_min: u64,
    pub pll_in_max: u64,
    pub vco_min: u64,
    pub vco_max: u64,
    pub sysclk_max: u64,
    pub pclk1_max: u64,
    pub pclk2_max: u64,
}

/// The divisions that the AHB prescaler can be set to.
pub open spec fn ahb_encodable(div: u32) -> bool {
    div == 1 || div == 2 || div == 4 || div == 8 || div == 16 || div == 64 || div == 128 || div
        == 256 || div == 512
}

/// The divisions that a peripheral bus prescaler can be set to.
pub open spec fn apb_encodable(div: u32) -> bool {
    div == 1 || div == 2 || div == 4 || div == 8 || div == 16
}

/// `hz / div` where the output is on, `None` where it is off.
pub open spec fn divided(hz: Option<int>, div: Option<u32>) -> Option<int> {
    match (hz, div) {
        (Some(hz), Some(div)) => Some(hz / div as int),
        _ => None,
    }
}

/// A frequency as it is stored in a `ClockTree`.
pub open spec fn stored(hz: Option<int>) -> Option<u64> {
    match hz {
        Some(hz) => Some(hz as u64),
        None => None,
    }
}

impl Pll {
    /// Every factor has a value that its register field can hold.
    pub open spec fn encodable(&self) -> bool {
        &&& 2 <= self.prediv <= 63
        &&& 50 <= self.mul <= 432
        &&& self.divp matches Some(p) ==> p == 2 || p == 4 || p == 6 || p == 8
        &&& self.divq matches Some(q) ==> 2 <= q <= 15
        &&& self.divr matches Some(r) ==> 2 <= r <= 7
    }

    fn is_encodable(&self) -> (b: bool)
        ensures
            b == self.encodable(),
    {
        let p_fits: bool = match self.divp {
            Some(p) => p == 2 || p == 4 || p == 6 || p == 8,
            None => true,
        };
        let q_fits: bool = match self.divq {
            Some(q) => 2 <= q && q <= 15,
            None => true,
        };
        let r_fits: bool = match self.divr {
            Some(r) => 2 <= r && r <= 7,
            None => true,
        };
        2 <= self.prediv && self.prediv <= 63 && 50 <= self.mul && self.mul <= 432 && p_fits
            && q_fits && r_fits
    }
}

impl Ratings {
    /// The ratings of the STM32F401.
    pub open spec fn stm32f401_spec() -> Ratings {
        Ratings {
            pll_in_min: 1_000_000,
            pll_in_max: 2_100_000,
            vco_min: 100_000_000,
            vco_max: 432_000_000,
            sysclk_max: 84_000_000,
            pclk1_max: 42_000_000,
            pclk2_max: 84_000_000,
        }
    }

    /// The ratings of the STM32F401.
    #[verifier::when_used_as_spec(stm32f401_spec)]
    pub fn stm32f401() -> (r: Ratings)
        ensures
            r == Ratings::stm32f401_spec(),
    {
        Ratings {
            pll_in_min: 1_000_000,
            pll_in_max: 2_100_000,
            vco_min: 100_000_000,
            vco_max: 432_000_000,
            sysclk_max: 84_000_000,
            pclk1_max: 42_000_000,
            pclk2_max: 84_000_000,
        }
    }
}

impl ClockConfig {
    /// Every divider and multiplier has a value that its register field can hold.
    pub open spec fn encodable(&self) -> bool {
        &&& self.pll matches Some(pll) ==> pll.encodable()
        &&& ahb_encodable(self.ahb_pre)
        &&& apb_encodable(self.apb1_pre)
        &&& apb_encodable(self.apb2_pre)
    }

    /// Frequency of an oscillator, `None` where it is off or not fitted.
    pub open spec fn oscillator_hz(&self, source: PllSource) -> Option<int> {
        match source {
            PllSource::Hsi => if self.hsi {
                Some(HSI_HZ as int)
            } else {
                None
            },
            PllSource::Hse => match self.hse {
                Some(hz) => Some(hz as int),
                None => None,
            },
        }
    }

    /// Frequency at the PLL's input: its source divided by `prediv`.
    pub open spec fn pll_input_hz(&self) -> Option<int> {
        match (self.pll, self.oscillator_hz(self.pll_src)) {
            (Some(pll), Some(hz)) => Some(hz / pll.prediv as int),
            _ => None,
        }
    }

    /// Frequency of the PLL's oscillator: its input multiplied by `mul`.
    pub open spec fn vco_hz(&self) -> Option<int> {
        match (self.pll, self.pll_input_hz()) {
            (Some(pll), Some(hz)) => Some(hz * pll.mul),
            _ => None,
        }
    }

    /// Frequency of the PLL's P output.
    pub open spec fn pll_p_hz(&self) -> Option<int> {
        match self.pll {
            Some(pll) => divided(self.vco_hz(), pll.divp),
            None => None,
        }
    }

    /// Frequency of the PLL's Q output.
    pub open spec fn pll_q_hz(&self) -> Option<int> {
        match self.pll {
            Some(pll) => divided(self.vco_hz(), pll.divq),
            None => None,
        }
    }

    /// Frequency of the PLL's R output.
    pub open spec fn pll_r_hz(&self) -> Option<int> {
        match self.pll {
            Some(pll) => divided(self.vco_hz(), pll.divr),
            None => None,
        }
    }

    /// Frequency of the system clock, `None` where its source gives no clock.
    pub open spec fn sysclk_hz(&self) -> Option<int> {
        match self.sys {
            Sysclk::Hsi => self.oscillator_hz(PllSource::Hsi),
            Sysclk::Hse => self.oscillator_hz(PllSource::Hse),
            Sysclk::Pll1P => self.pll_p_hz(),
        }
    }

    /// Frequency of the AHB clock.
    pub open spec fn hclk_hz(&self) -> Option<int> {
        divided(self.sysclk_hz(), Some(self.ahb_pre))
    }

    /// Frequency of the low-speed peripheral bus.
    pub open spec fn pclk1_hz(&self) -> Option<int> {
        divided(self.hclk_hz(), Some(self.apb1_pre))
    }

    /// Frequency of the high-speed peripheral bus.
    pub open spec fn pclk2_hz(&self) -> Option<int> {
        divided(self.hclk_hz(), Some(self.apb2_pre))
    }

    /// The first reason, in the order in which the clocks are derived, for which
    /// the configuration cannot be applied; `None` where it can.
    pub open spec fn fault(&self, ratings: Ratings) -> Option<ConfigurationError> {
        if !self.encodable() {
            Some(ConfigurationError::DividerOutOfRange)
        } else if self.pll is Some && self.pll_input_hz() is None {
            Some(ConfigurationError::OscillatorDisabled)
        } else if self.pll is Some && !(ratings.pll_in_min <= self.pll_input_hz().unwrap()
            <= ratings.pll_in_max) {
            Some(ConfigurationError::PllInputOutOfRange)
        } else if self.pll is Some && !(ratings.vco_min <= self.vco_hz().unwrap()
            <= ratings.vco_max) {
            Some(ConfigurationError::VcoOutOfRange)
        } else if self.sysclk_hz() is None {
            if self.sys is Pll1P {
                Some(ConfigurationError::PllOutputDisabled)
            } else {
                Some(ConfigurationError::OscillatorDisabled)
            }
        } else if self.sysclk_hz().unwrap() > ratings.sysclk_max {
            Some(ConfigurationError::SysclkOverRated)
        } else if self.pclk1_hz().unwrap() > ratings.pclk1_max {
            Some(ConfigurationError::Pclk1OverRated)
        } else if self.pclk2_hz().unwrap() > ratings.pclk2_max {
            Some(ConfigurationError::Pclk2OverRated)
        } else {
            None
        }
    }

    /// The clocks that the configuration gives rise to.
    pub open spec fn tree(&self) -> ClockTree {
        ClockTree {
            sysclk: self.sysclk_hz().unwrap() as u64,
            hclk: self.hclk_hz().unwrap() as u64,
            pclk1: self.pclk1_hz().unwrap() as u64,
            pclk2: self.pclk2_hz().unwrap() as u64,
            pll_q: stored(self.pll_q_hz()),
            pll_r: stored(self.pll_r_hz()),
        }
    }

    fn is_encodable(&self) -> (b: bool)
        ensures
            b == self.encodable(),
    {
        let pll_fits: bool = match &self.pll {
            Some(pll) => pll.is_encodable(),
            None => true,
        };
        pll_fits && ahb_is_encodable(self.ahb_pre) && apb_is_encodable(self.apb1_pre)
            && apb_is_encodable(self.apb2_pre)
    }

    fn oscillator(&self, source: PllSource) -> (hz: Option<u32>)
        ensures
            self.oscillator_hz(source) == match hz {
                Some(hz) => Some(hz as int),
                None => None,
            },
    {
        match source {
            PllSource::Hsi => if self.hsi {
                Some(hsi_frequency())
            } else {
                None
            },
            PllSource::Hse => self.hse,
        }
    }

    /// Derives every clock from the configuration and holds each against the
    /// chip's ratings. Returns the clocks where the configuration can be
    /// applied, and otherwise the first reason for which it cannot.
    pub fn check(&self, ratings: &Ratings) -> (r: Result<ClockTree, ConfigurationError>)
        ensures
            match r {
                Ok(tree) => self.fault(*ratings) is None && tree == self.tree(),
                Err(e) => self.fault(*ratings) == Some(e),
            },
    {
        if !self.is_encodable() {
            return Err(ConfigurationError::DividerOutOfRange);
        }
        let mut pll_p: Option<u64> = None;
        let mut pll_q: Option<u64> = None;
        let mut pll_r: Option<u64> = None;
        match self.pll {
            Some(pll) => {
                let source: u32 = match self.oscillator(self.pll_src) {
                    Some(hz) => hz,
                    None => {
                        return Err(ConfigurationError::OscillatorDisabled);
                    },
                };
                let input: u64 = (source / pll.prediv) as u64;
                if input < ratings.pll_in_min || input > ratings.pll_in_max {
                    return Err(ConfigurationError::PllInputOutOfRange);
                }
                assert(input * pll.mul <= 0xffff_ffff * 432) by (nonlinear_arith)
                    requires
                        input <= 0xffff_ffff,
                        pll.mul <= 432,
                ;
                let vco: u64 = input * (pll.mul as u64);
                if vco < ratings.vco_min || vco > ratings.vco_max {
                    return Err(ConfigurationError::VcoOutOfRange);
                }
                pll_p = output(vco, pll.divp);
                pll_q = output(vco, pll.divq);
                pll_r = output(vco, pll.divr);
            },
            None => {},
        }
        let sysclk: u64 = match self.sys {
            Sysclk::Hsi => match self.oscillator(PllSource::Hsi) {
                Some(hz) => hz as u64,
                None => {
                    return Err(ConfigurationError::OscillatorDisabled);
                },
            },
            Sysclk::Hse => match self.oscillator(PllSource::Hse) {
                Some(hz) => hz as u64,
                None => {
                    return Err(ConfigurationError::OscillatorDisabled);
                },
            },
            Sysclk::Pll1P => match pll_p {
                Some(hz) => hz,
                None => {
                    return Err(ConfigurationError::PllOutputDisabled);
                },
            },
        };
        if sysclk > ratings.sysclk_max {
            return Err(ConfigurationError::SysclkOverRated);
        }
        let hclk: u64 = sysclk / (self.ahb_pre as u64);
        let pclk1: u64 = hclk / (self.apb1_pre as u64);
        if pclk1 > ratings.pclk1_max {
            return Err(ConfigurationError::Pclk1OverRated);
        }
        let pclk2: u64 = hclk / (self.apb2_pre as u64);
        if pclk2 > ratings.pclk2_max {
            return Err(ConfigurationError::Pclk2OverRated);
        }
        Ok(ClockTree { sysclk, hclk, pclk1, pclk2, pll_q, pll_r })
    }
}

/// Reads `embassy_stm32::rcc::HSI_FREQ`, the frequency at which the hardware
/// layer takes the internal oscillator to run. Not proved: that the constant
/// is 16 MHz, as the layer declares it for this family of chips.
#[verifier::external_body]
fn hsi_frequency() -> (hz: u32)
    ensures
        hz == HSI_HZ,
{
    embassy_stm32::rcc::HSI_FREQ.0
}

fn ahb_is_encodable(div: u32) -> (b: bool)
    ensures
        b == ahb_encodable(div),
{
    div == 1 || div == 2 || div == 4 || div == 8 || div == 16 || div == 64 || div == 128 || div
        == 256 || div == 512
}

fn apb_is_encodable(div: u32) -> (b: bool)
    ensures
        b == apb_encodable(div),
{
    div == 1 || div == 2 || div == 4 || div == 8 || div == 16
}

/// One output of the PLL: the oscillator frequency divided, where the output is on.
fn output(vco: u64, div: Option<u32>) -> (hz: Option<u64>)
    requires
        div matches Some(d) ==> d > 0,
    ensures
        hz == stored(divided(Some(vco as int), div)),
{
    match div {
        Some(d) => Some(vco / (d as u64)),
        None => None,
    }
}

/// The clock tree of the firmware: the internal oscillator, divided by 16 to
/// 1 MHz, multiplied by 336 and divided by 4 for the system clock and by 7
/// for the 48 MHz output; the low-speed bus at half the system clock.
pub open spec fn system_clock() -> ClockConfig {
    ClockConfig {
        hsi: true,
        hse: None,
        sys: Sysclk::Pll1P,
        pll_src: PllSource::Hsi,
        pll: Some(Pll { prediv: 16, mul: 336, divp: Some(4), divq: Some(7), divr: None }),
        ahb_pre: 1,
        apb1_pre: 2,
        apb2_pre: 1,
    }
}

/// Builds the clock tree of the firmware.
#[verifier::when_used_as_spec(system_clock)]
pub fn system_clock_config() -> (config: ClockConfig)
    ensures
        config == system_clock(),
{
    ClockConfig {
        hsi: true,
        hse: None,
        sys: Sysclk::Pll1P,
        pll_src: PllSource::Hsi,
        pll: Some(Pll { prediv: 16, mul: 336, divp: Some(4), divq: Some(7), divr: None }),
        ahb_pre: 1,
        apb1_pre: 2,
        apb2_pre: 1,
    }
}

/// Where the system clock is the P output of a PLL whose source runs, its
/// frequency is the source divided by `prediv`, multiplied by `mul` and
/// divided by `divp`, each division rounding down.
pub proof fn lemma_pll_sysclk(config: ClockConfig, pll: Pll, source_hz: int, divp: u32)
    requires
        config.sys is Pll1P,
        config.pll == Some(pll),
        pll.divp == Some(divp),
        config.oscillator_hz(config.pll_src) == Some(source_hz),
    ensures
        config.sysclk_hz() == Some(((source_hz / pll.prediv as int) * pll.mul) / divp as int),
{
}

/// Whatever the frequency of its source, the firmware's PLL gives 84 times
/// the frequency at its input on the P output and 48 times on the Q output.
pub proof fn lemma_system_clock_factors(source_hz: int)
    requires
        0 <= source_hz,
    ensures
        ((source_hz / 16) * 336) / 4 == 84 * (source_hz / 16),
        ((source_hz / 16) * 336) / 7 == 48 * (source_hz / 16),
{
}

/// The firmware's clock tree runs the system clock and both AHB and the
/// high-speed bus at 84 MHz, the low-speed bus at 42 MHz and the Q output at
/// 48 MHz, and an STM32F401 is rated for it.
pub proof fn lemma_system_clock_rated()
    ensures
        system_clock().sysclk_hz() == Some(((HSI_HZ as int / 16) * 336) / 4),
        system_clock().fault(Ratings::stm32f401_spec()) is None,
        system_clock().tree() == (ClockTree {
            sysclk: 84_000_000,
            hclk: 84_000_000,
            pclk1: 42_000_000,
            pclk2: 84_000_000,
            pll_q: Some(48_000_000),
            pll_r: None,
        }),
{
}

} // verus!
