use serial::clock::{
    system_clock_config, ClockConfig, ClockTree, Pll, PllSource, Ratings, Sysclk, HSI_HZ,
};
use serial::fault::ConfigurationError;

fn rated(config: &ClockConfig) -> Result<ClockTree, ConfigurationError> {
    config.check(&Ratings::stm32f401())
}

#[test]
fn firmware_clock_config_fields() {
    assert_eq!(
        system_clock_config(),
        ClockConfig {
            hsi: true,
            hse: None,
            sys: Sysclk::Pll1P,
            pll_src: PllSource::Hsi,
            pll: Some(Pll { prediv: 16, mul: 336, divp: Some(4), divq: Some(7), divr: None }),
            ahb_pre: 1,
            apb1_pre: 2,
            apb2_pre: 1,
        }
    );
}

#[test]
fn firmware_clock_tree_runs_at_84_mhz() {
    assert_eq!(
        rated(&system_clock_config()),
        Ok(ClockTree {
            sysclk: 84_000_000,
            hclk: 84_000_000,
            pclk1: 42_000_000,
            pclk2: 84_000_000,
            pll_q: Some(48_000_000),
            pll_r: None,
        })
    );
}

#[test]
fn pll_output_follows_the_divider_chain() {
    let sysclk = rated(&system_clock_config()).unwrap().sysclk;
    assert_eq!(sysclk, (u64::from(HSI_HZ) / 16) * 336 / 4);
    assert_eq!(HSI_HZ, 16_000_000);
}

#[test]
fn internal_oscillator_alone_gives_16_mhz() {
    let config = ClockConfig {
        hsi: true,
        hse: None,
        sys: Sysclk::Hsi,
        pll_src: PllSource::Hsi,
        pll: None,
        ahb_pre: 2,
        apb1_pre: 4,
        apb2_pre: 1,
    };
    assert_eq!(
        rated(&config),
        Ok(ClockTree {
            sysclk: 16_000_000,
            hclk: 8_000_000,
            pclk1: 2_000_000,
            pclk2: 8_000_000,
            pll_q: None,
            pll_r: None,
        })
    );
}

#[test]
fn external_oscillator_feeds_the_pll() {
    let config = ClockConfig {
        hsi: false,
        hse: Some(8_000_000),
        sys: Sysclk::Pll1P,
        pll_src: PllSource::Hse,
        pll: Some(Pll { prediv: 8, mul: 336, divp: Some(4), divq: Some(7), divr: Some(2) }),
        ahb_pre: 1,
        apb1_pre: 2,
        apb2_pre: 1,
    };
    assert_eq!(
        rated(&config),
        Ok(ClockTree {
            sysclk: 84_000_000,
            hclk: 84_000_000,
            pclk1: 42_000_000,
            pclk2: 84_000_000,
            pll_q: Some(48_000_000),
            pll_r: Some(168_000_000),
        })
    );
}

#[test]
fn every_division_rounds_down() {
    let config = ClockConfig {
        hsi: false,
        hse: Some(25_000_000),
        sys: Sysclk::Pll1P,
        pll_src: PllSource::Hse,
        pll: Some(Pll { prediv: 13, mul: 100, divp: Some(6), divq: Some(7), divr: None }),
        ahb_pre: 1,
        apb1_pre: 1,
        apb2_pre: 1,
    };
    // 25 MHz / 13 = 1_923_076; times 100 = 192_307_600; / 6 = 32_051_266; / 7 = 27_472_514.
    assert_eq!(
        rated(&config),
        Ok(ClockTree {
            sysclk: 32_051_266,
            hclk: 32_051_266,
            pclk1: 32_051_266,
            pclk2: 32_051_266,
            pll_q: Some(27_472_514),
            pll_r: None,
        })
    );
}

#[test]
fn divider_out_of_range_is_refused() {
    let mut config = system_clock_config();
    config.pll = Some(Pll { prediv: 1, mul: 336, divp: Some(4), divq: Some(7), divr: None });
    assert_eq!(rated(&config), Err(ConfigurationError::DividerOutOfRange));
    config.pll = Some(Pll { prediv: 16, mul: 433, divp: Some(4), divq: Some(7), divr: None });
    assert_eq!(rated(&config), Err(ConfigurationError::DividerOutOfRange));
    config.pll = Some(Pll { prediv: 16, mul: 336, divp: Some(3), divq: Some(7), divr: None });
    assert_eq!(rated(&config), Err(ConfigurationError::DividerOutOfRange));
    config.pll = Some(Pll { prediv: 16, mul: 336, divp: Some(4), divq: Some(16), divr: None });
    assert_eq!(rated(&config), Err(ConfigurationError::DividerOutOfRange));
    config.pll = Some(Pll { prediv: 16, mul: 336, divp: Some(4), divq: Some(7), divr: Some(8) });
    assert_eq!(rated(&config), Err(ConfigurationError::DividerOutOfRange));
    let mut config = system_clock_config();
    config.ahb_pre = 32;
    assert_eq!(rated(&config), Err(ConfigurationError::DividerOutOfRange));
    let mut config = system_clock_config();
    config.apb1_pre = 0;
    assert_eq!(rated(&config), Err(ConfigurationError::DividerOutOfRange));
    let mut config = system_clock_config();
    config.apb2_pre = 3;
    assert_eq!(rated(&config), Err(ConfigurationError::DividerOutOfRange));
}

#[test]
fn disabled_oscillator_is_refused() {
    let mut config = system_clock_config();
    config.hsi = false;
    assert_eq!(rated(&config), Err(ConfigurationError::OscillatorDisabled));
    let mut config = system_clock_config();
    config.pll_src = PllSource::Hse;
    assert_eq!(rated(&config), Err(ConfigurationError::OscillatorDisabled));
    let mut config = system_clock_config();
    config.sys = Sysclk::Hse;
    assert_eq!(rated(&config), Err(ConfigurationError::OscillatorDisabled));
}

#[test]
fn missing_pll_output_is_refused() {
    let mut config = system_clock_config();
    config.pll = None;
    assert_eq!(rated(&config), Err(ConfigurationError::PllOutputDisabled));
    config.pll = Some(Pll { prediv: 16, mul: 336, divp: None, divq: Some(7), divr: None });
    assert_eq!(rated(&config), Err(ConfigurationError::PllOutputDisabled));
}

#[test]
fn pll_input_out_of_range_is_refused() {
    let mut config = system_clock_config();
    // 16 MHz / 4 = 4 MHz, above the 2.1 MHz that the input is rated for.
    config.pll = Some(Pll { prediv: 4, mul: 50, divp: Some(4), divq: None, divr: None });
    assert_eq!(rated(&config), Err(ConfigurationError::PllInputOutOfRange));
    // 16 MHz / 32 = 500 kHz, below the 1 MHz that the input needs.
    config.pll = Some(Pll { prediv: 32, mul: 336, divp: Some(4), divq: None, divr: None });
    assert_eq!(rated(&config), Err(ConfigurationError::PllInputOutOfRange));
}

#[test]
fn vco_out_of_range_is_refused() {
    let mut config = system_clock_config();
    // 1 MHz * 50 = 50 MHz, below the 100 MHz that the oscillator needs.
    config.pll = Some(Pll { prediv: 16, mul: 50, divp: Some(2), divq: None, divr: None });
    assert_eq!(rated(&config), Err(ConfigurationError::VcoOutOfRange));
    // 2 MHz * 432 = 864 MHz, above the 432 MHz that the oscillator is rated for.
    config.pll = Some(Pll { prediv: 8, mul: 432, divp: Some(8), divq: None, divr: None });
    assert_eq!(rated(&config), Err(ConfigurationError::VcoOutOfRange));
}

#[test]
fn over_rated_clocks_are_refused() {
    let mut config = system_clock_config();
    // 336 MHz / 2 = 168 MHz.
    config.pll = Some(Pll { prediv: 16, mul: 336, divp: Some(2), divq: Some(7), divr: None });
    assert_eq!(rated(&config), Err(ConfigurationError::SysclkOverRated));
    let mut config = system_clock_config();
    config.apb1_pre = 1;
    assert_eq!(rated(&config), Err(ConfigurationError::Pclk1OverRated));
    let mut config = system_clock_config();
    let ratings = Ratings { pclk2_max: 83_999_999, ..Ratings::stm32f401() };
    assert_eq!(config.check(&ratings), Err(ConfigurationError::Pclk2OverRated));
    config.apb2_pre = 2;
    assert_eq!(config.check(&ratings).map(|tree| tree.pclk2), Ok(42_000_000));
}

#[test]
fn ratings_of_the_chip() {
    assert_eq!(
        Ratings::stm32f401(),
        Ratings {
            pll_in_min: 1_000_000,
            pll_in_max: 2_100_000,
            vco_min: 100_000_000,
            vco_max: 432_000_000,
            sysclk_max: 84_000_000,
            pclk1_max: 42_000_000,
            pclk2_max: 84_000_000,
        }
    );
}
