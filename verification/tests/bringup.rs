use serial::bringup::{init_system, init_uart, partition_resources};
use serial::clock::{system_clock_config, Ratings};
use serial::fault::{ConfigurationError, Rejection};
use serial::resources::{claim, holder, Claim, Group, ResourceId, Role};
use serial::stage::Stage;
use serial::uart::{uart_config, DataBits, OutputConfig, Parity, StopBits, UartConfig};

const IDS: [ResourceId; 3] = [ResourceId::Usart2, ResourceId::Pa2, ResourceId::Pa3];
const ROLES: [Role; 3] = [Role::Peripheral, Role::Tx, Role::Rx];

#[test]
fn every_identifier_has_one_place() {
    assert_eq!(claim(ResourceId::Usart2), Claim { group: Group::Uart, role: Role::Peripheral });
    assert_eq!(claim(ResourceId::Pa2), Claim { group: Group::Uart, role: Role::Tx });
    assert_eq!(claim(ResourceId::Pa3), Claim { group: Group::Uart, role: Role::Rx });
    for id in IDS {
        assert_eq!(holder(claim(id)), id);
    }
    for role in ROLES {
        let place = Claim { group: Group::Uart, role };
        assert_eq!(claim(holder(place)), place);
    }
    for a in IDS {
        for b in IDS {
            assert_eq!(claim(a) == claim(b), a == b);
        }
    }
}

#[test]
fn partition_hands_each_resource_to_its_place() {
    let system = init_system(&system_clock_config(), &Ratings::stm32f401()).unwrap();
    assert_eq!(system.stage(), Stage::ClockConfigured);
    assert_eq!(system.clocks().sysclk, 84_000_000);
    assert_eq!(system.clocks().pclk1, 42_000_000);
    let groups = partition_resources(system);
    assert_eq!(groups.stage(), Stage::ResourcesPartitioned);
    assert_eq!(groups.uart.peri().id(), ResourceId::Usart2);
    assert_eq!(groups.uart.tx().id(), ResourceId::Pa2);
    assert_eq!(groups.uart.rx().id(), ResourceId::Pa3);
}

#[test]
fn invalid_clock_tree_gives_no_system_handle() {
    let mut config = system_clock_config();
    config.apb1_pre = 1;
    assert_eq!(
        init_system(&config, &Ratings::stm32f401()).err(),
        Some(ConfigurationError::Pclk1OverRated)
    );
    config.hsi = false;
    assert_eq!(
        init_system(&config, &Ratings::stm32f401()).err(),
        Some(ConfigurationError::OscillatorDisabled)
    );
}

#[test]
fn firmware_framing_is_115200_8n1_push_pull() {
    assert_eq!(
        uart_config(),
        UartConfig {
            baudrate: 115200,
            data_bits: DataBits::Bits8,
            stop_bits: StopBits::Stop1,
            parity: Parity::NoParity,
            tx_config: OutputConfig::PushPull,
        }
    );
}

#[test]
fn uart_handle_reports_its_configuration() {
    let system = init_system(&system_clock_config(), &Ratings::stm32f401()).unwrap();
    let groups = partition_resources(system);
    let handle = init_uart(groups.uart, uart_config(), Ok(())).unwrap();
    assert_eq!(handle.stage(), Stage::UartReady);
    let config = handle.config();
    assert_eq!(config.baudrate, 115200);
    assert_eq!(config.data_bits, DataBits::Bits8);
    assert_eq!(config.parity, Parity::NoParity);
    assert_eq!(config.stop_bits, StopBits::Stop1);
    assert_eq!(config.tx_config, OutputConfig::PushPull);
    assert_eq!(handle.resources().peri().id(), ResourceId::Usart2);
    assert_eq!(handle.resources().tx().id(), ResourceId::Pa2);
    assert_eq!(handle.resources().rx().id(), ResourceId::Pa3);
}

#[test]
fn uart_handle_reports_any_configuration_it_was_given() {
    let system = init_system(&system_clock_config(), &Ratings::stm32f401()).unwrap();
    let groups = partition_resources(system);
    let odd = UartConfig {
        baudrate: 9600,
        data_bits: DataBits::Bits7,
        stop_bits: StopBits::Stop2,
        parity: Parity::Even,
        tx_config: OutputConfig::OpenDrain,
    };
    let handle = init_uart(groups.uart, odd, Ok(())).unwrap();
    assert_eq!(handle.config(), odd);
}

#[test]
fn refused_uart_configuration_is_an_error() {
    for rejection in [
        Rejection::BaudrateTooLow,
        Rejection::BaudrateTooHigh,
        Rejection::RxOrTxNotEnabled,
        Rejection::DataParityNotSupported,
        Rejection::Other,
    ] {
        let system = init_system(&system_clock_config(), &Ratings::stm32f401()).unwrap();
        let groups = partition_resources(system);
        assert_eq!(
            init_uart(groups.uart, uart_config(), Err(rejection)).err(),
            Some(ConfigurationError::UartRejected(rejection))
        );
    }
}

#[test]
fn stages_follow_in_order() {
    assert_eq!(Stage::Uninitialized.next(), Stage::ClockConfigured);
    assert_eq!(Stage::ClockConfigured.next(), Stage::ResourcesPartitioned);
    assert_eq!(Stage::ResourcesPartitioned.next(), Stage::UartReady);
    assert_eq!(Stage::UartReady.next(), Stage::Transmitting);
    assert_eq!(Stage::Transmitting.next(), Stage::Transmitting);
}
