use tock_boards::gpio::{ActivationMode, FloatingState};
use tock_boards::nrf52dk::boot::{
    boot_order, Step, DEFERRED_CALL_CLIENTS, NFC_AS_GPIOS, NUM_PROCS, STACK_SIZE,
    SYSTICK_FREQUENCY, UART_BAUD_RATE,
};
use tock_boards::nrf52dk::pins::{
    buttons, debug_gpios, gpio_pins, leds, uart_pins, Pin, UartPins, BUTTON_RST_PIN,
    COMPARATOR_VIN_MINUS, COMPARATOR_VIN_PLUS, LED_ACTIVATION, SPI_CLK, SPI_MISO, SPI_MOSI,
};
use tock_boards::nrf52dk::platform::{DriverNumbers, Platform};

fn numbers() -> DriverNumbers {
    DriverNumbers {
        console: 1,
        gpio: 4,
        alarm: 0,
        led: 2,
        button: 3,
        rng: 0x40001,
        ble_radio: 0x30000,
        temp: 0x60000,
        analog_comparator: 7,
        ipc: 0x10000,
    }
}

fn platform() -> Platform<&'static str, u8, u16, u32> {
    Platform {
        ble_radio: "ble_radio",
        button: "button",
        pconsole: 1,
        console: "console",
        gpio: "gpio",
        led: "led",
        rng: "rng",
        temp: "temp",
        ipc: "ipc",
        analog_comparator: "analog_comparator",
        alarm: "alarm",
        scheduler: 2,
        systick: 3,
    }
}

fn answer(driver_num: usize) -> Option<&'static str> {
    platform().with_driver(&numbers(), driver_num, |d| d.copied())
}

#[test]
fn nrf52dk_every_driver_answers_its_number() {
    assert_eq!(answer(1), Some("console"));
    assert_eq!(answer(4), Some("gpio"));
    assert_eq!(answer(0), Some("alarm"));
    assert_eq!(answer(2), Some("led"));
    assert_eq!(answer(3), Some("button"));
    assert_eq!(answer(0x40001), Some("rng"));
    assert_eq!(answer(0x30000), Some("ble_radio"));
    assert_eq!(answer(0x60000), Some("temp"));
    assert_eq!(answer(7), Some("analog_comparator"));
    assert_eq!(answer(0x10000), Some("ipc"));
}

#[test]
fn nrf52dk_other_numbers_get_no_driver() {
    assert_eq!(answer(5), None);
    assert_eq!(answer(0x10001), None);
    assert_eq!(answer(usize::MAX), None);
}

#[test]
fn nrf52dk_no_driver_answers_two_numbers() {
    let mut seen: Vec<&'static str> = Vec::new();
    for n in (0..10).chain([0x10000, 0x30000, 0x40001, 0x60000]) {
        if let Some(driver) = answer(n) {
            assert!(!seen.contains(&driver));
            seen.push(driver);
        }
    }
    assert_eq!(seen.len(), 10);
}

#[test]
fn nrf52dk_distinct_driver_numbers() {
    assert!(numbers().distinct());
    assert!(!DriverNumbers { ipc: numbers().console, ..numbers() }.distinct());
    assert!(!DriverNumbers { button: numbers().led, ..numbers() }.distinct());
}

#[test]
fn nrf52dk_first_of_two_drivers_answers() {
    let shared = DriverNumbers { ipc: 4, ..numbers() };
    let p = platform();
    assert_eq!(p.with_driver(&shared, 4, |d| d.copied()), Some("gpio"));
    assert_eq!(p.with_driver(&shared, 0x10000, |d| d.copied()), None);
}

#[test]
fn nrf52dk_with_driver_returns_what_the_closure_returns() {
    let p = platform();
    let len = p.with_driver(&numbers(), 2, |d| d.map(|name| name.len()).unwrap_or(99));
    assert_eq!(len, 3);
    let none = p.with_driver(&numbers(), 99, |d| d.map(|name| name.len()).unwrap_or(99));
    assert_eq!(none, 99);
}

#[test]
fn nrf52dk_kernel_resources() {
    let p = platform();
    assert_eq!(p.syscall_driver_lookup().console, "console");
    assert_eq!(*p.syscall_filter(), ());
    assert_eq!(*p.process_fault(), ());
    assert_eq!(*p.scheduler(), 2);
    assert_eq!(*p.scheduler_timer(), 3);
    assert_eq!(*p.watchdog(), ());
    assert_eq!(*p.context_switch_callback(), ());
}

#[test]
fn nrf52dk_gpio_pins() {
    assert_eq!(
        gpio_pins(),
        [
            Pin::P0_03,
            Pin::P0_04,
            Pin::P0_28,
            Pin::P0_29,
            Pin::P0_30,
            Pin::P0_31,
            Pin::P0_12,
            Pin::P0_11,
            Pin::P0_27,
            Pin::P0_26,
            Pin::P0_02,
            Pin::P0_25,
        ]
    );
}

#[test]
fn nrf52dk_buttons_are_active_low() {
    let pins = [Pin::P0_13, Pin::P0_14, Pin::P0_15, Pin::P0_16];
    let all = buttons();
    for i in 0..4 {
        assert_eq!(all[i].pin, pins[i]);
        assert_eq!(all[i].mode, ActivationMode::ActiveLow);
        assert_eq!(all[i].floating, FloatingState::PullUp);
    }
    assert_eq!(BUTTON_RST_PIN, Pin::P0_21);
}

#[test]
fn nrf52dk_leds_and_debug_gpios() {
    assert_eq!(leds().map(|l| l.pin), [Pin::P0_17, Pin::P0_18, Pin::P0_19, Pin::P0_20]);
    assert_eq!(leds().map(|l| l.mode), [ActivationMode::ActiveLow; 4]);
    assert_eq!(LED_ACTIVATION, ActivationMode::ActiveLow);
    assert_eq!(debug_gpios(), [Some(Pin::P0_17), Some(Pin::P0_18), Some(Pin::P0_19)]);
}

#[test]
fn nrf52dk_uart_pins() {
    assert_eq!(
        uart_pins(),
        UartPins {
            rts: Some(Pin::P0_05),
            txd: Pin::P0_06,
            cts: Some(Pin::P0_07),
            rxd: Pin::P0_08,
        }
    );
}

#[test]
fn nrf52dk_no_pin_is_assigned_twice() {
    let uart = uart_pins();
    let mut assigned = gpio_pins().to_vec();
    assigned.extend(leds().map(|l| l.pin));
    assigned.extend(buttons().map(|b| b.pin));
    assigned.extend([uart.rts.unwrap(), uart.txd, uart.cts.unwrap(), uart.rxd, BUTTON_RST_PIN]);
    for i in 0..assigned.len() {
        assert!(!assigned[..i].contains(&assigned[i]));
    }
    for free in [SPI_MOSI, SPI_MISO, SPI_CLK, Pin::P0_09, Pin::P0_10, Pin::P0_00, Pin::P0_01] {
        assert!(!assigned.contains(&free));
    }
    assert_eq!(assigned.len(), 32 - 7);
}

#[test]
fn nrf52dk_comparator_shares_two_gpio_pins() {
    assert_eq!(COMPARATOR_VIN_PLUS, Pin::P0_29);
    assert_eq!(COMPARATOR_VIN_MINUS, Pin::P0_02);
    assert_eq!(gpio_pins()[3], COMPARATOR_VIN_PLUS);
    assert_eq!(gpio_pins()[10], COMPARATOR_VIN_MINUS);
}

fn place(step: Step) -> usize {
    boot_order().iter().position(|s| *s == step).unwrap()
}

#[test]
fn nrf52dk_boot_order() {
    let order = boot_order();
    assert_eq!(order[0], Step::InitChip);
    assert_eq!(order[1], Step::CreatePeripherals);
    assert_eq!(order[35], Step::EnterKernelLoop);
    for i in 0..order.len() {
        assert!(!order[..i].contains(&order[i]));
    }
    assert!(place(Step::StartRtc) < place(Step::CreateAlarmMux));
    assert!(place(Step::CreateUartMux) < place(Step::CreateConsole));
    assert!(place(Step::CreatePlatform) < place(Step::StartProcessConsole));
    assert!(place(Step::LoadProcesses) < place(Step::ReportLoadError));
}

#[test]
fn nrf52dk_failed_load_is_reported_and_stops_nothing() {
    let taken = |failed: bool| -> Vec<Step> {
        boot_order().iter().copied().filter(|s| s.due(failed)).collect()
    };
    assert_eq!(taken(true).len(), 36);
    assert_eq!(taken(false).len(), 35);
    assert!(taken(true).contains(&Step::ReportLoadError));
    assert!(!taken(false).contains(&Step::ReportLoadError));
    assert_eq!(taken(true).last(), Some(&Step::EnterKernelLoop));
    assert_eq!(taken(false).last(), Some(&Step::EnterKernelLoop));
}

#[test]
fn nrf52dk_constants() {
    assert_eq!(NUM_PROCS, 4);
    assert_eq!(STACK_SIZE, 4096);
    assert_eq!(UART_BAUD_RATE, 115200);
    assert_eq!(DEFERRED_CALL_CLIENTS, 2);
    assert_eq!(SYSTICK_FREQUENCY, 64_000_000);
    assert!(!NFC_AS_GPIOS);
}
