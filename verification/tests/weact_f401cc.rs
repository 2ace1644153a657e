use tock_boards::gpio::{ActivationMode, FloatingState};
use tock_boards::weact_f401cc::boot::{
    boot_order, Step, DEFERRED_CALL_CLIENTS, NUM_PROCS, STACK_SIZE, UART_BAUD_RATE,
};
use tock_boards::weact_f401cc::hardware::{AlternateFunction, Dma1Peripheral, Mode, Op};
use tock_boards::weact_f401cc::pins::{
    adc_channels, button, gpio_pin, led, AdcChannel, PinId, PortId, LED_ACTIVATION,
};
use tock_boards::weact_f401cc::platform::{DriverNumbers, WeactF401CC};
use tock_boards::weact_f401cc::setup::{
    set_pin_primary_functions, setup_dma, setup_peripherals, PinsPresent, StreamRoute,
};

fn pin(port: PortId, num: u8) -> PinId {
    PinId { port, num }
}

fn numbers() -> DriverNumbers {
    DriverNumbers { console: 1, led: 2, button: 3, adc: 5, alarm: 0, ipc: 0x10000, gpio: 4 }
}

fn platform() -> WeactF401CC<&'static str, u16, u32> {
    WeactF401CC {
        console: "console",
        ipc: "ipc",
        led: "led",
        button: "button",
        adc: "adc",
        alarm: "alarm",
        gpio: "gpio",
        scheduler: 2,
        systick: 3,
    }
}

fn answer(driver_num: usize) -> Option<&'static str> {
    platform().with_driver(&numbers(), driver_num, |d| d.copied())
}

#[test]
fn weact_every_driver_answers_its_number() {
    assert_eq!(answer(1), Some("console"));
    assert_eq!(answer(2), Some("led"));
    assert_eq!(answer(3), Some("button"));
    assert_eq!(answer(5), Some("adc"));
    assert_eq!(answer(0), Some("alarm"));
    assert_eq!(answer(0x10000), Some("ipc"));
    assert_eq!(answer(4), Some("gpio"));
}

#[test]
fn weact_other_numbers_get_no_driver() {
    assert_eq!(answer(7), None);
    assert_eq!(answer(0x40001), None);
}

#[test]
fn weact_no_driver_answers_two_numbers() {
    let mut seen: Vec<&'static str> = Vec::new();
    for n in (0..10).chain([0x10000, 0x30000, 0x40001, 0x60000]) {
        if let Some(driver) = answer(n) {
            assert!(!seen.contains(&driver));
            seen.push(driver);
        }
    }
    assert_eq!(seen.len(), 7);
}

#[test]
fn weact_distinct_driver_numbers() {
    assert!(numbers().distinct());
    assert!(!DriverNumbers { gpio: numbers().console, ..numbers() }.distinct());
    assert!(!DriverNumbers { button: numbers().led, ..numbers() }.distinct());
}

#[test]
fn weact_first_of_two_drivers_answers() {
    let shared = DriverNumbers { gpio: 1, ..numbers() };
    let p = platform();
    assert_eq!(p.with_driver(&shared, 1, |d| d.copied()), Some("console"));
    assert_eq!(p.with_driver(&shared, 4, |d| d.copied()), None);
}

#[test]
fn weact_kernel_resources() {
    let p = platform();
    assert_eq!(p.syscall_driver_lookup().adc, "adc");
    assert_eq!(*p.syscall_filter(), ());
    assert_eq!(*p.process_fault(), ());
    assert_eq!(*p.scheduler(), 2);
    assert_eq!(*p.scheduler_timer(), 3);
    assert_eq!(*p.watchdog(), ());
    assert_eq!(*p.context_switch_callback(), ());
}

#[test]
fn weact_gpio_pins() {
    assert_eq!(gpio_pin(3), Some(pin(PortId::C, 14)));
    assert_eq!(gpio_pin(4), Some(pin(PortId::C, 15)));
    assert_eq!(gpio_pin(11), Some(pin(PortId::A, 1)));
    assert_eq!(gpio_pin(17), Some(pin(PortId::A, 7)));
    assert_eq!(gpio_pin(18), Some(pin(PortId::B, 0)));
    assert_eq!(gpio_pin(21), Some(pin(PortId::B, 10)));
    assert_eq!(gpio_pin(25), Some(pin(PortId::B, 12)));
    assert_eq!(gpio_pin(28), Some(pin(PortId::B, 15)));
    assert_eq!(gpio_pin(29), Some(pin(PortId::A, 8)));
    assert_eq!(gpio_pin(34), Some(pin(PortId::A, 13)));
    assert_eq!(gpio_pin(37), Some(pin(PortId::A, 14)));
    assert_eq!(gpio_pin(38), Some(pin(PortId::A, 15)));
    assert_eq!(gpio_pin(39), Some(pin(PortId::B, 3)));
    assert_eq!(gpio_pin(43), Some(pin(PortId::B, 7)));
    assert_eq!(gpio_pin(45), Some(pin(PortId::B, 8)));
    assert_eq!(gpio_pin(46), Some(pin(PortId::B, 9)));
    for n in [0, 1, 2, 5, 10, 22, 24, 35, 36, 44, 47, usize::MAX] {
        assert_eq!(gpio_pin(n), None);
    }
}

#[test]
fn weact_gpio_pins_are_distinct_and_spare_led_and_button() {
    let offered: Vec<PinId> = (0..100).filter_map(gpio_pin).collect();
    assert_eq!(offered.len(), 32);
    for i in 0..offered.len() {
        assert!(!offered[..i].contains(&offered[i]));
    }
    assert!(!offered.contains(&led().pin));
    assert!(!offered.contains(&button().pin));
    assert!(!offered.contains(&pin(PortId::B, 11)));
}

#[test]
fn weact_led_and_button() {
    assert_eq!(led().pin, pin(PortId::C, 13));
    assert_eq!(led().mode, ActivationMode::ActiveLow);
    assert_eq!(LED_ACTIVATION, ActivationMode::ActiveLow);
    assert_eq!(button().pin, pin(PortId::A, 0));
    assert_eq!(button().mode, ActivationMode::ActiveLow);
    assert_eq!(button().floating, FloatingState::PullUp);
}

#[test]
fn weact_port_indices() {
    assert_eq!(PortId::A.index(), 0);
    assert_eq!(PortId::B.index(), 1);
    assert_eq!(PortId::C.index(), 2);
}

#[test]
fn weact_adc_channels() {
    assert_eq!(
        adc_channels(),
        [
            AdcChannel::Channel3,
            AdcChannel::Channel10,
            AdcChannel::Channel13,
            AdcChannel::Channel9,
            AdcChannel::Channel15,
            AdcChannel::Channel8,
        ]
    );
}

#[test]
fn weact_setup_dma() {
    let tx = StreamRoute { stream: 6, irqn: 17 };
    let rx = StreamRoute { stream: 5, irqn: 16 };
    assert_eq!(
        setup_dma(tx, rx),
        [
            Op::EnableDma1Clock,
            Op::SetUsart2Dma { tx: 6, rx: 5 },
            Op::SetUsart2AsClient { stream: 6 },
            Op::SetUsart2AsClient { stream: 5 },
            Op::SetupStream { stream: 6, peripheral: Dma1Peripheral::USART2_TX },
            Op::SetupStream { stream: 5, peripheral: Dma1Peripheral::USART2_RX },
            Op::EnableInterrupt { irqn: 17 },
            Op::EnableInterrupt { irqn: 16 },
        ]
    );
}

#[test]
fn weact_setup_peripherals() {
    assert_eq!(
        setup_peripherals(37, 28),
        [
            Op::EnableInterrupt { irqn: 37 },
            Op::EnableTim2Clock,
            Op::StartTim2,
            Op::EnableInterrupt { irqn: 28 },
        ]
    );
}

fn all_pins() -> PinsPresent {
    PinsPresent { pa00: true, pa02: true, pa03: true, pc13: true, pc14: true }
}

#[test]
fn weact_pin_functions_with_all_pins() {
    let pa02 = pin(PortId::A, 2);
    let pa03 = pin(PortId::A, 3);
    let pc13 = pin(PortId::C, 13);
    let expected = [
        Op::EnableSyscfgClock,
        Op::EnablePortClock(PortId::A),
        Op::EnablePinInterrupt(pin(PortId::A, 0)),
        Op::EnablePinInterrupt(pin(PortId::C, 14)),
        Op::SetMode(pa02, Mode::AlternateFunction),
        Op::SetAlternateFunction(pa02, AlternateFunction::AF7),
        Op::SetMode(pa03, Mode::AlternateFunction),
        Op::SetAlternateFunction(pa03, AlternateFunction::AF7),
        Op::EnablePortClock(PortId::C),
        Op::MakeOutput(pc13),
        Op::AssignDebugGpios(Some(pc13), None, None),
        Op::EnablePortClock(PortId::B),
    ];
    assert_eq!(set_pin_primary_functions(all_pins()), expected.map(Some));
}

#[test]
fn weact_operations_on_absent_pins_are_left_out() {
    let full = set_pin_primary_functions(all_pins());
    let without = |present: PinsPresent| -> Vec<usize> {
        let slots = set_pin_primary_functions(present);
        for i in 0..12 {
            assert!(slots[i].is_none() || slots[i] == full[i]);
        }
        (0..12).filter(|i| slots[*i].is_none()).collect()
    };
    assert_eq!(without(PinsPresent { pa00: false, ..all_pins() }), vec![2]);
    assert_eq!(without(PinsPresent { pc14: false, ..all_pins() }), vec![3]);
    assert_eq!(without(PinsPresent { pa02: false, ..all_pins() }), vec![4, 5]);
    assert_eq!(without(PinsPresent { pa03: false, ..all_pins() }), vec![6, 7]);
    assert_eq!(without(PinsPresent { pc13: false, ..all_pins() }), vec![9, 10]);
}

#[test]
fn weact_ports_are_clocked_without_any_pin() {
    let none = PinsPresent { pa00: false, pa02: false, pa03: false, pc13: false, pc14: false };
    let ops: Vec<Op> = set_pin_primary_functions(none).into_iter().flatten().collect();
    assert_eq!(
        ops,
        vec![
            Op::EnableSyscfgClock,
            Op::EnablePortClock(PortId::A),
            Op::EnablePortClock(PortId::C),
            Op::EnablePortClock(PortId::B),
        ]
    );
}

fn place(step: Step) -> usize {
    boot_order().iter().position(|s| *s == step).unwrap()
}

#[test]
fn weact_boot_order() {
    let order = boot_order();
    assert_eq!(order[0], Step::InitChip);
    assert_eq!(order[39], Step::EnterKernelLoop);
    for i in 0..order.len() {
        assert!(!order[..i].contains(&order[i]));
    }
    assert!(place(Step::CreateRcc) < place(Step::CreateSyscfg));
    assert!(place(Step::CreateSyscfg) < place(Step::CreateExti));
    assert!(place(Step::SetupPeripherals) < place(Step::SetPinPrimaryFunctions));
    assert!(place(Step::SetPinPrimaryFunctions) < place(Step::SetupDma));
    assert!(place(Step::SetPinPrimaryFunctions) < place(Step::CreateLed));
    assert!(place(Step::SetupDma) < place(Step::CreateUartMux));
}

#[test]
fn weact_failed_load_is_reported_and_stops_nothing() {
    let taken = |failed: bool| -> Vec<Step> {
        boot_order().iter().copied().filter(|s| s.due(failed)).collect()
    };
    assert_eq!(taken(true).len(), 40);
    assert_eq!(taken(false).len(), 39);
    assert!(taken(true).contains(&Step::ReportLoadError));
    assert!(!taken(false).contains(&Step::ReportLoadError));
    assert_eq!(taken(true).last(), Some(&Step::EnterKernelLoop));
    assert_eq!(taken(false).last(), Some(&Step::EnterKernelLoop));
}

#[test]
fn weact_constants() {
    assert_eq!(NUM_PROCS, 4);
    assert_eq!(STACK_SIZE, 0x2000);
    assert_eq!(UART_BAUD_RATE, 115200);
    assert_eq!(DEFERRED_CALL_CLIENTS, 2);
}
