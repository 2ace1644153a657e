//! The pins of the nRF52 DK.
//!
//! The chip has one port of 32 pins.

use vstd::prelude::*;

use crate::gpio::{ActivationMode, ButtonConfig, FloatingState, LedConfig};

verus! {

/// A pin of port 0.
#[allow(non_camel_case_types)]
#[derive(Clone, Copy, Debug, PartialEq, Eq, Structural)]
pub enum Pin {
    P0_00,
    P0_01,
    P0_02,
    P0_03,
    P0_04,
    P0_05,
    P0_06,
    P0_07,
    P0_08,
    P0_09,
    P0_10,
    P0_11,
    P0_12,
    P0_13,
    P0_14,
    P0_15,
    P0_16,
    P0_17,
    P0_18,
    P0_19,
    P0_20,
    P0_21,
    P0_22,
    P0_23,
    P0_24,
    P0_25,
    P0_26,
    P0_27,
    P0_28,
    P0_29,
    P0_30,
    P0_31,
}

impl Pin {
    /// The number of the pin within port 0.
    pub open spec fn number(self) -> int {
        match self {
            Pin::P0_00 => 0,
            Pin::P0_01 => 1,
            Pin::P0_02 => 2,
            Pin::P0_03 => 3,
            Pin::P0_04 => 4,
            Pin::P0_05 => 5,
            Pin::P0_06 => 6,
            Pin::P0_07 => 7,
            Pin::P0_08 => 8,
            Pin::P0_09 => 9,
            Pin::P0_10 => 10,
            Pin::P0_11 => 11,
            Pin::P0_12 => 12,
            Pin::P0_13 => 13,
            Pin::P0_14 => 14,
            Pin::P0_15 => 15,
            Pin::P0_16 => 16,
            Pin::P0_17 => 17,
            Pin::P0_18 => 18,
            Pin::P0_19 => 19,
            Pin::P0_20 => 20,
            Pin::P0_21 => 21,
            Pin::P0_22 => 22,
            Pin::P0_23 => 23,
            Pin::P0_24 => 24,
            Pin::P0_25 => 25,
            Pin::P0_26 => 26,
            Pin::P0_27 => 27,
            Pin::P0_28 => 28,
            Pin::P0_29 => 29,
            Pin::P0_30 => 30,
            Pin::P0_31 => 31,
        }
    }
}

// The LEDs (see back of board).
pub const LED1_PIN: Pin = Pin::P0_17;

pub const LED2_PIN: Pin = Pin::P0_18;

pub const LED3_PIN: Pin = Pin::P0_19;

pub const LED4_PIN: Pin = Pin::P0_20;

/// The level that lights the LEDs.
pub const LED_ACTIVATION: ActivationMode = ActivationMode::ActiveLow;

// The buttons (see back of board).
pub const BUTTON1_PIN: Pin = Pin::P0_13;

pub const BUTTON2_PIN: Pin = Pin::P0_14;

pub const BUTTON3_PIN: Pin = Pin::P0_15;

pub const BUTTON4_PIN: Pin = Pin::P0_16;

pub const BUTTON_RST_PIN: Pin = Pin::P0_21;

pub const UART_RTS: Pin = Pin::P0_05;

pub const UART_TXD: Pin = Pin::P0_06;

pub const UART_CTS: Pin = Pin::P0_07;

pub const UART_RXD: Pin = Pin::P0_08;

// The inputs of the analog comparator, AIN5 and AIN0. Its driver fixes them.
pub const COMPARATOR_VIN_PLUS: Pin = Pin::P0_29;

pub const COMPARATOR_VIN_MINUS: Pin = Pin::P0_02;

// SPI is not used, but its pins are kept free.
pub const SPI_MOSI: Pin = Pin::P0_22;

pub const SPI_MISO: Pin = Pin::P0_23;

pub const SPI_CLK: Pin = Pin::P0_24;

/// The pins of a UART. Flow control (`rts` and `cts`) is optional.
#[derive(Clone, Copy, Debug, PartialEq, Eq, Structural)]
pub struct UartPins {
    pub rts: Option<Pin>,
    pub txd: Pin,
    pub cts: Option<Pin>,
    pub rxd: Pin,
}

/// A header of the board, by its place.
#[derive(Clone, Copy, Debug, PartialEq, Eq, Structural)]
pub enum Header {
    TopLeft,
    TopMid,
    BottomRight,
}

/// What the board wires a pin to.
#[derive(Clone, Copy, Debug, PartialEq, Eq, Structural)]
pub enum Wiring {
    Gpio(Header),
    Led(u8),
    Button(u8),
    ResetButton,
    UartRts,
    UartTxd,
    UartCts,
    UartRxd,
    Nfc(u8),
    /// The 32 kHz crystal: XL1 or XL2.
    Lfxo(u8),
}

/// The wiring of every pin of the board.
pub open spec fn wiring(pin: Pin) -> Wiring {
    match pin {
        Pin::P0_27 | Pin::P0_26 | Pin::P0_02 | Pin::P0_25 => Wiring::Gpio(Header::TopLeft),
        Pin::P0_24 | Pin::P0_23 | Pin::P0_22 => Wiring::Gpio(Header::TopLeft),
        Pin::P0_12 | Pin::P0_11 => Wiring::Gpio(Header::TopMid),
        Pin::P0_03 | Pin::P0_04 | Pin::P0_28 => Wiring::Gpio(Header::BottomRight),
        Pin::P0_29 | Pin::P0_30 | Pin::P0_31 => Wiring::Gpio(Header::BottomRight),
        Pin::P0_17 => Wiring::Led(1),
        Pin::P0_18 => Wiring::Led(2),
        Pin::P0_19 => Wiring::Led(3),
        Pin::P0_20 => Wiring::Led(4),
        Pin::P0_13 => Wiring::Button(1),
        Pin::P0_14 => Wiring::Button(2),
        Pin::P0_15 => Wiring::Button(3),
        Pin::P0_16 => Wiring::Button(4),
        Pin::P0_21 => Wiring::ResetButton,
        Pin::P0_05 => Wiring::UartRts,
        Pin::P0_06 => Wiring::UartTxd,
        Pin::P0_07 => Wiring::UartCts,
        Pin::P0_08 => Wiring::UartRxd,
        Pin::P0_09 => Wiring::Nfc(1),
        Pin::P0_10 => Wiring::Nfc(2),
        Pin::P0_01 => Wiring::Lfxo(2),
        Pin::P0_00 => Wiring::Lfxo(1),
    }
}

/// The pins that the GPIO driver offers, in the order of their numbers there.
pub open spec fn gpio_pins_spec() -> Seq<Pin> {
    seq![
        Pin::P0_03,
        Pin::P0_04,
        Pin::P0_28,
        Pin::P0_29,
        Pin::P0_30,
        Pin::P0_31,
        Pin::P0_12,
        Pin::P0_11,
        Pin::P0_27,
        Pin::P0_26,
        Pin::P0_02,
        Pin::P0_25,
    ]
}

/// The pins of the LEDs, LED 1 first.
pub open spec fn led_pins_spec() -> Seq<Pin> {
    seq![LED1_PIN, LED2_PIN, LED3_PIN, LED4_PIN]
}

/// The pins of the buttons, button 1 first.
pub open spec fn button_pins_spec() -> Seq<Pin> {
    seq![BUTTON1_PIN, BUTTON2_PIN, BUTTON3_PIN, BUTTON4_PIN]
}

/// The pins that the board hands to the GPIO driver, the LEDs, the buttons, the
/// UART and the reset line.
///
/// The inputs of the analog comparator are not listed a second time: see
/// `law_comparator_shares_gpio_pins`.
pub open spec fn assigned_pins() -> Seq<Pin> {
    gpio_pins_spec() + led_pins_spec() + button_pins_spec() + seq![
        UART_RTS,
        UART_TXD,
        UART_CTS,
        UART_RXD,
        BUTTON_RST_PIN,
    ]
}

/// The pins that the GPIO driver offers: pin `i` of the driver stands at index `i`.
pub fn gpio_pins() -> (r: [Pin; 12])
    ensures
        r@ == gpio_pins_spec(),
        r@ == seq![
            Pin::P0_03,
            Pin::P0_04,
            Pin::P0_28,
            Pin::P0_29,
            Pin::P0_30,
            Pin::P0_31,
            Pin::P0_12,
            Pin::P0_11,
            Pin::P0_27,
            Pin::P0_26,
            Pin::P0_02,
            Pin::P0_25,
        ],
{
    [
        // Bottom right header
        Pin::P0_03,
        Pin::P0_04,
        Pin::P0_28,
        Pin::P0_29,
        Pin::P0_30,
        Pin::P0_31,
        // Top mid header
        Pin::P0_12,
        Pin::P0_11,
        // Top left header
        Pin::P0_27,
        Pin::P0_26,
        Pin::P0_02,
        Pin::P0_25,
    ]
}

/// A button that pulls `pin` low while it is pressed.
pub open spec fn button_on(pin: Pin) -> ButtonConfig<Pin> {
    ButtonConfig { pin, mode: ActivationMode::ActiveLow, floating: FloatingState::PullUp }
}

/// The buttons, button 1 first.
pub fn buttons() -> (r: [ButtonConfig<Pin>; 4])
    ensures
        r@ == button_pins_spec().map_values(|pin: Pin| button_on(pin)),
{
    let mode = ActivationMode::ActiveLow;
    let floating = FloatingState::PullUp;
    [
        ButtonConfig { pin: BUTTON1_PIN, mode, floating },
        ButtonConfig { pin: BUTTON2_PIN, mode, floating },
        ButtonConfig { pin: BUTTON3_PIN, mode, floating },
        ButtonConfig { pin: BUTTON4_PIN, mode, floating },
    ]
}

/// An LED that lights while `pin` is low.
pub open spec fn led_on(pin: Pin) -> LedConfig<Pin> {
    LedConfig { pin, mode: ActivationMode::ActiveLow }
}

/// The LEDs, LED 1 first. Each lights while its pin is low.
pub fn leds() -> (r: [LedConfig<Pin>; 4])
    ensures
        r@ == led_pins_spec().map_values(|pin: Pin| led_on(pin)),
{
    let mode = LED_ACTIVATION;
    [
        LedConfig { pin: LED1_PIN, mode },
        LedConfig { pin: LED2_PIN, mode },
        LedConfig { pin: LED3_PIN, mode },
        LedConfig { pin: LED4_PIN, mode },
    ]
}

/// The pins that the kernel may toggle to debug: the first three LEDs.
pub fn debug_gpios() -> (r: [Option<Pin>; 3])
    ensures
        r@ == seq![Some(LED1_PIN), Some(LED2_PIN), Some(LED3_PIN)],
{
    [Some(LED1_PIN), Some(LED2_PIN), Some(LED3_PIN)]
}

/// The pins of the UART that the console uses, with flow control.
pub fn uart_pins() -> (r: UartPins)
    ensures
        r == (UartPins {
            rts: Some(UART_RTS),
            txd: UART_TXD,
            cts: Some(UART_CTS),
            rxd: UART_RXD,
        }),
{
    UartPins { rts: Some(UART_RTS), txd: UART_TXD, cts: Some(UART_CTS), rxd: UART_RXD }
}

/// Every pin is used as it is wired: the GPIO driver offers header pins, first
/// those of the bottom right header, then the top mid and the top left one; LED
/// and button `i` sit where the board has them; and so for reset and UART.
pub proof fn law_pins_match_wiring()
    ensures
        forall|i: int|
            0 <= i < 12 ==> wiring(#[trigger] gpio_pins_spec()[i]) == Wiring::Gpio(
                if i < 6 {
                    Header::BottomRight
                } else if i < 8 {
                    Header::TopMid
                } else {
                    Header::TopLeft
                },
            ),
        forall|i: int|
            0 <= i < 4 ==> wiring(#[trigger] led_pins_spec()[i]) == Wiring::Led((i + 1) as u8),
        forall|i: int|
            0 <= i < 4 ==> wiring(#[trigger] button_pins_spec()[i]) == Wiring::Button(
                (i + 1) as u8,
            ),
        wiring(BUTTON_RST_PIN) == Wiring::ResetButton,
        wiring(UART_RTS) == Wiring::UartRts,
        wiring(UART_TXD) == Wiring::UartTxd,
        wiring(UART_CTS) == Wiring::UartCts,
        wiring(UART_RXD) == Wiring::UartRxd,
{
}

/// The numbers of the pins: GPIO 0 to 11 are pins 3 and 4, 28 to 31, 12 and 11, 27 and 26,
/// 2 and 25; LED 1 to 4 are pins 17 to 20, button 1 to 4 pins 13 to 16, and reset is pin
/// 21; the UART has pins 5 to 8, as RTS, TXD, CTS and RXD.
pub proof fn law_pin_numbers(i: int)
    ensures
        gpio_pins_spec().len() == 12 && led_pins_spec().len() == 4 && button_pins_spec().len() == 4,
        0 <= i < 2 ==> gpio_pins_spec()[i].number() == 3 + i,
        2 <= i < 6 ==> gpio_pins_spec()[i].number() == 26 + i,
        6 <= i < 8 ==> gpio_pins_spec()[i].number() == 18 - i,
        8 <= i < 10 ==> gpio_pins_spec()[i].number() == 35 - i,
        i == 10 ==> gpio_pins_spec()[i].number() == 2,
        i == 11 ==> gpio_pins_spec()[i].number() == 25,
        0 <= i < 4 ==> led_pins_spec()[i].number() == 17 + i,
        0 <= i < 4 ==> button_pins_spec()[i].number() == 13 + i,
        BUTTON_RST_PIN.number() == 21,
        UART_RTS.number() == 5,
        UART_TXD.number() == 6,
        UART_CTS.number() == 7,
        UART_RXD.number() == 8,
{
}

/// No pin stands twice in `assigned_pins`: the GPIO driver, the LEDs, the buttons, the
/// UART and the reset line share none. The analog comparator does share two.
pub proof fn law_no_pin_assigned_twice()
    ensures
        assigned_pins().no_duplicates(),
{
}

/// The inputs of the analog comparator are exactly pins 3 and 10 of the GPIO driver, and
/// of nothing else in `assigned_pins`.
pub proof fn law_comparator_shares_gpio_pins(i: int)
    requires
        0 <= i < assigned_pins().len(),
    ensures
        COMPARATOR_VIN_PLUS == gpio_pins_spec()[3],
        COMPARATOR_VIN_MINUS == gpio_pins_spec()[10],
        assigned_pins()[i] == COMPARATOR_VIN_PLUS <==> i == 3,
        assigned_pins()[i] == COMPARATOR_VIN_MINUS <==> i == 10,
{
}

/// The pins that stay free are those of NFC, of the crystal and of SPI.
pub proof fn law_free_pins(pin: Pin)
    ensures
        !assigned_pins().contains(pin) <==> {
            ||| wiring(pin) is Nfc
            ||| wiring(pin) is Lfxo
            ||| pin == SPI_MOSI
            ||| pin == SPI_MISO
            ||| pin == SPI_CLK
        },
{
    let all = assigned_pins();
    let gpio = gpio_pins_spec();
    assert forall|i: int| 0 <= i < 12 implies #[trigger] all.contains(gpio[i]) by {
        assert(all[i] == gpio[i]);
    }
    assert(gpio[0] == Pin::P0_03 && gpio[1] == Pin::P0_04 && gpio[2] == Pin::P0_28);
    assert(gpio[3] == Pin::P0_29 && gpio[4] == Pin::P0_30 && gpio[5] == Pin::P0_31);
    assert(gpio[6] == Pin::P0_12 && gpio[7] == Pin::P0_11 && gpio[8] == Pin::P0_27);
    assert(gpio[9] == Pin::P0_26 && gpio[10] == Pin::P0_02 && gpio[11] == Pin::P0_25);
    assert(all[12] == LED1_PIN && all[13] == LED2_PIN && all[14] == LED3_PIN);
    assert(all[15] == LED4_PIN && all[16] == BUTTON1_PIN && all[17] == BUTTON2_PIN);
    assert(all[18] == BUTTON3_PIN && all[19] == BUTTON4_PIN && all[20] == UART_RTS);
    assert(all[21] == UART_TXD && all[22] == UART_CTS && all[23] == UART_RXD);
    assert(all[24] == BUTTON_RST_PIN);
}

} // verus!
