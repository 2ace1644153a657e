//! The pins of the STM32F401CCU6 core board.

use vstd::prelude::*;

use crate::gpio::{ActivationMode, ButtonConfig, FloatingState, LedConfig};

verus! {

/// A port whose pins the board exposes.
#[derive(Clone, Copy, Debug, PartialEq, Eq, Structural)]
pub enum PortId {
    A,
    B,
    C,
}

impl PortId {
    /// The place of the port among the ports of the chip.
    pub fn index(self) -> (r: usize)
        ensures
            r == match self {
                PortId::A => 0int,
                PortId::B => 1,
                PortId::C => 2,
            },
    {
        match self {
            PortId::A => 0,
            PortId::B => 1,
            PortId::C => 2,
        }
    }
}

/// A pin, by its port and its number there.
#[derive(Clone, Copy, Debug, PartialEq, Eq, Structural)]
pub struct PinId {
    pub port: PortId,
    pub num: u8,
}

/// Pin `num` of `port`.
pub open spec fn pin(port: PortId, num: u8) -> PinId {
    PinId { port, num }
}

/// The pin that the GPIO driver offers as number `n`, its place on the board.
pub open spec fn gpio_pin_spec(n: int) -> Option<PinId> {
    if 3 <= n <= 4 {
        Some(pin(PortId::C, (n + 11) as u8))
    } else if 11 <= n <= 17 {
        Some(pin(PortId::A, (n - 10) as u8))
    } else if 18 <= n <= 20 {
        Some(pin(PortId::B, (n - 18) as u8))
    } else if n == 21 {
        Some(pin(PortId::B, 10))
    } else if 25 <= n <= 28 {
        Some(pin(PortId::B, (n - 13) as u8))
    } else if 29 <= n <= 34 {
        Some(pin(PortId::A, (n - 21) as u8))
    } else if 37 <= n <= 38 {
        Some(pin(PortId::A, (n - 23) as u8))
    } else if 39 <= n <= 43 {
        Some(pin(PortId::B, (n - 36) as u8))
    } else if 45 <= n <= 46 {
        Some(pin(PortId::B, (n - 37) as u8))
    } else {
        None
    }
}

/// The pin that the GPIO driver offers as number `n`, if it offers one.
pub fn gpio_pin(n: usize) -> (r: Option<PinId>)
    ensures
        r == gpio_pin_spec(n as int),
        3 <= n <= 4 ==> r == Some(
            PinId { port: PortId::C, num: (n + 11) as u8 },
        ),
        11 <= n <= 17 ==> r == Some(
            PinId { port: PortId::A, num: (n - 10) as u8 },
        ),
        18 <= n <= 20 ==> r == Some(
            PinId { port: PortId::B, num: (n - 18) as u8 },
        ),
        n == 21 ==> r == Some(
            PinId { port: PortId::B, num: (n - 11) as u8 },
        ),
        25 <= n <= 28 ==> r == Some(
            PinId { port: PortId::B, num: (n - 13) as u8 },
        ),
        29 <= n <= 34 ==> r == Some(
            PinId { port: PortId::A, num: (n - 21) as u8 },
        ),
        37 <= n <= 38 ==> r == Some(
            PinId { port: PortId::A, num: (n - 23) as u8 },
        ),
        39 <= n <= 43 ==> r == Some(
            PinId { port: PortId::B, num: (n - 36) as u8 },
        ),
        45 <= n <= 46 ==> r == Some(
            PinId { port: PortId::B, num: (n - 37) as u8 },
        ),
        r is Some <==> {
                ||| 3 <= n <= 4
                ||| 11 <= n <= 17
                ||| 18 <= n <= 20
                ||| n == 21
                ||| 25 <= n <= 28
                ||| 29 <= n <= 34
                ||| 37 <= n <= 38
                ||| 39 <= n <= 43
                ||| 45 <= n <= 46
        },
{
    let (port, num): (PortId, u8) = match n {
        // 2 is C13 (reserved for led)
        3 => (PortId::C, 14),
        4 => (PortId::C, 15),
        // 10 is A0 (reserved for button)
        11 => (PortId::A, 1),
        12 => (PortId::A, 2),
        13 => (PortId::A, 3),
        14 => (PortId::A, 4),
        15 => (PortId::A, 5),
        16 => (PortId::A, 6),
        17 => (PortId::A, 7),
        18 => (PortId::B, 0),
        19 => (PortId::B, 1),
        20 => (PortId::B, 2),
        21 => (PortId::B, 10),
        25 => (PortId::B, 12),
        26 => (PortId::B, 13),
        27 => (PortId::B, 14),
        28 => (PortId::B, 15),
        29 => (PortId::A, 8),
        30 => (PortId::A, 9),
        31 => (PortId::A, 10),
        32 => (PortId::A, 11),
        33 => (PortId::A, 12),
        34 => (PortId::A, 13),
        37 => (PortId::A, 14),
        38 => (PortId::A, 15),
        39 => (PortId::B, 3),
        40 => (PortId::B, 4),
        41 => (PortId::B, 5),
        42 => (PortId::B, 6),
        43 => (PortId::B, 7),
        45 => (PortId::B, 8),
        46 => (PortId::B, 9),
        _ => {
            return None;
        },
    };
    Some(PinId { port, num })
}

/// The pin of the LED.
pub open spec fn led_pin() -> PinId {
    pin(PortId::C, 13)
}

/// The pin of the KEY button.
pub open spec fn key_pin() -> PinId {
    pin(PortId::A, 0)
}

/// The level that lights the LED.
pub const LED_ACTIVATION: ActivationMode = ActivationMode::ActiveLow;

/// The LED, which lights while its pin is low.
pub fn led() -> (r: LedConfig<PinId>)
    ensures
        r == (LedConfig { pin: led_pin(), mode: ActivationMode::ActiveLow }),
        r.pin.port == PortId::C,
        r.pin.num == 13,
{
    LedConfig { pin: PinId { port: PortId::C, num: 13 }, mode: LED_ACTIVATION }
}

/// The KEY button, which pulls its pin low while it is pressed.
pub fn button() -> (r: ButtonConfig<PinId>)
    ensures
        r == (ButtonConfig {
            pin: key_pin(),
            mode: ActivationMode::ActiveLow,
            floating: FloatingState::PullUp,
        }),
        r.pin.port == PortId::A,
        r.pin.num == 0,
{
    ButtonConfig {
        pin: PinId { port: PortId::A, num: 0 },
        mode: ActivationMode::ActiveLow,
        floating: FloatingState::PullUp,
    }
}

/// An input of the analog-to-digital converter that the board exposes.
#[derive(Clone, Copy, Debug, PartialEq, Eq, Structural)]
pub enum AdcChannel {
    Channel3,
    Channel8,
    Channel9,
    Channel10,
    Channel13,
    Channel15,
}

/// The inputs that the ADC driver offers, in the order of their numbers there.
pub open spec fn adc_channels_spec() -> Seq<AdcChannel> {
    seq![
        AdcChannel::Channel3,
        AdcChannel::Channel10,
        AdcChannel::Channel13,
        AdcChannel::Channel9,
        AdcChannel::Channel15,
        AdcChannel::Channel8,
    ]
}

/// The inputs that the ADC driver offers: input `i` of the driver stands at index `i`.
pub fn adc_channels() -> (r: [AdcChannel; 6])
    ensures
        r@ == adc_channels_spec(),
{
    [
        AdcChannel::Channel3,
        AdcChannel::Channel10,
        AdcChannel::Channel13,
        AdcChannel::Channel9,
        AdcChannel::Channel15,
        AdcChannel::Channel8,
    ]
}

/// The number that the GPIO driver has for a pin that it offers.
spec fn number_of(p: PinId) -> int {
    match p.port {
        PortId::A => if p.num <= 7 {
            p.num + 10
        } else if p.num <= 13 {
            p.num + 21
        } else {
            p.num + 23
        },
        PortId::B => if p.num <= 2 {
            p.num + 18
        } else if p.num <= 7 {
            p.num + 36
        } else if p.num <= 9 {
            p.num + 37
        } else if p.num == 10 {
            21
        } else {
            p.num + 13
        },
        PortId::C => p.num - 11,
    }
}

/// A number is offered exactly when it stands on the board's headers: 3 and 4, 11 to 21,
/// 25 to 34, 37 to 43, 45 and 46.
pub proof fn law_gpio_numbers_offered(n: int)
    ensures
        gpio_pin_spec(n) is Some <==> {
            ||| 3 <= n <= 4
            ||| 11 <= n <= 21
            ||| 25 <= n <= 34
            ||| 37 <= n <= 43
            ||| 45 <= n <= 46
        },
{
}

/// Which pin a number is: C14 and C15, A1 to A7, B0 to B2 and B10, B12 to B15, A8 to A13,
/// A14 and A15, B3 to B7, B8 and B9, run by run.
pub proof fn law_gpio_pin_of_number(n: int)
    ensures
        3 <= n <= 4 ==> gpio_pin_spec(n) == Some(
            PinId { port: PortId::C, num: (n + 11) as u8 },
        ),
        11 <= n <= 17 ==> gpio_pin_spec(n) == Some(
            PinId { port: PortId::A, num: (n - 10) as u8 },
        ),
        18 <= n <= 20 ==> gpio_pin_spec(n) == Some(
            PinId { port: PortId::B, num: (n - 18) as u8 },
        ),
        n == 21 ==> gpio_pin_spec(n) == Some(
            PinId { port: PortId::B, num: (n - 11) as u8 },
        ),
        25 <= n <= 28 ==> gpio_pin_spec(n) == Some(
            PinId { port: PortId::B, num: (n - 13) as u8 },
        ),
        29 <= n <= 34 ==> gpio_pin_spec(n) == Some(
            PinId { port: PortId::A, num: (n - 21) as u8 },
        ),
        37 <= n <= 38 ==> gpio_pin_spec(n) == Some(
            PinId { port: PortId::A, num: (n - 23) as u8 },
        ),
        39 <= n <= 43 ==> gpio_pin_spec(n) == Some(
            PinId { port: PortId::B, num: (n - 36) as u8 },
        ),
        45 <= n <= 46 ==> gpio_pin_spec(n) == Some(
            PinId { port: PortId::B, num: (n - 37) as u8 },
        ),
{
}

/// Going up the board by one goes up the port by one, wherever both numbers are offered,
/// except where a run of pins ends: after 17, 20, 28, 34 and 38.
pub proof fn law_gpio_neighbours(n: int)
    requires
        gpio_pin_spec(n) is Some,
        gpio_pin_spec(n + 1) is Some,
    ensures
        ({
            let here = gpio_pin_spec(n).unwrap();
            let next = gpio_pin_spec(n + 1).unwrap();
            (n != 17 && n != 20 && n != 28 && n != 34 && n != 38) <==> here.port == next.port
                && next.num == here.num + 1
        }),
{
}

/// The GPIO driver offers no pin under two numbers.
pub proof fn law_gpio_numbers_distinct(m: int, n: int)
    requires
        gpio_pin_spec(m) is Some,
        gpio_pin_spec(m) == gpio_pin_spec(n),
    ensures
        m == n,
{
    assert(number_of(gpio_pin_spec(m).unwrap()) == m);
    assert(number_of(gpio_pin_spec(n).unwrap()) == n);
}

/// The GPIO driver offers pins 1 to 15 of port A, all pins of port B but 11, and pins 14
/// and 15 of port C.
pub proof fn law_gpio_pins_offered(p: PinId)
    ensures
        (exists|n: int| #[trigger] gpio_pin_spec(n) == Some(p)) <==> match p.port {
            PortId::A => 1 <= p.num <= 15,
            PortId::B => p.num <= 15 && p.num != 11,
            PortId::C => 14 <= p.num <= 15,
        },
{
    let offered = match p.port {
        PortId::A => 1 <= p.num <= 15,
        PortId::B => p.num <= 15 && p.num != 11,
        PortId::C => 14 <= p.num <= 15,
    };
    if offered {
        assert(gpio_pin_spec(number_of(p)) == Some(p));
    }
}

/// The pins of the LED and of the button are not offered as GPIOs.
pub proof fn law_led_and_button_reserved(n: int)
    ensures
        gpio_pin_spec(n) != Some(led_pin()),
        gpio_pin_spec(n) != Some(key_pin()),
{
}

/// The inputs of the ADC driver come in this order.
pub proof fn law_adc_channel_order()
    ensures
        ({
            let all = adc_channels_spec();
            &&& all.len() == 6
            &&& all.index_of(AdcChannel::Channel3) == 0
            &&& all.index_of(AdcChannel::Channel10) == 1
            &&& all.index_of(AdcChannel::Channel13) == 2
            &&& all.index_of(AdcChannel::Channel9) == 3
            &&& all.index_of(AdcChannel::Channel15) == 4
            &&& all.index_of(AdcChannel::Channel8) == 5
        }),
{
    let all = adc_channels_spec();
    assert(all[0] == AdcChannel::Channel3 && all[1] == AdcChannel::Channel10);
    assert(all[2] == AdcChannel::Channel13 && all[3] == AdcChannel::Channel9);
    assert(all[4] == AdcChannel::Channel15 && all[5] == AdcChannel::Channel8);
}

/// The ADC driver offers no input twice.
pub proof fn law_adc_channels_distinct()
    ensures
        adc_channels_spec().no_duplicates(),
{
}

} // verus!
