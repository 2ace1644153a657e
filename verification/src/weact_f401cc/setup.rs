//! How the chip is set up before any driver is created: the operations, in order.
//!
//! What the laws say of the chip they say of its model, `Machine`.

use vstd::prelude::*;

use super::hardware::{
    lemma_after_all_step, lemma_after_slots_step, AlternateFunction, Dma1Peripheral, Machine, Mode,
    Op, PinState,
};
use super::pins::{gpio_pin_spec, key_pin, led_pin, pin, PinId, PortId};

verus! {

/// A stream of DMA controller 1 and the number of its interrupt.
#[derive(Clone, Copy, Debug, PartialEq, Eq, Structural)]
pub struct StreamRoute {
    pub stream: usize,
    pub irqn: u32,
}

/// DMA controller 1 has this many streams.
pub const DMA1_STREAMS: usize = 8;

/// The operations that configure DMA.
pub open spec fn setup_dma_spec(tx: StreamRoute, rx: StreamRoute) -> Seq<Op> {
    seq![
        Op::EnableDma1Clock,
        Op::SetUsart2Dma { tx: tx.stream, rx: rx.stream },
        Op::SetUsart2AsClient { stream: tx.stream },
        Op::SetUsart2AsClient { stream: rx.stream },
        Op::SetupStream { stream: tx.stream, peripheral: Dma1Peripheral::USART2_TX },
        Op::SetupStream { stream: rx.stream, peripheral: Dma1Peripheral::USART2_RX },
        Op::EnableInterrupt { irqn: tx.irqn },
        Op::EnableInterrupt { irqn: rx.irqn },
    ]
}

/// Helper function called during bring-up that configures DMA: USART2 sends through the
/// stream of `tx` and receives through that of `rx`.
pub fn setup_dma(tx: StreamRoute, rx: StreamRoute) -> (r: [Op; 8])
    requires
        tx.stream < DMA1_STREAMS,
        rx.stream < DMA1_STREAMS,
    ensures
        r@ == setup_dma_spec(tx, rx),
        r@[0] == Op::EnableDma1Clock,
        r@[1] == (Op::SetUsart2Dma { tx: tx.stream, rx: rx.stream }),
        r@[2] == (Op::SetUsart2AsClient { stream: tx.stream }),
        r@[3] == (Op::SetUsart2AsClient { stream: rx.stream }),
        r@[4] == (Op::SetupStream { stream: tx.stream, peripheral: Dma1Peripheral::USART2_TX }),
        r@[5] == (Op::SetupStream { stream: rx.stream, peripheral: Dma1Peripheral::USART2_RX }),
        r@[6] == (Op::EnableInterrupt { irqn: tx.irqn }),
        r@[7] == (Op::EnableInterrupt { irqn: rx.irqn }),
{
    [
        Op::EnableDma1Clock,
        Op::SetUsart2Dma { tx: tx.stream, rx: rx.stream },
        Op::SetUsart2AsClient { stream: tx.stream },
        Op::SetUsart2AsClient { stream: rx.stream },
        Op::SetupStream { stream: tx.stream, peripheral: Dma1Peripheral::USART2_TX },
        Op::SetupStream { stream: rx.stream, peripheral: Dma1Peripheral::USART2_RX },
        Op::EnableInterrupt { irqn: tx.irqn },
        Op::EnableInterrupt { irqn: rx.irqn },
    ]
}

/// Which of the pins that are set up the chip has.
#[derive(Clone, Copy, Debug, PartialEq, Eq, Structural)]
pub struct PinsPresent {
    pub pa00: bool,
    pub pa02: bool,
    pub pa03: bool,
    pub pc13: bool,
    pub pc14: bool,
}

impl PinsPresent {
    /// Whether the chip has `p`, one of the pins that are set up.
    pub open spec fn has(self, p: PinId) -> bool {
        ||| self.pa00 && p == pin(PortId::A, 0)
        ||| self.pa02 && p == pin(PortId::A, 2)
        ||| self.pa03 && p == pin(PortId::A, 3)
        ||| self.pc13 && p == pin(PortId::C, 13)
        ||| self.pc14 && p == pin(PortId::C, 14)
    }
}

/// The operations that configure multiplexed I/O where the chip has all pins.
pub open spec fn pin_ops() -> Seq<Op> {
    seq![
        Op::EnableSyscfgClock,
        Op::EnablePortClock(PortId::A),
        Op::EnablePinInterrupt(pin(PortId::A, 0)),
        Op::EnablePinInterrupt(pin(PortId::C, 14)),
        Op::SetMode(pin(PortId::A, 2), Mode::AlternateFunction),
        Op::SetAlternateFunction(pin(PortId::A, 2), AlternateFunction::AF7),
        Op::SetMode(pin(PortId::A, 3), Mode::AlternateFunction),
        Op::SetAlternateFunction(pin(PortId::A, 3), AlternateFunction::AF7),
        Op::EnablePortClock(PortId::C),
        Op::MakeOutput(pin(PortId::C, 13)),
        Op::AssignDebugGpios(Some(pin(PortId::C, 13)), None, None),
        Op::EnablePortClock(PortId::B),
    ]
}

/// The pin that an operation is about.
pub open spec fn pin_of(op: Op) -> Option<PinId> {
    match op {
        Op::EnablePinInterrupt(p) => Some(p),
        Op::SetMode(p, _) => Some(p),
        Op::SetAlternateFunction(p, _) => Some(p),
        Op::MakeOutput(p) => Some(p),
        Op::AssignDebugGpios(first, _, _) => first,
        _ => None,
    }
}

/// An operation, unless it is about a pin that the chip does not have.
pub open spec fn where_present(op: Op, present: PinsPresent) -> Option<Op> {
    match pin_of(op) {
        Some(p) => when_spec(present.has(p), op),
        None => Some(op),
    }
}

/// The operations that configure multiplexed I/O, those left out that are about a pin
/// which the chip does not have.
pub open spec fn set_pin_primary_functions_spec(present: PinsPresent) -> Seq<Option<Op>> {
    pin_ops().map_values(|op: Op| where_present(op, present))
}

/// `op`, where the pin that it is about is present.
pub open spec fn when_spec(present: bool, op: Op) -> Option<Op> {
    if present {
        Some(op)
    } else {
        None
    }
}

fn when(present: bool, op: Op) -> (r: Option<Op>)
    ensures
        r == when_spec(present, op),
{
    if present {
        Some(op)
    } else {
        None
    }
}

/// Helper function called during bring-up that configures multiplexed I/O. An operation
/// on a pin that the chip does not have is left out.
pub fn set_pin_primary_functions(present: PinsPresent) -> (r: [Option<Op>; 12])
    ensures
        r@ == set_pin_primary_functions_spec(present),
        r@[0] == Some(Op::EnableSyscfgClock),
        r@[1] == Some(Op::EnablePortClock(PortId::A)),
        present.pa00 ==> r@[2] == Some(
            Op::EnablePinInterrupt(PinId { port: PortId::A, num: 0 }),
        ),
        !present.pa00 ==> r@[2] is None,
        present.pc14 ==> r@[3] == Some(
            Op::EnablePinInterrupt(PinId { port: PortId::C, num: 14 }),
        ),
        !present.pc14 ==> r@[3] is None,
        present.pa02 ==> r@[4] == Some(
            Op::SetMode(PinId { port: PortId::A, num: 2 }, Mode::AlternateFunction),
        ),
        !present.pa02 ==> r@[4] is None,
        present.pa02 ==> r@[5] == Some(
            Op::SetAlternateFunction(PinId { port: PortId::A, num: 2 }, AlternateFunction::AF7),
        ),
        !present.pa02 ==> r@[5] is None,
        present.pa03 ==> r@[6] == Some(
            Op::SetMode(PinId { port: PortId::A, num: 3 }, Mode::AlternateFunction),
        ),
        !present.pa03 ==> r@[6] is None,
        present.pa03 ==> r@[7] == Some(
            Op::SetAlternateFunction(PinId { port: PortId::A, num: 3 }, AlternateFunction::AF7),
        ),
        !present.pa03 ==> r@[7] is None,
        r@[8] == Some(Op::EnablePortClock(PortId::C)),
        present.pc13 ==> r@[9] == Some(
            Op::MakeOutput(PinId { port: PortId::C, num: 13 }),
        ),
        !present.pc13 ==> r@[9] is None,
        present.pc13 ==> r@[10] == Some(
            Op::AssignDebugGpios(Some(PinId { port: PortId::C, num: 13 }), None, None),
        ),
        !present.pc13 ==> r@[10] is None,
        r@[11] == Some(Op::EnablePortClock(PortId::B)),
{
    let pa00 = PinId { port: PortId::A, num: 0 };
    let pa02 = PinId { port: PortId::A, num: 2 };
    let pa03 = PinId { port: PortId::A, num: 3 };
    let pc13 = PinId { port: PortId::C, num: 13 };
    let pc14 = PinId { port: PortId::C, num: 14 };
    [
        Some(Op::EnableSyscfgClock),
        Some(Op::EnablePortClock(PortId::A)),
        // On-board KEY button is connected on PA0
        when(present.pa00, Op::EnablePinInterrupt(pa00)),
        // enable interrupt for D3
        when(present.pc14, Op::EnablePinInterrupt(pc14)),
        // PA2 (tx) and PA3 (rx) (USART2)
        when(present.pa02, Op::SetMode(pa02, Mode::AlternateFunction)),
        when(present.pa02, Op::SetAlternateFunction(pa02, AlternateFunction::AF7)),
        when(present.pa03, Op::SetMode(pa03, Mode::AlternateFunction)),
        when(present.pa03, Op::SetAlternateFunction(pa03, AlternateFunction::AF7)),
        Some(Op::EnablePortClock(PortId::C)),
        // On-board LED C13 is connected to PC13. The kernel has it as its first debug pin
        when(present.pc13, Op::MakeOutput(pc13)),
        when(present.pc13, Op::AssignDebugGpios(Some(pc13), None, None)),
        // Ports A and C enabled above, Port B is the only other board-exposed port
        Some(Op::EnablePortClock(PortId::B)),
    ]
}

/// The operations that set the remaining peripherals up.
pub open spec fn setup_peripherals_spec(usart2_irqn: u32, tim2_irqn: u32) -> Seq<Op> {
    seq![
        Op::EnableInterrupt { irqn: usart2_irqn },
        Op::EnableTim2Clock,
        Op::StartTim2,
        Op::EnableInterrupt { irqn: tim2_irqn },
    ]
}

/// Helper function for miscellaneous peripheral functions: the interrupt of USART2, and
/// timer 2 with its interrupt.
pub fn setup_peripherals(usart2_irqn: u32, tim2_irqn: u32) -> (r: [Op; 4])
    ensures
        r@ == setup_peripherals_spec(usart2_irqn, tim2_irqn),
        r@[0] == (Op::EnableInterrupt { irqn: usart2_irqn }),
        r@[1] == Op::EnableTim2Clock,
        r@[2] == Op::StartTim2,
        r@[3] == (Op::EnableInterrupt { irqn: tim2_irqn }),
{
    [
        Op::EnableInterrupt { irqn: usart2_irqn },
        Op::EnableTim2Clock,
        Op::StartTim2,
        Op::EnableInterrupt { irqn: tim2_irqn },
    ]
}

/// What the peripheral setup leaves behind: the clock of timer 2 on, the timer running,
/// both interrupts enabled, and all else as it was.
pub proof fn law_peripherals_set_up(m: Machine, usart2_irqn: u32, tim2_irqn: u32)
    ensures
        m.after_all(setup_peripherals_spec(usart2_irqn, tim2_irqn)) == (Machine {
            tim2_clock: true,
            tim2_running: true,
            interrupts: m.interrupts.insert(usart2_irqn).insert(tim2_irqn),
            ..m
        }),
{
    let ops = setup_peripherals_spec(usart2_irqn, tim2_irqn);
    lemma_after_all_step(m, ops, 0);
    lemma_after_all_step(m, ops, 1);
    lemma_after_all_step(m, ops, 2);
    lemma_after_all_step(m, ops, 3);
    assert(ops.take(0) =~= Seq::empty());
    assert(ops.take(4) =~= ops);
}

/// Every operation of the peripheral setup finds the chip ready for it.
pub proof fn law_peripherals_ready(m: Machine, usart2_irqn: u32, tim2_irqn: u32, i: int)
    requires
        0 <= i < setup_peripherals_spec(usart2_irqn, tim2_irqn).len(),
    ensures
        ({
            let ops = setup_peripherals_spec(usart2_irqn, tim2_irqn);
            m.after_all(ops.take(i)).ready_for(ops[i])
        }),
{
    let ops = setup_peripherals_spec(usart2_irqn, tim2_irqn);
    lemma_after_all_step(m, ops, 1);
}

/// What the DMA setup leaves behind: the controller clocked, USART2 the client of both
/// streams and told to use them, the streams serving it, both interrupts enabled, and all
/// else as it was.
pub proof fn law_dma_set_up(m: Machine, tx: StreamRoute, rx: StreamRoute)
    ensures
        m.after_all(setup_dma_spec(tx, rx)) == (Machine {
            dma1_clock: true,
            usart2_dma: Some((tx.stream, rx.stream)),
            usart2_streams: m.usart2_streams.insert(tx.stream).insert(rx.stream),
            streams: m.streams.insert(tx.stream, Dma1Peripheral::USART2_TX).insert(
                rx.stream,
                Dma1Peripheral::USART2_RX,
            ),
            interrupts: m.interrupts.insert(tx.irqn).insert(rx.irqn),
            ..m
        }),
{
    let ops = setup_dma_spec(tx, rx);
    lemma_after_all_step(m, ops, 0);
    lemma_after_all_step(m, ops, 1);
    lemma_after_all_step(m, ops, 2);
    lemma_after_all_step(m, ops, 3);
    lemma_after_all_step(m, ops, 4);
    lemma_after_all_step(m, ops, 5);
    lemma_after_all_step(m, ops, 6);
    lemma_after_all_step(m, ops, 7);
    assert(ops.take(0) =~= Seq::empty());
    assert(ops.take(8) =~= ops);
}

/// Where the two streams differ, USART2 sends through one that serves its sending side
/// and receives through one that serves its receiving side.
pub proof fn law_dma_streams_serve_usart2(m: Machine, tx: StreamRoute, rx: StreamRoute)
    requires
        tx.stream != rx.stream,
    ensures
        ({
            let after = m.after_all(setup_dma_spec(tx, rx));
            &&& after.usart2_dma == Some((tx.stream, rx.stream))
            &&& after.streams[tx.stream] == Dma1Peripheral::USART2_TX
            &&& after.streams[rx.stream] == Dma1Peripheral::USART2_RX
        }),
{
    law_dma_set_up(m, tx, rx);
}

/// Every operation of the DMA setup finds the chip ready for it.
pub proof fn law_dma_ready(m: Machine, tx: StreamRoute, rx: StreamRoute, i: int)
    requires
        0 <= i < setup_dma_spec(tx, rx).len(),
    ensures
        ({
            let ops = setup_dma_spec(tx, rx);
            m.after_all(ops.take(i)).ready_for(ops[i])
        }),
{
    let ops = setup_dma_spec(tx, rx);
    lemma_after_all_step(m, ops, 0);
    lemma_after_all_step(m, ops, 1);
    lemma_after_all_step(m, ops, 2);
    lemma_after_all_step(m, ops, 3);
    lemma_after_all_step(m, ops, 4);
}

/// The state of a pin after multiplexed I/O is configured.
pub open spec fn pin_after(p: PinId, before: PinState, present: PinsPresent) -> PinState {
    if !present.has(p) {
        before
    } else if p == key_pin() || p == pin(PortId::C, 14) {
        PinState { interrupt: true, ..before }
    } else if p == led_pin() {
        PinState { mode: Mode::Output, ..before }
    } else {
        PinState {
            mode: Mode::AlternateFunction,
            alternate_function: Some(AlternateFunction::AF7),
            ..before
        }
    }
}

/// The pins with an interrupt of their own are routed first.
proof fn lemma_pins_routed(m: Machine, present: PinsPresent)
    ensures
        ({
            let routed = m.after_slots(set_pin_primary_functions_spec(present).take(4));
            &&& routed == Machine {
                syscfg_clock: true,
                port_clocks: m.port_clocks.insert(PortId::A),
                pins: routed.pins,
                ..m
            }
            &&& forall|p: PinId| #[trigger]
                routed.pins[p] == if p == key_pin() || p == pin(PortId::C, 14) {
                    pin_after(p, m.pins[p], present)
                } else {
                    m.pins[p]
                }
        }),
{
    let slots = set_pin_primary_functions_spec(present);
    assert(slots.take(0) =~= Seq::empty());
    lemma_after_slots_step(m, slots, 0);
    lemma_after_slots_step(m, slots, 1);
    lemma_after_slots_step(m, slots, 2);
    lemma_after_slots_step(m, slots, 3);
}

/// The pin that USART2 sends on is switched next.
proof fn lemma_tx_pin_switched(m: Machine, present: PinsPresent)
    ensures
        ({
            let slots = set_pin_primary_functions_spec(present);
            let before = m.after_slots(slots.take(4));
            let after = m.after_slots(slots.take(6));
            &&& after == Machine { pins: after.pins, ..before }
            &&& forall|p: PinId| #[trigger]
                after.pins[p] == if p == pin(PortId::A, 2) {
                    pin_after(p, before.pins[p], present)
                } else {
                    before.pins[p]
                }
        }),
{
    let slots = set_pin_primary_functions_spec(present);
    lemma_after_slots_step(m, slots, 4);
    lemma_after_slots_step(m, slots, 5);
}

/// Then the pin that it receives on.
proof fn lemma_rx_pin_switched(m: Machine, present: PinsPresent)
    ensures
        ({
            let slots = set_pin_primary_functions_spec(present);
            let before = m.after_slots(slots.take(6));
            let after = m.after_slots(slots.take(8));
            &&& after == Machine { pins: after.pins, ..before }
            &&& forall|p: PinId| #[trigger]
                after.pins[p] == if p == pin(PortId::A, 3) {
                    pin_after(p, before.pins[p], present)
                } else {
                    before.pins[p]
                }
        }),
{
    let slots = set_pin_primary_functions_spec(present);
    lemma_after_slots_step(m, slots, 6);
    lemma_after_slots_step(m, slots, 7);
}

/// The pin of the LED is set up last.
proof fn lemma_led_pin_set(m: Machine, present: PinsPresent)
    ensures
        ({
            let slots = set_pin_primary_functions_spec(present);
            let switched = m.after_slots(slots.take(8));
            let after = m.after_slots(slots);
            &&& after == Machine {
                port_clocks: switched.port_clocks.insert(PortId::C).insert(PortId::B),
                pins: after.pins,
                debug_gpios: if present.pc13 {
                    (Some(led_pin()), None, None)
                } else {
                    switched.debug_gpios
                },
                ..switched
            }
            &&& forall|p: PinId| #[trigger]
                after.pins[p] == if p == led_pin() {
                    pin_after(p, switched.pins[p], present)
                } else {
                    switched.pins[p]
                }
        }),
{
    let slots = set_pin_primary_functions_spec(present);
    lemma_after_slots_step(m, slots, 8);
    lemma_after_slots_step(m, slots, 9);
    lemma_after_slots_step(m, slots, 10);
    lemma_after_slots_step(m, slots, 11);
    assert(slots.take(12) =~= slots);
}

/// What configuring multiplexed I/O leaves behind: SYSCFG and the ports A, B and C, which
/// are all that the board exposes, clocked; of the pins that the chip has, the one of the
/// KEY button and GPIO 3 with their interrupts enabled, those of USART2 switched to it,
/// and the one of the LED an output and the kernel's first debug pin; and all else as it
/// was.
pub proof fn law_pins_set_up(m: Machine, present: PinsPresent)
    ensures
        ({
            let after = m.after_slots(set_pin_primary_functions_spec(present));
            &&& after == Machine {
                syscfg_clock: true,
                port_clocks: m.port_clocks.insert(PortId::A).insert(PortId::C).insert(PortId::B),
                pins: after.pins,
                debug_gpios: if present.pc13 {
                    (Some(led_pin()), None, None)
                } else {
                    m.debug_gpios
                },
                ..m
            }
            &&& forall|port: PortId| after.port_clocks.contains(port)
            &&& forall|p: PinId| #[trigger] after.pins[p] == pin_after(p, m.pins[p], present)
        }),
{
    lemma_pins_routed(m, present);
    lemma_tx_pin_switched(m, present);
    lemma_rx_pin_switched(m, present);
    lemma_led_pin_set(m, present);
    let slots = set_pin_primary_functions_spec(present);
    assert forall|p: PinId| #[trigger] m.after_slots(slots).pins[p] == pin_after(
        p,
        m.pins[p],
        present,
    ) by {
        let routed = m.after_slots(slots.take(4)).pins[p];
        let tx_switched = m.after_slots(slots.take(6)).pins[p];
        let rx_switched = m.after_slots(slots.take(8)).pins[p];
    }
}

/// Every operation that configures multiplexed I/O finds the chip ready for it.
pub proof fn law_pins_ready(m: Machine, present: PinsPresent, i: int)
    requires
        0 <= i < set_pin_primary_functions_spec(present).len(),
    ensures
        ({
            let slots = set_pin_primary_functions_spec(present);
            slots[i] matches Some(op) ==> m.after_slots(slots.take(i)).ready_for(op)
        }),
{
    let slots = set_pin_primary_functions_spec(present);
    lemma_after_slots_step(m, slots, 0);
    lemma_after_slots_step(m, slots, 1);
    lemma_after_slots_step(m, slots, 2);
    lemma_after_slots_step(m, slots, 3);
    lemma_after_slots_step(m, slots, 4);
    lemma_after_slots_step(m, slots, 5);
    lemma_after_slots_step(m, slots, 6);
    lemma_after_slots_step(m, slots, 7);
    lemma_after_slots_step(m, slots, 8);
    lemma_after_slots_step(m, slots, 9);
}

/// What the three setups leave behind, performed in the order in which the board comes
/// up: none undoes what another did.
pub proof fn law_setups_compose(
    m: Machine,
    usart2_irqn: u32,
    tim2_irqn: u32,
    present: PinsPresent,
    tx: StreamRoute,
    rx: StreamRoute,
)
    ensures
        ({
            let after = m.after_all(setup_peripherals_spec(usart2_irqn, tim2_irqn)).after_slots(
                set_pin_primary_functions_spec(present),
            ).after_all(setup_dma_spec(tx, rx));
            &&& after.tim2_clock && after.tim2_running
            &&& after.syscfg_clock && after.dma1_clock
            &&& after.port_clocks == m.port_clocks.insert(PortId::A).insert(PortId::C).insert(
                PortId::B,
            )
            &&& forall|p: PinId| #[trigger] after.pins[p] == pin_after(p, m.pins[p], present)
            &&& after.debug_gpios == if present.pc13 {
                (Some(led_pin()), None, None)
            } else {
                m.debug_gpios
            }
            &&& after.usart2_dma == Some((tx.stream, rx.stream))
            &&& after.usart2_streams == m.usart2_streams.insert(tx.stream).insert(rx.stream)
            &&& after.streams == m.streams.insert(tx.stream, Dma1Peripheral::USART2_TX).insert(
                rx.stream,
                Dma1Peripheral::USART2_RX,
            )
            &&& after.interrupts == m.interrupts.insert(usart2_irqn).insert(tim2_irqn).insert(
                tx.irqn,
            ).insert(rx.irqn)
        }),
{
    let peripherals = m.after_all(setup_peripherals_spec(usart2_irqn, tim2_irqn));
    let pins = peripherals.after_slots(set_pin_primary_functions_spec(present));
    law_peripherals_set_up(m, usart2_irqn, tim2_irqn);
    law_pins_set_up(peripherals, present);
    law_dma_set_up(pins, tx, rx);
}

/// The controller has the streams 0 to 7.
pub proof fn law_dma1_streams(stream: usize)
    ensures
        stream < DMA1_STREAMS <==> stream <= 7,
{
}

/// The order in which DMA is configured: the clock, then USART2's own streams, then their
/// client, then what they serve, and the interrupts last; the sending side always directly
/// before the receiving one.
pub proof fn law_dma_order(tx: StreamRoute, rx: StreamRoute, i: int)
    requires
        0 <= i < setup_dma_spec(tx, rx).len(),
    ensures
        ({
            let ops = setup_dma_spec(tx, rx);
            &&& ops.len() == 8
            &&& ops[i] is EnableDma1Clock <==> i == 0
            &&& ops[i] is SetUsart2Dma <==> i == 1
            &&& ops[i] is SetUsart2AsClient <==> 2 <= i < 4
            &&& ops[i] is SetupStream <==> 4 <= i < 6
            &&& ops[i] is EnableInterrupt <==> 6 <= i < 8
            &&& ops[2]->SetUsart2AsClient_stream == tx.stream
            &&& ops[3]->SetUsart2AsClient_stream == rx.stream
            &&& ops[4]->SetupStream_stream == tx.stream
            &&& ops[5]->SetupStream_stream == rx.stream
            &&& ops[6]->irqn == tx.irqn
            &&& ops[7]->irqn == rx.irqn
        }),
{
}

/// Exchanging the two routes exchanges the streams and the interrupts within each pair of
/// operations, and nothing else.
pub proof fn law_dma_routes_exchange(tx: StreamRoute, rx: StreamRoute)
    ensures
        ({
            let ops = setup_dma_spec(tx, rx);
            let exchanged = setup_dma_spec(rx, tx);
            &&& exchanged[0] == ops[0]
            &&& exchanged[1]->tx == ops[1]->rx && exchanged[1]->rx == ops[1]->tx
            &&& exchanged[2] == ops[3] && exchanged[3] == ops[2]
            &&& exchanged[4]->SetupStream_stream == ops[5]->SetupStream_stream
            &&& exchanged[5]->SetupStream_stream == ops[4]->SetupStream_stream
            &&& exchanged[4]->peripheral == ops[4]->peripheral
            &&& exchanged[5]->peripheral == ops[5]->peripheral
            &&& exchanged[6] == ops[7] && exchanged[7] == ops[6]
        }),
{
}

/// The order in which the peripherals are set up: the interrupt of USART2, then the timer,
/// clocked before it starts, and its interrupt once it runs.
pub proof fn law_peripherals_order(usart2_irqn: u32, tim2_irqn: u32, i: int)
    requires
        0 <= i < setup_peripherals_spec(usart2_irqn, tim2_irqn).len(),
    ensures
        ({
            let ops = setup_peripherals_spec(usart2_irqn, tim2_irqn);
            &&& ops.len() == 4
            &&& ops[i] is EnableTim2Clock <==> i == 1
            &&& ops[i] is StartTim2 <==> i == 2
            &&& ops[i] is EnableInterrupt <==> i == 0 || i == 3
            &&& ops[0]->irqn == usart2_irqn
            &&& ops[3]->irqn == tim2_irqn
        }),
{
}

/// A missing pin takes away its own operations and no others: on any chip a slot holds
/// what it holds on a chip with all pins, unless the pin that it is about is missing.
pub proof fn law_missing_pin_takes_its_own(present: PinsPresent, all: PinsPresent, i: int)
    requires
        all.pa00 && all.pa02 && all.pa03 && all.pc13 && all.pc14,
        0 <= i < set_pin_primary_functions_spec(present).len(),
    ensures
        ({
            let slot = set_pin_primary_functions_spec(present)[i];
            let missing = {
                ||| i == 2 && !present.pa00
                ||| i == 3 && !present.pc14
                ||| (i == 4 || i == 5) && !present.pa02
                ||| (i == 6 || i == 7) && !present.pa03
                ||| (i == 9 || i == 10) && !present.pc13
            };
            &&& set_pin_primary_functions_spec(all).len() == 12
            &&& set_pin_primary_functions_spec(present).len() == 12
            &&& set_pin_primary_functions_spec(all)[i] is Some
            &&& slot == if missing {
                None
            } else {
                set_pin_primary_functions_spec(all)[i]
            }
        }),
{
}

/// What configuring multiplexed I/O does to each pin: A0 and C14 have their interrupts
/// enabled, A2 and A3 belong to USART2, C13 is an output, each where the chip has it; no
/// other pin changes.
pub proof fn law_pin_by_pin(m: Machine, present: PinsPresent, p: PinId)
    ensures
        ({
            let before = m.pins[p];
            let after = m.after_slots(set_pin_primary_functions_spec(present)).pins[p];
            let routed = {
                ||| present.pa00 && p.port == PortId::A && p.num == 0
                ||| present.pc14 && p.port == PortId::C && p.num == 14
            };
            let switched = {
                ||| present.pa02 && p.port == PortId::A && p.num == 2
                ||| present.pa03 && p.port == PortId::A && p.num == 3
            };
            let driven = present.pc13 && p.port == PortId::C && p.num == 13;
            &&& after.interrupt == (before.interrupt || routed)
            &&& after.mode == if switched {
                Mode::AlternateFunction
            } else if driven {
                Mode::Output
            } else {
                before.mode
            }
            &&& after.alternate_function == if switched {
                Some(AlternateFunction::AF7)
            } else {
                before.alternate_function
            }
        }),
{
    law_pins_set_up(m, present);
}

/// GPIO 3 and the KEY button are the pins whose interrupts are enabled.
pub proof fn law_interrupt_pins(p: PinId)
    ensures
        pin_ops().contains(Op::EnablePinInterrupt(p)) <==> Some(p) == gpio_pin_spec(3) || p
            == key_pin(),
{
    assert(pin_ops()[2] == Op::EnablePinInterrupt(key_pin()));
    assert(pin_ops()[3] == Op::EnablePinInterrupt(pin(PortId::C, 14)));
}

} // verus!
