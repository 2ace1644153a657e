//! The operations that bring-up performs on the chip, and a model of what they do to it.
//!
//! The model (`Machine`) is this library's reading of the operations. The laws about the
//! setup of the chip speak of it; the drivers that perform the operations are outside.

use vstd::prelude::*;

use super::pins::{PinId, PortId};

verus! {

/// What a pin is set to do.
#[derive(Clone, Copy, Debug, PartialEq, Eq, Structural)]
pub enum Mode {
    Input,
    Output,
    AlternateFunction,
    Analog,
}

/// The peripheral that a pin in the mode `AlternateFunction` belongs to.
#[derive(Clone, Copy, Debug, PartialEq, Eq, Structural)]
pub enum AlternateFunction {
    /// USART1 to USART3.
    AF7,
}

/// A peripheral that DMA controller 1 moves data for.
#[allow(non_camel_case_types)]
#[derive(Clone, Copy, Debug, PartialEq, Eq, Structural)]
pub enum Dma1Peripheral {
    USART2_TX,
    USART2_RX,
}

/// An operation on the chip.
#[derive(Clone, Copy, Debug, PartialEq, Eq, Structural)]
pub enum Op {
    EnableSyscfgClock,
    EnablePortClock(PortId),
    EnablePinInterrupt(PinId),
    SetMode(PinId, Mode),
    SetAlternateFunction(PinId, AlternateFunction),
    MakeOutput(PinId),
    /// Gives the kernel up to three pins to toggle to debug.
    AssignDebugGpios(Option<PinId>, Option<PinId>, Option<PinId>),
    EnableDma1Clock,
    /// Tells USART2 the streams of DMA controller 1 that it sends and receives through.
    SetUsart2Dma { tx: usize, rx: usize },
    /// Makes USART2 the client of a stream.
    SetUsart2AsClient { stream: usize },
    /// Makes a stream serve a peripheral.
    SetupStream { stream: usize, peripheral: Dma1Peripheral },
    EnableTim2Clock,
    StartTim2,
    /// Enables an interrupt, by its number, in the interrupt controller.
    EnableInterrupt { irqn: u32 },
}

/// The state of a pin, in the model.
#[verifier::ext_equal]
pub struct PinState {
    pub interrupt: bool,
    pub mode: Mode,
    pub alternate_function: Option<AlternateFunction>,
}

/// A model of the chip: its state, as far as the operations reach it.
#[verifier::ext_equal]
pub struct Machine {
    pub syscfg_clock: bool,
    pub port_clocks: Set<PortId>,
    pub pins: Map<PinId, PinState>,
    pub debug_gpios: (Option<PinId>, Option<PinId>, Option<PinId>),
    pub dma1_clock: bool,
    /// The streams that USART2 sends and receives through.
    pub usart2_dma: Option<(usize, usize)>,
    /// The streams whose client is USART2.
    pub usart2_streams: Set<usize>,
    /// The peripheral that a stream serves.
    pub streams: Map<usize, Dma1Peripheral>,
    pub tim2_clock: bool,
    pub tim2_running: bool,
    pub interrupts: Set<u32>,
}

impl Machine {
    /// This state with another state for one pin.
    pub open spec fn with_pin(self, pin: PinId, state: PinState) -> Machine {
        Machine { pins: self.pins.insert(pin, state), ..self }
    }

    /// The state that one operation leaves behind, in the model.
    pub open spec fn after(self, op: Op) -> Machine {
        match op {
            Op::EnableSyscfgClock => Machine { syscfg_clock: true, ..self },
            Op::EnablePortClock(port) => Machine {
                port_clocks: self.port_clocks.insert(port),
                ..self
            },
            Op::EnablePinInterrupt(pin) => self.with_pin(
                pin,
                PinState { interrupt: true, ..self.pins[pin] },
            ),
            Op::SetMode(pin, mode) => self.with_pin(pin, PinState { mode, ..self.pins[pin] }),
            Op::SetAlternateFunction(pin, function) => self.with_pin(
                pin,
                PinState { alternate_function: Some(function), ..self.pins[pin] },
            ),
            Op::MakeOutput(pin) => self.with_pin(
                pin,
                PinState { mode: Mode::Output, ..self.pins[pin] },
            ),
            Op::AssignDebugGpios(first, second, third) => Machine {
                debug_gpios: (first, second, third),
                ..self
            },
            Op::EnableDma1Clock => Machine { dma1_clock: true, ..self },
            Op::SetUsart2Dma { tx, rx } => Machine { usart2_dma: Some((tx, rx)), ..self },
            Op::SetUsart2AsClient { stream } => Machine {
                usart2_streams: self.usart2_streams.insert(stream),
                ..self
            },
            Op::SetupStream { stream, peripheral } => Machine {
                streams: self.streams.insert(stream, peripheral),
                ..self
            },
            Op::EnableTim2Clock => Machine { tim2_clock: true, ..self },
            Op::StartTim2 => Machine { tim2_running: true, ..self },
            Op::EnableInterrupt { irqn } => Machine {
                interrupts: self.interrupts.insert(irqn),
                ..self
            },
        }
    }

    /// The state that a slot leaves behind, which may hold no operation.
    pub open spec fn after_slot(self, slot: Option<Op>) -> Machine {
        match slot {
            Some(op) => self.after(op),
            None => self,
        }
    }

    /// The state that operations leave behind which are performed one after the other.
    pub open spec fn after_all(self, ops: Seq<Op>) -> Machine
        decreases ops.len(),
    {
        if ops.len() == 0 {
            self
        } else {
            self.after_all(ops.drop_last()).after(ops.last())
        }
    }

    /// The same where an operation may be left out.
    pub open spec fn after_slots(self, slots: Seq<Option<Op>>) -> Machine
        decreases slots.len(),
    {
        if slots.len() == 0 {
            self
        } else {
            self.after_slots(slots.drop_last()).after_slot(slots.last())
        }
    }
}

impl Machine {
    /// Whether the model is in a state in which `op` takes effect: a pin is configured
    /// while its port is clocked, its interrupt is routed while SYSCFG is clocked, its
    /// alternate function is picked once its mode asks for one, only outputs are given to
    /// the kernel to toggle, a stream is set up while the DMA controller is clocked and
    /// the stream has a client, and the timer is started while it is clocked.
    pub open spec fn ready_for(self, op: Op) -> bool {
        match op {
            Op::EnablePinInterrupt(_) => self.syscfg_clock,
            Op::SetMode(pin, _) => self.port_clocks.contains(pin.port),
            Op::MakeOutput(pin) => self.port_clocks.contains(pin.port),
            Op::SetAlternateFunction(pin, _) => {
                &&& self.port_clocks.contains(pin.port)
                &&& self.pins[pin].mode == Mode::AlternateFunction
            },
            Op::AssignDebugGpios(first, second, third) => {
                &&& first matches Some(pin) ==> self.pins[pin].mode == Mode::Output
                &&& second matches Some(pin) ==> self.pins[pin].mode == Mode::Output
                &&& third matches Some(pin) ==> self.pins[pin].mode == Mode::Output
            },
            Op::SetupStream { stream, .. } => {
                &&& self.dma1_clock
                &&& self.usart2_streams.contains(stream)
            },
            Op::StartTim2 => self.tim2_clock,
            _ => true,
        }
    }
}

/// One operation more changes the state that those before it left behind.
pub proof fn lemma_after_all_step(m: Machine, ops: Seq<Op>, i: int)
    requires
        0 <= i < ops.len(),
    ensures
        m.after_all(ops.take(i + 1)) == m.after_all(ops.take(i)).after(ops[i]),
{
    assert(ops.take(i + 1).drop_last() =~= ops.take(i));
}

/// One slot more changes the state that those before it left behind, or leaves it.
pub proof fn lemma_after_slots_step(m: Machine, slots: Seq<Option<Op>>, i: int)
    requires
        0 <= i < slots.len(),
    ensures
        m.after_slots(slots.take(i + 1)) == m.after_slots(slots.take(i)).after_slot(slots[i]),
{
    assert(slots.take(i + 1).drop_last() =~= slots.take(i));
}

} // verus!
