//! The order in which the STM32F401CCU6 core board comes up.

use vstd::prelude::*;

verus! {

/// Number of concurrent processes this platform supports.
pub const NUM_PROCS: usize = 4;

/// The bytes that are reserved for the stack.
pub const STACK_SIZE: usize = 0x2000;

/// The speed of the UART, in bits per second.
pub const UART_BAUD_RATE: u32 = 115200;

/// How many drivers can ask for deferred calls.
pub const DEFERRED_CALL_CLIENTS: usize = 2;

/// A step of the way from reset to the kernel's main loop.
///
/// A step that creates a component places it in static memory.
#[derive(Clone, Copy, Debug, PartialEq, Eq, Structural)]
pub enum Step {
    /// Sets the chip up.
    InitChip,
    /// Creates the driver of the clocks. The default HSI 16 MHz clock is used.
    CreateRcc,
    CreateSyscfg,
    CreateExti,
    CreateDma1,
    CreateDma2,
    /// Creates the drivers of the chip's other peripherals.
    CreatePeripherals,
    /// Ties the peripherals together that depend on each other.
    InitPeripherals,
    /// Performs the operations of `setup_peripherals`.
    SetupPeripherals,
    /// Performs the operations of `set_pin_primary_functions`.
    SetPinPrimaryFunctions,
    /// Performs the operations of `setup_dma`.
    SetupDma,
    CreateKernel,
    CreateDeferredCaller,
    /// Makes the deferred caller the one that all drivers use.
    SetDeferredCaller,
    CreateChip,
    /// Leaves the chip where a panic finds it.
    RecordChip,
    EnableUsart2Clock,
    /// Shares USART2 between the console and kernel debug.
    CreateUartMux,
    /// Tells the panic writer that USART2 is set up.
    MarkWriterInitialized,
    /// Creates the capabilities that protected functions of the kernel ask for.
    CreateCapabilities,
    CreateConsole,
    /// Creates the writer that debug messages go to.
    CreateDebugWriter,
    CreateLed,
    CreateButton,
    CreateAlarmMux,
    CreateAlarm,
    CreateGpio,
    CreateAdcMux,
    CreateAdcChannels,
    CreateAdc,
    CreateProcessPrinter,
    /// Leaves the process printer where a panic finds it.
    RecordProcessPrinter,
    CreateProcessConsole,
    StartProcessConsole,
    CreateScheduler,
    /// Creates the IPC driver and the system timer, and gathers the drivers.
    CreatePlatform,
    /// Says that the board is up.
    AnnounceReady,
    LoadProcesses,
    /// Says why processes could not be loaded.
    ReportLoadError,
    /// Runs the kernel, which does not return.
    EnterKernelLoop,
}

impl Step {
    /// Whether this step uses what `other` made or set up.
    pub open spec fn needs(self, other: Step) -> bool {
        match self {
            Step::CreateRcc => other == Step::InitChip,
            Step::CreateSyscfg => other == Step::CreateRcc,
            Step::CreateExti => other == Step::CreateSyscfg,
            Step::CreateDma1 => other == Step::CreateRcc,
            Step::CreateDma2 => other == Step::CreateRcc,
            Step::CreatePeripherals => {
                ||| other == Step::CreateRcc
                ||| other == Step::CreateExti
                ||| other == Step::CreateDma1
                ||| other == Step::CreateDma2
            },
            Step::InitPeripherals => other == Step::CreatePeripherals,
            Step::SetupPeripherals => other == Step::InitPeripherals,
            Step::SetPinPrimaryFunctions => {
                ||| other == Step::CreateSyscfg
                ||| other == Step::InitPeripherals
            },
            Step::SetupDma => {
                ||| other == Step::CreateDma1
                ||| other == Step::InitPeripherals
            },
            Step::SetDeferredCaller => other == Step::CreateDeferredCaller,
            Step::CreateChip => other == Step::InitPeripherals,
            Step::RecordChip => other == Step::CreateChip,
            Step::EnableUsart2Clock => other == Step::InitPeripherals,
            Step::CreateUartMux => {
                ||| other == Step::EnableUsart2Clock
                ||| other == Step::CreateDeferredCaller
                ||| other == Step::SetupDma
                ||| other == Step::SetPinPrimaryFunctions
            },
            Step::MarkWriterInitialized => other == Step::CreateUartMux,
            Step::CreateConsole => {
                ||| other == Step::CreateKernel
                ||| other == Step::CreateUartMux
            },
            Step::CreateDebugWriter => other == Step::CreateUartMux,
            Step::CreateLed => other == Step::SetPinPrimaryFunctions,
            Step::CreateButton => {
                ||| other == Step::SetPinPrimaryFunctions
                ||| other == Step::CreateKernel
            },
            Step::CreateAlarmMux => other == Step::SetupPeripherals,
            Step::CreateAlarm => {
                ||| other == Step::CreateKernel
                ||| other == Step::CreateAlarmMux
            },
            Step::CreateGpio => {
                ||| other == Step::SetPinPrimaryFunctions
                ||| other == Step::CreateKernel
            },
            Step::CreateAdcMux => other == Step::InitPeripherals,
            Step::CreateAdcChannels => other == Step::CreateAdcMux,
            Step::CreateAdc => {
                ||| other == Step::CreateKernel
                ||| other == Step::CreateAdcChannels
            },
            Step::RecordProcessPrinter => other == Step::CreateProcessPrinter,
            Step::CreateProcessConsole => {
                ||| other == Step::CreateKernel
                ||| other == Step::CreateUartMux
                ||| other == Step::CreateAlarmMux
                ||| other == Step::CreateProcessPrinter
            },
            Step::StartProcessConsole => other == Step::CreateProcessConsole,
            Step::CreatePlatform => {
                ||| other == Step::CreateKernel
                ||| other == Step::CreateCapabilities
                ||| other == Step::CreateConsole
                ||| other == Step::CreateAdc
                ||| other == Step::CreateLed
                ||| other == Step::CreateButton
                ||| other == Step::CreateAlarm
                ||| other == Step::CreateGpio
                ||| other == Step::CreateScheduler
            },
            Step::AnnounceReady => other == Step::CreateDebugWriter,
            Step::LoadProcesses => {
                ||| other == Step::CreateKernel
                ||| other == Step::CreateChip
                ||| other == Step::CreateCapabilities
            },
            Step::ReportLoadError => {
                ||| other == Step::LoadProcesses
                ||| other == Step::CreateDebugWriter
            },
            Step::EnterKernelLoop => {
                ||| other == Step::CreateKernel
                ||| other == Step::CreateChip
                ||| other == Step::CreateCapabilities
                ||| other == Step::CreatePlatform
            },
            _ => false,
        }
    }

    /// Whether this step is due, once it is known whether processes could be loaded: the
    /// report of a load error is due only where loading failed, and a failure keeps no
    /// other step from being taken.
    pub open spec fn is_due(self, load_failed: bool) -> bool {
        self == Step::ReportLoadError ==> load_failed
    }

    /// Whether this step is due, once it is known whether processes could be loaded.
    pub fn due(self, load_failed: bool) -> (r: bool)
        ensures
            r == self.is_due(load_failed),
            r == (self != Step::ReportLoadError || load_failed),
    {
        match self {
            Step::ReportLoadError => load_failed,
            _ => true,
        }
    }

    /// The place of this step in the boot order.
    spec fn place(self) -> int {
        match self {
            Step::InitChip => 0,
            Step::CreateRcc => 1,
            Step::CreateSyscfg => 2,
            Step::CreateExti => 3,
            Step::CreateDma1 => 4,
            Step::CreateDma2 => 5,
            Step::CreatePeripherals => 6,
            Step::InitPeripherals => 7,
            Step::SetupPeripherals => 8,
            Step::SetPinPrimaryFunctions => 9,
            Step::SetupDma => 10,
            Step::CreateKernel => 11,
            Step::CreateDeferredCaller => 12,
            Step::SetDeferredCaller => 13,
            Step::CreateChip => 14,
            Step::RecordChip => 15,
            Step::EnableUsart2Clock => 16,
            Step::CreateUartMux => 17,
            Step::MarkWriterInitialized => 18,
            Step::CreateCapabilities => 19,
            Step::CreateConsole => 20,
            Step::CreateDebugWriter => 21,
            Step::CreateLed => 22,
            Step::CreateButton => 23,
            Step::CreateAlarmMux => 24,
            Step::CreateAlarm => 25,
            Step::CreateGpio => 26,
            Step::CreateAdcMux => 27,
            Step::CreateAdcChannels => 28,
            Step::CreateAdc => 29,
            Step::CreateProcessPrinter => 30,
            Step::RecordProcessPrinter => 31,
            Step::CreateProcessConsole => 32,
            Step::StartProcessConsole => 33,
            Step::CreateScheduler => 34,
            Step::CreatePlatform => 35,
            Step::AnnounceReady => 36,
            Step::LoadProcesses => 37,
            Step::ReportLoadError => 38,
            Step::EnterKernelLoop => 39,
        }
    }
}

/// All steps, in the order in which they are taken.
pub open spec fn boot_order_spec() -> Seq<Step> {
    seq![
        Step::InitChip,
        Step::CreateRcc,
        Step::CreateSyscfg,
        Step::CreateExti,
        Step::CreateDma1,
        Step::CreateDma2,
        Step::CreatePeripherals,
        Step::InitPeripherals,
        Step::SetupPeripherals,
        Step::SetPinPrimaryFunctions,
        Step::SetupDma,
        Step::CreateKernel,
        Step::CreateDeferredCaller,
        Step::SetDeferredCaller,
        Step::CreateChip,
        Step::RecordChip,
        Step::EnableUsart2Clock,
        Step::CreateUartMux,
        Step::MarkWriterInitialized,
        Step::CreateCapabilities,
        Step::CreateConsole,
        Step::CreateDebugWriter,
        Step::CreateLed,
        Step::CreateButton,
        Step::CreateAlarmMux,
        Step::CreateAlarm,
        Step::CreateGpio,
        Step::CreateAdcMux,
        Step::CreateAdcChannels,
        Step::CreateAdc,
        Step::CreateProcessPrinter,
        Step::RecordProcessPrinter,
        Step::CreateProcessConsole,
        Step::StartProcessConsole,
        Step::CreateScheduler,
        Step::CreatePlatform,
        Step::AnnounceReady,
        Step::LoadProcesses,
        Step::ReportLoadError,
        Step::EnterKernelLoop,
    ]
}

/// All steps, in the order in which they are taken.
pub fn boot_order() -> (r: [Step; 40])
    ensures
        r@ == boot_order_spec(),
{
    [
        Step::InitChip,
        Step::CreateRcc,
        Step::CreateSyscfg,
        Step::CreateExti,
        Step::CreateDma1,
        Step::CreateDma2,
        Step::CreatePeripherals,
        Step::InitPeripherals,
        Step::SetupPeripherals,
        Step::SetPinPrimaryFunctions,
        Step::SetupDma,
        Step::CreateKernel,
        Step::CreateDeferredCaller,
        Step::SetDeferredCaller,
        Step::CreateChip,
        Step::RecordChip,
        Step::EnableUsart2Clock,
        Step::CreateUartMux,
        Step::MarkWriterInitialized,
        Step::CreateCapabilities,
        Step::CreateConsole,
        Step::CreateDebugWriter,
        Step::CreateLed,
        Step::CreateButton,
        Step::CreateAlarmMux,
        Step::CreateAlarm,
        Step::CreateGpio,
        Step::CreateAdcMux,
        Step::CreateAdcChannels,
        Step::CreateAdc,
        Step::CreateProcessPrinter,
        Step::RecordProcessPrinter,
        Step::CreateProcessConsole,
        Step::StartProcessConsole,
        Step::CreateScheduler,
        Step::CreatePlatform,
        Step::AnnounceReady,
        Step::LoadProcesses,
        Step::ReportLoadError,
        Step::EnterKernelLoop,
    ]
}

proof fn lemma_place()
    ensures
        boot_order_spec().len() == 40,
        forall|i: int| 0 <= i < 40 ==> (#[trigger] boot_order_spec()[i]).place() == i,
        forall|step: Step|
            0 <= step.place() < 40 && boot_order_spec()[#[trigger] step.place()] == step,
{
}

/// Every step is taken exactly once, so that nothing in static memory is initialised
/// twice.
pub proof fn law_every_step_taken_once(step: Step)
    ensures
        exists|i: int| 0 <= i < boot_order_spec().len() && #[trigger] boot_order_spec()[i] == step,
        forall|i: int, j: int|
            0 <= i < j < boot_order_spec().len() ==> #[trigger] boot_order_spec()[i]
                != #[trigger] boot_order_spec()[j],
{
    lemma_place();
    assert(boot_order_spec()[step.place()] == step);
}

/// A step comes after all that it uses, and what it uses is never left out.
pub proof fn law_needs_come_first(i: int, needed: Step, load_failed: bool)
    requires
        0 <= i < boot_order_spec().len(),
        boot_order_spec()[i].needs(needed),
    ensures
        exists|j: int| 0 <= j < i && #[trigger] boot_order_spec()[j] == needed,
        needed.is_due(load_failed),
{
    lemma_place();
    assert(boot_order_spec()[needed.place()] == needed);
}

/// Where a step stands in the boot order.
proof fn lemma_index(step: Step)
    ensures
        boot_order_spec().index_of(step) == step.place(),
        0 <= step.place() < 40,
{
    lemma_place();
    let order = boot_order_spec();
    assert(order[step.place()] == step);
    assert(order.contains(step));
    assert(order[order.index_of(step)] == step);
}

/// The steps follow each other in this order, from reset to the main loop, with nothing in
/// between.
pub proof fn law_steps_follow_each_other()
    ensures
        ({
            let order = boot_order_spec();
            &&& order.len() == 40
            &&& order.index_of(Step::InitChip) == 0
            &&& order.index_of(Step::InitChip) + 1 == order.index_of(Step::CreateRcc)
            &&& order.index_of(Step::CreateRcc) + 1 == order.index_of(Step::CreateSyscfg)
            &&& order.index_of(Step::CreateSyscfg) + 1 == order.index_of(Step::CreateExti)
            &&& order.index_of(Step::CreateExti) + 1 == order.index_of(Step::CreateDma1)
            &&& order.index_of(Step::CreateDma1) + 1 == order.index_of(Step::CreateDma2)
            &&& order.index_of(Step::CreateDma2) + 1 == order.index_of(Step::CreatePeripherals)
            &&& order.index_of(Step::CreatePeripherals) + 1 == order.index_of(Step::InitPeripherals)
            &&& order.index_of(Step::InitPeripherals) + 1 == order.index_of(Step::SetupPeripherals)
            &&& order.index_of(Step::SetupPeripherals) + 1 == order.index_of(Step::SetPinPrimaryFunctions)
            &&& order.index_of(Step::SetPinPrimaryFunctions) + 1 == order.index_of(Step::SetupDma)
            &&& order.index_of(Step::SetupDma) + 1 == order.index_of(Step::CreateKernel)
            &&& order.index_of(Step::CreateKernel) + 1 == order.index_of(Step::CreateDeferredCaller)
            &&& order.index_of(Step::CreateDeferredCaller) + 1 == order.index_of(Step::SetDeferredCaller)
            &&& order.index_of(Step::SetDeferredCaller) + 1 == order.index_of(Step::CreateChip)
            &&& order.index_of(Step::CreateChip) + 1 == order.index_of(Step::RecordChip)
            &&& order.index_of(Step::RecordChip) + 1 == order.index_of(Step::EnableUsart2Clock)
            &&& order.index_of(Step::EnableUsart2Clock) + 1 == order.index_of(Step::CreateUartMux)
            &&& order.index_of(Step::CreateUartMux) + 1 == order.index_of(Step::MarkWriterInitialized)
            &&& order.index_of(Step::MarkWriterInitialized) + 1 == order.index_of(Step::CreateCapabilities)
            &&& order.index_of(Step::CreateCapabilities) + 1 == order.index_of(Step::CreateConsole)
            &&& order.index_of(Step::CreateConsole) + 1 == order.index_of(Step::CreateDebugWriter)
            &&& order.index_of(Step::CreateDebugWriter) + 1 == order.index_of(Step::CreateLed)
            &&& order.index_of(Step::CreateLed) + 1 == order.index_of(Step::CreateButton)
            &&& order.index_of(Step::CreateButton) + 1 == order.index_of(Step::CreateAlarmMux)
            &&& order.index_of(Step::CreateAlarmMux) + 1 == order.index_of(Step::CreateAlarm)
            &&& order.index_of(Step::CreateAlarm) + 1 == order.index_of(Step::CreateGpio)
            &&& order.index_of(Step::CreateGpio) + 1 == order.index_of(Step::CreateAdcMux)
            &&& order.index_of(Step::CreateAdcMux) + 1 == order.index_of(Step::CreateAdcChannels)
            &&& order.index_of(Step::CreateAdcChannels) + 1 == order.index_of(Step::CreateAdc)
            &&& order.index_of(Step::CreateAdc) + 1 == order.index_of(Step::CreateProcessPrinter)
            &&& order.index_of(Step::CreateProcessPrinter) + 1 == order.index_of(Step::RecordProcessPrinter)
            &&& order.index_of(Step::RecordProcessPrinter) + 1 == order.index_of(Step::CreateProcessConsole)
            &&& order.index_of(Step::CreateProcessConsole) + 1 == order.index_of(Step::StartProcessConsole)
            &&& order.index_of(Step::StartProcessConsole) + 1 == order.index_of(Step::CreateScheduler)
            &&& order.index_of(Step::CreateScheduler) + 1 == order.index_of(Step::CreatePlatform)
            &&& order.index_of(Step::CreatePlatform) + 1 == order.index_of(Step::AnnounceReady)
            &&& order.index_of(Step::AnnounceReady) + 1 == order.index_of(Step::LoadProcesses)
            &&& order.index_of(Step::LoadProcesses) + 1 == order.index_of(Step::ReportLoadError)
            &&& order.index_of(Step::ReportLoadError) + 1 == order.index_of(Step::EnterKernelLoop)
        }),
{
    lemma_index(Step::InitChip);
    lemma_index(Step::CreateRcc);
    lemma_index(Step::CreateSyscfg);
    lemma_index(Step::CreateExti);
    lemma_index(Step::CreateDma1);
    lemma_index(Step::CreateDma2);
    lemma_index(Step::CreatePeripherals);
    lemma_index(Step::InitPeripherals);
    lemma_index(Step::SetupPeripherals);
    lemma_index(Step::SetPinPrimaryFunctions);
    lemma_index(Step::SetupDma);
    lemma_index(Step::CreateKernel);
    lemma_index(Step::CreateDeferredCaller);
    lemma_index(Step::SetDeferredCaller);
    lemma_index(Step::CreateChip);
    lemma_index(Step::RecordChip);
    lemma_index(Step::EnableUsart2Clock);
    lemma_index(Step::CreateUartMux);
    lemma_index(Step::MarkWriterInitialized);
    lemma_index(Step::CreateCapabilities);
    lemma_index(Step::CreateConsole);
    lemma_index(Step::CreateDebugWriter);
    lemma_index(Step::CreateLed);
    lemma_index(Step::CreateButton);
    lemma_index(Step::CreateAlarmMux);
    lemma_index(Step::CreateAlarm);
    lemma_index(Step::CreateGpio);
    lemma_index(Step::CreateAdcMux);
    lemma_index(Step::CreateAdcChannels);
    lemma_index(Step::CreateAdc);
    lemma_index(Step::CreateProcessPrinter);
    lemma_index(Step::RecordProcessPrinter);
    lemma_index(Step::CreateProcessConsole);
    lemma_index(Step::StartProcessConsole);
    lemma_index(Step::CreateScheduler);
    lemma_index(Step::CreatePlatform);
    lemma_index(Step::AnnounceReady);
    lemma_index(Step::LoadProcesses);
    lemma_index(Step::ReportLoadError);
    lemma_index(Step::EnterKernelLoop);
}

/// Processes are loaded once every driver that they can call exists, the chip is set up,
/// the platform is gathered, and a panic finds what it prints.
pub proof fn law_drivers_before_processes(step: Step)
    requires
        ({
            ||| step == Step::CreateConsole
            ||| step == Step::CreateLed
            ||| step == Step::CreateButton
            ||| step == Step::CreateAlarm
            ||| step == Step::CreateGpio
            ||| step == Step::CreateAdc
            ||| step == Step::SetupPeripherals
            ||| step == Step::SetPinPrimaryFunctions
            ||| step == Step::SetupDma
            ||| step == Step::CreateScheduler
            ||| step == Step::CreatePlatform
            ||| step == Step::MarkWriterInitialized
            ||| step == Step::CreateDebugWriter
            ||| step == Step::RecordChip
            ||| step == Step::RecordProcessPrinter
        }),
    ensures
        boot_order_spec().index_of(step) < boot_order_spec().index_of(Step::LoadProcesses),
{
    lemma_index(step);
    lemma_index(Step::LoadProcesses);
}

/// The kernel has its debug pin, which configuring the pins assigns, before DMA is
/// configured and before anything of the kernel is created.
pub proof fn law_debug_gpios_assigned_early(step: Step)
    requires
        step != Step::InitChip,
        step != Step::CreateRcc,
        step != Step::CreateSyscfg,
        step != Step::CreateExti,
        step != Step::CreateDma1,
        step != Step::CreateDma2,
        step != Step::CreatePeripherals,
        step != Step::InitPeripherals,
        step != Step::SetupPeripherals,
        step != Step::SetPinPrimaryFunctions,
    ensures
        boot_order_spec().index_of(Step::SetPinPrimaryFunctions) < boot_order_spec().index_of(step),
{
    lemma_index(step);
    lemma_index(Step::SetPinPrimaryFunctions);
}

/// The kernel's main loop is entered last, whether or not processes could be loaded.
pub proof fn law_kernel_loop_is_last(load_failed: bool)
    ensures
        boot_order_spec().last() == Step::EnterKernelLoop,
        Step::EnterKernelLoop.is_due(load_failed),
{
}

} // verus!
