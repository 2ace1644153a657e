//! The order in which the nRF52 DK comes up.

use vstd::prelude::*;

verus! {

/// Number of concurrent processes this platform supports.
pub const NUM_PROCS: usize = 4;

/// The bytes that are reserved for the stack.
pub const STACK_SIZE: usize = 0x1000;

/// The speed of the UART, in bits per second.
pub const UART_BAUD_RATE: u32 = 115200;

/// How many drivers can ask for deferred calls.
pub const DEFERRED_CALL_CLIENTS: usize = 2;

/// The frequency that the system timer is calibrated to, in hertz.
pub const SYSTICK_FREQUENCY: u32 = 64000000;

/// Whether the NFC pins become GPIOs.
pub const NFC_AS_GPIOS: bool = false;

/// A step of the way from reset to the kernel's main loop.
///
/// A step that creates a component places it in static memory.
#[derive(Clone, Copy, Debug, PartialEq, Eq, Structural)]
pub enum Step {
    /// Sets the chip up.
    InitChip,
    /// Creates the drivers of the chip's peripherals.
    CreatePeripherals,
    /// Ties the peripherals together that depend on each other.
    InitPeripherals,
    CreateKernel,
    CreateGpio,
    CreateButton,
    CreateLed,
    CreateChip,
    /// Leaves the chip where a panic finds it.
    RecordChip,
    /// Configures the reset pin, the NFC pins and the regulator.
    ConfigureStartup,
    /// Creates the capabilities that protected functions of the kernel ask for.
    CreateCapabilities,
    AssignDebugGpios,
    StartRtc,
    CreateAlarmMux,
    CreateAlarm,
    CreateUartChannel,
    CreateDeferredCaller,
    /// Makes the deferred caller the one that all drivers use.
    SetDeferredCaller,
    CreateProcessPrinter,
    /// Leaves the process printer where a panic finds it.
    RecordProcessPrinter,
    /// Shares the UART channel between the console and kernel debug.
    CreateUartMux,
    CreateProcessConsole,
    CreateConsole,
    /// Creates the writer that debug messages go to.
    CreateDebugWriter,
    CreateBleRadio,
    CreateTemperature,
    CreateRng,
    CreateAnalogComparator,
    StartClock,
    CreateScheduler,
    /// Creates the IPC driver and the system timer, and gathers the drivers.
    CreatePlatform,
    StartProcessConsole,
    /// Says that the board is up, and what chip it has.
    AnnounceReady,
    LoadProcesses,
    /// Says why processes could not be loaded.
    ReportLoadError,
    /// Runs the kernel, which does not return.
    EnterKernelLoop,
}

impl Step {
    /// Whether this step uses what `other` made or set up.
    pub open spec fn needs(self, other: Step) -> bool {
        match self {
            Step::CreatePeripherals => other == Step::InitChip,
            Step::InitPeripherals => other == Step::CreatePeripherals,
            Step::CreateGpio => {
                ||| other == Step::InitPeripherals
                ||| other == Step::CreateKernel
            },
            Step::CreateButton => {
                ||| other == Step::InitPeripherals
                ||| other == Step::CreateKernel
            },
            Step::CreateLed => other == Step::InitPeripherals,
            Step::CreateChip => other == Step::InitPeripherals,
            Step::RecordChip => other == Step::CreateChip,
            Step::ConfigureStartup => other == Step::InitPeripherals,
            Step::AssignDebugGpios => other == Step::InitPeripherals,
            Step::StartRtc => other == Step::InitPeripherals,
            Step::CreateAlarmMux => other == Step::StartRtc,
            Step::CreateAlarm => {
                ||| other == Step::CreateKernel
                ||| other == Step::CreateAlarmMux
            },
            Step::CreateUartChannel => {
                ||| other == Step::InitPeripherals
                ||| other == Step::CreateAlarmMux
            },
            Step::SetDeferredCaller => other == Step::CreateDeferredCaller,
            Step::RecordProcessPrinter => other == Step::CreateProcessPrinter,
            Step::CreateUartMux => {
                ||| other == Step::CreateUartChannel
                ||| other == Step::CreateDeferredCaller
            },
            Step::CreateProcessConsole => {
                ||| other == Step::CreateKernel
                ||| other == Step::CreateUartMux
                ||| other == Step::CreateAlarmMux
                ||| other == Step::CreateProcessPrinter
            },
            Step::CreateConsole => {
                ||| other == Step::CreateKernel
                ||| other == Step::CreateUartMux
            },
            Step::CreateDebugWriter => other == Step::CreateUartMux,
            Step::CreateBleRadio => {
                ||| other == Step::InitPeripherals
                ||| other == Step::CreateKernel
                ||| other == Step::CreateAlarmMux
            },
            Step::CreateTemperature => {
                ||| other == Step::InitPeripherals
                ||| other == Step::CreateKernel
            },
            Step::CreateRng => {
                ||| other == Step::InitPeripherals
                ||| other == Step::CreateKernel
            },
            Step::CreateAnalogComparator => {
                ||| other == Step::InitPeripherals
                ||| other == Step::CreateKernel
            },
            Step::StartClock => other == Step::InitPeripherals,
            Step::CreatePlatform => {
                ||| other == Step::CreateKernel
                ||| other == Step::CreateCapabilities
                ||| other == Step::CreateButton
                ||| other == Step::CreateBleRadio
                ||| other == Step::CreateProcessConsole
                ||| other == Step::CreateConsole
                ||| other == Step::CreateLed
                ||| other == Step::CreateGpio
                ||| other == Step::CreateRng
                ||| other == Step::CreateTemperature
                ||| other == Step::CreateAlarm
                ||| other == Step::CreateAnalogComparator
                ||| other == Step::CreateScheduler
            },
            Step::StartProcessConsole => other == Step::CreatePlatform,
            Step::AnnounceReady => other == Step::CreateDebugWriter,
            Step::LoadProcesses => {
                ||| other == Step::CreateKernel
                ||| other == Step::CreateChip
                ||| other == Step::CreateCapabilities
            },
            Step::ReportLoadError => {
                ||| other == Step::LoadProcesses
                ||| other == Step::CreateDebugWriter
            },
            Step::EnterKernelLoop => {
                ||| other == Step::CreateKernel
                ||| other == Step::CreateChip
                ||| other == Step::CreateCapabilities
                ||| other == Step::CreatePlatform
            },
            _ => false,
        }
    }

    /// Whether this step is due, once it is known whether processes could be loaded: the
    /// report of a load error is due only where loading failed, and a failure keeps no
    /// other step from being taken.
    pub open spec fn is_due(self, load_failed: bool) -> bool {
        self == Step::ReportLoadError ==> load_failed
    }

    /// Whether this step is due, once it is known whether processes could be loaded.
    pub fn due(self, load_failed: bool) -> (r: bool)
        ensures
            r == self.is_due(load_failed),
            r == (self != Step::ReportLoadError || load_failed),
    {
        match self {
            Step::ReportLoadError => load_failed,
            _ => true,
        }
    }

    /// The place of this step in the boot order.
    spec fn place(self) -> int {
        match self {
            Step::InitChip => 0,
            Step::CreatePeripherals => 1,
            Step::InitPeripherals => 2,
            Step::CreateKernel => 3,
            Step::CreateGpio => 4,
            Step::CreateButton => 5,
            Step::CreateLed => 6,
            Step::CreateChip => 7,
            Step::RecordChip => 8,
            Step::ConfigureStartup => 9,
            Step::CreateCapabilities => 10,
            Step::AssignDebugGpios => 11,
            Step::StartRtc => 12,
            Step::CreateAlarmMux => 13,
            Step::CreateAlarm => 14,
            Step::CreateUartChannel => 15,
            Step::CreateDeferredCaller => 16,
            Step::SetDeferredCaller => 17,
            Step::CreateProcessPrinter => 18,
            Step::RecordProcessPrinter => 19,
            Step::CreateUartMux => 20,
            Step::CreateProcessConsole => 21,
            Step::CreateConsole => 22,
            Step::CreateDebugWriter => 23,
            Step::CreateBleRadio => 24,
            Step::CreateTemperature => 25,
            Step::CreateRng => 26,
            Step::CreateAnalogComparator => 27,
            Step::StartClock => 28,
            Step::CreateScheduler => 29,
            Step::CreatePlatform => 30,
            Step::StartProcessConsole => 31,
            Step::AnnounceReady => 32,
            Step::LoadProcesses => 33,
            Step::ReportLoadError => 34,
            Step::EnterKernelLoop => 35,
        }
    }
}

/// All steps, in the order in which they are taken.
pub open spec fn boot_order_spec() -> Seq<Step> {
    seq![
        Step::InitChip,
        Step::CreatePeripherals,
        Step::InitPeripherals,
        Step::CreateKernel,
        Step::CreateGpio,
        Step::CreateButton,
        Step::CreateLed,
        Step::CreateChip,
        Step::RecordChip,
        Step::ConfigureStartup,
        Step::CreateCapabilities,
        Step::AssignDebugGpios,
        Step::StartRtc,
        Step::CreateAlarmMux,
        Step::CreateAlarm,
        Step::CreateUartChannel,
        Step::CreateDeferredCaller,
        Step::SetDeferredCaller,
        Step::CreateProcessPrinter,
        Step::RecordProcessPrinter,
        Step::CreateUartMux,
        Step::CreateProcessConsole,
        Step::CreateConsole,
        Step::CreateDebugWriter,
        Step::CreateBleRadio,
        Step::CreateTemperature,
        Step::CreateRng,
        Step::CreateAnalogComparator,
        Step::StartClock,
        Step::CreateScheduler,
        Step::CreatePlatform,
        Step::StartProcessConsole,
        Step::AnnounceReady,
        Step::LoadProcesses,
        Step::ReportLoadError,
        Step::EnterKernelLoop,
    ]
}

/// All steps, in the order in which they are taken.
pub fn boot_order() -> (r: [Step; 36])
    ensures
        r@ == boot_order_spec(),
{
    [
        Step::InitChip,
        Step::CreatePeripherals,
        Step::InitPeripherals,
        Step::CreateKernel,
        Step::CreateGpio,
        Step::CreateButton,
        Step::CreateLed,
        Step::CreateChip,
        Step::RecordChip,
        Step::ConfigureStartup,
        Step::CreateCapabilities,
        Step::AssignDebugGpios,
        Step::StartRtc,
        Step::CreateAlarmMux,
        Step::CreateAlarm,
        Step::CreateUartChannel,
        Step::CreateDeferredCaller,
        Step::SetDeferredCaller,
        Step::CreateProcessPrinter,
        Step::RecordProcessPrinter,
        Step::CreateUartMux,
        Step::CreateProcessConsole,
        Step::CreateConsole,
        Step::CreateDebugWriter,
        Step::CreateBleRadio,
        Step::CreateTemperature,
        Step::CreateRng,
        Step::CreateAnalogComparator,
        Step::StartClock,
        Step::CreateScheduler,
        Step::CreatePlatform,
        Step::StartProcessConsole,
        Step::AnnounceReady,
        Step::LoadProcesses,
        Step::ReportLoadError,
        Step::EnterKernelLoop,
    ]
}

proof fn lemma_place()
    ensures
        boot_order_spec().len() == 36,
        forall|i: int| 0 <= i < 36 ==> (#[trigger] boot_order_spec()[i]).place() == i,
        forall|step: Step|
            0 <= step.place() < 36 && boot_order_spec()[#[trigger] step.place()] == step,
{
}

/// Every step is taken exactly once, so that nothing in static memory is initialised
/// twice.
pub proof fn law_every_step_taken_once(step: Step)
    ensures
        exists|i: int| 0 <= i < boot_order_spec().len() && #[trigger] boot_order_spec()[i] == step,
        forall|i: int, j: int|
            0 <= i < j < boot_order_spec().len() ==> #[trigger] boot_order_spec()[i]
                != #[trigger] boot_order_spec()[j],
{
    lemma_place();
    assert(boot_order_spec()[step.place()] == step);
}

/// A step comes after all that it uses, and what it uses is never left out.
pub proof fn law_needs_come_first(i: int, needed: Step, load_failed: bool)
    requires
        0 <= i < boot_order_spec().len(),
        boot_order_spec()[i].needs(needed),
    ensures
        exists|j: int| 0 <= j < i && #[trigger] boot_order_spec()[j] == needed,
        needed.is_due(load_failed),
{
    lemma_place();
    assert(boot_order_spec()[needed.place()] == needed);
}

/// Where a step stands in the boot order.
proof fn lemma_index(step: Step)
    ensures
        boot_order_spec().index_of(step) == step.place(),
        0 <= step.place() < 36,
{
    lemma_place();
    let order = boot_order_spec();
    assert(order[step.place()] == step);
    assert(order.contains(step));
    assert(order[order.index_of(step)] == step);
}

/// The steps follow each other in this order, from reset to the main loop, with nothing in
/// between.
pub proof fn law_steps_follow_each_other()
    ensures
        ({
            let order = boot_order_spec();
            &&& order.len() == 36
            &&& order.index_of(Step::InitChip) == 0
            &&& order.index_of(Step::InitChip) + 1 == order.index_of(Step::CreatePeripherals)
            &&& order.index_of(Step::CreatePeripherals) + 1 == order.index_of(Step::InitPeripherals)
            &&& order.index_of(Step::InitPeripherals) + 1 == order.index_of(Step::CreateKernel)
            &&& order.index_of(Step::CreateKernel) + 1 == order.index_of(Step::CreateGpio)
            &&& order.index_of(Step::CreateGpio) + 1 == order.index_of(Step::CreateButton)
            &&& order.index_of(Step::CreateButton) + 1 == order.index_of(Step::CreateLed)
            &&& order.index_of(Step::CreateLed) + 1 == order.index_of(Step::CreateChip)
            &&& order.index_of(Step::CreateChip) + 1 == order.index_of(Step::RecordChip)
            &&& order.index_of(Step::RecordChip) + 1 == order.index_of(Step::ConfigureStartup)
            &&& order.index_of(Step::ConfigureStartup) + 1 == order.index_of(Step::CreateCapabilities)
            &&& order.index_of(Step::CreateCapabilities) + 1 == order.index_of(Step::AssignDebugGpios)
            &&& order.index_of(Step::AssignDebugGpios) + 1 == order.index_of(Step::StartRtc)
            &&& order.index_of(Step::StartRtc) + 1 == order.index_of(Step::CreateAlarmMux)
            &&& order.index_of(Step::CreateAlarmMux) + 1 == order.index_of(Step::CreateAlarm)
            &&& order.index_of(Step::CreateAlarm) + 1 == order.index_of(Step::CreateUartChannel)
            &&& order.index_of(Step::CreateUartChannel) + 1 == order.index_of(Step::CreateDeferredCaller)
            &&& order.index_of(Step::CreateDeferredCaller) + 1 == order.index_of(Step::SetDeferredCaller)
            &&& order.index_of(Step::SetDeferredCaller) + 1 == order.index_of(Step::CreateProcessPrinter)
            &&& order.index_of(Step::CreateProcessPrinter) + 1 == order.index_of(Step::RecordProcessPrinter)
            &&& order.index_of(Step::RecordProcessPrinter) + 1 == order.index_of(Step::CreateUartMux)
            &&& order.index_of(Step::CreateUartMux) + 1 == order.index_of(Step::CreateProcessConsole)
            &&& order.index_of(Step::CreateProcessConsole) + 1 == order.index_of(Step::CreateConsole)
            &&& order.index_of(Step::CreateConsole) + 1 == order.index_of(Step::CreateDebugWriter)
            &&& order.index_of(Step::CreateDebugWriter) + 1 == order.index_of(Step::CreateBleRadio)
            &&& order.index_of(Step::CreateBleRadio) + 1 == order.index_of(Step::CreateTemperature)
            &&& order.index_of(Step::CreateTemperature) + 1 == order.index_of(Step::CreateRng)
            &&& order.index_of(Step::CreateRng) + 1 == order.index_of(Step::CreateAnalogComparator)
            &&& order.index_of(Step::CreateAnalogComparator) + 1 == order.index_of(Step::StartClock)
            &&& order.index_of(Step::StartClock) + 1 == order.index_of(Step::CreateScheduler)
            &&& order.index_of(Step::CreateScheduler) + 1 == order.index_of(Step::CreatePlatform)
            &&& order.index_of(Step::CreatePlatform) + 1 == order.index_of(Step::StartProcessConsole)
            &&& order.index_of(Step::StartProcessConsole) + 1 == order.index_of(Step::AnnounceReady)
            &&& order.index_of(Step::AnnounceReady) + 1 == order.index_of(Step::LoadProcesses)
            &&& order.index_of(Step::LoadProcesses) + 1 == order.index_of(Step::ReportLoadError)
            &&& order.index_of(Step::ReportLoadError) + 1 == order.index_of(Step::EnterKernelLoop)
        }),
{
    lemma_index(Step::InitChip);
    lemma_index(Step::CreatePeripherals);
    lemma_index(Step::InitPeripherals);
    lemma_index(Step::CreateKernel);
    lemma_index(Step::CreateGpio);
    lemma_index(Step::CreateButton);
    lemma_index(Step::CreateLed);
    lemma_index(Step::CreateChip);
    lemma_index(Step::RecordChip);
    lemma_index(Step::ConfigureStartup);
    lemma_index(Step::CreateCapabilities);
    lemma_index(Step::AssignDebugGpios);
    lemma_index(Step::StartRtc);
    lemma_index(Step::CreateAlarmMux);
    lemma_index(Step::CreateAlarm);
    lemma_index(Step::CreateUartChannel);
    lemma_index(Step::CreateDeferredCaller);
    lemma_index(Step::SetDeferredCaller);
    lemma_index(Step::CreateProcessPrinter);
    lemma_index(Step::RecordProcessPrinter);
    lemma_index(Step::CreateUartMux);
    lemma_index(Step::CreateProcessConsole);
    lemma_index(Step::CreateConsole);
    lemma_index(Step::CreateDebugWriter);
    lemma_index(Step::CreateBleRadio);
    lemma_index(Step::CreateTemperature);
    lemma_index(Step::CreateRng);
    lemma_index(Step::CreateAnalogComparator);
    lemma_index(Step::StartClock);
    lemma_index(Step::CreateScheduler);
    lemma_index(Step::CreatePlatform);
    lemma_index(Step::StartProcessConsole);
    lemma_index(Step::AnnounceReady);
    lemma_index(Step::LoadProcesses);
    lemma_index(Step::ReportLoadError);
    lemma_index(Step::EnterKernelLoop);
}

/// Processes are loaded once every driver that they can call exists, the timers run, the
/// platform is gathered, and a panic finds what it prints.
pub proof fn law_drivers_before_processes(step: Step)
    requires
        ({
            ||| step == Step::CreateGpio
            ||| step == Step::CreateButton
            ||| step == Step::CreateLed
            ||| step == Step::CreateAlarm
            ||| step == Step::CreateConsole
            ||| step == Step::CreateBleRadio
            ||| step == Step::CreateTemperature
            ||| step == Step::CreateRng
            ||| step == Step::CreateAnalogComparator
            ||| step == Step::StartRtc
            ||| step == Step::StartClock
            ||| step == Step::CreateScheduler
            ||| step == Step::CreatePlatform
            ||| step == Step::AssignDebugGpios
            ||| step == Step::CreateDebugWriter
            ||| step == Step::RecordChip
            ||| step == Step::RecordProcessPrinter
        }),
    ensures
        boot_order_spec().index_of(step) < boot_order_spec().index_of(Step::LoadProcesses),
{
    lemma_index(step);
    lemma_index(Step::LoadProcesses);
}

/// The kernel has its debug pins before the timers start, and before every driver but
/// those of the pins is created.
pub proof fn law_debug_gpios_assigned_early(step: Step)
    requires
        step != Step::InitChip,
        step != Step::CreatePeripherals,
        step != Step::InitPeripherals,
        step != Step::CreateKernel,
        step != Step::CreateGpio,
        step != Step::CreateButton,
        step != Step::CreateLed,
        step != Step::CreateChip,
        step != Step::RecordChip,
        step != Step::ConfigureStartup,
        step != Step::CreateCapabilities,
        step != Step::AssignDebugGpios,
    ensures
        boot_order_spec().index_of(Step::AssignDebugGpios) < boot_order_spec().index_of(step),
{
    lemma_index(step);
    lemma_index(Step::AssignDebugGpios);
}

/// The kernel's main loop is entered last, whether or not processes could be loaded.
pub proof fn law_kernel_loop_is_last(load_failed: bool)
    ensures
        boot_order_spec().last() == Step::EnterKernelLoop,
        Step::EnterKernelLoop.is_due(load_failed),
{
}

} // verus!
