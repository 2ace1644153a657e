//! The drivers of the STM32F401CCU6 core board and the services it hands to the kernel.

use vstd::prelude::*;

use crate::syscall::{law_every_driver_answers, law_no_driver_under_two_numbers, lookup};

verus! {

/// The system call numbers under which the drivers of this board are reached.
#[derive(Clone, Copy)]
pub struct DriverNumbers {
    pub console: usize,
    pub led: usize,
    pub button: usize,
    pub adc: usize,
    pub alarm: usize,
    pub ipc: usize,
    pub gpio: usize,
}

impl DriverNumbers {
    /// The numbers, in the order in which the drivers are tried.
    pub open spec fn all(self) -> Seq<usize> {
        seq![
            self.console,
            self.led,
            self.button,
            self.adc,
            self.alarm,
            self.ipc,
            self.gpio,
        ]
    }

    /// Whether every driver has a number of its own.
    pub fn distinct(&self) -> (r: bool)
        ensures
            r == self.all().no_duplicates(),
    {
        let all: [usize; 7] = [
            self.console,
            self.led,
            self.button,
            self.adc,
            self.alarm,
            self.ipc,
            self.gpio,
        ];
        assert(all@ =~= self.all());
        let mut i: usize = 0;
        while i < 7
            invariant
                i <= 7,
                all@ == self.all(),
                forall|a: int, b: int| 0 <= a < b < i ==> all@[a] != all@[b],
            decreases 7 - i,
        {
            let mut j: usize = 0;
            while j < i
                invariant
                    j <= i < 7,
                    all@ == self.all(),
                    forall|a: int| 0 <= a < j ==> all@[a] != all@[i as int],
                decreases i - j,
            {
                if all[j] == all[i] {
                    return false;
                }
                j = j + 1;
            }
            i = i + 1;
        }
        true
    }
}

/// A structure representing this platform that holds handles to all drivers for this
/// platform.
///
/// `D` is a handle to a driver that answers system calls, `S` the scheduler and `T` the
/// scheduler's timer.
pub struct WeactF401CC<D, S, T> {
    pub console: D,
    pub ipc: D,
    pub led: D,
    pub button: D,
    pub adc: D,
    pub alarm: D,
    pub gpio: D,
    pub scheduler: S,
    pub systick: T,
}

impl<D, S, T> WeactF401CC<D, S, T> {
    /// The drivers that answer system calls, each under its number.
    pub open spec fn drivers(&self, numbers: DriverNumbers) -> Seq<(usize, &D)> {
        seq![
            (numbers.console, &self.console),
            (numbers.led, &self.led),
            (numbers.button, &self.button),
            (numbers.adc, &self.adc),
            (numbers.alarm, &self.alarm),
            (numbers.ipc, &self.ipc),
            (numbers.gpio, &self.gpio),
        ]
    }

    /// Hands `f` the driver that answers `driver_num`, or `None` where no driver
    /// does, and returns what `f` returns.
    pub fn with_driver<F, R>(&self, numbers: &DriverNumbers, driver_num: usize, f: F) -> (r: R)
        where F: FnOnce(Option<&D>) -> R
        requires
            call_requires(f, (lookup(self.drivers(*numbers), driver_num),)),
        ensures
            call_ensures(f, (lookup(self.drivers(*numbers), driver_num),), r),
    {
        proof {
            reveal_with_fuel(lookup, 8);
        }
        if driver_num == numbers.console {
            f(Some(&self.console))
        } else if driver_num == numbers.led {
            f(Some(&self.led))
        } else if driver_num == numbers.button {
            f(Some(&self.button))
        } else if driver_num == numbers.adc {
            f(Some(&self.adc))
        } else if driver_num == numbers.alarm {
            f(Some(&self.alarm))
        } else if driver_num == numbers.ipc {
            f(Some(&self.ipc))
        } else if driver_num == numbers.gpio {
            f(Some(&self.gpio))
        } else {
            f(None)
        }
    }

    /// Looks the drivers up in the platform itself.
    pub fn syscall_driver_lookup(&self) -> (r: &Self)
        ensures
            *r == *self,
    {
        self
    }

    /// Filters no system call.
    pub fn syscall_filter(&self) -> (r: &())
        ensures
            *r == (),
    {
        &()
    }

    /// Leaves a process fault to the kernel.
    pub fn process_fault(&self) -> (r: &())
        ensures
            *r == (),
    {
        &()
    }

    /// The scheduler that picks the next process.
    pub fn scheduler(&self) -> (r: &S)
        ensures
            *r == self.scheduler,
    {
        &self.scheduler
    }

    /// The timer that ends the time slice of a process.
    pub fn scheduler_timer(&self) -> (r: &T)
        ensures
            *r == self.systick,
    {
        &self.systick
    }

    /// Runs no watchdog.
    pub fn watchdog(&self) -> (r: &())
        ensures
            *r == (),
    {
        &()
    }

    /// Does nothing when the kernel switches to a process.
    pub fn context_switch_callback(&self) -> (r: &())
        ensures
            *r == (),
    {
        &()
    }
}

/// Every driver of the platform is reachable: where the numbers are distinct, each
/// answers its own.
pub proof fn law_every_driver_reachable<D, S, T>(platform: WeactF401CC<D, S, T>, numbers: DriverNumbers)
    requires
        numbers.all().no_duplicates(),
    ensures
        lookup(platform.drivers(numbers), numbers.console) == Some(&platform.console),
        lookup(platform.drivers(numbers), numbers.led) == Some(&platform.led),
        lookup(platform.drivers(numbers), numbers.button) == Some(&platform.button),
        lookup(platform.drivers(numbers), numbers.adc) == Some(&platform.adc),
        lookup(platform.drivers(numbers), numbers.alarm) == Some(&platform.alarm),
        lookup(platform.drivers(numbers), numbers.ipc) == Some(&platform.ipc),
        lookup(platform.drivers(numbers), numbers.gpio) == Some(&platform.gpio),
{
    let table = platform.drivers(numbers);
    let all = numbers.all();
    assert forall|i: int, j: int|
        #![trigger table[i], table[j]]
        0 <= i < j < table.len() implies table[i].0 != table[j].0 by {
        assert(table[i].0 == all[i] && table[j].0 == all[j]);
    }
    law_every_driver_answers(table, 0);
    law_every_driver_answers(table, 1);
    law_every_driver_answers(table, 2);
    law_every_driver_answers(table, 3);
    law_every_driver_answers(table, 4);
    law_every_driver_answers(table, 5);
    law_every_driver_answers(table, 6);
}

/// Which driver a number gets, whatever the numbers are: where several drivers share a
/// number, the one that is tried first; where none has it, none.
pub proof fn law_driver_of_number<D, S, T>(
    platform: WeactF401CC<D, S, T>,
    numbers: DriverNumbers,
    n: usize,
)
    ensures
        lookup(platform.drivers(numbers), n) == if n == numbers.console {
            Some(&platform.console)
        } else if n == numbers.led {
            Some(&platform.led)
        } else if n == numbers.button {
            Some(&platform.button)
        } else if n == numbers.adc {
            Some(&platform.adc)
        } else if n == numbers.alarm {
            Some(&platform.alarm)
        } else if n == numbers.ipc {
            Some(&platform.ipc)
        } else if n == numbers.gpio {
            Some(&platform.gpio)
        } else {
            None
        },
{
    reveal_with_fuel(lookup, 8);
}

/// The numbers are distinct exactly when every driver is reachable under its own. The
/// drivers are told apart here by a label each.
pub proof fn law_distinct_iff_reachable<S, T>(
    platform: WeactF401CC<int, S, T>,
    numbers: DriverNumbers,
)
    requires
        platform.console == 0,
        platform.led == 1,
        platform.button == 2,
        platform.adc == 3,
        platform.alarm == 4,
        platform.ipc == 5,
        platform.gpio == 6,
    ensures
        numbers.all().no_duplicates() <==> {
            &&& lookup(platform.drivers(numbers), numbers.console) == Some(&platform.console)
            &&& lookup(platform.drivers(numbers), numbers.led) == Some(&platform.led)
            &&& lookup(platform.drivers(numbers), numbers.button) == Some(&platform.button)
            &&& lookup(platform.drivers(numbers), numbers.adc) == Some(&platform.adc)
            &&& lookup(platform.drivers(numbers), numbers.alarm) == Some(&platform.alarm)
            &&& lookup(platform.drivers(numbers), numbers.ipc) == Some(&platform.ipc)
            &&& lookup(platform.drivers(numbers), numbers.gpio) == Some(&platform.gpio)
        },
{
    if numbers.all().no_duplicates() {
        law_every_driver_reachable(platform, numbers);
    } else {
        let all = numbers.all();
        let (i, j) = choose|i: int, j: int|
            0 <= i < all.len() && 0 <= j < all.len() && i != j && all[i] == all[j];
        assert(0 <= i < 7 && 0 <= j < 7);
    }
}

/// No driver of the platform is reachable under two numbers: what two numbers get comes
/// from two different entries of `drivers`, each of which holds a field of its own.
pub proof fn law_no_driver_reachable_twice<D, S, T>(
    platform: WeactF401CC<D, S, T>,
    numbers: DriverNumbers,
    n1: usize,
    n2: usize,
)
    requires
        n1 != n2,
        lookup(platform.drivers(numbers), n1) is Some,
        lookup(platform.drivers(numbers), n2) is Some,
    ensures
        ({
            let table = platform.drivers(numbers);
            exists|i: int, j: int|
                {
                    &&& 0 <= i < 7
                    &&& 0 <= j < 7
                    &&& i != j
                    &&& #[trigger] table[i] == (n1, lookup(table, n1).unwrap())
                    &&& #[trigger] table[j] == (n2, lookup(table, n2).unwrap())
                }
        }),
{
    law_no_driver_under_two_numbers(platform.drivers(numbers), n1, n2);
}

} // verus!
