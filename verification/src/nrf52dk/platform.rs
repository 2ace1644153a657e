//! The drivers of the nRF52 DK and the services it hands to the kernel.

use vstd::prelude::*;

use crate::syscall::{law_every_driver_answers, law_no_driver_under_two_numbers, lookup};

verus! {

/// The system call numbers under which the drivers of this board are reached.
#[derive(Clone, Copy)]
pub struct DriverNumbers {
    pub console: usize,
    pub gpio: usize,
    pub alarm: usize,
    pub led: usize,
    pub button: usize,
    pub rng: usize,
    pub ble_radio: usize,
    pub temp: usize,
    pub analog_comparator: usize,
    pub ipc: usize,
}

impl DriverNumbers {
    /// The numbers, in the order in which the drivers are tried.
    pub open spec fn all(self) -> Seq<usize> {
        seq![
            self.console,
            self.gpio,
            self.alarm,
            self.led,
            self.button,
            self.rng,
            self.ble_radio,
            self.temp,
            self.analog_comparator,
            self.ipc,
        ]
    }

    /// Whether every driver has a number of its own.
    pub fn distinct(&self) -> (r: bool)
        ensures
            r == self.all().no_duplicates(),
    {
        let all: [usize; 10] = [
            self.console,
            self.gpio,
            self.alarm,
            self.led,
            self.button,
            self.rng,
            self.ble_radio,
            self.temp,
            self.analog_comparator,
            self.ipc,
        ];
        assert(all@ =~= self.all());
        let mut i: usize = 0;
        while i < 10
            invariant
                i <= 10,
                all@ == self.all(),
                forall|a: int, b: int| 0 <= a < b < i ==> all@[a] != all@[b],
            decreases 10 - i,
        {
            let mut j: usize = 0;
            while j < i
                invariant
                    j <= i < 10,
                    all@ == self.all(),
                    forall|a: int| 0 <= a < j ==> all@[a] != all@[i as int],
                decreases i - j,
            {
                if all[j] == all[i] {
                    return false;
                }
                j = j + 1;
            }
            i = i + 1;
        }
        true
    }
}

/// Supported drivers by the platform.
///
/// `D` is a handle to a driver that answers system calls, `P` the process
/// console, `S` the scheduler and `T` the scheduler's timer.
pub struct Platform<D, P, S, T> {
    pub ble_radio: D,
    pub button: D,
    pub pconsole: P,
    pub console: D,
    pub gpio: D,
    pub led: D,
    pub rng: D,
    pub temp: D,
    pub ipc: D,
    pub analog_comparator: D,
    pub alarm: D,
    pub scheduler: S,
    pub systick: T,
}

impl<D, P, S, T> Platform<D, P, S, T> {
    /// The drivers that answer system calls, each under its number.
    pub open spec fn drivers(&self, numbers: DriverNumbers) -> Seq<(usize, &D)> {
        seq![
            (numbers.console, &self.console),
            (numbers.gpio, &self.gpio),
            (numbers.alarm, &self.alarm),
            (numbers.led, &self.led),
            (numbers.button, &self.button),
            (numbers.rng, &self.rng),
            (numbers.ble_radio, &self.ble_radio),
            (numbers.temp, &self.temp),
            (numbers.analog_comparator, &self.analog_comparator),
            (numbers.ipc, &self.ipc),
        ]
    }

    /// Hands `f` the driver that answers `driver_num`, or `None` where no driver
    /// does, and returns what `f` returns.
    pub fn with_driver<F, R>(&self, numbers: &DriverNumbers, driver_num: usize, f: F) -> (r: R)
        where F: FnOnce(Option<&D>) -> R
        requires
            call_requires(f, (lookup(self.drivers(*numbers), driver_num),)),
        ensures
            call_ensures(f, (lookup(self.drivers(*numbers), driver_num),), r),
    {
        proof {
            reveal_with_fuel(lookup, 11);
        }
        if driver_num == numbers.console {
            f(Some(&self.console))
        } else if driver_num == numbers.gpio {
            f(Some(&self.gpio))
        } else if driver_num == numbers.alarm {
            f(Some(&self.alarm))
        } else if driver_num == numbers.led {
            f(Some(&self.led))
        } else if driver_num == numbers.button {
            f(Some(&self.button))
        } else if driver_num == numbers.rng {
            f(Some(&self.rng))
        } else if driver_num == numbers.ble_radio {
            f(Some(&self.ble_radio))
        } else if driver_num == numbers.temp {
            f(Some(&self.temp))
        } else if driver_num == numbers.analog_comparator {
            f(Some(&self.analog_comparator))
        } else if driver_num == numbers.ipc {
            f(Some(&self.ipc))
        } else {
            f(None)
        }
    }

    /// Looks the drivers up in the platform itself.
    pub fn syscall_driver_lookup(&self) -> (r: &Self)
        ensures
            *r == *self,
    {
        self
    }

    /// Filters no system call.
    pub fn syscall_filter(&self) -> (r: &())
        ensures
            *r == (),
    {
        &()
    }

    /// Leaves a process fault to the kernel.
    pub fn process_fault(&self) -> (r: &())
        ensures
            *r == (),
    {
        &()
    }

    /// The scheduler that picks the next process.
    pub fn scheduler(&self) -> (r: &S)
        ensures
            *r == self.scheduler,
    {
        &self.scheduler
    }

    /// The timer that ends the time slice of a process.
    pub fn scheduler_timer(&self) -> (r: &T)
        ensures
            *r == self.systick,
    {
        &self.systick
    }

    /// Runs no watchdog.
    pub fn watchdog(&self) -> (r: &())
        ensures
            *r == (),
    {
        &()
    }

    /// Does nothing when the kernel switches to a process.
    pub fn context_switch_callback(&self) -> (r: &())
        ensures
            *r == (),
    {
        &()
    }
}

/// Every driver of the platform is reachable: where the numbers are distinct, each
/// answers its own.
pub proof fn law_every_driver_reachable<D, P, S, T>(platform: Platform<D, P, S, T>, numbers: DriverNumbers)
    requires
        numbers.all().no_duplicates(),
    ensures
        lookup(platform.drivers(numbers), numbers.console) == Some(&platform.console),
        lookup(platform.drivers(numbers), numbers.gpio) == Some(&platform.gpio),
        lookup(platform.drivers(numbers), numbers.alarm) == Some(&platform.alarm),
        lookup(platform.drivers(numbers), numbers.led) == Some(&platform.led),
        lookup(platform.drivers(numbers), numbers.button) == Some(&platform.button),
        lookup(platform.drivers(numbers), numbers.rng) == Some(&platform.rng),
        lookup(platform.drivers(numbers), numbers.ble_radio) == Some(&platform.ble_radio),
        lookup(platform.drivers(numbers), numbers.temp) == Some(&platform.temp),
        lookup(platform.drivers(numbers), numbers.analog_comparator) == Some(&platform.analog_comparator),
        lookup(platform.drivers(numbers), numbers.ipc) == Some(&platform.ipc),
{
    let table = platform.drivers(numbers);
    let all = numbers.all();
    assert forall|i: int, j: int|
        #![trigger table[i], table[j]]
        0 <= i < j < table.len() implies table[i].0 != table[j].0 by {
        assert(table[i].0 == all[i] && table[j].0 == all[j]);
    }
    law_every_driver_answers(table, 0);
    law_every_driver_answers(table, 1);
    law_every_driver_answers(table, 2);
    law_every_driver_answers(table, 3);
    law_every_driver_answers(table, 4);
    law_every_driver_answers(table, 5);
    law_every_driver_answers(table, 6);
    law_every_driver_answers(table, 7);
    law_every_driver_answers(table, 8);
    law_every_driver_answers(table, 9);
}

/// Which driver a number gets, whatever the numbers are: where several drivers share a
/// number, the one that is tried first; where none has it, none.
pub proof fn law_driver_of_number<D, P, S, T>(
    platform: Platform<D, P, S, T>,
    numbers: DriverNumbers,
    n: usize,
)
    ensures
        lookup(platform.drivers(numbers), n) == if n == numbers.console {
            Some(&platform.console)
        } else if n == numbers.gpio {
            Some(&platform.gpio)
        } else if n == numbers.alarm {
            Some(&platform.alarm)
        } else if n == numbers.led {
            Some(&platform.led)
        } else if n == numbers.button {
            Some(&platform.button)
        } else if n == numbers.rng {
            Some(&platform.rng)
        } else if n == numbers.ble_radio {
            Some(&platform.ble_radio)
        } else if n == numbers.temp {
            Some(&platform.temp)
        } else if n == numbers.analog_comparator {
            Some(&platform.analog_comparator)
        } else if n == numbers.ipc {
            Some(&platform.ipc)
        } else {
            None
        },
{
    reveal_with_fuel(lookup, 11);
}

/// The numbers are distinct exactly when every driver is reachable under its own. The
/// drivers are told apart here by a label each.
pub proof fn law_distinct_iff_reachable<P, S, T>(
    platform: Platform<int, P, S, T>,
    numbers: DriverNumbers,
)
    requires
        platform.console == 0,
        platform.gpio == 1,
        platform.alarm == 2,
        platform.led == 3,
        platform.button == 4,
        platform.rng == 5,
        platform.ble_radio == 6,
        platform.temp == 7,
        platform.analog_comparator == 8,
        platform.ipc == 9,
    ensures
        numbers.all().no_duplicates() <==> {
            &&& lookup(platform.drivers(numbers), numbers.console) == Some(&platform.console)
            &&& lookup(platform.drivers(numbers), numbers.gpio) == Some(&platform.gpio)
            &&& lookup(platform.drivers(numbers), numbers.alarm) == Some(&platform.alarm)
            &&& lookup(platform.drivers(numbers), numbers.led) == Some(&platform.led)
            &&& lookup(platform.drivers(numbers), numbers.button) == Some(&platform.button)
            &&& lookup(platform.drivers(numbers), numbers.rng) == Some(&platform.rng)
            &&& lookup(platform.drivers(numbers), numbers.ble_radio) == Some(&platform.ble_radio)
            &&& lookup(platform.drivers(numbers), numbers.temp) == Some(&platform.temp)
            &&& lookup(platform.drivers(numbers), numbers.analog_comparator) == Some(&platform.analog_comparator)
            &&& lookup(platform.drivers(numbers), numbers.ipc) == Some(&platform.ipc)
        },
{
    if numbers.all().no_duplicates() {
        law_every_driver_reachable(platform, numbers);
    } else {
        let all = numbers.all();
        let (i, j) = choose|i: int, j: int|
            0 <= i < all.len() && 0 <= j < all.len() && i != j && all[i] == all[j];
        assert(0 <= i < 10 && 0 <= j < 10);
    }
}

/// No driver of the platform is reachable under two numbers: what two numbers get comes
/// from two different entries of `drivers`, each of which holds a field of its own.
pub proof fn law_no_driver_reachable_twice<D, P, S, T>(
    platform: Platform<D, P, S, T>,
    numbers: DriverNumbers,
    n1: usize,
    n2: usize,
)
    requires
        n1 != n2,
        lookup(platform.drivers(numbers), n1) is Some,
        lookup(platform.drivers(numbers), n2) is Some,
    ensures
        ({
            let table = platform.drivers(numbers);
            exists|i: int, j: int|
                {
                    &&& 0 <= i < 10
                    &&& 0 <= j < 10
                    &&& i != j
                    &&& #[trigger] table[i] == (n1, lookup(table, n1).unwrap())
                    &&& #[trigger] table[j] == (n2, lookup(table, n2).unwrap())
                }
        }),
{
    law_no_driver_under_two_numbers(platform.drivers(numbers), n1, n2);
}

} // verus!
