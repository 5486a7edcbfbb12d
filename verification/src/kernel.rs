//! Kernel tunables under `/proc/sys`.

use vstd::prelude::*;
use crate::text::{choice, decimal, echo, echo_line, echo_number, lines, push_line, switch_digit};

verus! {

/// What a profile enforces on the kernel.
#[derive(Debug, Clone, PartialEq)]
pub struct KernelSettings {
    pub disable_nmi_watchdog: Option<bool>,
    /// The interval of dirty page writeback, in seconds.
    pub vm_writeback: Option<u32>,
    pub laptop_mode: Option<u32>,
}

impl KernelSettings {
    /// The write of the watchdog switch, which the kernel takes negated.
    pub open spec fn watchdog_commands(&self) -> Seq<Seq<char>> {
        match self.disable_nmi_watchdog {
            Some(disable) => seq![
                echo_line(choice(disable, "0"@, "1"@), "/proc/sys/kernel/nmi_watchdog"@),
            ],
            None => seq![],
        }
    }

    /// The writes of writeback interval, which the kernel takes in hundredths of
    /// a second, and of laptop mode.
    pub open spec fn vm_commands(&self) -> Seq<Seq<char>> {
        (match self.vm_writeback {
            Some(seconds) => seq![
                echo_line(
                    decimal((seconds * 100) as nat),
                    "/proc/sys/vm/dirty_writeback_centisecs"@,
                ),
            ],
            None => seq![],
        }) + (match self.laptop_mode {
            Some(mode) => seq![echo_line(decimal(mode as nat), "/proc/sys/vm/laptop_mode"@)],
            None => seq![],
        })
    }

    /// Every write these settings ask for, in order.
    pub open spec fn commands(&self) -> Seq<Seq<char>> {
        self.watchdog_commands() + self.vm_commands()
    }

    /// The writes that enforce these settings, in order. An absent field gives
    /// none.
    pub fn apply(&self) -> (out: Vec<String>)
        ensures
            lines(out@) == self.commands(),
    {
        let mut out: Vec<String> = Vec::new();
        assert(lines(out@) =~= Seq::<Seq<char>>::empty());
        if let Some(disable) = self.disable_nmi_watchdog {
            push_line(&mut out, echo(switch_digit(!disable), "/proc/sys/kernel/nmi_watchdog"));
        }
        assert(lines(out@) =~= self.watchdog_commands());
        if let Some(seconds) = self.vm_writeback {
            let centiseconds: u64 = seconds as u64 * 100;
            push_line(&mut out, echo_number(centiseconds, "/proc/sys/vm/dirty_writeback_centisecs"));
        }
        if let Some(mode) = self.laptop_mode {
            push_line(&mut out, echo_number(mode as u64, "/proc/sys/vm/laptop_mode"));
        }
        assert(lines(out@) =~= self.commands());
        out
    }
}

} // verus!
