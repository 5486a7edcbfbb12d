//! CPU scaling settings: what a profile enforces on the scaling driver as a whole.

use vstd::prelude::*;
use crate::text::{choice, decimal, echo, echo_line, echo_number, lines, push_line, switch_digit};

verus! {

/// Which control surfaces of the scaling drivers are present on this machine.
#[derive(Debug, Clone, Copy, PartialEq, Eq)]
pub struct CpuDrivers {
    /// `/sys/devices/system/cpu/intel_pstate` exists.
    pub intel_pstate: bool,
    /// `/sys/devices/system/cpu/amd_pstate` exists.
    pub amd_pstate: bool,
    /// `/sys/devices/system/cpu/intel_pstate/no_turbo` exists.
    pub intel_no_turbo: bool,
    /// `/sys/devices/system/cpu/cpufreq/boost` exists.
    pub cpufreq_boost: bool,
}

/// A CPU feature that a profile may ask for and a machine may lack.
#[derive(Debug, Clone, Copy, PartialEq, Eq)]
pub enum CpuFeature {
    /// The operation mode of the scaling driver.
    Mode,
    /// Intel's dynamic boost of hardware P-states.
    HwpDynBoost,
    /// Turbo or precision boost.
    Boost,
    /// The lower bound on P-states, in percent.
    MinPerfPct,
    /// The upper bound on P-states, in percent.
    MaxPerfPct,
}

/// Each field is either absent, and the knob is left alone, or present, and the
/// value is written on every application.
#[derive(Debug, Clone, PartialEq)]
pub struct CPUSettings {
    /// Operation mode of the scaling driver (`active`, `passive`, `guided`).
    pub mode: Option<String>,
    pub governor: Option<String>,
    pub energy_performance_preference: Option<String>,
    /// In kilohertz.
    pub min_frequency: Option<u32>,
    /// In kilohertz.
    pub max_frequency: Option<u32>,
    /// Lowest allowed P-state in percent; Intel only.
    pub min_perf_pct: Option<u8>,
    /// Highest allowed P-state in percent; Intel only.
    pub max_perf_pct: Option<u8>,
    /// Turbo or precision boost.
    pub boost: Option<bool>,
    /// Intel only; has no effect in passive mode.
    pub hwp_dyn_boost: Option<bool>,
}

impl CPUSettings {
    /// The write of the operation mode: to the Intel surface where it is present,
    /// else to the AMD one, else none.
    pub open spec fn mode_commands(&self, drivers: CpuDrivers) -> Seq<Seq<char>> {
        match self.mode {
            Some(mode) => if drivers.intel_pstate {
                seq![echo_line(mode@, "/sys/devices/system/cpu/intel_pstate/status"@)]
            } else if drivers.amd_pstate {
                seq![echo_line(mode@, "/sys/devices/system/cpu/amd_pstate/status"@)]
            } else {
                seq![]
            },
            None => seq![],
        }
    }

    /// The write of the dynamic boost switch, which only the Intel surface has.
    pub open spec fn hwp_dyn_boost_commands(&self, drivers: CpuDrivers) -> Seq<Seq<char>> {
        match self.hwp_dyn_boost {
            Some(on) => if drivers.intel_pstate {
                seq![
                    echo_line(
                        choice(on, "1"@, "0"@),
                        "/sys/devices/system/cpu/intel_pstate/hwp_dynamic_boost"@,
                    ),
                ]
            } else {
                seq![]
            },
            None => seq![],
        }
    }

    /// What has to be written first: the driver accepts a governor or an energy
    /// preference only as the mode and the dynamic boost in force allow.
    pub open spec fn driver_stage(&self, drivers: CpuDrivers) -> Seq<Seq<char>> {
        self.mode_commands(drivers) + self.hwp_dyn_boost_commands(drivers)
    }

    /// The writes of governor and energy preference, to every core.
    pub open spec fn policy_stage(&self) -> Seq<Seq<char>> {
        (match self.governor {
            Some(governor) => seq![
                echo_line(governor@, "/sys/devices/system/cpu/cpu*/cpufreq/scaling_governor"@),
            ],
            None => seq![],
        }) + (match self.energy_performance_preference {
            Some(epp) => seq![
                echo_line(
                    epp@,
                    "/sys/devices/system/cpu/cpu*/cpufreq/energy_performance_preference"@,
                ),
            ],
            None => seq![],
        })
    }

    /// The write of the boost switch. Intel's knob switches turbo off, so it takes
    /// the opposite digit.
    pub open spec fn boost_commands(&self, drivers: CpuDrivers) -> Seq<Seq<char>> {
        match self.boost {
            Some(on) => if drivers.intel_no_turbo {
                seq![
                    echo_line(
                        choice(on, "0"@, "1"@),
                        "/sys/devices/system/cpu/intel_pstate/no_turbo"@,
                    ),
                ]
            } else if drivers.cpufreq_boost {
                seq![echo_line(choice(on, "1"@, "0"@), "/sys/devices/system/cpu/cpufreq/boost"@)]
            } else {
                seq![]
            },
            None => seq![],
        }
    }

    /// The writes of the frequency bounds, to every core.
    pub open spec fn frequency_commands(&self) -> Seq<Seq<char>> {
        (match self.min_frequency {
            Some(khz) => seq![
                echo_line(
                    decimal(khz as nat),
                    "/sys/devices/system/cpu/cpu*/cpufreq/scaling_min_freq"@,
                ),
            ],
            None => seq![],
        }) + (match self.max_frequency {
            Some(khz) => seq![
                echo_line(
                    decimal(khz as nat),
                    "/sys/devices/system/cpu/cpu*/cpufreq/scaling_max_freq"@,
                ),
            ],
            None => seq![],
        })
    }

    /// The writes of the P-state bounds, which only the Intel surface has.
    pub open spec fn perf_pct_commands(&self, drivers: CpuDrivers) -> Seq<Seq<char>> {
        (match self.min_perf_pct {
            Some(pct) => if drivers.intel_pstate {
                seq![
                    echo_line(
                        decimal(pct as nat),
                        "/sys/devices/system/cpu/intel_pstate/min_perf_pct"@,
                    ),
                ]
            } else {
                seq![]
            },
            None => seq![],
        }) + (match self.max_perf_pct {
            Some(pct) => if drivers.intel_pstate {
                seq![
                    echo_line(
                        decimal(pct as nat),
                        "/sys/devices/system/cpu/intel_pstate/max_perf_pct"@,
                    ),
                ]
            } else {
                seq![]
            },
            None => seq![],
        })
    }

    /// What follows governor and energy preference: boost, frequency bounds and
    /// P-state bounds.
    pub open spec fn limits_stage(&self, drivers: CpuDrivers) -> Seq<Seq<char>> {
        self.boost_commands(drivers) + self.frequency_commands() + self.perf_pct_commands(
            drivers,
        )
    }

    /// Every write these settings ask for on a machine with `drivers`, in the
    /// order in which it has to be made.
    pub open spec fn commands(&self, drivers: CpuDrivers) -> Seq<Seq<char>> {
        self.driver_stage(drivers) + self.policy_stage() + self.limits_stage(drivers)
    }
}

impl CPUSettings {
    fn write_mode(&self, drivers: &CpuDrivers, out: &mut Vec<String>)
        ensures
            lines(final(out)@) == lines(old(out)@) + self.mode_commands(*drivers),
    {
        if let Some(mode) = &self.mode {
            if drivers.intel_pstate {
                push_line(out, echo(mode.as_str(), "/sys/devices/system/cpu/intel_pstate/status"));
            } else if drivers.amd_pstate {
                push_line(out, echo(mode.as_str(), "/sys/devices/system/cpu/amd_pstate/status"));
            }
        }
        assert(lines(out@) =~= lines(old(out)@) + self.mode_commands(*drivers));
    }

    fn write_hwp_dyn_boost(&self, drivers: &CpuDrivers, out: &mut Vec<String>)
        ensures
            lines(final(out)@) == lines(old(out)@) + self.hwp_dyn_boost_commands(*drivers),
    {
        if let Some(on) = self.hwp_dyn_boost {
            if drivers.intel_pstate {
                push_line(
                    out,
                    echo(switch_digit(on), "/sys/devices/system/cpu/intel_pstate/hwp_dynamic_boost"),
                );
            }
        }
        assert(lines(out@) =~= lines(old(out)@) + self.hwp_dyn_boost_commands(*drivers));
    }

    fn write_policy(&self, out: &mut Vec<String>)
        ensures
            lines(final(out)@) == lines(old(out)@) + self.policy_stage(),
    {
        if let Some(governor) = &self.governor {
            push_line(
                out,
                echo(governor.as_str(), "/sys/devices/system/cpu/cpu*/cpufreq/scaling_governor"),
            );
        }
        if let Some(epp) = &self.energy_performance_preference {
            push_line(
                out,
                echo(
                    epp.as_str(),
                    "/sys/devices/system/cpu/cpu*/cpufreq/energy_performance_preference",
                ),
            );
        }
        assert(lines(out@) =~= lines(old(out)@) + self.policy_stage());
    }

    fn write_boost(&self, drivers: &CpuDrivers, out: &mut Vec<String>)
        ensures
            lines(final(out)@) == lines(old(out)@) + self.boost_commands(*drivers),
    {
        if let Some(on) = self.boost {
            if drivers.intel_no_turbo {
                push_line(
                    out,
                    echo(switch_digit(!on), "/sys/devices/system/cpu/intel_pstate/no_turbo"),
                );
            } else if drivers.cpufreq_boost {
                push_line(out, echo(switch_digit(on), "/sys/devices/system/cpu/cpufreq/boost"));
            }
        }
        assert(lines(out@) =~= lines(old(out)@) + self.boost_commands(*drivers));
    }

    fn write_frequencies(&self, out: &mut Vec<String>)
        ensures
            lines(final(out)@) == lines(old(out)@) + self.frequency_commands(),
    {
        if let Some(khz) = self.min_frequency {
            push_line(
                out,
                echo_number(khz as u64, "/sys/devices/system/cpu/cpu*/cpufreq/scaling_min_freq"),
            );
        }
        if let Some(khz) = self.max_frequency {
            push_line(
                out,
                echo_number(khz as u64, "/sys/devices/system/cpu/cpu*/cpufreq/scaling_max_freq"),
            );
        }
        assert(lines(out@) =~= lines(old(out)@) + self.frequency_commands());
    }

    fn write_perf_pct(&self, drivers: &CpuDrivers, out: &mut Vec<String>)
        ensures
            lines(final(out)@) == lines(old(out)@) + self.perf_pct_commands(*drivers),
    {
        if let Some(pct) = self.min_perf_pct {
            if drivers.intel_pstate {
                push_line(
                    out,
                    echo_number(pct as u64, "/sys/devices/system/cpu/intel_pstate/min_perf_pct"),
                );
            }
        }
        if let Some(pct) = self.max_perf_pct {
            if drivers.intel_pstate {
                push_line(
                    out,
                    echo_number(pct as u64, "/sys/devices/system/cpu/intel_pstate/max_perf_pct"),
                );
            }
        }
        assert(lines(out@) =~= lines(old(out)@) + self.perf_pct_commands(*drivers));
    }

    /// The writes that enforce these settings on a machine with `drivers`, in the
    /// order in which they are to be made. An absent field gives no write, and so
    /// does a present one whose control surface the machine lacks. Nothing else
    /// is looked at: the same settings on the same machine give the same writes.
    pub fn apply(&self, drivers: &CpuDrivers) -> (out: Vec<String>)
        ensures
            lines(out@) == self.commands(*drivers),
    {
        let mut out: Vec<String> = Vec::new();
        assert(lines(out@) =~= Seq::<Seq<char>>::empty());
        self.write_mode(drivers, &mut out);
        self.write_hwp_dyn_boost(drivers, &mut out);
        self.write_policy(&mut out);
        self.write_boost(drivers, &mut out);
        self.write_frequencies(&mut out);
        self.write_perf_pct(drivers, &mut out);
        assert(lines(out@) =~= self.commands(*drivers));
        out
    }

    /// The features these settings ask for that a machine with `drivers` cannot
    /// take: an expected, degraded path, no failure.
    pub open spec fn unsupported(&self, drivers: CpuDrivers) -> Seq<CpuFeature> {
        (if self.mode is Some && !drivers.intel_pstate && !drivers.amd_pstate {
            seq![CpuFeature::Mode]
        } else {
            seq![]
        }) + (if self.hwp_dyn_boost is Some && !drivers.intel_pstate {
            seq![CpuFeature::HwpDynBoost]
        } else {
            seq![]
        }) + (if self.boost is Some && !drivers.intel_no_turbo && !drivers.cpufreq_boost {
            seq![CpuFeature::Boost]
        } else {
            seq![]
        }) + (if self.min_perf_pct is Some && !drivers.intel_pstate {
            seq![CpuFeature::MinPerfPct]
        } else {
            seq![]
        }) + (if self.max_perf_pct is Some && !drivers.intel_pstate {
            seq![CpuFeature::MaxPerfPct]
        } else {
            seq![]
        })
    }

    /// Lists the features that `apply` passes over on a machine with `drivers`.
    pub fn unsupported_features(&self, drivers: &CpuDrivers) -> (out: Vec<CpuFeature>)
        ensures
            out@ == self.unsupported(*drivers),
    {
        let mut out: Vec<CpuFeature> = Vec::new();
        if self.mode.is_some() && !drivers.intel_pstate && !drivers.amd_pstate {
            out.push(CpuFeature::Mode);
        }
        if self.hwp_dyn_boost.is_some() && !drivers.intel_pstate {
            out.push(CpuFeature::HwpDynBoost);
        }
        if self.boost.is_some() && !drivers.intel_no_turbo && !drivers.cpufreq_boost {
            out.push(CpuFeature::Boost);
        }
        if self.min_perf_pct.is_some() && !drivers.intel_pstate {
            out.push(CpuFeature::MinPerfPct);
        }
        if self.max_perf_pct.is_some() && !drivers.intel_pstate {
            out.push(CpuFeature::MaxPerfPct);
        }
        assert(out@ =~= self.unsupported(*drivers));
        out
    }
}

/// The mode of the driver and its dynamic boost are written before governor
/// and energy preference, and the bounds and the boost switch after them: the
/// writes begin with those of the first stage, those of the second follow, and
/// those of the third stand at the end.
pub proof fn lemma_driver_stage_comes_first(settings: CPUSettings, drivers: CpuDrivers)
    ensures
        settings.commands(drivers).len() == settings.driver_stage(drivers).len()
            + settings.policy_stage().len() + settings.limits_stage(drivers).len(),
        forall|i: int|
            0 <= i < settings.driver_stage(drivers).len() ==> settings.commands(drivers)[i]
                == settings.driver_stage(drivers)[i],
        forall|i: int|
            0 <= i < settings.policy_stage().len() ==> settings.commands(drivers)[settings.driver_stage(
                drivers,
            ).len() + i] == settings.policy_stage()[i],
        forall|i: int|
            0 <= i < settings.limits_stage(drivers).len() ==> settings.commands(
                drivers,
            )[settings.driver_stage(drivers).len() + settings.policy_stage().len() + i]
                == settings.limits_stage(drivers)[i],
{
}

} // verus!
