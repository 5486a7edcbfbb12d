//! Display settings.

use vstd::prelude::*;
use vstd::string::StringExecFns;
use crate::text::{decimal, lines, push_decimal, push_line};

verus! {

/// What a profile enforces on the display.
#[derive(Debug, Clone, PartialEq)]
pub struct ScreenSettings {
    pub resolution: Option<String>,
    pub refresh_rate: Option<String>,
    /// In percent.
    pub brightness: Option<u32>,
}

impl ScreenSettings {
    /// The calls that set resolution and refresh rate.
    pub open spec fn mode_commands(&self) -> Seq<Seq<char>> {
        (match self.resolution {
            Some(resolution) => seq!["xrandr --mode "@ + resolution@],
            None => seq![],
        }) + (match self.refresh_rate {
            Some(rate) => seq!["xrandr -r "@ + rate@],
            None => seq![],
        })
    }

    /// The call that sets the brightness.
    pub open spec fn brightness_commands(&self) -> Seq<Seq<char>> {
        match self.brightness {
            Some(percent) => seq!["brightnessctl -s "@ + decimal(percent as nat) + "%"@],
            None => seq![],
        }
    }

    /// Every call these settings ask for, in order.
    pub open spec fn commands(&self) -> Seq<Seq<char>> {
        self.mode_commands() + self.brightness_commands()
    }

    /// The calls that enforce these settings, in order. An absent field gives
    /// none.
    pub fn apply(&self) -> (out: Vec<String>)
        ensures
            lines(out@) == self.commands(),
    {
        let mut out: Vec<String> = Vec::new();
        assert(lines(out@) =~= Seq::<Seq<char>>::empty());
        if let Some(resolution) = &self.resolution {
            let mut line = String::from_str("xrandr --mode ");
            line.append(resolution.as_str());
            push_line(&mut out, line);
        }
        if let Some(rate) = &self.refresh_rate {
            let mut line = String::from_str("xrandr -r ");
            line.append(rate.as_str());
            push_line(&mut out, line);
        }
        assert(lines(out@) =~= self.mode_commands());
        if let Some(percent) = self.brightness {
            let mut line = String::from_str("brightnessctl -s ");
            push_decimal(&mut line, percent as u64);
            line.append("%");
            push_line(&mut out, line);
        }
        assert(lines(out@) =~= self.commands());
        out
    }
}

} // verus!
