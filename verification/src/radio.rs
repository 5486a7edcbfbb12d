//! Radio settings: which transmitters are blocked.

use vstd::prelude::*;
use vstd::string::StringExecFns;
use crate::text::{choice, lines, push_line};

verus! {

/// The call that blocks or unblocks the transmitters of the kind `kind`.
pub open spec fn rfkill_line(block: bool, kind: Seq<char>) -> Seq<char> {
    "rfkill "@ + choice(block, "block"@, "unblock"@) + " "@ + kind
}

/// The call for one kind of transmitter, where its switch is present.
pub open spec fn rfkill_commands(block: Option<bool>, kind: Seq<char>) -> Seq<Seq<char>> {
    match block {
        Some(block) => seq![rfkill_line(block, kind)],
        None => seq![],
    }
}

fn push_rfkill(block: Option<bool>, kind: &str, out: &mut Vec<String>)
    ensures
        lines(final(out)@) == lines(old(out)@) + rfkill_commands(block, kind@),
{
    if let Some(block) = block {
        let mut line = String::from_str("rfkill ");
        line.append(
            if block {
                "block"
            } else {
                "unblock"
            },
        );
        line.append(" ");
        line.append(kind);
        assert(line@ =~= rfkill_line(block, kind@));
        push_line(out, line);
    }
    assert(lines(out@) =~= lines(old(out)@) + rfkill_commands(block, kind@));
}

/// What a profile enforces on the transmitters.
#[derive(Debug, Clone, PartialEq)]
pub struct RadioSettings {
    pub block_wifi: Option<bool>,
    pub block_nfc: Option<bool>,
    pub block_bluetooth: Option<bool>,
}

impl RadioSettings {
    /// Every call these settings ask for: wifi, NFC, bluetooth.
    pub open spec fn commands(&self) -> Seq<Seq<char>> {
        rfkill_commands(self.block_wifi, "wifi"@) + rfkill_commands(self.block_nfc, "nfc"@)
            + rfkill_commands(self.block_bluetooth, "bluetooth"@)
    }

    /// The calls that enforce these settings, in order. An absent field gives
    /// none.
    pub fn apply(&self) -> (out: Vec<String>)
        ensures
            lines(out@) == self.commands(),
    {
        let mut out: Vec<String> = Vec::new();
        assert(lines(out@) =~= Seq::<Seq<char>>::empty());
        push_rfkill(self.block_wifi, "wifi", &mut out);
        push_rfkill(self.block_nfc, "nfc", &mut out);
        push_rfkill(self.block_bluetooth, "bluetooth", &mut out);
        assert(lines(out@) =~= self.commands());
        out
    }
}

} // verus!
