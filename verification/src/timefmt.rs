//! The capture instant of a snapshot, held as plain values: the epoch
//! second for arithmetic and the local calendar fields for display.  The
//! producer of a snapshot fills both from the same instant; the core only
//! renders the calendar fields and subtracts the epoch seconds.
use crate::numfmt::{int_str, pad2_str, pad4_str, u64_pad2, u64_pad4, i64_dec};
use vstd::prelude::*;

verus! {

/// Epoch seconds of a snapshot never stray this far from zero; keeps every
/// elapsed-time difference well inside `i64`.
pub const MAX_EPOCH_SECONDS: i64 = 4_000_000_000_000;

/// One point in time: the instant as epoch seconds, and the same instant
/// broken into local calendar fields with the producer's timezone applied.
#[derive(Clone, Copy, Debug, Default, PartialEq, Eq, Structural)]
pub struct SnapshotTime {
    pub unix_seconds: i64,
    pub year: u16,
    pub month: u8,
    pub day: u8,
    pub hour: u8,
    pub minute: u8,
    pub second: u8,
}

impl SnapshotTime {
    /// Field ranges every capture instant satisfies.
    pub open spec fn wf(self) -> bool {
        &&& 0 <= self.unix_seconds <= MAX_EPOCH_SECONDS
        &&& self.year <= 9999
        &&& 1 <= self.month <= 12
        &&& 1 <= self.day <= 31
        &&& self.hour <= 23
        &&& self.minute <= 59
        &&& self.second <= 59
    }

    /// The rendered capture instant: `YYYY-MM-DD hh:mm:ss`.
    pub open spec fn rendered(self) -> Seq<char> {
        pad4_str(self.year as nat) + seq!['-'] + pad2_str(self.month as nat) + seq!['-']
            + pad2_str(self.day as nat) + seq![' '] + pad2_str(self.hour as nat) + seq![':']
            + pad2_str(self.minute as nat) + seq![':'] + pad2_str(self.second as nat)
    }
}

/// Renders a capture instant as `YYYY-MM-DD hh:mm:ss`.
pub fn format_datetime(t: &SnapshotTime) -> (s: String)
    requires
        t.wf(),
    ensures
        s@ == t.rendered(),
{
    proof {
        reveal_strlit("-");
        reveal_strlit(" ");
        reveal_strlit(":");
        assert("-"@ =~= seq!['-']);
        assert(" "@ =~= seq![' ']);
        assert(":"@ =~= seq![':']);
    }
    let mut s = u64_pad4(t.year as u64);
    s.append("-");
    s.append(u64_pad2(t.month as u64).as_str());
    s.append("-");
    s.append(u64_pad2(t.day as u64).as_str());
    s.append(" ");
    s.append(u64_pad2(t.hour as u64).as_str());
    s.append(":");
    s.append(u64_pad2(t.minute as u64).as_str());
    s.append(":");
    s.append(u64_pad2(t.second as u64).as_str());
    proof {
        assert(s@ =~= t.rendered());
    }
    s
}

/// The rendered form of an elapsed time given in seconds: whole days, then
/// two-digit hours and minutes, as in `1天02时03分`.  A negative elapsed
/// time (snapshots compared out of order) keeps its sign ahead of the same
/// rendering of its magnitude.
pub open spec fn duration_mag_str(seconds: int) -> Seq<char> {
    int_str(seconds / 86400) + "天"@ + pad2_str((seconds % 86400 / 3600) as nat) + "时"@
        + pad2_str((seconds % 3600 / 60) as nat) + "分"@
}

/// See [`duration_mag_str`]; a negative elapsed time keeps its sign ahead
/// of the rendering of its magnitude.
pub open spec fn duration_str(seconds: int) -> Seq<char> {
    if seconds < 0 {
        seq!['-'] + duration_mag_str(-seconds)
    } else {
        duration_mag_str(seconds)
    }
}

/// Renders an elapsed time between two snapshots; safe on a negative
/// difference from out-of-order snapshots.
pub fn format_duration(seconds: i64) -> (s: String)
    requires
        seconds > i64::MIN,
    ensures
        s@ == duration_str(seconds as int),
{
    proof {
        reveal_strlit("-");
        assert("-"@ =~= seq!['-']);
    }
    let mag: i64 = if seconds < 0 {
        -seconds
    } else {
        seconds
    };
    let days = mag / 86400;
    let hours = mag % 86400 / 3600;
    let minutes = mag % 3600 / 60;
    let mut s = if seconds < 0 {
        "-".to_owned()
    } else {
        String::new()
    };
    s.append(i64_dec(days).as_str());
    s.append("天");
    s.append(u64_pad2(hours as u64).as_str());
    s.append("时");
    s.append(u64_pad2(minutes as u64).as_str());
    s.append("分");
    proof {
        assert(s@ =~= duration_str(seconds as int));
    }
    s
}

} // verus!
