//! The requests made of the system's power management.

use vstd::prelude::*;

verus! {

/// `ES_CONTINUOUS`: the request holds until the next one.
pub const ES_CONTINUOUS: u32 = 0x8000_0000;
/// `ES_SYSTEM_REQUIRED`: no sleep.
pub const ES_SYSTEM_REQUIRED: u32 = 0x0000_0001;
/// `ES_DISPLAY_REQUIRED`: no display off.
pub const ES_DISPLAY_REQUIRED: u32 = 0x0000_0002;
/// `ES_AWAYMODE_REQUIRED`: away mode, the network stays up.
pub const ES_AWAYMODE_REQUIRED: u32 = 0x0000_0040;

/// The flags of a keep-awake request: always continuous and no sleep, the
/// display and away-mode flags as asked.
pub open spec fn awake_flags_spec(display: bool, away: bool) -> u32 {
    (0x8000_0001u32 + (if display {
        2u32
    } else {
        0u32
    }) + (if away {
        0x40u32
    } else {
        0u32
    })) as u32
}

/// The flags that `SetThreadExecutionState` gets to keep the machine awake.
pub fn awake_flags(display: bool, away: bool) -> (r: u32)
    ensures
        r == awake_flags_spec(display, away),
        r & ES_CONTINUOUS != 0,
        r & ES_SYSTEM_REQUIRED != 0,
        (r & ES_DISPLAY_REQUIRED != 0) == display,
        (r & ES_AWAYMODE_REQUIRED != 0) == away,
{
    let mut flags: u32 = ES_CONTINUOUS | ES_SYSTEM_REQUIRED;
    assert(flags == 0x8000_0001u32) by (bit_vector)
        requires
            flags == 0x8000_0000u32 | 0x0000_0001u32,
    ;
    if display {
        let f0 = flags;
        flags = flags | ES_DISPLAY_REQUIRED;
        assert(flags == 0x8000_0003u32) by (bit_vector)
            requires
                f0 == 0x8000_0001u32,
                flags == f0 | 0x0000_0002u32,
        ;
    }
    if away {
        let f1 = flags;
        flags = flags | ES_AWAYMODE_REQUIRED;
        assert(flags == f1 + 0x40u32) by (bit_vector)
            requires
                f1 == 0x8000_0001u32 || f1 == 0x8000_0003u32,
                flags == f1 | 0x0000_0040u32,
        ;
    }
    assert(flags & 0x8000_0000u32 != 0 && flags & 1u32 != 0 && ((flags & 2u32 != 0) == (flags
        == 0x8000_0003u32 || flags == 0x8000_0043u32)) && ((flags & 0x40u32 != 0) == (flags
        == 0x8000_0041u32 || flags == 0x8000_0043u32))) by (bit_vector)
        requires
            flags == 0x8000_0001u32 || flags == 0x8000_0003u32 || flags == 0x8000_0041u32
                || flags == 0x8000_0043u32,
    ;
    flags
}

/// What the power request should do after a change of the settings.
#[derive(Clone, Copy, Debug, PartialEq, Eq, Structural)]
pub enum AwakeAction {
    /// Request keep-awake with these flags.
    Request { display: bool, away: bool },
    /// Withdraw the keep-awake request.
    Release,
    /// Leave the request as it is.
    Keep,
}

} // verus!
