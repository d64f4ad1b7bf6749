//! Keeping the machine awake: the execution state that is asked of the
//! operating system.

use vstd::prelude::*;

verus! {

/// The state stays in force until it is changed.
pub const ES_CONTINUOUS: u32 = 0x8000_0000;

/// The system must not fall asleep when idle.
pub const ES_SYSTEM_REQUIRED: u32 = 0x0000_0001;

/// The display must stay on.
pub const ES_DISPLAY_REQUIRED: u32 = 0x0000_0002;

/// The machine enters away mode in place of sleep.
pub const ES_AWAYMODE_REQUIRED: u32 = 0x0000_0040;

/// The execution state that was last asked for.
#[derive(Debug, PartialEq, Eq)]
pub struct WakeLock(pub u32);

/// The execution state for what is to be kept awake.
pub open spec fn wake_flags(display: bool, idle: bool, sleep: bool) -> u32 {
    ES_CONTINUOUS | (if display {
        ES_DISPLAY_REQUIRED
    } else {
        0u32
    }) | (if idle {
        ES_SYSTEM_REQUIRED
    } else {
        0u32
    }) | (if sleep {
        ES_AWAYMODE_REQUIRED
    } else {
        0u32
    })
}

/// A state with the display bit set or cleared.
pub open spec fn with_display(flags: u32, display: bool) -> u32 {
    if display {
        flags | ES_DISPLAY_REQUIRED
    } else {
        flags & !ES_DISPLAY_REQUIRED
    }
}

impl WakeLock {
    /// The lock for what is to be kept awake; its state is to be set at once.
    pub fn new(display: bool, idle: bool, sleep: bool) -> (r: Self)
        ensures
            r.0 == wake_flags(display, idle, sleep),
    {
        let mut flag: u32 = ES_CONTINUOUS;
        if display {
            flag = flag | ES_DISPLAY_REQUIRED;
        }
        if idle {
            flag = flag | ES_SYSTEM_REQUIRED;
        }
        if sleep {
            flag = flag | ES_AWAYMODE_REQUIRED;
        }
        proof {
            let d: u32 = if display { ES_DISPLAY_REQUIRED } else { 0u32 };
            let i: u32 = if idle { ES_SYSTEM_REQUIRED } else { 0u32 };
            let s: u32 = if sleep { ES_AWAYMODE_REQUIRED } else { 0u32 };
            assert(ES_CONTINUOUS | 0u32 == ES_CONTINUOUS) by (bit_vector);
            assert((ES_CONTINUOUS | d) | 0u32 == ES_CONTINUOUS | d) by (bit_vector);
            assert(((ES_CONTINUOUS | d) | i) | 0u32 == (ES_CONTINUOUS | d) | i) by (bit_vector);
            assert(flag == ((ES_CONTINUOUS | d) | i) | s);
        }
        WakeLock(flag)
    }

    /// The state the lock stands for.
    pub fn flags(&self) -> (r: u32)
        ensures
            r == self.0,
    {
        self.0
    }

    /// Asks for the display to be kept on, or no longer. Answers with the
    /// state to set where it differs from the one in force, and with nothing
    /// where it does not.
    pub fn set_display(&mut self, display: bool) -> (r: Option<u32>)
        ensures
            final(self).0 == with_display(old(self).0, display),
            r == (if with_display(old(self).0, display) != old(self).0 {
                Some(with_display(old(self).0, display))
            } else {
                None::<u32>
            }),
    {
        let flag: u32 = if display {
            self.0 | ES_DISPLAY_REQUIRED
        } else {
            self.0 & !ES_DISPLAY_REQUIRED
        };
        if flag != self.0 {
            self.0 = flag;
            Some(flag)
        } else {
            None
        }
    }

    /// The state to set when the lock is given up.
    pub fn released() -> (r: u32)
        ensures
            r == ES_CONTINUOUS,
    {
        ES_CONTINUOUS
    }
}

/// Asking for the display leaves every other bit of the state as it was, and
/// asking twice is asking once.
pub proof fn display_is_one_bit(flags: u32, display: bool)
    ensures
        with_display(flags, display) & !ES_DISPLAY_REQUIRED == flags & !ES_DISPLAY_REQUIRED,
        (with_display(flags, display) & ES_DISPLAY_REQUIRED != 0) == display,
        with_display(with_display(flags, display), display) == with_display(flags, display),
{
    let bit: u32 = ES_DISPLAY_REQUIRED;
    assert((flags | bit) & !bit == flags & !bit) by (bit_vector);
    assert((flags & !bit) & !bit == flags & !bit) by (bit_vector);
    assert(bit == 2u32 ==> ((flags | bit) & bit != 0)) by (bit_vector);
    assert((flags & !bit) & bit == 0) by (bit_vector);
    assert((flags | bit) | bit == flags | bit) by (bit_vector);
}

} // verus!
