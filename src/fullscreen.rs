use vstd::prelude::*;

verus! {

/// The fullscreen modes of a window.
#[derive(Clone, Copy, Debug, PartialEq, Eq, Hash, Structural)]
pub enum Fullscreen {
    /// Windowed (not fullscreen).
    Off,
    /// Fullscreen, with the resolution of the window.
    On,
    /// Fullscreen, with the native resolution of the display.
    Desktop,
}

impl From<bool> for Fullscreen {
    fn from(val: bool) -> (r: Fullscreen)
        ensures
            r == (if val {
                Fullscreen::On
            } else {
                Fullscreen::Off
            }),
    {
        if val {
            Fullscreen::On
        } else {
            Fullscreen::Off
        }
    }
}

impl vstd::std_specs::convert::FromSpecImpl<bool> for Fullscreen {
    open spec fn obeys_from_spec() -> bool {
        true
    }

    open spec fn from_spec(val: bool) -> Fullscreen {
        if val {
            Fullscreen::On
        } else {
            Fullscreen::Off
        }
    }
}

} // verus!
