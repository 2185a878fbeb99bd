//! Application and comment markers, and their one-byte codes.
use vstd::prelude::*;
use vstd::std_specs::convert::FromSpecImpl;
use crate::engine::{marker_app0, marker_com};

verus! {

/// Marker number identifier (APP0-APP14 and comment markers)
///
/// For actual contents of markers, see `MarkerData`
#[derive(Copy, Clone, Debug, PartialEq, Eq, Structural)]
pub enum Marker {
    COM,
    APP(u8),
}

/// The marker that a code byte stands for. Every byte but the comment code
/// counts from the first application marker, wrapping below it.
pub open spec fn marker_of_code(num: u8) -> Marker {
    if num == 0xFE {
        Marker::COM
    } else {
        Marker::APP(num.wrapping_sub(0xE0))
    }
}

/// The code that the engine knows a marker by.
pub open spec fn code_of_marker(marker: Marker) -> i32 {
    match marker {
        Marker::APP(n) => (n + 0xE0) as i32,
        Marker::COM => 0xFE,
    }
}

impl From<u8> for Marker {
    fn from(num: u8) -> (marker: Self) {
        if num == marker_com() {
            Self::COM
        } else {
            Self::APP(num.wrapping_sub(marker_app0()))
        }
    }
}

impl FromSpecImpl<u8> for Marker {
    open spec fn obeys_from_spec() -> bool {
        true
    }

    open spec fn from_spec(num: u8) -> Self {
        marker_of_code(num)
    }
}

impl From<Marker> for i32 {
    fn from(val: Marker) -> (code: Self) {
        match val {
            Marker::APP(n) => {
                let first: u8 = marker_app0();
                n as i32 + first as i32
            },
            Marker::COM => {
                let com: u8 = marker_com();
                com as i32
            },
        }
    }
}

impl FromSpecImpl<Marker> for i32 {
    open spec fn obeys_from_spec() -> bool {
        true
    }

    open spec fn from_spec(val: Marker) -> Self {
        code_of_marker(val)
    }
}

} // verus!
