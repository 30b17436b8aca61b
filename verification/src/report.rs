use vstd::prelude::*;

verus! {

/// An HID-style output report: the usage code the host should receive,
/// carried as the plain integer value of the usage on its page. The firmware
/// glue that owns the transport turns these into wire-format reports; this
/// core only produces and orders them.
#[derive(Debug, Clone, Copy, PartialEq, Eq, Structural)]
pub enum Report {
    /// A keyboard-page usage code.
    Keyboard(u8),
    /// A consumer-page usage code.
    Consumer(u16),
    /// A generic-desktop-page usage code.
    Desktop(u8),
    /// An opaque byte for device-specific handling.
    Custom(u8),
}

} // verus!
