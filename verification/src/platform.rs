//! What surrounds the driver: DMA peripherals, buffers, and the handles that it passes on.
use vstd::prelude::*;

verus! {

/// The name under which a DMA controller knows one direction of a peripheral.
pub trait Peripheral: Copy + Sized {
    /// Whether two names are the same.
    fn is(self, other: Self) -> (same: bool)
        ensures
            same == (self == other),
    ;
}

/// Peripherals that the first DMA controller serves.
#[allow(non_camel_case_types)]
#[derive(Clone, Copy, PartialEq, Eq, Debug, Structural)]
pub enum Dma1Peripheral {
    /// Sending side of USART2.
    USART2_TX,
    /// Receiving side of USART2.
    USART2_RX,
    /// Sending side of USART3.
    USART3_TX,
    /// Receiving side of USART3.
    USART3_RX,
}

impl Peripheral for Dma1Peripheral {
    fn is(self, other: Self) -> (same: bool) {
        self == other
    }
}

/// Peripherals that the second DMA controller serves.
#[allow(non_camel_case_types)]
#[derive(Clone, Copy, PartialEq, Eq, Debug, Structural)]
pub enum Dma2Peripheral {
    /// Sending side of USART1.
    USART1_TX,
    /// Receiving side of USART1.
    USART1_RX,
}

impl Peripheral for Dma2Peripheral {
    fn is(self, other: Self) -> (same: bool) {
        self == other
    }
}

/// Memory that is sent from or received into.
pub trait Buffer: Sized {
    /// Number of bytes.
    spec fn size(&self) -> nat;

    /// Number of bytes.
    fn len(&self) -> (bytes: usize)
        ensures
            bytes == self.size(),
    ;
}

impl Buffer for &'static mut [u8] {
    open spec fn size(&self) -> nat {
        (**self)@.len()
    }

    fn len(&self) -> (bytes: usize) {
        (**self).len()
    }
}

impl Buffer for Vec<u8> {
    open spec fn size(&self) -> nat {
        self@.len()
    }

    fn len(&self) -> (bytes: usize) {
        self.len()
    }
}

/// The types of the things that the driver passes on without looking into them, and of those
/// that it looks at only through [`Peripheral`] and [`Buffer`].
pub trait Platform: Sized {
    /// Names of the peripherals of the DMA controller that serves the USART.
    type Peripheral: Peripheral;

    /// A stream of that controller.
    type Stream: Copy;

    /// What is sent from and received into.
    type Buffer: Buffer;

    /// Who is told that a buffer was sent.
    type TransmitClient: Copy;

    /// Who is told that a buffer was filled.
    type ReceiveClient: Copy;
}

} // verus!
