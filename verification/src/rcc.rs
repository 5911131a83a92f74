//! The clocks that feed the USARTs.
use vstd::prelude::*;

verus! {

/// Peripherals on the slow peripheral bus.
#[derive(Clone, Copy, PartialEq, Eq, Debug, Structural)]
pub enum PCLK1 {
    /// Clock of USART2.
    USART2,
    /// Clock of USART3.
    USART3,
}

/// Peripherals on the fast peripheral bus.
#[derive(Clone, Copy, PartialEq, Eq, Debug, Structural)]
pub enum PCLK2 {
    /// Clock of USART1.
    USART1,
}

/// The clock of a peripheral, by the bus on which the peripheral sits.
#[derive(Clone, Copy, PartialEq, Eq, Debug, Structural)]
pub enum PeripheralClockType {
    /// On the slow peripheral bus.
    APB1(PCLK1),
    /// On the fast peripheral bus.
    APB2(PCLK2),
}

/// Something to do to a clock.
#[derive(Clone, Copy, PartialEq, Eq, Debug, Structural)]
pub enum ClockRequest {
    /// Tell whether the clock runs.
    IsEnabled(PeripheralClockType),
    /// Start the clock.
    Enable(PeripheralClockType),
    /// Stop the clock.
    Disable(PeripheralClockType),
}

/// The clock of a USART.
#[derive(Clone, Copy, PartialEq, Eq, Debug, Structural)]
pub struct UsartClock(pub PeripheralClockType);

impl UsartClock {
    /// Asks whether the clock runs.
    pub fn is_enabled(&self) -> (request: ClockRequest)
        ensures
            request == ClockRequest::IsEnabled(self.0),
    {
        ClockRequest::IsEnabled(self.0)
    }

    /// Starts the clock.
    pub fn enable(&self) -> (request: ClockRequest)
        ensures
            request == ClockRequest::Enable(self.0),
    {
        ClockRequest::Enable(self.0)
    }

    /// Stops the clock.
    pub fn disable(&self) -> (request: ClockRequest)
        ensures
            request == ClockRequest::Disable(self.0),
    {
        ClockRequest::Disable(self.0)
    }
}

} // verus!
