//! Driver for the USARTs of the STM32F4xx that lets DMA streams move the data.
//!
//! The driver decides and its surroundings act: [`turn`] says how they take turns, [`usart`] is the
//! driver, and [`state`] is the state machine that its contracts speak of. The bits of the
//! registers are in [`fields`] and [`registers`], and [`layout`] has them as numbers. What each
//! call does, down to those numbers, is proved in [`behaviour`], and what holds of several calls
//! together in [`events`], [`runs`], [`transfers`] and [`consistency`].
// Some imports serve specifications only.
#![allow(unused_imports)]

pub mod behaviour;
pub mod consistency;
pub mod events;
pub mod fields;
pub mod layout;
pub mod platform;
pub mod rcc;
pub mod registers;
pub mod runs;
pub mod state;
pub mod transfers;
pub mod turn;
pub mod uart;
pub mod usart;
