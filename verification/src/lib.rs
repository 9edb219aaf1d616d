//! Firmware logic for an STM32F103 experiment board: the register set-up of
//! each experiment, the running light of eight LEDs, and the scrolling text on
//! an eight-digit seven-segment display driven by keys and external interrupts.
//!
//! Everything here is decided from plain values; the program that drives the
//! board carries the decisions out on the hardware.
pub mod blink;
pub mod display;
pub mod exp1;
pub mod exp2;
pub mod exp3;
pub mod exp4;
pub mod register;
