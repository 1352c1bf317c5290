//! Core of an interrupt-driven LED blinker: a fixed set of prioritized tasks
//! sharing three mutable resources (LED state, tick counter, blink interval)
//! under a priority-ceiling discipline.
//!
//! - [`led`] holds the LED resource itself.
//! - [`sched`] models the static task/resource wiring and the claim primitive,
//!   and proves the priority-ceiling exclusion and preemption properties.
//! - [`system`] holds the firmware state and the two interrupt tasks: the
//!   periodic blink task and the debounce/interval-toggle task, with proofs
//!   about blink periods and interval toggling over whole interrupt sequences.
//!
//! Hardware register access (GPIO pins, the EXTI latch, the SysTick timer) is
//! left to the surrounding program: the tasks here take plain pin levels as
//! input and return the pin actions to perform.

pub mod led;
pub mod sched;
pub mod system;
