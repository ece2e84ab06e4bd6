//! The core of a small operating system for microcontrollers, with its
//! behaviour stated in contracts and proved.
//!
//! The heart of it is the scheduler: the run queue ([`runqueue`]), the
//! thread table ([`threads`]), the scheduling decision ([`sched`]), the
//! trap layer on a model of the CPU ([`trap`], [`arch`]), the coordination
//! of two cores ([`smp`]) and the bookkeeping of stacks ([`stack`]). The
//! layers above call it through [`kernel`], where every change is followed
//! by a request for the scheduler to run. What holds of the scheduler over
//! whole histories is proved in [`laws`].
//!
//! Around it stand the parts of the system that can be stated on plain
//! values: GPIO and SPI settings, peripherals, boards, sensor protocols,
//! flash storage, a ring buffer, CoAP over a serial line, the attributes of
//! tasks and hooks, and the support matrix of the documentation.

pub mod arch;
pub mod boards;
pub mod debug;
pub mod gpio;
pub mod hook;
pub mod kernel;
pub mod laws;
pub mod matrix;
pub mod peripherals;
pub mod ringbuffer;
pub mod rp;
pub mod rt;
pub mod runqueue;
pub mod sched;
pub mod sensors;
pub mod sht3x;
pub mod slipmux;
pub mod smp;
pub mod spi;
pub mod stack;
pub mod storage;
pub mod task;
pub mod threads;
pub mod trap;
pub mod usb;
