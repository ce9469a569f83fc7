//! Real-time scaffolding for Manchester-coded infrared datagrams on a
//! microcontroller board: a fixed-period timer ticks, and on every tick one
//! sample is taken from an input line or one level is driven onto an emitter.
//!
//! * [`slot`]: the single-item container through which the main context hands
//!   peripherals and jobs to the tick handler.
//! * [`clock`]: the period of the sampling clock and its pending flag.
//! * [`codec`]: what the pipelines assume of the `manchester_code` crate.
//! * [`receive`]: one sample per tick into the decoder, and the length filter
//!   on what it completes.
//! * [`transmit`]: the transmit job, the slot that holds at most one, and the
//!   tick that drives the emitter and retires the job.
//! * [`lcd`]: command encoding for the RGB-backlight character display.
//!
//! Nothing here touches hardware. The tick handlers take the peripheral
//! operations as closures, and the display driver hands back the bus steps to
//! carry out; the firmware supplies the peripherals, the critical sections
//! and the log.

pub mod clock;
pub mod codec;
pub mod lcd;
pub mod receive;
pub mod slot;
pub mod transmit;
