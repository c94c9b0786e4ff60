//! Timers that count the ticks of a tick source, and containers that accumulate
//! those counts.
//!
//! A tick source is read at two moments and the distance between the readings
//! is a [`Delta`], a count of ticks in the unit of the source. Two sources are
//! selected by a `bool` parameter of every type: with `true` the readings are
//! those of a hardware counter, a `u64` that wraps; with `false` they are those
//! of the portable monotonic clock, and the ticks are nanoseconds.
//!
//! Every operation that needs a reading comes in a form that takes the reading
//! as an argument (`start_at`, `acc_n_at`, `next_at`, ...). For the portable
//! clock there is also the form without an argument (`start`, `acc_n`, `next`,
//! ...), which reads the clock itself. A hardware counter is read outside this
//! crate, which has no instruction for it.
//!
//! The state of each container is described by a view, and each operation by a
//! function on views, so that what a sequence of operations leaves behind can
//! be computed from the readings alone.
use vstd::prelude::*;

pub mod acc_array;
pub mod acc_vec;
pub mod arch;
pub mod base;
pub mod counts;
pub mod delta;
mod sealed;
pub mod timers;
pub mod trace;
pub mod traits;
pub mod values;

pub use acc_array::{AccArray, AccArrayView};
pub use acc_vec::{AccVec, AccVecView};
pub use arch::{get_timer, Asm, TDesc, Value};
pub use base::{BaseTimer, Tick};
pub use delta::Delta;
pub use timers::{AccTimer, AccTimerView, DeltaTimer, DeltaTimerView, Timer};
pub use trace::{AccTrace, AccTraceView, Trace, TraceView};
pub use traits::{TArch, TickValue, TraceCount, TraceValue};
