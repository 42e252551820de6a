//! Button-driven LED blink controller: the delay state machine, the edge
//! handler's acknowledge-then-advance sequence, the foreground blink loop's
//! decisions and the shared peripheral registry, all as plain verified state.
pub mod controller;
pub mod registry;
pub mod speed;
