//! Verified core of a Ruby fiber scheduler: the borrow discipline of the
//! scheduler's shared cells, the bookkeeping of blocked fibers, and the
//! decisions the scheduler takes between outside calls.
pub mod address_resolve;
pub mod blockers;
pub mod fiber;
pub mod fiber_future;
pub mod gc_cell;
pub mod interest;
pub mod io_plan;
pub mod nilable;
pub mod process_wait;
pub mod ruby_io;
pub mod scheduler;
pub mod timeout_duration;
