//! Package operations for a software center: the process supervisors that run
//! the package manager's profile commands, and the busy bookkeeping that keeps
//! two operations on one package from running at once.

pub mod work;
pub mod command;
pub mod installworker;
pub mod updateworker;
pub mod busy;
