//! A local test-case runner: it plans how a compiled solution is run against
//! a batch of input files, frames each report line in a centred banner,
//! routes captured output to the console or to indexed result files, and
//! keeps the shared job queue of the worker pool honest.

pub mod banner;
pub mod bytes;
pub mod cli;
pub mod cpp_io;
pub mod decimal;
pub mod queue;
pub mod runner;
pub mod rust_io;
pub mod template;
