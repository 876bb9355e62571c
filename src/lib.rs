//! Translation of a traditional "run as another user" command line into an
//! invocation of a different privilege-elevation command.

mod text;
pub mod decimal;
pub mod request;
pub mod quoting;
pub mod shell;
pub mod invocation;
pub mod split;
