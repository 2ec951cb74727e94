//! Native-function layer of a bytecode virtual machine: the closed registry of
//! natively implemented functions, their expected signatures, their routing
//! to implementations, and the metering of their cost.

pub mod dispatch;
pub mod file_format;
pub mod gas;
pub mod module_view;
pub mod registry;
pub mod signature;
pub mod status;
pub mod text;

pub use crate::dispatch::{NativeResult, NativeRoutine};
pub use crate::gas::native_gas;
pub use crate::registry::NativeFunction;
