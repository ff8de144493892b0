//! Verified core of a native-extension class binding: the pure decisions and
//! computations that sit between the host engine's untyped calls and the typed
//! methods of the extension classes. The engine-facing glue (raw object
//! pointers, the C interface table, variant buffers) stays outside; this crate
//! owns the class and method metadata, the virtual-method dispatch decision,
//! the initialization-level gate, and the message formatting that the exposed
//! methods compute.

pub mod dispatch;
pub mod methods;
pub mod registry;
