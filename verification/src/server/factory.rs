pub use crate::server::drivers::{DriverKind, Factory, FactoryError};
