//! Vacation entitlements and vacation requests for an HR tool: tenure-based
//! allotments, business-day counting, the request lifecycle, the flat
//! key-value encoding of records, and the authentication gate.

pub mod auth;
pub mod config;
pub mod empleado;
pub mod error;
pub mod fecha;
pub mod registro;
pub mod servicio;
pub mod sesion;
pub mod solicitud;
pub mod texto;
