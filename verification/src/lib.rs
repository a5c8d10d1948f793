//! Decision core of the Guardian remote-assistance agent.
//!
//! What the agent decides and computes lives here and is verified, on top of the
//! outside calls that `codificacion` and `json` trust. The sockets, windows,
//! processes and devices around it belong to the program, and so do the two
//! positions on the screen that take floating point.

pub mod alertas;
pub mod captura;
pub mod codificacion;
pub mod descarga;
pub mod entrada;
pub mod estado;
pub mod json;
pub mod pantallas;
pub mod rtp;
pub mod sesion;
pub mod texto;
pub mod tunel;
pub mod video;
