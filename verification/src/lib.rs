//! Ejercicios de dominio: fechas de calendario, un servicio de streaming
//! y los datos de personas de un sistema de ventas.

pub mod fecha;
pub mod secuencias;
pub mod streaming;
pub mod ventas;
