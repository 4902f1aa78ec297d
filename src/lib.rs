pub mod frame;
pub mod graphics;
