pub mod central;
pub mod codec;
pub mod delay;
pub mod lookup;
pub mod peripheral;
pub mod protocol;
