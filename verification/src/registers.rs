//! Register codecs of the chips behind the bus: pure bit-level encoding
//! and decoding, with the bus transfers themselves left to the arbiter
//! and its caller.

pub mod ads1115;
pub mod ads1119;
pub mod ds3231m;
pub mod fm24cl16b;
pub mod max31855;
pub mod pca9544a;
pub mod tca9534;
