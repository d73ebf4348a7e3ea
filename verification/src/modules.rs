pub mod auto;
pub mod general;
pub mod music;
pub mod util;
