pub mod ip;
pub mod testing;
pub mod time;
pub mod unpack;
pub mod win;
