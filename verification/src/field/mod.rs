pub mod ip;

pub use ip::Ip;
