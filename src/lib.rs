pub mod array;
pub mod block;
pub mod cipher;
pub mod des;
pub mod des_tables;
pub mod feistel;
pub mod interleaved;
pub mod keyed;
pub mod nodrop;
pub mod rotate;
pub mod secret;
pub mod signs;
pub mod truncate;
pub mod wrapping;
