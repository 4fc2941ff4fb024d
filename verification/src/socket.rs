//! Frames travel from the caster to its receivers as UDP datagrams: the
//! serialized frame is cut into chunks, each sent behind a header that
//! carries its index and the number of chunks; receivers collect the
//! chunks and join them again.

pub mod codec;
pub mod packet;
pub mod stream;
pub mod viewers;
pub mod address;
