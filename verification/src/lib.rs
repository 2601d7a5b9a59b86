mod entropy;
pub mod pointer;
pub mod transform;

pub use pointer::EncryptedPtr;
pub use transform::Transform;
