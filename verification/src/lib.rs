//! Uniform Resources ("UR"): a typed textual container format for
//! transporting structured binary records as case-insensitive URI-like
//! strings, together with a segmented transfer protocol for records too
//! large for a single string.

pub mod ascii;
pub mod bytewords;
pub mod cbor;
pub mod error;
pub mod multipart_decoder;
pub mod multipart_encoder;
pub mod prelude;
pub mod resource;
pub mod scheme;
pub mod ur_codable;
pub mod ur_decodable;
pub mod ur_encodable;
pub mod ur_type;
pub mod utils;

pub use error::Error;
pub use multipart_decoder::MultipartDecoder;
pub use multipart_encoder::MultipartEncoder;
pub use resource::UR;
pub use ur_codable::URCodable;
pub use ur_decodable::URDecodable;
pub use ur_encodable::UREncodable;
pub use ur_encodable::URTagged;
pub use ur_type::URType;
pub use utils::URTypeChar;
pub use utils::URTypeString;
