//! The crate's common imports in one place.

pub use crate::bytewords;
pub use crate::error::Error;
pub use crate::error::Error as URError;
pub use crate::multipart_decoder::MultipartDecoder;
pub use crate::multipart_encoder::MultipartEncoder;
pub use crate::resource::UR;
pub use crate::ur_codable::URCodable;
pub use crate::ur_decodable::URDecodable;
pub use crate::ur_encodable::UREncodable;
pub use crate::ur_encodable::URTagged;
pub use crate::ur_type::URType;
