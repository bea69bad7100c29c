//! Exact linear-algebra primitives: 2/3/4-component vectors and 3x3/4x4
//! row-major matrices over signed 64-bit integer components, with verified
//! contracts over an unbounded integer model.

pub mod matrix3f;
pub mod matrix4f;
pub mod scalar;
pub mod vector2f;
pub mod vector3f;
pub mod vector4f;

pub use matrix3f::Mat3;
pub use matrix3f::Matrix3f;
pub use matrix4f::Mat4;
pub use matrix4f::Matrix4f;
pub use vector2f::Vec2;
pub use vector2f::Vector2f;
pub use vector3f::Vec3;
pub use vector3f::Vector3f;
pub use vector4f::Vec4;
pub use vector4f::Vector4f;

pub use scalar::LIMIT_ADD;
pub use scalar::LIMIT_DET;
pub use scalar::LIMIT_MUL;
