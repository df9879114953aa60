mod matrix;
mod scalar;

pub use matrix::add_model;
pub use matrix::dot_prefix;
pub use matrix::lemma_multiply_shape_associative;
pub use matrix::mul_model;
pub use matrix::sub_model;
pub use matrix::Matrix;
pub use matrix::MatrixError;
pub use matrix::MatrixModel;
pub use scalar::add_bits;
pub use scalar::mul_bits;
pub use scalar::sub_bits;
