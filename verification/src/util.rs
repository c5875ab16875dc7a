pub mod bit_util;
pub mod byte_order;
