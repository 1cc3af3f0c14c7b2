//! His Master's Noise FEST modules.

pub mod load;
