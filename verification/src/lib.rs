//! FashionMNIST: IDX decoding, the dataset and its batches, the text that the
//! program shows, and the shape of the classifier.

pub mod data;
pub mod fetch;
pub mod menu;
pub mod model;
pub mod predict;
pub mod text;
