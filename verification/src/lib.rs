pub mod app;
pub mod catalog;
pub mod clock;
pub mod product;
pub mod storage;
pub mod text;
