pub mod goods;
pub mod labels;
pub mod market;
pub mod table;
pub mod window;
