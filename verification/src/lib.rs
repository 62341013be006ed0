pub mod assoc;
pub mod datatype;
pub mod define;
pub mod library;
pub mod text;
pub mod utils;
