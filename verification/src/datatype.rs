pub mod pointer;
pub mod string;
