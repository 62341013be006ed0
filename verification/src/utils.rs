pub mod dataprocess;
pub mod object_utils;
pub mod pointer;
