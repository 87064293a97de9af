//! One rule and one executable step per instruction, grouped by concern. Each
//! rule is a function from the state before to the state after or an error;
//! each step checks everything first and writes only when nothing can fail.

pub mod assets;
pub mod stability;
pub mod oracle;
pub mod defi;
pub mod governance;
pub mod custody;
pub mod capital;
pub mod health;
