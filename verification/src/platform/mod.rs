//! Live streaming platforms.
pub mod base;
pub mod bilibili;
pub mod builtin;
pub mod douyin;
pub mod douyu;
pub mod generic;
pub mod html;
pub mod huya;
pub mod kuaishou;
pub mod room;
pub mod yy;
