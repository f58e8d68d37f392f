use vstd::prelude::*;

pub mod extract;
pub mod float;
pub mod framework;
pub mod html;
pub mod info;
pub mod json;
pub mod laws;
pub mod jsontext;
pub mod media_types;
pub mod number;
pub mod page;
pub mod pattern;
pub mod sites;
pub mod text;
pub mod timestamp;
pub mod weburl;
pub mod xml;
