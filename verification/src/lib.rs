//! Developer tools with verified logic: a JSON reader, navigator and
//! printer; command-line parsing and help text; typed HTML building and
//! rendering.
pub mod json_viewer;
pub mod json_parse;
pub mod json_laws;
pub mod json_shape;
pub mod json_ws;
pub mod json_format;
pub mod text;
pub mod sections;
pub mod toolbox;
pub mod cli;
pub mod installer;
pub mod html_attributes;
pub mod html_elements;
pub mod html_render;
