//! Clipboard text classification and a registry of stateless text tools.
//!
//! [`detector::detect`] guesses which tool a piece of text calls for;
//! [`dispatch::execute_tool`] resolves a tool identifier and runs the tool.
//! Every tool implements [`tools::Tool`] and reports failure as data.

pub mod codec;
pub mod detector;
pub mod dispatch;
pub mod text;
pub mod tools;
pub mod update;
