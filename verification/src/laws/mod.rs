//! What the workflows do from their first event to their last, and what the texts and paths that
//! they work with look like.
pub mod agent;
pub mod command;
pub mod convert;
pub mod copy;
pub mod ends;
pub mod engine;
pub mod fixed;
pub mod image;
pub mod key;
pub mod layer;
pub mod measure;
pub mod paths;
pub mod privileges;
pub mod release;
pub mod script;
pub mod slice;
pub mod storage;
pub mod unexpected;
pub mod words;
