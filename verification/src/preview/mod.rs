//! Preview logic: which preview a file gets and its highlighted lines,
//! in-file search, line scanning and indexing, the windowed reader's line
//! assembly, the preview held in memory, image facts, decoding and the image
//! view, the fuzzy line filter, and the spans a line is drawn with.
pub mod decode;
pub mod filter;
pub mod highlight;
pub mod image_facts;
pub mod index;
pub mod loaded;
pub mod search;
pub mod spans;
pub mod walk;
pub mod window;
