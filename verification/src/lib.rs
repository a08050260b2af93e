//! Decoder for a block-structured packet-capture container format.
//!
//! A capture file is an ordered sequence of variable-length blocks.  The
//! first block declares the file's byte order through a magic value and
//! carries a list of descriptive options.  Every length field in the input
//! is untrusted, so each component validates bounds before any byte access:
//!
//! * [`reader`] — bounds-checked extraction of fixed-width integers,
//!   parameterized by byte order;
//! * [`framer`] — validation and delimitation of one generic block
//!   (type, leading length, body, trailing length repeat);
//! * [`section`] — interpretation of a Section Header Block body
//!   (byte-order magic, version, section length, options region);
//! * [`options`] — the type-length-value option list embedded in a
//!   Section Header Block body.

pub mod error;
pub mod framer;
pub mod options;
pub mod reader;
pub mod section;

pub use error::ErrorKind;
pub use framer::Block;
pub use options::OptionRecord;
pub use reader::ByteOrder;
pub use section::SectionHeaderBlock;
