//! Streaming parser for MOL V2000 records, standalone or concatenated in an
//! SD file. Each pull of the reader yields one parsed record, a structured
//! error for a corrupt record, or the end of the stream; after an error the
//! reader resynchronizes on the next `"$$$$"` delimiter line so that one bad
//! record does not spoil the rest of the stream.

pub mod data;
pub mod elements;
pub mod error;
pub mod float_text;
pub mod laws;
pub mod model;
pub mod numbers;
pub mod reader;
pub mod text;

pub use data::AromaticBonds;
pub use data::Bonds;
pub use data::CoordinateText;
pub use data::MolFileV2000Data;
pub use data::Molecule;
pub use data::Property;
pub use elements::atomic_number_from_str;
pub use error::Error;
pub use reader::ReadMolFileV2000;
pub use reader::SourceLine;
