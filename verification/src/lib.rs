//! Decoder for MPEG Transport Stream packets and the PSI sections they carry.
//!
//! Every structure is an ephemeral, read-only view over caller-supplied
//! bytes: the 188-byte packet header, the variable-length adaptation field,
//! the generic PSI section header, and the Program Association Table.

pub mod adaptation;
pub mod error;
pub mod packet;
pub mod pat;
pub mod section;

pub use adaptation::AdaptationFiled;
pub use error::FormatError;
pub use packet::AdaptationFieldControl;
pub use packet::Packet;
pub use packet::TransportScramblingControl;
pub use pat::PatTable;
pub use pat::ProgramEntry;
pub use section::Section;
