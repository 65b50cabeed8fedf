//! Create files and set their access and modification times.
//!
//! The library resolves one pair of times per run, validates each file name,
//! and drives each file through delete, create or update as a state machine
//! whose actions a driver performs on the file system.

pub mod error;
pub mod gate;
pub mod names;
pub mod session;
pub mod times;

pub use error::{Error, IoFailure};
pub use gate::{delete_file, file_exists};
pub use names::{file_name_is_legal, file_name_is_legal_on, host_family, Family};
pub use session::{time_writes, Action, OperationFlags, Phase, Poke, Session};
pub use times::{
    current_pair, get_file_times, is_parsable, pair_from_date, parse_date, resolve_date, resolve_now, FileStamp,
    TimestampPair, TimestampSource,
};
