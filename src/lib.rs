//! Filtering of decoded security event records by category, time window and
//! actor name.

pub mod event;
pub mod filter;
pub mod source;
pub mod time;

pub use event::{actor_matches, get_target_user_name, get_time_created, is_wanted_event_id, DataField, Event};
pub use filter::{record_matches, select_matches, ConfigError, FilterConfig, Record};
pub use source::select_source_files;
pub use time::{in_date_range, parse_date, parse_time_created, Timestamp};
