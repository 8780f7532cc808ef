//! Export of a chat service's private conversation history: the page cursor
//! that walks a user's history, the record encoder, the download plan for
//! attachments, the output layout and the choice of users to export.

pub mod model;
pub mod paths;
pub mod encode;
pub mod paging;
pub mod select;
pub mod downloads;
pub mod run;
