//! Feed synchronisation and fan-out for course-announcement feeds: which
//! announcements are new since a feed's checkpoint, how checkpoints advance,
//! which channels receive what, and how channels subscribe.

pub mod canvas;
pub mod db;
pub mod error;
pub mod rfc3339_time;
pub mod subscribe;
pub mod sync;

pub use canvas::{Announcement, Author, Content, Feed, Link};
pub use db::{
    Channel, DbBackupFeed, DbFeed, NewBackupFeed, NewFeed, NewSubsription, Store, Subscription,
};
pub use error::{DbError, FeedError, MyError};
pub use rfc3339_time::Timestamp;
pub use subscribe::SubscribeResponse;
pub use sync::{confirm_write, fan_out, FeedBatch, Listing, SyncOutcome};
