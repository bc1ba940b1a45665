pub mod create_collection;
pub mod creator;
pub mod dispatch;
pub mod mint;
