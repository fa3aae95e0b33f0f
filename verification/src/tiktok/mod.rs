pub mod live;
pub mod schema;
pub mod page;
