//! The data-access layer.

pub mod bindable;
pub mod calendar;
pub mod config;
pub mod crud;
pub mod entity;
pub mod migration;
pub mod model;
pub mod repository;
pub mod row;
pub mod schema;
pub mod sql;
pub mod statement;

pub use bindable::{Bindable, CloneableBindable, Value};
pub use calendar::CalendarDate;
pub use config::{DatabaseConfig, PostgresConfig, SqliteConfig};
pub use crud::CRUD;
pub use entity::Entity;
pub use migration::MigrationManager;
pub use repository::Repository;
pub use row::{Cell, DecodeError, Row};
pub use statement::{Param, Statement};
