pub mod error;
pub mod text;
pub mod order;
pub mod time;
pub mod memo;
pub mod schedule;
pub mod recurrence;
pub mod memo_reminder;
pub mod today;
pub mod calendar;
pub mod focus;
pub mod notification;
pub mod task;
pub mod task_query;
pub mod project;
pub mod database;
pub mod planning;
pub mod memo_store;
pub mod backup;
