pub mod async_tasks;
pub mod env;
