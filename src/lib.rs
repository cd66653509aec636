//! Scheduling and actuation core for motorised window blinds: a daily
//! schedule with one alarm per direction, a serialised coordinator that turns
//! movement requests into actuator steps, and the events that a display shows.

pub mod time_of_day;
pub mod blinds;
pub mod ui;
pub mod scheduler;
pub mod coordinator;
pub mod clock;
