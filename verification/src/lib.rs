//! Scheduling and bookkeeping for periodic scrubs of Linux md RAID arrays.
//!
//! The library decides *when* a scrub may start or continue (cron schedules,
//! merged per device over a global configuration), *what* has to be written
//! to an array's sysfs attributes and to its saved-position file, and how the
//! text that those files hold is read back.  Reading and writing the files,
//! the system clock and the process table are left to the caller.
pub mod text;
pub mod cron;
pub mod device;
pub mod config;
pub mod md_dev;
pub mod renice;
pub mod scrub;
pub mod ionice;
