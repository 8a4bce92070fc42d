pub mod classify;
pub mod probe;
pub mod record;
pub mod run;
