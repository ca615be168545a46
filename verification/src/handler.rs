pub mod exec;
