pub mod args;
