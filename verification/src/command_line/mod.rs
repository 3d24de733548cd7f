//! The command line of the compiler and the search for a project's files.
pub mod compiler_mode;
pub mod log_level;
pub mod options;
pub mod paths;
pub mod root_search;
pub mod source_directories;
pub mod package_details;
