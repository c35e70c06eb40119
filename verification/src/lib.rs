//! A small directory-listing library.
//!
//! The library turns plain directory-entry data (name, modification
//! timestamp, size, file-vs-directory flag) into display records: a
//! four-way file kind, an unpadded `"{day} {MonthName}"` date, an
//! unpadded `"{hour}:{minute}"` time, and a rendered output line.
//! Enumeration of a real directory and printing are left to the caller.

pub mod calendar;
pub mod digits;
pub mod listing;
pub mod record;
