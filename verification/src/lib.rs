//! The core of a client for a school portal that only serves web pages: it logs in,
//! reads the timetable, the dashboard, absence figures, assignments and grades off the
//! pages, and derives from each assignment's deadline how urgent it is.
//!
//! Nothing here touches the network. A caller fetches the page that a function of
//! [`portal`] names and hands the answer, as a [`error::PageResponse`], to the function
//! that reads it. Pages are parsed by the `scraper` crate and tooltips are matched by
//! the `regex` crate, behind the small interfaces of [`html`] and [`pattern`]; what is
//! made of their results is verified.
pub mod absence;
pub mod assignments;
pub mod auth;
pub mod dashboard;
pub mod deadline;
pub mod decimal;
pub mod directory;
pub mod error;
pub mod grades;
pub mod html;
pub mod keyed;
pub mod metrics;
pub mod pattern;
pub mod portal;
pub mod schedule;
pub mod session;
pub mod text;
