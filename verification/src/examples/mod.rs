//! Example services: their messages, the traits their providers implement,
//! the registrants that link method names to methods, and the stubs that
//! call them.

pub mod benchmark;
pub mod demo;
pub mod echo;
pub mod hello;
pub mod messages;
pub mod providers;
