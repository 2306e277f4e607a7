//! Small building blocks: a validated guess and the game around it, rectangles,
//! summaries of news items, a restaurant laid out in modules, and a few
//! functions on strings, loops, coins and lists.

pub mod guessing;
pub mod rectangles;
pub mod aggregator;
pub mod restaurant;
pub mod front_desk;
pub mod ownership;
pub mod users;
pub mod functions;
pub mod control_flow;
pub mod variables;
pub mod largest;
