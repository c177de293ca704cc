//! Small building blocks, each with a contract that says exactly what it
//! returns: the largest element of a slice under a partial order, a screen
//! that renders its components in the order of insertion, summaries and
//! announcements, rectangles, coins, messages, decimal text, and the two
//! halves of a number-guessing round.

pub mod account;
pub mod arithmetic;
pub mod coin;
pub mod generics;
pub mod guessing;
pub mod largest;
pub mod message;
pub mod pair;
pub mod patterns;
pub mod rectangle;
pub mod screen;
pub mod summary;
pub mod text;
