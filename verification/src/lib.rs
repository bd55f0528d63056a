//! A greeter: turns a name, possibly empty, into a line of greeting.
//!
//! The greeting is a pure function of the name's characters. Its
//! mathematical model is [`greeting::greeting_for`]; the executable
//! [`greet`] is proved to compute exactly that.

pub mod greeting;

pub use greeting::greet;
