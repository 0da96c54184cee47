use vstd::prelude::*;

verus! {

/// The commands that services and providers send one another.
#[derive(Debug)]
pub enum Command {
    Join(String),
    Part(String),
    Ping(String),
    Pong(String),
}

} // verus!
