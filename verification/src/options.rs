//! Options for spawning a coroutine.

use vstd::prelude::*;

verus! {

/// The stack size of a coroutine spawned without options: 128 KiB.
pub const DEFAULT_STACK_SIZE: usize = 131072;

/// What a spawner may choose for a new coroutine.
#[derive(Debug)]
pub struct Options {
    /// Size of the coroutine's stack, in bytes.
    pub stack_size: usize,
    /// A name for diagnostics.
    pub name: Option<String>,
}

impl Options {
    /// The default options: a stack of `DEFAULT_STACK_SIZE` bytes and no name.
    pub fn new() -> (o: Options)
        ensures
            o.stack_size == DEFAULT_STACK_SIZE,
            o.name is None,
    {
        Options { stack_size: DEFAULT_STACK_SIZE, name: None }
    }

    /// The same options with another stack size.
    pub fn stack_size(self, size: usize) -> (o: Options)
        ensures
            o.stack_size == size,
            o.name == self.name,
    {
        Options { stack_size: size, name: self.name }
    }

    /// The same options with another name, or with none.
    pub fn name(self, name: Option<String>) -> (o: Options)
        ensures
            o.stack_size == self.stack_size,
            o.name == name,
    {
        Options { stack_size: self.stack_size, name }
    }
}

impl Default for Options {
    fn default() -> (o: Options)
        ensures
            o.stack_size == DEFAULT_STACK_SIZE,
            o.name is None,
    {
        Options::new()
    }
}

} // verus!
