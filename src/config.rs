//! The snake's identity and looks, as reported to the game engine.
use vstd::prelude::*;

verus! {

/// API version, author, colour, head and tail skins, and version of the
/// snake.
#[derive(Debug, Clone, Copy)]
pub struct SnakeConfig {
    pub apiversion: &'static str,
    pub author: &'static str,
    pub color: &'static str,
    pub head: &'static str,
    pub tail: &'static str,
    pub version: &'static str,
}

/// The text of each field of a `SnakeConfig`, in declaration order.
pub struct SnakeConfigView {
    pub apiversion: Seq<char>,
    pub author: Seq<char>,
    pub color: Seq<char>,
    pub head: Seq<char>,
    pub tail: Seq<char>,
    pub version: Seq<char>,
}

impl View for SnakeConfig {
    type V = SnakeConfigView;

    open spec fn view(&self) -> SnakeConfigView {
        SnakeConfigView {
            apiversion: self.apiversion@,
            author: self.author@,
            color: self.color@,
            head: self.head@,
            tail: self.tail@,
            version: self.version@,
        }
    }
}

/// The one description this snake gives of itself.
pub open spec fn agent_record() -> SnakeConfigView {
    SnakeConfigView {
        apiversion: "1"@,
        author: "dvalinn"@,
        color: "#00E6BF"@,
        head: "default"@,
        tail: "default"@,
        version: "0.0.1-alpha.0"@,
    }
}

/// Describes the snake; the same record on every call.
pub fn describe_agent() -> (r: SnakeConfig)
    ensures
        r@ == agent_record(),
{
    SnakeConfig {
        apiversion: "1",
        author: "dvalinn",
        color: "#00E6BF",
        head: "default",
        tail: "default",
        version: "0.0.1-alpha.0",
    }
}

impl Default for SnakeConfig {
    fn default() -> (r: SnakeConfig)
        ensures
            r@ == agent_record(),
    {
        describe_agent()
    }
}

} // verus!
