use vstd::prelude::*;

verus! {

/// What an action is, as the contracts see it: its display name and the
/// program with its arguments.
pub struct HandlerView {
    pub name: Seq<char>,
    pub cmd: Seq<Seq<char>>,
}

/// A selectable action: a name to match against, and the command that runs it
/// (the executable followed by its arguments).
#[derive(Clone, Debug)]
pub struct Handler {
    pub name: String,
    pub cmd: Vec<String>,
}

impl View for Handler {
    type V = HandlerView;

    open spec fn view(&self) -> HandlerView {
        HandlerView { name: self.name@, cmd: self.cmd@.map_values(|s: String| s@) }
    }
}

/// The views of a sequence of actions, position by position.
pub open spec fn views(hs: Seq<Handler>) -> Seq<HandlerView> {
    hs.map_values(|h: Handler| h@)
}

impl Handler {
    /// Builds an action from its name and command.
    pub fn new(name: String, cmd: Vec<String>) -> (r: Handler)
        ensures
            r.name == name,
            r.cmd == cmd,
    {
        Handler { name, cmd }
    }

    /// A copy of this action with the same name and command.
    pub fn duplicate(&self) -> (r: Handler)
        ensures
            r@ == self@,
    {
        let mut cmd: Vec<String> = Vec::new();
        let mut i: usize = 0;
        while i < self.cmd.len()
            invariant
                i <= self.cmd.len(),
                cmd@.len() == i,
                forall|j: int| 0 <= j < i ==> #[trigger] cmd@[j]@ == self.cmd@[j]@,
            decreases self.cmd.len() - i,
        {
            cmd.push(self.cmd[i].clone());
            i = i + 1;
        }
        let r = Handler { name: self.name.clone(), cmd };
        assert(r.cmd@.map_values(|s: String| s@) =~= self.cmd@.map_values(|s: String| s@));
        r
    }
}

} // verus!
