use crate::action::{views, Handler, HandlerView};
use crate::cursor::{cursor_ok, cursor_view, next_cursor, step_cursor, Dir};
use crate::filter::{filtered_view, keep_marked, lemma_keep_all_marked, match_marks};
use crate::matcher::fuzzy_matches;
use crate::text::{pop_char, push_char};
use vstd::prelude::*;

verus! {

/// The picker as the contracts see it.
pub struct PickerView {
    /// The text typed so far.
    pub query: Seq<char>,
    /// Every action that can be picked, in load order.
    pub registry: Seq<HandlerView>,
    /// The actions that match the query, in registry order.
    pub filtered: Seq<HandlerView>,
    /// The highlighted position in `filtered`.
    pub cursor: Option<nat>,
}

/// The picker after the query became `q`: the list is recomputed and the
/// cursor clamped into it.
pub open spec fn after_edit(v: PickerView, q: Seq<char>) -> PickerView {
    let f = filtered_view(v.registry, q);
    PickerView { query: q, registry: v.registry, filtered: f, cursor: Some(next_cursor(v.cursor, f.len(), Dir::Same)) }
}

/// The picker after its last query character was removed; unchanged when the
/// query is empty.
pub open spec fn after_delete(v: PickerView) -> PickerView {
    if v.query.len() == 0 {
        v
    } else {
        after_edit(v, v.query.drop_last())
    }
}

/// The picker after the cursor moved in direction `dir`.
pub open spec fn after_move(v: PickerView, dir: Dir) -> PickerView {
    PickerView { cursor: Some(next_cursor(v.cursor, v.filtered.len(), dir)), ..v }
}

/// The action under the cursor, if the cursor addresses one.
pub open spec fn selection(v: PickerView) -> Option<HandlerView> {
    match v.cursor {
        Some(i) => if i < v.filtered.len() {
            Some(v.filtered[i as int])
        } else {
            None
        },
        None => None,
    }
}

/// The query, the registry, the filtered list and the selection cursor of
/// one picking session.
pub struct State {
    input: String,
    handlers: Vec<Handler>,
    filtered: Vec<Handler>,
    selected: Option<usize>,
}

impl View for State {
    type V = PickerView;

    closed spec fn view(&self) -> PickerView {
        PickerView {
            query: self.input@,
            registry: views(self.handlers@),
            filtered: views(self.filtered@),
            cursor: cursor_view(self.selected),
        }
    }
}

impl State {
    /// The filtered list is the registry narrowed by the query (all of it for
    /// an empty query), and the cursor fits it.
    pub closed spec fn wf(&self) -> bool {
        &&& self@.filtered == filtered_view(self@.registry, self@.query)
        &&& self@.query.len() == 0 ==> self@.filtered == self@.registry
        &&& cursor_ok(self@.filtered.len(), self@.cursor)
    }

    /// An empty picker: no query, no actions, no cursor.
    pub fn new() -> (r: State)
        ensures
            r.wf(),
            r@.query.len() == 0,
            r@.registry.len() == 0,
            r@.filtered.len() == 0,
            r@.cursor is None,
    {
        let r = State { input: String::new(), handlers: Vec::new(), filtered: Vec::new(), selected: None };
        assert(views(r.handlers@) =~= Seq::empty());
        assert(views(r.filtered@) =~= Seq::empty());
        r
    }

    /// Moves the cursor in direction `dir`, wrapping around at both ends; on
    /// an empty list it becomes `0`.
    pub fn move_index(&mut self, dir: Dir)
        ensures
            final(self)@ == after_move(old(self)@, dir),
            cursor_ok(final(self)@.filtered.len(), final(self)@.cursor),
            old(self).wf() ==> final(self).wf(),
    {
        let next = step_cursor(self.selected, self.filtered.len(), dir);
        self.selected = Some(next);
        proof {
            assert(views(self.filtered@).len() == self.filtered@.len());
            crate::cursor::lemma_next_cursor_in_bounds(old(self)@.cursor, self@.filtered.len(), dir);
        }
    }

    /// Shows the registry entries whose mark is set, in registry order, and
    /// clamps the cursor into the new list.
    pub fn apply_matches(&mut self, marks: &Vec<bool>)
        requires
            marks@.len() == old(self)@.registry.len(),
        ensures
            final(self)@.query == old(self)@.query,
            final(self)@.registry == old(self)@.registry,
            final(self)@.filtered == keep_marked(old(self)@.registry, marks@),
            final(self)@.cursor == Some(
                next_cursor(old(self)@.cursor, final(self)@.filtered.len(), Dir::Same),
            ),
    {
        let ghost reg = self@.registry;
        let mut kept: Vec<Handler> = Vec::new();
        let mut i: usize = 0;
        while i < self.handlers.len()
            invariant
                i <= self.handlers.len(),
                reg == views(self.handlers@),
                marks@.len() == self.handlers@.len(),
                views(kept@) == keep_marked(reg.take(i as int), marks@),
            decreases self.handlers.len() - i,
        {
            assert(reg.take(i + 1).take(i as int) =~= reg.take(i as int));
            if marks[i] {
                let h = self.handlers[i].duplicate();
                kept.push(h);
                assert(views(kept@) =~= keep_marked(reg.take(i as int), marks@).push(reg[i as int]));
            }
            i = i + 1;
        }
        assert(reg.take(i as int) =~= reg);
        self.filtered = kept;
        self.move_index(Dir::Same);
    }

    /// Recomputes the filtered list from the registry and the query, and
    /// clamps the cursor into it.
    pub fn filter(&mut self)
        ensures
            final(self).wf(),
            final(self)@ == after_edit(old(self)@, old(self)@.query),
    {
        let ghost reg = self@.registry;
        let ghost q = self@.query;
        let mut marks: Vec<bool> = Vec::new();
        let mut i: usize = 0;
        while i < self.handlers.len()
            invariant
                i <= self.handlers.len(),
                reg == views(self.handlers@),
                q == self.input@,
                marks@.len() == i,
                forall|j: int| 0 <= j < i ==> #[trigger] marks@[j] == match_marks(reg, q)[j],
                q.len() == 0 ==> forall|j: int| 0 <= j < i ==> #[trigger] marks@[j],
            decreases self.handlers.len() - i,
        {
            let m = fuzzy_matches(self.handlers[i].name.as_str(), self.input.as_str());
            marks.push(m);
            i = i + 1;
        }
        assert(marks@ =~= match_marks(reg, q));
        self.apply_matches(&marks);
        proof {
            if q.len() == 0 {
                lemma_keep_all_marked(reg, marks@);
            }
            crate::cursor::lemma_next_cursor_in_bounds(old(self)@.cursor, self@.filtered.len(), Dir::Same);
        }
    }

    /// Appends a character to the query and recomputes the filtered list.
    pub fn enter_char(&mut self, new_char: char)
        requires
            old(self).wf(),
        ensures
            final(self).wf(),
            final(self)@ == after_edit(old(self)@, old(self)@.query.push(new_char)),
    {
        push_char(&mut self.input, new_char);
        self.filter();
    }

    /// Removes the last character of the query and recomputes the filtered
    /// list; does nothing when the query is empty.
    pub fn delete_char(&mut self)
        requires
            old(self).wf(),
        ensures
            final(self).wf(),
            final(self)@ == after_delete(old(self)@),
            old(self)@.query.len() == 0 ==> final(self)@ == old(self)@,
    {
        if pop_char(&mut self.input).is_some() {
            self.filter();
        }
    }

    /// Replaces the registry with the built-in actions and recomputes the
    /// filtered list.
    pub fn load(&mut self)
        ensures
            final(self).wf(),
            final(self)@ == after_edit(
                (PickerView { registry: builtin_registry(), ..old(self)@ }),
                old(self)@.query,
            ),
    {
        let mut handlers: Vec<Handler> = Vec::new();
        let mut poweroff: Vec<String> = Vec::new();
        poweroff.push("systemctl".to_owned());
        poweroff.push("poweroff".to_owned());
        handlers.push(Handler { name: "shutdown".to_owned(), cmd: poweroff });
        let mut reboot: Vec<String> = Vec::new();
        reboot.push("systemctl".to_owned());
        reboot.push("reboot".to_owned());
        handlers.push(Handler { name: "reboot".to_owned(), cmd: reboot });
        let mut logout: Vec<String> = Vec::new();
        logout.push("hyprctl".to_owned());
        logout.push("dispatch".to_owned());
        logout.push("exit".to_owned());
        handlers.push(Handler { name: "logout".to_owned(), cmd: logout });
        self.handlers = handlers;
        proof {
            assert(handlers@[0].cmd@.map_values(|s: String| s@) =~= builtin_registry()[0].cmd);
            assert(handlers@[1].cmd@.map_values(|s: String| s@) =~= builtin_registry()[1].cmd);
            assert(handlers@[2].cmd@.map_values(|s: String| s@) =~= builtin_registry()[2].cmd);
            assert(views(self.handlers@) =~= builtin_registry());
        }
        self.filter();
    }

    /// The action under the cursor; `None` when the cursor addresses no
    /// entry, in particular when the filtered list is empty.
    pub fn confirm(&self) -> (r: Option<Handler>)
        ensures
            match r {
                Some(h) => selection(self@) == Some(h@),
                None => selection(self@) is None,
            },
            self.wf() && self@.filtered.len() > 0 ==> r is Some,
    {
        match self.selected {
            Some(i) => if i < self.filtered.len() {
                Some(self.filtered[i].duplicate())
            } else {
                None
            },
            None => None,
        }
    }

    /// The text typed so far.
    pub fn input(&self) -> (r: &str)
        ensures
            r@ == self@.query,
    {
        self.input.as_str()
    }

    /// Every action that can be picked.
    pub fn handlers(&self) -> (r: &Vec<Handler>)
        ensures
            views(r@) == self@.registry,
    {
        &self.handlers
    }

    /// The actions that match the query, in registry order.
    pub fn filtered(&self) -> (r: &Vec<Handler>)
        ensures
            views(r@) == self@.filtered,
    {
        &self.filtered
    }

    /// The highlighted position in the filtered list.
    pub fn selected(&self) -> (r: Option<usize>)
        ensures
            cursor_view(r) == self@.cursor,
    {
        self.selected
    }
}

/// In a well-formed picker an empty query shows the whole registry.
pub proof fn lemma_empty_query_shows_all(s: State)
    requires
        s.wf(),
        s@.query.len() == 0,
    ensures
        s@.filtered == s@.registry,
{
}

/// In a well-formed picker the cursor is `0` when the filtered list is empty
/// and addresses one of its entries otherwise.
pub proof fn lemma_cursor_in_bounds(s: State)
    requires
        s.wf(),
    ensures
        cursor_ok(s@.filtered.len(), s@.cursor),
{
}

/// After a query edit the cursor stays where it was if the new list still
/// reaches it, and moves to the new last entry if the list shrank below it.
pub proof fn lemma_edit_clamps_cursor(v: PickerView, q: Seq<char>, i: nat)
    requires
        v.cursor == Some(i),
    ensures
        cursor_ok(after_edit(v, q).filtered.len(), after_edit(v, q).cursor),
        i < after_edit(v, q).filtered.len() ==> after_edit(v, q).cursor == Some(i),
        0 < after_edit(v, q).filtered.len() <= i ==> after_edit(v, q).cursor == Some(
            (after_edit(v, q).filtered.len() - 1) as nat,
        ),
{
}

/// The actions a picker offers: power off, reboot, and leaving the session.
pub open spec fn builtin_registry() -> Seq<HandlerView> {
    seq![
        HandlerView { name: "shutdown"@, cmd: seq!["systemctl"@, "poweroff"@] },
        HandlerView { name: "reboot"@, cmd: seq!["systemctl"@, "reboot"@] },
        HandlerView { name: "logout"@, cmd: seq!["hyprctl"@, "dispatch"@, "exit"@] },
    ]
}

} // verus!
