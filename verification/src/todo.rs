//! A todo list in the reducer style: a store owns the list and folds actions
//! into it with a pure step function.
//!
//! Item identifiers are handed out by the store itself, starting at 1 and
//! wrapping at the `usize` boundary; `Toggle` flips the first item with a
//! matching identifier, `Remove` drops every item with a matching identifier.

use crate::flux::{Action, FluxStore};
use vstd::prelude::*;
use vstd::std_specs::vec::vec_index_mut;

verus! {

/// One entry of the todo list.
#[derive(Debug, PartialEq, Eq)]
pub struct Todo {
    /// The identifier the store assigned when the entry was added.
    pub id: usize,
    /// What there is to do.
    pub text: String,
    /// Whether it has been done.
    pub completed: bool,
}

impl Clone for Todo {
    /// An exact copy: the clone is equal to the original.
    fn clone(&self) -> (r: Self)
        ensures
            r == *self,
    {
        Todo { id: self.id, text: self.text.clone(), completed: self.completed }
    }
}

/// An action the todo store understands.
#[derive(Debug, PartialEq, Eq)]
pub enum TodoAction {
    /// Append a new, uncompleted entry with the next free identifier.
    Add { text: String },
    /// Flip the completion flag of the first entry with this identifier.
    Toggle { id: usize },
    /// Drop every entry with this identifier.
    Remove { id: usize },
    /// Drop every entry.
    Clear,
}

impl Clone for TodoAction {
    /// An exact copy: the clone is equal to the original.
    fn clone(&self) -> (r: Self)
        ensures
            r == *self,
    {
        match self {
            TodoAction::Add { text } => TodoAction::Add { text: text.clone() },
            TodoAction::Toggle { id } => TodoAction::Toggle { id: *id },
            TodoAction::Remove { id } => TodoAction::Remove { id: *id },
            TodoAction::Clear => TodoAction::Clear,
        }
    }
}

impl Action for TodoAction {
    open spec fn spec_action_type(&self) -> Seq<char> {
        "TodoAction"@
    }

    fn action_type(&self) -> (r: &'static str)
        ensures
            r@ == self.spec_action_type(),
    {
        "TodoAction"
    }
}

/// The state a todo store owns and exposes: the entries plus the identifier
/// the next added entry will receive.
#[derive(Debug, PartialEq, Eq)]
pub struct TodoState {
    /// The entries, oldest first.
    pub todos: Vec<Todo>,
    /// The identifier the next `Add` will assign.
    pub next_id: usize,
}

/// The mathematical value of a [`TodoState`]: the entries as a sequence.
#[verifier::ext_equal]
pub ghost struct TodoStateView {
    /// The entries, oldest first.
    pub todos: Seq<Todo>,
    /// The identifier the next `Add` will assign.
    pub next_id: usize,
}

impl View for TodoState {
    type V = TodoStateView;

    open spec fn view(&self) -> TodoStateView {
        TodoStateView { todos: self.todos@, next_id: self.next_id }
    }
}

/// The next identifier after `n`, wrapping at the `usize` boundary.
pub open spec fn next_id_step(n: usize) -> usize {
    if n == usize::MAX {
        0
    } else {
        (n + 1) as usize
    }
}

/// The entry with its completion flag flipped.
pub open spec fn todo_flipped(t: Todo) -> Todo {
    Todo { id: t.id, text: t.text, completed: !t.completed }
}

/// The list with the first entry of identifier `id` flipped, and nothing else
/// changed; the list itself where no entry matches.
pub open spec fn todos_toggle_first(todos: Seq<Todo>, id: usize) -> Seq<Todo>
    decreases todos.len(),
{
    if todos.len() == 0 {
        todos
    } else if todos[0].id == id {
        seq![todo_flipped(todos[0])] + todos.drop_first()
    } else {
        seq![todos[0]] + todos_toggle_first(todos.drop_first(), id)
    }
}

/// The state after one action.
pub open spec fn todo_step(s: TodoStateView, a: TodoAction) -> TodoStateView {
    match a {
        TodoAction::Add { text } => TodoStateView {
            todos: s.todos.push(Todo { id: s.next_id, text: text, completed: false }),
            next_id: next_id_step(s.next_id),
        },
        TodoAction::Toggle { id } => TodoStateView {
            todos: todos_toggle_first(s.todos, id),
            next_id: s.next_id,
        },
        TodoAction::Remove { id } => TodoStateView {
            todos: s.todos.filter(|t: Todo| t.id != id),
            next_id: s.next_id,
        },
        TodoAction::Clear => TodoStateView { todos: Seq::empty(), next_id: s.next_id },
    }
}

/// The state after a whole sequence of actions, first action first: the
/// reference fold against which dispatch paths are measured.
pub open spec fn todo_run(s: TodoStateView, actions: Seq<TodoAction>) -> TodoStateView
    decreases actions.len(),
{
    if actions.len() == 0 {
        s
    } else {
        todo_run(todo_step(s, actions[0]), actions.drop_first())
    }
}

/// Where the first entry of identifier `id` stands at position `i`, the
/// toggled list is the list with exactly that position flipped.
proof fn lemma_toggle_first_at(todos: Seq<Todo>, id: usize, i: int)
    requires
        0 <= i < todos.len(),
        todos[i].id == id,
        forall|j: int| 0 <= j < i ==> todos[j].id != id,
    ensures
        todos_toggle_first(todos, id) =~= todos.update(i, todo_flipped(todos[i])),
    decreases i,
{
    if i == 0 {
        assert(seq![todo_flipped(todos[0])] + todos.drop_first() =~= todos.update(
            0,
            todo_flipped(todos[0]),
        ));
    } else {
        lemma_toggle_first_at(todos.drop_first(), id, i - 1);
    }
}

/// Where no entry matches `id`, toggling changes nothing.
proof fn lemma_toggle_first_absent(todos: Seq<Todo>, id: usize)
    requires
        forall|j: int| 0 <= j < todos.len() ==> todos[j].id != id,
    ensures
        todos_toggle_first(todos, id) =~= todos,
    decreases todos.len(),
{
    if todos.len() > 0 {
        lemma_toggle_first_absent(todos.drop_first(), id);
    }
}

/// The store of the reducer discipline: it owns a [`TodoState`] and changes
/// it only by reducing actions into it.
#[derive(Debug, PartialEq, Eq)]
pub struct TodoStore {
    /// The owned state.
    pub state: TodoState,
}

impl View for TodoStore {
    type V = TodoStateView;

    open spec fn view(&self) -> TodoStateView {
        self.state@
    }
}

impl Clone for TodoState {
    /// A copy with the same mathematical value.
    fn clone(&self) -> (r: Self)
        ensures
            r@ == self@,
    {
        let n = self.todos.len();
        let mut todos: Vec<Todo> = Vec::new();
        let mut i: usize = 0;
        while i < n
            invariant
                i <= n,
                n == self.todos@.len(),
                todos@ =~= self.todos@.take(i as int),
            decreases n - i,
        {
            todos.push(self.todos[i].clone());
            i = i + 1;
        }
        proof {
            assert(self.todos@.take(n as int) =~= self.todos@);
        }
        TodoState { todos, next_id: self.next_id }
    }
}

impl FluxStore for TodoStore {
    type State = TodoState;

    type Action = TodoAction;

    open spec fn state_matches(&self, s: &TodoState) -> bool {
        s@ == self@
    }

    open spec fn reduces_to(pre: Self, a: &TodoAction, post: Self) -> bool {
        post@ == todo_step(pre@, *a)
    }

    /// A snapshot of the current state: an owned copy with the same value.
    fn state(&self) -> (s: TodoState)
        ensures
            self.state_matches(&s),
            s@ == self@,
    {
        self.state.clone()
    }

    /// Folds one action into the state.
    fn reduce(&mut self, action: &TodoAction)
        ensures
            Self::reduces_to(*old(self), action, *final(self)),
            final(self)@ == todo_step(old(self)@, *action),
    {
        match action {
            TodoAction::Add { text } => {
                let id = self.state.next_id;
                self.state.todos.push(Todo { id, text: text.clone(), completed: false });
                self.state.next_id = if self.state.next_id == usize::MAX {
                    0
                } else {
                    self.state.next_id + 1
                };
                proof {
                    assert(self@ =~= todo_step(old(self)@, *action));
                }
            }
            TodoAction::Toggle { id } => {
                let id = *id;
                let n = self.state.todos.len();
                let mut i: usize = 0;
                let ghost todos0 = self.state.todos@;
                while i < n
                    invariant
                        i <= n,
                        n == self.state.todos@.len(),
                        self.state.todos@ == todos0,
                        todos0 == old(self).state.todos@,
                        self.state.next_id == old(self).state.next_id,
                        *action == (TodoAction::Toggle { id }),
                        forall|j: int| 0 <= j < i ==> todos0[j].id != id,
                    decreases n - i,
                {
                    if self.state.todos[i].id == id {
                        let flipped = {
                            let t = &self.state.todos[i];
                            Todo { id: t.id, text: t.text.clone(), completed: !t.completed }
                        };
                        *vec_index_mut(&mut self.state.todos, i) = flipped;
                        proof {
                            lemma_toggle_first_at(todos0, id, i as int);
                            assert(self@ =~= todo_step(old(self)@, *action));
                        }
                        return ;
                    }
                    i = i + 1;
                }
                proof {
                    lemma_toggle_first_absent(todos0, id);
                    assert(self@ =~= todo_step(old(self)@, *action));
                }
            }
            TodoAction::Remove { id } => {
                let id = *id;
                let n = self.state.todos.len();
                let mut kept: Vec<Todo> = Vec::new();
                let mut i: usize = 0;
                let ghost pred = |t: Todo| t.id != id;
                while i < n
                    invariant
                        i <= n,
                        n == self.state.todos@.len(),
                        self.state.todos@ == old(self).state.todos@,
                        kept@ == self.state.todos@.take(i as int).filter(pred),
                        pred == (|t: Todo| t.id != id),
                    decreases n - i,
                {
                    let ghost prefix = self.state.todos@.take(i as int);
                    let ghost prefix1 = self.state.todos@.take(i as int + 1);
                    let t = &self.state.todos[i];
                    if t.id != id {
                        kept.push(t.clone());
                    }
                    proof {
                        reveal(Seq::filter);
                        assert(prefix1.drop_last() =~= prefix);
                        assert(prefix1.last() == self.state.todos@[i as int]);
                        assert(kept@ == prefix1.filter(pred));
                    }
                    i = i + 1;
                }
                proof {
                    assert(self.state.todos@.take(n as int) =~= self.state.todos@);
                }
                self.state.todos = kept;
                proof {
                    assert(self@ =~= todo_step(old(self)@, *action));
                }
            }
            TodoAction::Clear => {
                self.state.todos.clear();
                proof {
                    assert(self@ =~= todo_step(old(self)@, *action));
                }
            }
        }
    }
}

impl TodoStore {
    /// A store with no entries, handing out identifiers from 1.
    pub fn new() -> (r: Self)
        ensures
            r@ == (TodoStateView { todos: Seq::<Todo>::empty(), next_id: 1 }),
    {
        let state = TodoState { todos: Vec::new(), next_id: 1 };
        proof {
            assert(state@ =~= TodoStateView { todos: Seq::<Todo>::empty(), next_id: 1 });
        }
        TodoStore { state }
    }

    /// Folds a whole sequence of actions into the state, first element
    /// first: the reference implementation of replaying an action history.
    pub fn reduce_all(&mut self, actions: &Vec<TodoAction>)
        ensures
            final(self)@ == todo_run(old(self)@, actions@),
    {
        let n = actions.len();
        let mut i: usize = 0;
        proof {
            assert(actions@.skip(0) =~= actions@);
        }
        while i < n
            invariant
                i <= n,
                n == actions@.len(),
                todo_run(self@, actions@.skip(i as int)) == todo_run(old(self)@, actions@),
            decreases n - i,
        {
            proof {
                assert(actions@.skip(i as int).drop_first() =~= actions@.skip(i as int + 1));
            }
            self.reduce(&actions[i]);
            i = i + 1;
        }
        proof {
            assert(actions@.skip(n as int) =~= Seq::<TodoAction>::empty());
        }
    }
}

} // verus!
