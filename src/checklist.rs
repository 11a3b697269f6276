use vstd::prelude::*;
use vstd::string::*;
use crate::text::{decimal, decimal_of, push_char, remove_json, without_json};

verus! {

/// One entry of a checklist.
pub struct Todo {
    pub id: i16,
    pub item: String,
    pub priority: i8,
    pub tags: Vec<String>,
    pub done: bool,
}

impl Todo {
    /// Flips the completion flag and leaves everything else as it was.
    pub fn toggle(&mut self)
        ensures
            final(self).done == !old(self).done,
            final(self).id == old(self).id,
            final(self).item == old(self).item,
            final(self).priority == old(self).priority,
            final(self).tags == old(self).tags,
    {
        self.done = !self.done;
    }
}

/// A named, ordered checklist. The order is the display order.
pub struct TodoList {
    pub name: String,
    pub todos: Vec<Todo>,
}

/// Number of entries of `s` that are marked done.
pub open spec fn done_count(s: Seq<Todo>) -> nat
    decreases s.len(),
{
    if s.len() == 0 {
        0
    } else {
        done_count(s.drop_last()) + if s.last().done {
            1nat
        } else {
            0nat
        }
    }
}

pub proof fn lemma_done_count_bounded(s: Seq<Todo>)
    ensures
        done_count(s) <= s.len(),
    decreases s.len(),
{
    if s.len() > 0 {
        lemma_done_count_bounded(s.drop_last());
    }
}

impl TodoList {
    /// An empty list with the given name.
    pub fn new(name: String) -> (r: TodoList)
        ensures
            r.name == name,
            r.todos@.len() == 0,
    {
        TodoList { name, todos: Vec::new() }
    }

    /// How many entries are marked done.
    pub fn completed(&self) -> (r: usize)
        ensures
            r == done_count(self.todos@),
    {
        let mut count: usize = 0;
        let mut i: usize = 0;
        while i < self.todos.len()
            invariant
                i <= self.todos@.len(),
                count == done_count(self.todos@.take(i as int)),
            decreases self.todos@.len() - i,
        {
            proof {
                assert(self.todos@.take(i + 1).drop_last() =~= self.todos@.take(i as int));
                lemma_done_count_bounded(self.todos@.take(i as int));
            }
            if self.todos[i].done {
                count = count + 1;
            }
            i = i + 1;
        }
        assert(self.todos@.take(i as int) =~= self.todos@);
        count
    }

    /// How many entries the list holds.
    pub fn total(&self) -> (r: usize)
        ensures
            r == self.todos@.len(),
    {
        self.todos.len()
    }
}

/// The largest identifier in `s`, or 0 when every identifier is below 0.
pub open spec fn max_id(s: Seq<Todo>) -> int
    decreases s.len(),
{
    if s.len() == 0 {
        0
    } else if s.last().id > max_id(s.drop_last()) {
        s.last().id as int
    } else {
        max_id(s.drop_last())
    }
}

/// The identifier given to a new entry: one past the largest in use, held at
/// the largest value an identifier can take.
pub open spec fn fresh_id(s: Seq<Todo>) -> i16 {
    if max_id(s) < 32767 {
        (max_id(s) + 1) as i16
    } else {
        32767
    }
}

impl TodoList {
    /// An identifier for a new entry, above every identifier in the list.
    pub fn next_id(&self) -> (r: i16)
        ensures
            r == fresh_id(self.todos@),
    {
        let mut max: i16 = 0;
        let mut i: usize = 0;
        while i < self.todos.len()
            invariant
                i <= self.todos@.len(),
                max == max_id(self.todos@.take(i as int)),
            decreases self.todos@.len() - i,
        {
            proof {
                assert(self.todos@.take(i + 1).drop_last() =~= self.todos@.take(i as int));
            }
            if self.todos[i].id > max {
                max = self.todos[i].id;
            }
            i = i + 1;
        }
        assert(self.todos@.take(i as int) =~= self.todos@);
        if max < 32767 {
            max + 1
        } else {
            32767
        }
    }
}

/// Done entries, `/`, all entries: the completion counter of a list.
pub open spec fn counter_text(todos: Seq<Todo>) -> Seq<char> {
    decimal_of(done_count(todos)) + seq!['/'] + decimal_of(todos.len())
}

/// Where the list named `name` is stored under `dir`.
pub open spec fn record_path(dir: Seq<char>, name: Seq<char>) -> Seq<char> {
    dir + seq!['/'] + name + ".json"@
}

impl TodoList {
    /// The completion counter, such as `2/5`.
    pub fn counter(&self) -> (r: String)
        ensures
            r@ == counter_text(self.todos@),
    {
        proof {
            lemma_done_count_bounded(self.todos@);
        }
        let mut out = decimal(self.completed());
        push_char(&mut out, '/');
        out.append(decimal(self.total()).as_str());
        out
    }

    /// The line that describes the list in an overview: its name and counter.
    pub fn summary(&self) -> (r: String)
        ensures
            r@ == self.name@ + ": "@ + counter_text(self.todos@),
    {
        let mut out = self.name.clone();
        out.append(": ");
        out.append(self.counter().as_str());
        out
    }

    /// The file this list is stored in, under the directory `dir_path`.
    pub fn path_in(&self, dir_path: &str) -> (r: String)
        ensures
            r@ == record_path(dir_path@, self.name@),
    {
        list_path(dir_path, self.name.as_str())
    }
}

/// The file of the list named `name` under `dir`.
pub fn list_path(dir: &str, name: &str) -> (r: String)
    ensures
        r@ == record_path(dir@, name@),
{
    let mut out = String::from_str(dir);
    push_char(&mut out, '/');
    out.append(name);
    out.append(".json");
    out
}

/// The file to open for a list asked for by `name`, which may carry the
/// `.json` ending of its file.
pub fn stored_list_path(dir: &str, name: &str) -> (r: String)
    ensures
        r@ == record_path(dir@, without_json(name@)),
{
    let bare = remove_json(name);
    list_path(dir, bare.as_str())
}

} // verus!
