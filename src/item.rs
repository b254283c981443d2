use vstd::prelude::*;

verus! {

/// One todo item as stored in the `todo` table.
#[derive(Debug, Clone, PartialEq, Eq)]
pub struct TodoItem {
    pub id: i32,
    pub name: String,
    pub checked: bool,
}

/// The mathematical model of a stored row.
pub struct Row {
    pub id: int,
    pub name: Seq<char>,
    pub checked: bool,
}

impl View for TodoItem {
    type V = Row;

    open spec fn view(&self) -> Row {
        Row { id: self.id as int, name: self.name@, checked: self.checked }
    }
}

impl TodoItem {
    pub fn new(id: i32, name: String, checked: bool) -> (r: TodoItem)
        ensures
            r@ == (Row { id: id as int, name: name@, checked }),
    {
        TodoItem { id, name, checked }
    }
}

/// The model of a sequence of items.
pub open spec fn rows_of(v: Seq<TodoItem>) -> Seq<Row> {
    v.map_values(|i: TodoItem| i@)
}

} // verus!
